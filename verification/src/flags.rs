//! The processor status register, modelled as one named boolean per
//! documented condition bit.

use vstd::prelude::*;

verus! {

/// Processor status flags.
///
/// The status byte layout is: bit 0 carry, bit 1 zero, bit 2 interrupt
/// disable, bit 3 decimal mode, bit 4 break, bit 5 unused, bit 6 overflow,
/// bit 7 negative.  The break and unused bits are not independent processor
/// state: whenever this emulator materialises the status byte (`PHP`, `BRK`)
/// it writes both bits as 1, and it ignores both when a byte is loaded back
/// into the flags (`PLP`, `RTI`).  This matches the documented hardware
/// behaviour of pushes made by software, and it keeps the invariant that the
/// undefined bits hold a fixed constant in every status byte the emulator
/// produces.
#[derive(Clone, Copy, Debug, PartialEq, Eq, Structural)]
pub struct Flags {
    pub carry: bool,
    pub zero: bool,
    pub interrupt_disable: bool,
    pub decimal: bool,
    pub overflow: bool,
    pub negative: bool,
}

/// 1 for a set flag, 0 for a clear one; used to spell out byte encodings.
pub open spec fn flag_bit(b: bool) -> int {
    if b {
        1
    } else {
        0
    }
}

/// The status byte that push operations write: each flag at its bit
/// position, and the break and unused bits (mask `0x30`) always set.
pub open spec fn spec_flags_to_byte(f: Flags) -> u8 {
    (flag_bit(f.carry) + 2 * flag_bit(f.zero) + 4 * flag_bit(f.interrupt_disable) + 8 * flag_bit(
        f.decimal,
    ) + 0x30 + 64 * flag_bit(f.overflow) + 128 * flag_bit(f.negative)) as u8
}

/// The flags that loading a status byte produces: each flag from its bit
/// position; the break and unused bits of the byte are ignored.
pub open spec fn spec_flags_from_byte(b: u8) -> Flags {
    Flags {
        carry: b % 2 == 1,
        zero: (b / 2) % 2 == 1,
        interrupt_disable: (b / 4) % 2 == 1,
        decimal: (b / 8) % 2 == 1,
        overflow: (b / 64) % 2 == 1,
        negative: (b / 128) % 2 == 1,
    }
}

impl Flags {
    /// Every flag clear: the state at processor construction.
    pub open spec fn spec_all_clear() -> Flags {
        Flags {
            carry: false,
            zero: false,
            interrupt_disable: false,
            decimal: false,
            overflow: false,
            negative: false,
        }
    }

    /// Construct the all-clear flag state.
    pub fn all_clear() -> (f: Flags)
        ensures
            f == Self::spec_all_clear(),
    {
        Flags {
            carry: false,
            zero: false,
            interrupt_disable: false,
            decimal: false,
            overflow: false,
            negative: false,
        }
    }

    /// Pack the flags into a status byte, as a push operation does.
    pub fn to_byte(self) -> (b: u8)
        ensures
            b == spec_flags_to_byte(self),
    {
        let mut b: u8 = 0x30;
        if self.carry {
            b = b + 1;
        }
        if self.zero {
            b = b + 2;
        }
        if self.interrupt_disable {
            b = b + 4;
        }
        if self.decimal {
            b = b + 8;
        }
        if self.overflow {
            b = b + 64;
        }
        if self.negative {
            b = b + 128;
        }
        b
    }

    /// Unpack a status byte into flags, as a pull operation does.
    pub fn from_byte(b: u8) -> (f: Flags)
        ensures
            f == spec_flags_from_byte(b),
    {
        Flags {
            carry: b % 2 == 1,
            zero: (b / 2) % 2 == 1,
            interrupt_disable: (b / 4) % 2 == 1,
            decimal: (b / 8) % 2 == 1,
            overflow: (b / 64) % 2 == 1,
            negative: (b / 128) % 2 == 1,
        }
    }
}

} // verus!
