//! The mathematical model of the processor: a machine state, and the
//! meaning of executing one instruction on it.
//!
//! All address arithmetic wraps modulo 65536 and all byte arithmetic wraps
//! modulo 256; the model never gets stuck.  Where a wrap of a subtraction is
//! needed, the model adds the modulus' complement instead (`sp + 0xFF` for
//! `sp - 1`), so that every argument of `%` stays non-negative.

use vstd::prelude::*;

use crate::flags::Flags;
use crate::flags::spec_flags_from_byte;
use crate::flags::spec_flags_to_byte;
use crate::isa::Mode;
use crate::isa::Op;
use crate::isa::mode_len;
use crate::isa::spec_decode;

verus! {

/// One machine state: registers, status flags, and the 65536-byte memory.
#[verifier::ext_equal]
pub struct Machine {
    pub a: u8,
    pub x: u8,
    pub y: u8,
    pub sp: u8,
    pub pc: u16,
    pub flags: Flags,
    pub mem: Seq<u8>,
}

/// A machine state whose memory has exactly the 65536 addressable bytes.
pub open spec fn mem_ok(m: Machine) -> bool {
    m.mem.len() == 0x10000
}

/// Byte arithmetic wraps modulo 256.
pub open spec fn wrap8(v: int) -> u8 {
    (v % 0x100) as u8
}

/// Address arithmetic wraps modulo 65536.
pub open spec fn wrap16(v: int) -> u16 {
    (v % 0x10000) as u16
}

/// The byte stored at an address.
pub open spec fn mem_read(mem: Seq<u8>, addr: u16) -> u8 {
    mem[addr as int]
}

/// A 16-bit value from its little-endian halves.
pub open spec fn word(lo: u8, hi: u8) -> u16 {
    (lo + 0x100 * hi) as u16
}

/// The byte following the opcode.
pub open spec fn arg1(m: Machine) -> u8 {
    mem_read(m.mem, wrap16(m.pc + 1))
}

/// The second byte following the opcode.
pub open spec fn arg2(m: Machine) -> u8 {
    mem_read(m.mem, wrap16(m.pc + 2))
}

/// The little-endian 16-bit value following the opcode.
pub open spec fn arg_word(m: Machine) -> u16 {
    word(arg1(m), arg2(m))
}

/// The address one past `addr` within the same 256-byte page: the high
/// byte is kept and only the low byte is incremented, wrapping at the page
/// boundary.  The indirect jump reads its pointer's high half through this
/// rule, reproducing the documented page-boundary defect of the original
/// hardware.
pub open spec fn same_page_inc(addr: u16) -> u16 {
    if addr % 0x100 == 0xFF {
        (addr - 0xFF) as u16
    } else {
        (addr + 1) as u16
    }
}

/// The effective address a memory-operand addressing mode resolves to.
/// Zero-page indexing wraps within the zero page; absolute indexing wraps
/// modulo 65536; the indirect modes read a little-endian pointer out of
/// memory first.  Modes without a memory operand resolve to address 0,
/// which no instruction semantics consults.
pub open spec fn effective_addr(m: Machine, mode: Mode) -> u16 {
    match mode {
        Mode::ZeroPage => arg1(m) as u16,
        Mode::ZeroPageX => wrap8(arg1(m) + m.x) as u16,
        Mode::ZeroPageY => wrap8(arg1(m) + m.y) as u16,
        Mode::Absolute => arg_word(m),
        Mode::AbsoluteX => wrap16(arg_word(m) + m.x),
        Mode::AbsoluteY => wrap16(arg_word(m) + m.y),
        Mode::Indirect => {
            let p = arg_word(m);
            word(mem_read(m.mem, p), mem_read(m.mem, same_page_inc(p)))
        },
        Mode::IndirectX => {
            let p = wrap8(arg1(m) + m.x);
            word(mem_read(m.mem, p as u16), mem_read(m.mem, wrap8(p + 1) as u16))
        },
        Mode::IndirectY => {
            let base = word(
                mem_read(m.mem, arg1(m) as u16),
                mem_read(m.mem, wrap8(arg1(m) + 1) as u16),
            );
            wrap16(base + m.y)
        },
        _ => 0,
    }
}

/// The byte a read instruction operates on: the literal argument byte in
/// immediate mode, the byte at the effective address otherwise.
pub open spec fn operand(m: Machine, mode: Mode) -> u8 {
    if mode is Immediate {
        arg1(m)
    } else {
        mem_read(m.mem, effective_addr(m, mode))
    }
}

/// The program counter after a default advance by the instruction's length.
pub open spec fn next_pc(m: Machine, mode: Mode) -> u16 {
    wrap16(m.pc + mode_len(mode))
}

/// The flags after an operation that rewrites only zero and negative.
pub open spec fn nz(f: Flags, r: u8) -> Flags {
    Flags { zero: r == 0, negative: r >= 0x80, ..f }
}

/// The stack lives in the fixed page `0x0100..=0x01FF`.
pub open spec fn stack_addr(sp: u8) -> u16 {
    (0x100 + sp) as u16
}

/// Push one byte: store at the stack address, then decrement the stack
/// pointer, wrapping within the stack page.
pub open spec fn push1(m: Machine, v: u8) -> Machine {
    Machine { mem: m.mem.update(stack_addr(m.sp) as int, v), sp: wrap8(m.sp + 0xFF), ..m }
}

/// Pull one byte: increment the stack pointer, then read the byte at the
/// new stack address.  Returns the state and the byte.
pub open spec fn pull1(m: Machine) -> (Machine, u8) {
    let sp2 = wrap8(m.sp + 1);
    (Machine { sp: sp2, ..m }, mem_read(m.mem, stack_addr(sp2)))
}

/// A branch target: the address after the two instruction bytes plus the
/// argument byte taken as an 8-bit two's-complement displacement (adding
/// `0xFF00` stands in for subtracting 256 modulo 2^16).
pub open spec fn branch_target(m: Machine) -> u16 {
    let base = wrap16(m.pc + 2);
    if arg1(m) < 0x80 {
        wrap16(base + arg1(m))
    } else {
        wrap16(base + arg1(m) + 0xFF00)
    }
}

/// The condition a conditional branch tests.
pub open spec fn branch_cond(f: Flags, op: Op) -> bool {
    match op {
        Op::Bcc => !f.carry,
        Op::Bcs => f.carry,
        Op::Beq => f.zero,
        Op::Bne => !f.zero,
        Op::Bmi => f.negative,
        Op::Bpl => !f.negative,
        Op::Bvc => !f.overflow,
        Op::Bvs => f.overflow,
        _ => false,
    }
}

/// A conditional branch: to the target when taken, past the instruction
/// otherwise.  Branches touch no flags.
pub open spec fn branch_m(m: Machine, taken: bool) -> Machine {
    Machine {
        pc: if taken {
            branch_target(m)
        } else {
            wrap16(m.pc + 2)
        },
        ..m
    }
}

/// Add with carry: the accumulator, an operand byte and the carry flag are
/// summed; carry reports the unsigned overflow, overflow the signed one
/// (from the sign bits of both addends and the result), zero and negative
/// describe the result byte.  Subtraction goes through this with the
/// operand's complement, as the hardware does.
///
/// The addition is always binary: the decimal-mode flag is stored and
/// tested like any other flag, but it does not switch the arithmetic to
/// binary-coded decimal.  That is a recorded decision of this emulator,
/// matching the widespread variant of the part that omits decimal mode.
pub open spec fn adc_m(m: Machine, v: u8, pc2: u16) -> Machine {
    let cin: int = if m.flags.carry {
        1
    } else {
        0
    };
    let total = m.a + v + cin;
    let r = wrap8(total);
    Machine {
        a: r,
        pc: pc2,
        flags: Flags {
            carry: total > 0xFF,
            zero: r == 0,
            overflow: ((m.a >= 0x80) == (v >= 0x80)) && ((m.a >= 0x80) != (r >= 0x80)),
            negative: r >= 0x80,
            ..m.flags
        },
        ..m
    }
}

/// Comparison flags: carry iff the register is at least the operand, zero
/// and negative from the wrapped difference.
pub open spec fn compare_flags(f: Flags, reg: u8, v: u8) -> Flags {
    let r = wrap8(reg + 0x100 - v);
    Flags { carry: reg >= v, zero: r == 0, negative: r >= 0x80, ..f }
}

/// A shift or rotate of one byte: the result and the bit shifted out.
pub open spec fn shift_result(op: Op, v: u8, carry_in: bool) -> (u8, bool) {
    let cin: int = if carry_in {
        1
    } else {
        0
    };
    match op {
        Op::Asl => (wrap8(2 * v), v >= 0x80),
        Op::Lsr => ((v / 2) as u8, v % 2 == 1),
        Op::Rol => (wrap8(2 * v + cin), v >= 0x80),
        Op::Ror => ((v / 2 + 0x80 * cin) as u8, v % 2 == 1),
        _ => (v, carry_in),
    }
}

/// A shift instruction: rewrites the accumulator or the addressed byte,
/// with carry set to the bit shifted out and zero/negative from the result.
pub open spec fn shift_m(m: Machine, op: Op, mode: Mode) -> Machine {
    let pc2 = next_pc(m, mode);
    if mode is Accumulator {
        let rc = shift_result(op, m.a, m.flags.carry);
        Machine {
            a: rc.0,
            pc: pc2,
            flags: Flags { carry: rc.1, zero: rc.0 == 0, negative: rc.0 >= 0x80, ..m.flags },
            ..m
        }
    } else {
        let addr = effective_addr(m, mode);
        let rc = shift_result(op, mem_read(m.mem, addr), m.flags.carry);
        Machine {
            mem: m.mem.update(addr as int, rc.0),
            pc: pc2,
            flags: Flags { carry: rc.1, zero: rc.0 == 0, negative: rc.0 >= 0x80, ..m.flags },
            ..m
        }
    }
}

/// Whether an operation rewrites the program counter itself (jumps, the
/// conditional branches, subroutine call and returns, and the software
/// interrupt) instead of taking the default advance.
pub open spec fn is_control_op(op: Op) -> bool {
    match op {
        Op::Jmp => true,
        Op::Jsr => true,
        Op::Rts => true,
        Op::Rti => true,
        Op::Brk => true,
        Op::Bcc => true,
        Op::Bcs => true,
        Op::Beq => true,
        Op::Bne => true,
        Op::Bmi => true,
        Op::Bpl => true,
        Op::Bvc => true,
        Op::Bvs => true,
        _ => false,
    }
}

/// The meaning of one decoded instruction.
///
/// The subroutine call and the software interrupt push the address of the
/// last byte they occupy (`pc + 2`), and the subroutine return adds one to
/// the pulled address, as the hardware documents.  The software interrupt
/// pushes the status with the break and unused bits set, then sets the
/// interrupt-disable flag and jumps through the vector at `0xFFFE/0xFFFF`.
///
/// The definition is opaque so that a proof pays for this large case
/// analysis only where it reveals it.
#[verifier::opaque]
pub open spec fn instr_m(m: Machine, op: Op, mode: Mode) -> Machine {
    let pc2 = next_pc(m, mode);
    match op {
        Op::Adc => adc_m(m, operand(m, mode), pc2),
        Op::Sbc => adc_m(m, (0xFF - operand(m, mode)) as u8, pc2),
        Op::And => {
            let r = m.a & operand(m, mode);
            Machine { a: r, pc: pc2, flags: nz(m.flags, r), ..m }
        },
        Op::Ora => {
            let r = m.a | operand(m, mode);
            Machine { a: r, pc: pc2, flags: nz(m.flags, r), ..m }
        },
        Op::Eor => {
            let r = m.a ^ operand(m, mode);
            Machine { a: r, pc: pc2, flags: nz(m.flags, r), ..m }
        },
        Op::Asl => shift_m(m, op, mode),
        Op::Lsr => shift_m(m, op, mode),
        Op::Rol => shift_m(m, op, mode),
        Op::Ror => shift_m(m, op, mode),
        Op::Bit => {
            let v = operand(m, mode);
            Machine {
                pc: pc2,
                flags: Flags {
                    zero: (m.a & v) == 0,
                    overflow: (v / 0x40) % 2 == 1,
                    negative: v >= 0x80,
                    ..m.flags
                },
                ..m
            }
        },
        Op::Cmp => Machine { pc: pc2, flags: compare_flags(m.flags, m.a, operand(m, mode)), ..m },
        Op::Cpx => Machine { pc: pc2, flags: compare_flags(m.flags, m.x, operand(m, mode)), ..m },
        Op::Cpy => Machine { pc: pc2, flags: compare_flags(m.flags, m.y, operand(m, mode)), ..m },
        Op::Inc => {
            let addr = effective_addr(m, mode);
            let r = wrap8(mem_read(m.mem, addr) + 1);
            Machine { mem: m.mem.update(addr as int, r), pc: pc2, flags: nz(m.flags, r), ..m }
        },
        Op::Dec => {
            let addr = effective_addr(m, mode);
            let r = wrap8(mem_read(m.mem, addr) + 0xFF);
            Machine { mem: m.mem.update(addr as int, r), pc: pc2, flags: nz(m.flags, r), ..m }
        },
        Op::Inx => {
            let r = wrap8(m.x + 1);
            Machine { x: r, pc: pc2, flags: nz(m.flags, r), ..m }
        },
        Op::Iny => {
            let r = wrap8(m.y + 1);
            Machine { y: r, pc: pc2, flags: nz(m.flags, r), ..m }
        },
        Op::Dex => {
            let r = wrap8(m.x + 0xFF);
            Machine { x: r, pc: pc2, flags: nz(m.flags, r), ..m }
        },
        Op::Dey => {
            let r = wrap8(m.y + 0xFF);
            Machine { y: r, pc: pc2, flags: nz(m.flags, r), ..m }
        },
        Op::Lda => {
            let v = operand(m, mode);
            Machine { a: v, pc: pc2, flags: nz(m.flags, v), ..m }
        },
        Op::Ldx => {
            let v = operand(m, mode);
            Machine { x: v, pc: pc2, flags: nz(m.flags, v), ..m }
        },
        Op::Ldy => {
            let v = operand(m, mode);
            Machine { y: v, pc: pc2, flags: nz(m.flags, v), ..m }
        },
        Op::Sta => Machine {
            mem: m.mem.update(effective_addr(m, mode) as int, m.a),
            pc: pc2,
            ..m
        },
        Op::Stx => Machine {
            mem: m.mem.update(effective_addr(m, mode) as int, m.x),
            pc: pc2,
            ..m
        },
        Op::Sty => Machine {
            mem: m.mem.update(effective_addr(m, mode) as int, m.y),
            pc: pc2,
            ..m
        },
        Op::Tax => Machine { x: m.a, pc: pc2, flags: nz(m.flags, m.a), ..m },
        Op::Tay => Machine { y: m.a, pc: pc2, flags: nz(m.flags, m.a), ..m },
        Op::Txa => Machine { a: m.x, pc: pc2, flags: nz(m.flags, m.x), ..m },
        Op::Tya => Machine { a: m.y, pc: pc2, flags: nz(m.flags, m.y), ..m },
        Op::Tsx => Machine { x: m.sp, pc: pc2, flags: nz(m.flags, m.sp), ..m },
        Op::Txs => Machine { sp: m.x, pc: pc2, ..m },
        Op::Pha => {
            let m1 = push1(m, m.a);
            Machine { pc: pc2, ..m1 }
        },
        Op::Php => {
            let m1 = push1(m, spec_flags_to_byte(m.flags));
            Machine { pc: pc2, ..m1 }
        },
        Op::Pla => {
            let mv = pull1(m);
            Machine { a: mv.1, pc: pc2, flags: nz(m.flags, mv.1), ..mv.0 }
        },
        Op::Plp => {
            let mv = pull1(m);
            Machine { pc: pc2, flags: spec_flags_from_byte(mv.1), ..mv.0 }
        },
        Op::Jmp => Machine { pc: effective_addr(m, mode), ..m },
        Op::Jsr => {
            let ret = wrap16(m.pc + 2);
            let m1 = push1(m, (ret / 0x100) as u8);
            let m2 = push1(m1, (ret % 0x100) as u8);
            Machine { pc: effective_addr(m, mode), ..m2 }
        },
        Op::Rts => {
            let m1v = pull1(m);
            let m2v = pull1(m1v.0);
            Machine { pc: wrap16(word(m1v.1, m2v.1) + 1), ..m2v.0 }
        },
        Op::Brk => {
            let ret = wrap16(m.pc + 2);
            let m1 = push1(m, (ret / 0x100) as u8);
            let m2 = push1(m1, (ret % 0x100) as u8);
            let m3 = push1(m2, spec_flags_to_byte(m.flags));
            Machine {
                pc: word(mem_read(m3.mem, 0xFFFE), mem_read(m3.mem, 0xFFFF)),
                flags: Flags { interrupt_disable: true, ..m.flags },
                ..m3
            }
        },
        Op::Rti => {
            let m1v = pull1(m);
            let m2v = pull1(m1v.0);
            let m3v = pull1(m2v.0);
            Machine { pc: word(m2v.1, m3v.1), flags: spec_flags_from_byte(m1v.1), ..m3v.0 }
        },
        Op::Bcc => branch_m(m, branch_cond(m.flags, op)),
        Op::Bcs => branch_m(m, branch_cond(m.flags, op)),
        Op::Beq => branch_m(m, branch_cond(m.flags, op)),
        Op::Bne => branch_m(m, branch_cond(m.flags, op)),
        Op::Bmi => branch_m(m, branch_cond(m.flags, op)),
        Op::Bpl => branch_m(m, branch_cond(m.flags, op)),
        Op::Bvc => branch_m(m, branch_cond(m.flags, op)),
        Op::Bvs => branch_m(m, branch_cond(m.flags, op)),
        Op::Clc => Machine { pc: pc2, flags: Flags { carry: false, ..m.flags }, ..m },
        Op::Sec => Machine { pc: pc2, flags: Flags { carry: true, ..m.flags }, ..m },
        Op::Cli => Machine { pc: pc2, flags: Flags { interrupt_disable: false, ..m.flags }, ..m },
        Op::Sei => Machine { pc: pc2, flags: Flags { interrupt_disable: true, ..m.flags }, ..m },
        Op::Clv => Machine { pc: pc2, flags: Flags { overflow: false, ..m.flags }, ..m },
        Op::Cld => Machine { pc: pc2, flags: Flags { decimal: false, ..m.flags }, ..m },
        Op::Sed => Machine { pc: pc2, flags: Flags { decimal: true, ..m.flags }, ..m },
        Op::Nop => Machine { pc: pc2, ..m },
    }
}

/// The meaning of one step: fetch the opcode at the program counter,
/// decode it, and execute it.  A byte the instruction set leaves
/// unassigned is the documented fallback: a one-byte no-operation.
pub open spec fn step_m(m: Machine) -> Machine {
    match spec_decode(mem_read(m.mem, m.pc)) {
        Some((op, mode)) => instr_m(m, op, mode),
        None => Machine { pc: wrap16(m.pc + 1), ..m },
    }
}

/// The meaning of the boot sequence: the stack pointer takes its
/// documented post-reset value and the program counter is loaded from the
/// little-endian reset vector at `0xFFFC/0xFFFD`.
pub open spec fn boot_m(m: Machine) -> Machine {
    Machine { sp: 0xFF, pc: word(mem_read(m.mem, 0xFFFC), mem_read(m.mem, 0xFFFD)), ..m }
}

/// The machine state at construction: every register and every memory
/// byte zero, every flag clear.
pub open spec fn initial_m() -> Machine {
    Machine {
        a: 0,
        x: 0,
        y: 0,
        sp: 0,
        pc: 0,
        flags: Flags::spec_all_clear(),
        mem: Seq::new(0x10000, |i: int| 0u8),
    }
}

} // verus!
