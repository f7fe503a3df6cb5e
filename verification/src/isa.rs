//! Instruction-set description: operations, addressing modes, and the
//! opcode decode table.

use vstd::prelude::*;

verus! {

/// The thirteen addressing modes of the instruction set.
#[derive(Clone, Copy, Debug, PartialEq, Eq, Structural)]
pub enum Mode {
    Implied,
    Accumulator,
    Immediate,
    ZeroPage,
    ZeroPageX,
    ZeroPageY,
    Absolute,
    AbsoluteX,
    AbsoluteY,
    Indirect,
    IndirectX,
    IndirectY,
    Relative,
}

/// The documented operations of the instruction set, one per mnemonic.
#[derive(Clone, Copy, Debug, PartialEq, Eq, Structural)]
pub enum Op {
    Adc,
    And,
    Asl,
    Bcc,
    Bcs,
    Beq,
    Bit,
    Bmi,
    Bne,
    Bpl,
    Brk,
    Bvc,
    Bvs,
    Clc,
    Cld,
    Cli,
    Clv,
    Cmp,
    Cpx,
    Cpy,
    Dec,
    Dex,
    Dey,
    Eor,
    Inc,
    Inx,
    Iny,
    Jmp,
    Jsr,
    Lda,
    Ldx,
    Ldy,
    Lsr,
    Nop,
    Ora,
    Pha,
    Php,
    Pla,
    Plp,
    Rol,
    Ror,
    Rti,
    Rts,
    Sbc,
    Sec,
    Sed,
    Sei,
    Sta,
    Stx,
    Sty,
    Tax,
    Tay,
    Tsx,
    Txa,
    Txs,
    Tya,
}

/// How many bytes an instruction with the given addressing mode occupies.
pub open spec fn mode_len(mode: Mode) -> u16 {
    match mode {
        Mode::Implied => 1,
        Mode::Accumulator => 1,
        Mode::Immediate => 2,
        Mode::ZeroPage => 2,
        Mode::ZeroPageX => 2,
        Mode::ZeroPageY => 2,
        Mode::Absolute => 3,
        Mode::AbsoluteX => 3,
        Mode::AbsoluteY => 3,
        Mode::Indirect => 3,
        Mode::IndirectX => 2,
        Mode::IndirectY => 2,
        Mode::Relative => 2,
    }
}

/// Compute an instruction's byte length from its addressing mode.
pub fn instruction_len(mode: Mode) -> (n: u16)
    ensures
        n == mode_len(mode),
{
    match mode {
        Mode::Implied => 1,
        Mode::Accumulator => 1,
        Mode::Immediate => 2,
        Mode::ZeroPage => 2,
        Mode::ZeroPageX => 2,
        Mode::ZeroPageY => 2,
        Mode::Absolute => 3,
        Mode::AbsoluteX => 3,
        Mode::AbsoluteY => 3,
        Mode::Indirect => 3,
        Mode::IndirectX => 2,
        Mode::IndirectY => 2,
        Mode::Relative => 2,
    }
}

/// The decode table: which operation and addressing mode an opcode byte
/// stands for, or `None` for the bytes the instruction set leaves
/// unassigned.
pub open spec fn spec_decode(opcode: u8) -> Option<(Op, Mode)> {
    match opcode {
        0x69u8 => Some((Op::Adc, Mode::Immediate)),
        0x65u8 => Some((Op::Adc, Mode::ZeroPage)),
        0x75u8 => Some((Op::Adc, Mode::ZeroPageX)),
        0x6Du8 => Some((Op::Adc, Mode::Absolute)),
        0x7Du8 => Some((Op::Adc, Mode::AbsoluteX)),
        0x79u8 => Some((Op::Adc, Mode::AbsoluteY)),
        0x61u8 => Some((Op::Adc, Mode::IndirectX)),
        0x71u8 => Some((Op::Adc, Mode::IndirectY)),
        0x29u8 => Some((Op::And, Mode::Immediate)),
        0x25u8 => Some((Op::And, Mode::ZeroPage)),
        0x35u8 => Some((Op::And, Mode::ZeroPageX)),
        0x2Du8 => Some((Op::And, Mode::Absolute)),
        0x3Du8 => Some((Op::And, Mode::AbsoluteX)),
        0x39u8 => Some((Op::And, Mode::AbsoluteY)),
        0x21u8 => Some((Op::And, Mode::IndirectX)),
        0x31u8 => Some((Op::And, Mode::IndirectY)),
        0x0Au8 => Some((Op::Asl, Mode::Accumulator)),
        0x06u8 => Some((Op::Asl, Mode::ZeroPage)),
        0x16u8 => Some((Op::Asl, Mode::ZeroPageX)),
        0x0Eu8 => Some((Op::Asl, Mode::Absolute)),
        0x1Eu8 => Some((Op::Asl, Mode::AbsoluteX)),
        0x90u8 => Some((Op::Bcc, Mode::Relative)),
        0xB0u8 => Some((Op::Bcs, Mode::Relative)),
        0xF0u8 => Some((Op::Beq, Mode::Relative)),
        0x24u8 => Some((Op::Bit, Mode::ZeroPage)),
        0x2Cu8 => Some((Op::Bit, Mode::Absolute)),
        0x30u8 => Some((Op::Bmi, Mode::Relative)),
        0xD0u8 => Some((Op::Bne, Mode::Relative)),
        0x10u8 => Some((Op::Bpl, Mode::Relative)),
        0x00u8 => Some((Op::Brk, Mode::Implied)),
        0x50u8 => Some((Op::Bvc, Mode::Relative)),
        0x70u8 => Some((Op::Bvs, Mode::Relative)),
        0x18u8 => Some((Op::Clc, Mode::Implied)),
        0xD8u8 => Some((Op::Cld, Mode::Implied)),
        0x58u8 => Some((Op::Cli, Mode::Implied)),
        0xB8u8 => Some((Op::Clv, Mode::Implied)),
        0xC9u8 => Some((Op::Cmp, Mode::Immediate)),
        0xC5u8 => Some((Op::Cmp, Mode::ZeroPage)),
        0xD5u8 => Some((Op::Cmp, Mode::ZeroPageX)),
        0xCDu8 => Some((Op::Cmp, Mode::Absolute)),
        0xDDu8 => Some((Op::Cmp, Mode::AbsoluteX)),
        0xD9u8 => Some((Op::Cmp, Mode::AbsoluteY)),
        0xC1u8 => Some((Op::Cmp, Mode::IndirectX)),
        0xD1u8 => Some((Op::Cmp, Mode::IndirectY)),
        0xE0u8 => Some((Op::Cpx, Mode::Immediate)),
        0xE4u8 => Some((Op::Cpx, Mode::ZeroPage)),
        0xECu8 => Some((Op::Cpx, Mode::Absolute)),
        0xC0u8 => Some((Op::Cpy, Mode::Immediate)),
        0xC4u8 => Some((Op::Cpy, Mode::ZeroPage)),
        0xCCu8 => Some((Op::Cpy, Mode::Absolute)),
        0xC6u8 => Some((Op::Dec, Mode::ZeroPage)),
        0xD6u8 => Some((Op::Dec, Mode::ZeroPageX)),
        0xCEu8 => Some((Op::Dec, Mode::Absolute)),
        0xDEu8 => Some((Op::Dec, Mode::AbsoluteX)),
        0xCAu8 => Some((Op::Dex, Mode::Implied)),
        0x88u8 => Some((Op::Dey, Mode::Implied)),
        0x49u8 => Some((Op::Eor, Mode::Immediate)),
        0x45u8 => Some((Op::Eor, Mode::ZeroPage)),
        0x55u8 => Some((Op::Eor, Mode::ZeroPageX)),
        0x4Du8 => Some((Op::Eor, Mode::Absolute)),
        0x5Du8 => Some((Op::Eor, Mode::AbsoluteX)),
        0x59u8 => Some((Op::Eor, Mode::AbsoluteY)),
        0x41u8 => Some((Op::Eor, Mode::IndirectX)),
        0x51u8 => Some((Op::Eor, Mode::IndirectY)),
        0xE6u8 => Some((Op::Inc, Mode::ZeroPage)),
        0xF6u8 => Some((Op::Inc, Mode::ZeroPageX)),
        0xEEu8 => Some((Op::Inc, Mode::Absolute)),
        0xFEu8 => Some((Op::Inc, Mode::AbsoluteX)),
        0xE8u8 => Some((Op::Inx, Mode::Implied)),
        0xC8u8 => Some((Op::Iny, Mode::Implied)),
        0x4Cu8 => Some((Op::Jmp, Mode::Absolute)),
        0x6Cu8 => Some((Op::Jmp, Mode::Indirect)),
        0x20u8 => Some((Op::Jsr, Mode::Absolute)),
        0xA9u8 => Some((Op::Lda, Mode::Immediate)),
        0xA5u8 => Some((Op::Lda, Mode::ZeroPage)),
        0xB5u8 => Some((Op::Lda, Mode::ZeroPageX)),
        0xADu8 => Some((Op::Lda, Mode::Absolute)),
        0xBDu8 => Some((Op::Lda, Mode::AbsoluteX)),
        0xB9u8 => Some((Op::Lda, Mode::AbsoluteY)),
        0xA1u8 => Some((Op::Lda, Mode::IndirectX)),
        0xB1u8 => Some((Op::Lda, Mode::IndirectY)),
        0xA2u8 => Some((Op::Ldx, Mode::Immediate)),
        0xA6u8 => Some((Op::Ldx, Mode::ZeroPage)),
        0xB6u8 => Some((Op::Ldx, Mode::ZeroPageY)),
        0xAEu8 => Some((Op::Ldx, Mode::Absolute)),
        0xBEu8 => Some((Op::Ldx, Mode::AbsoluteY)),
        0xA0u8 => Some((Op::Ldy, Mode::Immediate)),
        0xA4u8 => Some((Op::Ldy, Mode::ZeroPage)),
        0xB4u8 => Some((Op::Ldy, Mode::ZeroPageX)),
        0xACu8 => Some((Op::Ldy, Mode::Absolute)),
        0xBCu8 => Some((Op::Ldy, Mode::AbsoluteX)),
        0x4Au8 => Some((Op::Lsr, Mode::Accumulator)),
        0x46u8 => Some((Op::Lsr, Mode::ZeroPage)),
        0x56u8 => Some((Op::Lsr, Mode::ZeroPageX)),
        0x4Eu8 => Some((Op::Lsr, Mode::Absolute)),
        0x5Eu8 => Some((Op::Lsr, Mode::AbsoluteX)),
        0xEAu8 => Some((Op::Nop, Mode::Implied)),
        0x09u8 => Some((Op::Ora, Mode::Immediate)),
        0x05u8 => Some((Op::Ora, Mode::ZeroPage)),
        0x15u8 => Some((Op::Ora, Mode::ZeroPageX)),
        0x0Du8 => Some((Op::Ora, Mode::Absolute)),
        0x1Du8 => Some((Op::Ora, Mode::AbsoluteX)),
        0x19u8 => Some((Op::Ora, Mode::AbsoluteY)),
        0x01u8 => Some((Op::Ora, Mode::IndirectX)),
        0x11u8 => Some((Op::Ora, Mode::IndirectY)),
        0x48u8 => Some((Op::Pha, Mode::Implied)),
        0x08u8 => Some((Op::Php, Mode::Implied)),
        0x68u8 => Some((Op::Pla, Mode::Implied)),
        0x28u8 => Some((Op::Plp, Mode::Implied)),
        0x2Au8 => Some((Op::Rol, Mode::Accumulator)),
        0x26u8 => Some((Op::Rol, Mode::ZeroPage)),
        0x36u8 => Some((Op::Rol, Mode::ZeroPageX)),
        0x2Eu8 => Some((Op::Rol, Mode::Absolute)),
        0x3Eu8 => Some((Op::Rol, Mode::AbsoluteX)),
        0x6Au8 => Some((Op::Ror, Mode::Accumulator)),
        0x66u8 => Some((Op::Ror, Mode::ZeroPage)),
        0x76u8 => Some((Op::Ror, Mode::ZeroPageX)),
        0x6Eu8 => Some((Op::Ror, Mode::Absolute)),
        0x7Eu8 => Some((Op::Ror, Mode::AbsoluteX)),
        0x40u8 => Some((Op::Rti, Mode::Implied)),
        0x60u8 => Some((Op::Rts, Mode::Implied)),
        0xE9u8 => Some((Op::Sbc, Mode::Immediate)),
        0xE5u8 => Some((Op::Sbc, Mode::ZeroPage)),
        0xF5u8 => Some((Op::Sbc, Mode::ZeroPageX)),
        0xEDu8 => Some((Op::Sbc, Mode::Absolute)),
        0xFDu8 => Some((Op::Sbc, Mode::AbsoluteX)),
        0xF9u8 => Some((Op::Sbc, Mode::AbsoluteY)),
        0xE1u8 => Some((Op::Sbc, Mode::IndirectX)),
        0xF1u8 => Some((Op::Sbc, Mode::IndirectY)),
        0x38u8 => Some((Op::Sec, Mode::Implied)),
        0xF8u8 => Some((Op::Sed, Mode::Implied)),
        0x78u8 => Some((Op::Sei, Mode::Implied)),
        0x85u8 => Some((Op::Sta, Mode::ZeroPage)),
        0x95u8 => Some((Op::Sta, Mode::ZeroPageX)),
        0x8Du8 => Some((Op::Sta, Mode::Absolute)),
        0x9Du8 => Some((Op::Sta, Mode::AbsoluteX)),
        0x99u8 => Some((Op::Sta, Mode::AbsoluteY)),
        0x81u8 => Some((Op::Sta, Mode::IndirectX)),
        0x91u8 => Some((Op::Sta, Mode::IndirectY)),
        0x86u8 => Some((Op::Stx, Mode::ZeroPage)),
        0x96u8 => Some((Op::Stx, Mode::ZeroPageY)),
        0x8Eu8 => Some((Op::Stx, Mode::Absolute)),
        0x84u8 => Some((Op::Sty, Mode::ZeroPage)),
        0x94u8 => Some((Op::Sty, Mode::ZeroPageX)),
        0x8Cu8 => Some((Op::Sty, Mode::Absolute)),
        0xAAu8 => Some((Op::Tax, Mode::Implied)),
        0xA8u8 => Some((Op::Tay, Mode::Implied)),
        0xBAu8 => Some((Op::Tsx, Mode::Implied)),
        0x8Au8 => Some((Op::Txa, Mode::Implied)),
        0x9Au8 => Some((Op::Txs, Mode::Implied)),
        0x98u8 => Some((Op::Tya, Mode::Implied)),
        _ => None,
    }
}

/// Decode one opcode byte into its operation and addressing mode, or
/// `None` for an unassigned byte.
#[verifier::rlimit(40)]
pub fn decode(opcode: u8) -> (r: Option<(Op, Mode)>)
    ensures
        r == spec_decode(opcode),
{
    match opcode {
        0x69u8 => Some((Op::Adc, Mode::Immediate)),
        0x65u8 => Some((Op::Adc, Mode::ZeroPage)),
        0x75u8 => Some((Op::Adc, Mode::ZeroPageX)),
        0x6Du8 => Some((Op::Adc, Mode::Absolute)),
        0x7Du8 => Some((Op::Adc, Mode::AbsoluteX)),
        0x79u8 => Some((Op::Adc, Mode::AbsoluteY)),
        0x61u8 => Some((Op::Adc, Mode::IndirectX)),
        0x71u8 => Some((Op::Adc, Mode::IndirectY)),
        0x29u8 => Some((Op::And, Mode::Immediate)),
        0x25u8 => Some((Op::And, Mode::ZeroPage)),
        0x35u8 => Some((Op::And, Mode::ZeroPageX)),
        0x2Du8 => Some((Op::And, Mode::Absolute)),
        0x3Du8 => Some((Op::And, Mode::AbsoluteX)),
        0x39u8 => Some((Op::And, Mode::AbsoluteY)),
        0x21u8 => Some((Op::And, Mode::IndirectX)),
        0x31u8 => Some((Op::And, Mode::IndirectY)),
        0x0Au8 => Some((Op::Asl, Mode::Accumulator)),
        0x06u8 => Some((Op::Asl, Mode::ZeroPage)),
        0x16u8 => Some((Op::Asl, Mode::ZeroPageX)),
        0x0Eu8 => Some((Op::Asl, Mode::Absolute)),
        0x1Eu8 => Some((Op::Asl, Mode::AbsoluteX)),
        0x90u8 => Some((Op::Bcc, Mode::Relative)),
        0xB0u8 => Some((Op::Bcs, Mode::Relative)),
        0xF0u8 => Some((Op::Beq, Mode::Relative)),
        0x24u8 => Some((Op::Bit, Mode::ZeroPage)),
        0x2Cu8 => Some((Op::Bit, Mode::Absolute)),
        0x30u8 => Some((Op::Bmi, Mode::Relative)),
        0xD0u8 => Some((Op::Bne, Mode::Relative)),
        0x10u8 => Some((Op::Bpl, Mode::Relative)),
        0x00u8 => Some((Op::Brk, Mode::Implied)),
        0x50u8 => Some((Op::Bvc, Mode::Relative)),
        0x70u8 => Some((Op::Bvs, Mode::Relative)),
        0x18u8 => Some((Op::Clc, Mode::Implied)),
        0xD8u8 => Some((Op::Cld, Mode::Implied)),
        0x58u8 => Some((Op::Cli, Mode::Implied)),
        0xB8u8 => Some((Op::Clv, Mode::Implied)),
        0xC9u8 => Some((Op::Cmp, Mode::Immediate)),
        0xC5u8 => Some((Op::Cmp, Mode::ZeroPage)),
        0xD5u8 => Some((Op::Cmp, Mode::ZeroPageX)),
        0xCDu8 => Some((Op::Cmp, Mode::Absolute)),
        0xDDu8 => Some((Op::Cmp, Mode::AbsoluteX)),
        0xD9u8 => Some((Op::Cmp, Mode::AbsoluteY)),
        0xC1u8 => Some((Op::Cmp, Mode::IndirectX)),
        0xD1u8 => Some((Op::Cmp, Mode::IndirectY)),
        0xE0u8 => Some((Op::Cpx, Mode::Immediate)),
        0xE4u8 => Some((Op::Cpx, Mode::ZeroPage)),
        0xECu8 => Some((Op::Cpx, Mode::Absolute)),
        0xC0u8 => Some((Op::Cpy, Mode::Immediate)),
        0xC4u8 => Some((Op::Cpy, Mode::ZeroPage)),
        0xCCu8 => Some((Op::Cpy, Mode::Absolute)),
        0xC6u8 => Some((Op::Dec, Mode::ZeroPage)),
        0xD6u8 => Some((Op::Dec, Mode::ZeroPageX)),
        0xCEu8 => Some((Op::Dec, Mode::Absolute)),
        0xDEu8 => Some((Op::Dec, Mode::AbsoluteX)),
        0xCAu8 => Some((Op::Dex, Mode::Implied)),
        0x88u8 => Some((Op::Dey, Mode::Implied)),
        0x49u8 => Some((Op::Eor, Mode::Immediate)),
        0x45u8 => Some((Op::Eor, Mode::ZeroPage)),
        0x55u8 => Some((Op::Eor, Mode::ZeroPageX)),
        0x4Du8 => Some((Op::Eor, Mode::Absolute)),
        0x5Du8 => Some((Op::Eor, Mode::AbsoluteX)),
        0x59u8 => Some((Op::Eor, Mode::AbsoluteY)),
        0x41u8 => Some((Op::Eor, Mode::IndirectX)),
        0x51u8 => Some((Op::Eor, Mode::IndirectY)),
        0xE6u8 => Some((Op::Inc, Mode::ZeroPage)),
        0xF6u8 => Some((Op::Inc, Mode::ZeroPageX)),
        0xEEu8 => Some((Op::Inc, Mode::Absolute)),
        0xFEu8 => Some((Op::Inc, Mode::AbsoluteX)),
        0xE8u8 => Some((Op::Inx, Mode::Implied)),
        0xC8u8 => Some((Op::Iny, Mode::Implied)),
        0x4Cu8 => Some((Op::Jmp, Mode::Absolute)),
        0x6Cu8 => Some((Op::Jmp, Mode::Indirect)),
        0x20u8 => Some((Op::Jsr, Mode::Absolute)),
        0xA9u8 => Some((Op::Lda, Mode::Immediate)),
        0xA5u8 => Some((Op::Lda, Mode::ZeroPage)),
        0xB5u8 => Some((Op::Lda, Mode::ZeroPageX)),
        0xADu8 => Some((Op::Lda, Mode::Absolute)),
        0xBDu8 => Some((Op::Lda, Mode::AbsoluteX)),
        0xB9u8 => Some((Op::Lda, Mode::AbsoluteY)),
        0xA1u8 => Some((Op::Lda, Mode::IndirectX)),
        0xB1u8 => Some((Op::Lda, Mode::IndirectY)),
        0xA2u8 => Some((Op::Ldx, Mode::Immediate)),
        0xA6u8 => Some((Op::Ldx, Mode::ZeroPage)),
        0xB6u8 => Some((Op::Ldx, Mode::ZeroPageY)),
        0xAEu8 => Some((Op::Ldx, Mode::Absolute)),
        0xBEu8 => Some((Op::Ldx, Mode::AbsoluteY)),
        0xA0u8 => Some((Op::Ldy, Mode::Immediate)),
        0xA4u8 => Some((Op::Ldy, Mode::ZeroPage)),
        0xB4u8 => Some((Op::Ldy, Mode::ZeroPageX)),
        0xACu8 => Some((Op::Ldy, Mode::Absolute)),
        0xBCu8 => Some((Op::Ldy, Mode::AbsoluteX)),
        0x4Au8 => Some((Op::Lsr, Mode::Accumulator)),
        0x46u8 => Some((Op::Lsr, Mode::ZeroPage)),
        0x56u8 => Some((Op::Lsr, Mode::ZeroPageX)),
        0x4Eu8 => Some((Op::Lsr, Mode::Absolute)),
        0x5Eu8 => Some((Op::Lsr, Mode::AbsoluteX)),
        0xEAu8 => Some((Op::Nop, Mode::Implied)),
        0x09u8 => Some((Op::Ora, Mode::Immediate)),
        0x05u8 => Some((Op::Ora, Mode::ZeroPage)),
        0x15u8 => Some((Op::Ora, Mode::ZeroPageX)),
        0x0Du8 => Some((Op::Ora, Mode::Absolute)),
        0x1Du8 => Some((Op::Ora, Mode::AbsoluteX)),
        0x19u8 => Some((Op::Ora, Mode::AbsoluteY)),
        0x01u8 => Some((Op::Ora, Mode::IndirectX)),
        0x11u8 => Some((Op::Ora, Mode::IndirectY)),
        0x48u8 => Some((Op::Pha, Mode::Implied)),
        0x08u8 => Some((Op::Php, Mode::Implied)),
        0x68u8 => Some((Op::Pla, Mode::Implied)),
        0x28u8 => Some((Op::Plp, Mode::Implied)),
        0x2Au8 => Some((Op::Rol, Mode::Accumulator)),
        0x26u8 => Some((Op::Rol, Mode::ZeroPage)),
        0x36u8 => Some((Op::Rol, Mode::ZeroPageX)),
        0x2Eu8 => Some((Op::Rol, Mode::Absolute)),
        0x3Eu8 => Some((Op::Rol, Mode::AbsoluteX)),
        0x6Au8 => Some((Op::Ror, Mode::Accumulator)),
        0x66u8 => Some((Op::Ror, Mode::ZeroPage)),
        0x76u8 => Some((Op::Ror, Mode::ZeroPageX)),
        0x6Eu8 => Some((Op::Ror, Mode::Absolute)),
        0x7Eu8 => Some((Op::Ror, Mode::AbsoluteX)),
        0x40u8 => Some((Op::Rti, Mode::Implied)),
        0x60u8 => Some((Op::Rts, Mode::Implied)),
        0xE9u8 => Some((Op::Sbc, Mode::Immediate)),
        0xE5u8 => Some((Op::Sbc, Mode::ZeroPage)),
        0xF5u8 => Some((Op::Sbc, Mode::ZeroPageX)),
        0xEDu8 => Some((Op::Sbc, Mode::Absolute)),
        0xFDu8 => Some((Op::Sbc, Mode::AbsoluteX)),
        0xF9u8 => Some((Op::Sbc, Mode::AbsoluteY)),
        0xE1u8 => Some((Op::Sbc, Mode::IndirectX)),
        0xF1u8 => Some((Op::Sbc, Mode::IndirectY)),
        0x38u8 => Some((Op::Sec, Mode::Implied)),
        0xF8u8 => Some((Op::Sed, Mode::Implied)),
        0x78u8 => Some((Op::Sei, Mode::Implied)),
        0x85u8 => Some((Op::Sta, Mode::ZeroPage)),
        0x95u8 => Some((Op::Sta, Mode::ZeroPageX)),
        0x8Du8 => Some((Op::Sta, Mode::Absolute)),
        0x9Du8 => Some((Op::Sta, Mode::AbsoluteX)),
        0x99u8 => Some((Op::Sta, Mode::AbsoluteY)),
        0x81u8 => Some((Op::Sta, Mode::IndirectX)),
        0x91u8 => Some((Op::Sta, Mode::IndirectY)),
        0x86u8 => Some((Op::Stx, Mode::ZeroPage)),
        0x96u8 => Some((Op::Stx, Mode::ZeroPageY)),
        0x8Eu8 => Some((Op::Stx, Mode::Absolute)),
        0x84u8 => Some((Op::Sty, Mode::ZeroPage)),
        0x94u8 => Some((Op::Sty, Mode::ZeroPageX)),
        0x8Cu8 => Some((Op::Sty, Mode::Absolute)),
        0xAAu8 => Some((Op::Tax, Mode::Implied)),
        0xA8u8 => Some((Op::Tay, Mode::Implied)),
        0xBAu8 => Some((Op::Tsx, Mode::Implied)),
        0x8Au8 => Some((Op::Txa, Mode::Implied)),
        0x9Au8 => Some((Op::Txs, Mode::Implied)),
        0x98u8 => Some((Op::Tya, Mode::Implied)),
        _ => None,
    }
}

} // verus!
