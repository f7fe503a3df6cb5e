//! The executable processor.  Every mutating operation is proved to
//! perform exactly the transition the model in [`crate::machine`] gives.

use vstd::prelude::*;

use crate::flags::Flags;
use crate::isa::Mode;
use crate::isa::Op;
use crate::isa::decode;
use crate::isa::instruction_len;
use crate::machine::Machine;
use crate::machine::boot_m;
use crate::machine::effective_addr;
use crate::machine::initial_m;
use crate::machine::instr_m;
use crate::machine::mem_read;
use crate::machine::next_pc;
use crate::machine::nz;
use crate::machine::operand;
use crate::machine::pull1;
use crate::machine::push1;
use crate::machine::same_page_inc;
use crate::machine::shift_result;
use crate::machine::step_m;
use crate::machine::wrap16;

verus! {

/// The processor: register file plus the 65536-byte memory.
///
/// The registers are plain public state, as on the original part; the
/// memory is reached through [`CPU::read_mem`] and [`CPU::write_mem`],
/// whose contracts keep it at its fixed size of 65536 bytes.
pub struct CPU {
    pub a: u8,
    pub x: u8,
    pub y: u8,
    pub sp: u8,
    pub pc: u16,
    pub flags: Flags,
    pub memory: Vec<u8>,
}

impl View for CPU {
    type V = Machine;

    open spec fn view(&self) -> Machine {
        Machine {
            a: self.a,
            x: self.x,
            y: self.y,
            sp: self.sp,
            pc: self.pc,
            flags: self.flags,
            mem: self.memory@,
        }
    }
}

/// Build the flags after an operation that rewrites only zero and negative.
fn set_nz(f: Flags, r: u8) -> (g: Flags)
    ensures
        g == nz(f, r),
{
    Flags { zero: r == 0, negative: r >= 0x80, ..f }
}

/// A 16-bit sum wrapped modulo 65536.
fn wrapping_add16(base: u16, off: u16) -> (r: u16)
    ensures
        r == wrap16(base + off),
{
    (((base as u32) + (off as u32)) % 0x10000) as u16
}

impl CPU {
    /// The memory holds exactly the 65536 addressable bytes.  Established
    /// by [`CPU::new`] and preserved by every operation.
    pub open spec fn wf(self) -> bool {
        self.memory@.len() == 0x10000
    }

    /// Construct a processor with every register, every flag and every
    /// memory byte zero.
    pub fn new() -> (cpu: CPU)
        ensures
            cpu.wf(),
            cpu@ == initial_m(),
    {
        let mut memory: Vec<u8> = Vec::new();
        let mut i: usize = 0;
        while i < 0x10000
            invariant
                i <= 0x10000,
                memory@.len() == i,
                forall|j: int| 0 <= j < i ==> memory@[j] == 0u8,
            decreases 0x10000 - i,
        {
            memory.push(0);
            i = i + 1;
        }
        proof {
            assert(memory@ =~= Seq::new(0x10000, |j: int| 0u8));
        }
        CPU { a: 0, x: 0, y: 0, sp: 0, pc: 0, flags: Flags::all_clear(), memory }
    }

    /// Read the byte at any memory address.
    pub fn read_mem(&self, addr: u16) -> (b: u8)
        requires
            self.wf(),
        ensures
            b == mem_read(self@.mem, addr),
    {
        self.memory[addr as usize]
    }

    /// Write a byte to any memory address; the host harness uses this to
    /// load a program image and the vector table before boot.
    pub fn write_mem(&mut self, addr: u16, v: u8)
        requires
            old(self).wf(),
        ensures
            final(self).wf(),
            final(self)@ == (Machine { mem: old(self)@.mem.update(addr as int, v), ..old(self)@ }),
    {
        self.memory[addr as usize] = v;
    }

    /// Initialize the stack pointer to its documented post-reset value and
    /// the program counter from the little-endian reset vector at
    /// `0xFFFC/0xFFFD`.  The caller runs this once, after the memory image
    /// is in place and before the first step.
    pub fn boot(&mut self)
        requires
            old(self).wf(),
        ensures
            final(self).wf(),
            final(self)@ == boot_m(old(self)@),
    {
        let lo = self.read_mem(0xFFFC);
        let hi = self.read_mem(0xFFFD);
        self.sp = 0xFF;
        self.pc = lo as u16 + 0x100 * (hi as u16);
    }

    /// The byte following the opcode.
    fn fetch_arg1(&self) -> (b: u8)
        requires
            self.wf(),
        ensures
            b == crate::machine::arg1(self@),
    {
        self.read_mem(wrapping_add16(self.pc, 1))
    }

    /// The second byte following the opcode.
    fn fetch_arg2(&self) -> (b: u8)
        requires
            self.wf(),
        ensures
            b == crate::machine::arg2(self@),
    {
        self.read_mem(wrapping_add16(self.pc, 2))
    }

    /// The little-endian 16-bit value following the opcode.
    fn fetch_arg_word(&self) -> (w: u16)
        requires
            self.wf(),
        ensures
            w == crate::machine::arg_word(self@),
    {
        let lo = self.fetch_arg1();
        let hi = self.fetch_arg2();
        lo as u16 + 0x100 * (hi as u16)
    }

    /// Resolve a memory-operand addressing mode to its effective address.
    fn resolve_addr(&self, mode: Mode) -> (addr: u16)
        requires
            self.wf(),
        ensures
            addr == effective_addr(self@, mode),
    {
        match mode {
            Mode::ZeroPage => self.fetch_arg1() as u16,
            Mode::ZeroPageX => ((self.fetch_arg1() as u16 + self.x as u16) % 0x100) as u16,
            Mode::ZeroPageY => ((self.fetch_arg1() as u16 + self.y as u16) % 0x100) as u16,
            Mode::Absolute => self.fetch_arg_word(),
            Mode::AbsoluteX => wrapping_add16(self.fetch_arg_word(), self.x as u16),
            Mode::AbsoluteY => wrapping_add16(self.fetch_arg_word(), self.y as u16),
            Mode::Indirect => {
                let p = self.fetch_arg_word();
                let p_next = if p % 0x100 == 0xFF {
                    p - 0xFF
                } else {
                    p + 1
                };
                proof {
                    assert(p_next == same_page_inc(p));
                }
                let lo = self.read_mem(p);
                let hi = self.read_mem(p_next);
                lo as u16 + 0x100 * (hi as u16)
            },
            Mode::IndirectX => {
                let p = ((self.fetch_arg1() as u16 + self.x as u16) % 0x100) as u8;
                let lo = self.read_mem(p as u16);
                let hi = self.read_mem(((p as u16 + 1) % 0x100) as u16);
                lo as u16 + 0x100 * (hi as u16)
            },
            Mode::IndirectY => {
                let b = self.fetch_arg1();
                let lo = self.read_mem(b as u16);
                let hi = self.read_mem(((b as u16 + 1) % 0x100) as u16);
                let base = lo as u16 + 0x100 * (hi as u16);
                wrapping_add16(base, self.y as u16)
            },
            _ => 0,
        }
    }

    /// Fetch the byte a read instruction operates on.
    fn fetch_operand(&self, mode: Mode) -> (v: u8)
        requires
            self.wf(),
        ensures
            v == operand(self@, mode),
    {
        match mode {
            Mode::Immediate => self.fetch_arg1(),
            _ => {
                let addr = self.resolve_addr(mode);
                self.read_mem(addr)
            },
        }
    }

    /// Advance the program counter past the instruction.
    fn advance_pc(&mut self, mode: Mode)
        requires
            old(self).wf(),
        ensures
            final(self).wf(),
            final(self)@ == (Machine { pc: next_pc(old(self)@, mode), ..old(self)@ }),
    {
        let n = instruction_len(mode);
        self.pc = wrapping_add16(self.pc, n);
    }

    /// Push one byte onto the stack page and decrement the stack pointer.
    fn push_byte(&mut self, v: u8)
        requires
            old(self).wf(),
        ensures
            final(self).wf(),
            final(self)@ == push1(old(self)@, v),
    {
        let addr: u16 = 0x100 + self.sp as u16;
        self.write_mem(addr, v);
        self.sp = ((self.sp as u16 + 0xFF) % 0x100) as u8;
    }

    /// Increment the stack pointer and pull the byte at the new stack
    /// address.
    fn pull_byte(&mut self) -> (v: u8)
        requires
            old(self).wf(),
        ensures
            final(self).wf(),
            final(self)@ == pull1(old(self)@).0,
            v == pull1(old(self)@).1,
    {
        self.sp = ((self.sp as u16 + 1) % 0x100) as u8;
        let addr: u16 = 0x100 + self.sp as u16;
        self.read_mem(addr)
    }

    /// Add with carry, and subtract with carry through the operand's
    /// complement.
    fn exec_adc_sbc(&mut self, op: Op, mode: Mode)
        requires
            old(self).wf(),
            op is Adc || op is Sbc,
        ensures
            final(self).wf(),
            final(self)@ == instr_m(old(self)@, op, mode),
    {
        proof {
            reveal(instr_m);
        }
        let fetched = self.fetch_operand(mode);
        let v: u8 = match op {
            Op::Sbc => 0xFF - fetched,
            _ => fetched,
        };
        let cin: u16 = if self.flags.carry {
            1
        } else {
            0
        };
        let total: u16 = self.a as u16 + v as u16 + cin;
        let r: u8 = (total % 0x100) as u8;
        self.flags = Flags {
            carry: total > 0xFF,
            zero: r == 0,
            overflow: ((self.a >= 0x80) == (v >= 0x80)) && ((self.a >= 0x80) != (r >= 0x80)),
            negative: r >= 0x80,
            ..self.flags
        };
        self.a = r;
        self.advance_pc(mode);
    }

    /// The bitwise operations on the accumulator.
    fn exec_logic(&mut self, op: Op, mode: Mode)
        requires
            old(self).wf(),
            op is And || op is Ora || op is Eor,
        ensures
            final(self).wf(),
            final(self)@ == instr_m(old(self)@, op, mode),
    {
        proof {
            reveal(instr_m);
        }
        let v = self.fetch_operand(mode);
        let r: u8 = match op {
            Op::And => self.a & v,
            Op::Ora => self.a | v,
            _ => self.a ^ v,
        };
        self.a = r;
        self.flags = set_nz(self.flags, r);
        self.advance_pc(mode);
    }

    /// The shifts and rotates, on the accumulator or on a memory byte.
    fn exec_shift(&mut self, op: Op, mode: Mode)
        requires
            old(self).wf(),
            op is Asl || op is Lsr || op is Rol || op is Ror,
        ensures
            final(self).wf(),
            final(self)@ == instr_m(old(self)@, op, mode),
    {
        proof {
            reveal(instr_m);
        }
        match mode {
            Mode::Accumulator => {
                let rc = shift_exec(op, self.a, self.flags.carry);
                self.a = rc.0;
                self.flags = Flags {
                    carry: rc.1,
                    zero: rc.0 == 0,
                    negative: rc.0 >= 0x80,
                    ..self.flags
                };
                self.advance_pc(mode);
            },
            _ => {
                let addr = self.resolve_addr(mode);
                let v = self.read_mem(addr);
                let rc = shift_exec(op, v, self.flags.carry);
                self.write_mem(addr, rc.0);
                self.flags = Flags {
                    carry: rc.1,
                    zero: rc.0 == 0,
                    negative: rc.0 >= 0x80,
                    ..self.flags
                };
                self.advance_pc(mode);
            },
        }
    }

    /// The bit-test instruction: zero from the masked accumulator,
    /// overflow and negative copied from the operand byte.
    fn exec_bit(&mut self, mode: Mode)
        requires
            old(self).wf(),
        ensures
            final(self).wf(),
            final(self)@ == instr_m(old(self)@, Op::Bit, mode),
    {
        proof {
            reveal(instr_m);
        }
        let v = self.fetch_operand(mode);
        self.flags = Flags {
            zero: (self.a & v) == 0,
            overflow: (v / 0x40) % 2 == 1,
            negative: v >= 0x80,
            ..self.flags
        };
        self.advance_pc(mode);
    }

    /// The comparisons of a register against an operand byte.
    fn exec_compare(&mut self, op: Op, mode: Mode)
        requires
            old(self).wf(),
            op is Cmp || op is Cpx || op is Cpy,
        ensures
            final(self).wf(),
            final(self)@ == instr_m(old(self)@, op, mode),
    {
        proof {
            reveal(instr_m);
        }
        let v = self.fetch_operand(mode);
        let reg: u8 = match op {
            Op::Cmp => self.a,
            Op::Cpx => self.x,
            _ => self.y,
        };
        let r: u8 = ((reg as u16 + 0x100 - v as u16) % 0x100) as u8;
        self.flags = Flags { carry: reg >= v, zero: r == 0, negative: r >= 0x80, ..self.flags };
        self.advance_pc(mode);
    }

    /// Increment or decrement of a memory byte.
    fn exec_inc_dec_mem(&mut self, op: Op, mode: Mode)
        requires
            old(self).wf(),
            op is Inc || op is Dec,
        ensures
            final(self).wf(),
            final(self)@ == instr_m(old(self)@, op, mode),
    {
        proof {
            reveal(instr_m);
        }
        let addr = self.resolve_addr(mode);
        let v = self.read_mem(addr);
        let r: u8 = match op {
            Op::Inc => ((v as u16 + 1) % 0x100) as u8,
            _ => ((v as u16 + 0xFF) % 0x100) as u8,
        };
        self.write_mem(addr, r);
        self.flags = set_nz(self.flags, r);
        self.advance_pc(mode);
    }

    /// Increment or decrement of an index register.
    fn exec_step_reg(&mut self, op: Op, mode: Mode)
        requires
            old(self).wf(),
            op is Inx || op is Iny || op is Dex || op is Dey,
        ensures
            final(self).wf(),
            final(self)@ == instr_m(old(self)@, op, mode),
    {
        proof {
            reveal(instr_m);
        }
        let r: u8 = match op {
            Op::Inx => ((self.x as u16 + 1) % 0x100) as u8,
            Op::Iny => ((self.y as u16 + 1) % 0x100) as u8,
            Op::Dex => ((self.x as u16 + 0xFF) % 0x100) as u8,
            _ => ((self.y as u16 + 0xFF) % 0x100) as u8,
        };
        match op {
            Op::Inx => self.x = r,
            Op::Dex => self.x = r,
            _ => self.y = r,
        };
        self.flags = set_nz(self.flags, r);
        self.advance_pc(mode);
    }

    /// The loads of a register from an operand.
    fn exec_load(&mut self, op: Op, mode: Mode)
        requires
            old(self).wf(),
            op is Lda || op is Ldx || op is Ldy,
        ensures
            final(self).wf(),
            final(self)@ == instr_m(old(self)@, op, mode),
    {
        proof {
            reveal(instr_m);
        }
        let v = self.fetch_operand(mode);
        match op {
            Op::Lda => self.a = v,
            Op::Ldx => self.x = v,
            _ => self.y = v,
        };
        self.flags = set_nz(self.flags, v);
        self.advance_pc(mode);
    }

    /// The stores of a register to memory; stores touch no flags.
    fn exec_store(&mut self, op: Op, mode: Mode)
        requires
            old(self).wf(),
            op is Sta || op is Stx || op is Sty,
        ensures
            final(self).wf(),
            final(self)@ == instr_m(old(self)@, op, mode),
    {
        proof {
            reveal(instr_m);
        }
        let addr = self.resolve_addr(mode);
        let v: u8 = match op {
            Op::Sta => self.a,
            Op::Stx => self.x,
            _ => self.y,
        };
        self.write_mem(addr, v);
        self.advance_pc(mode);
    }

    /// The register transfers; all but the transfer into the stack
    /// pointer rewrite zero and negative.
    fn exec_transfer(&mut self, op: Op, mode: Mode)
        requires
            old(self).wf(),
            op is Tax || op is Tay || op is Txa || op is Tya || op is Tsx || op is Txs,
        ensures
            final(self).wf(),
            final(self)@ == instr_m(old(self)@, op, mode),
    {
        proof {
            reveal(instr_m);
        }
        match op {
            Op::Tax => {
                self.x = self.a;
                self.flags = set_nz(self.flags, self.x);
            },
            Op::Tay => {
                self.y = self.a;
                self.flags = set_nz(self.flags, self.y);
            },
            Op::Txa => {
                self.a = self.x;
                self.flags = set_nz(self.flags, self.a);
            },
            Op::Tya => {
                self.a = self.y;
                self.flags = set_nz(self.flags, self.a);
            },
            Op::Tsx => {
                self.x = self.sp;
                self.flags = set_nz(self.flags, self.x);
            },
            _ => {
                self.sp = self.x;
            },
        };
        self.advance_pc(mode);
    }

    /// The pushes and pulls of the accumulator and the status byte.
    fn exec_push_pull(&mut self, op: Op, mode: Mode)
        requires
            old(self).wf(),
            op is Pha || op is Php || op is Pla || op is Plp,
        ensures
            final(self).wf(),
            final(self)@ == instr_m(old(self)@, op, mode),
    {
        proof {
            reveal(instr_m);
        }
        match op {
            Op::Pha => {
                let v = self.a;
                self.push_byte(v);
            },
            Op::Php => {
                let v = self.flags.to_byte();
                self.push_byte(v);
            },
            Op::Pla => {
                let v = self.pull_byte();
                self.a = v;
                self.flags = set_nz(self.flags, v);
            },
            _ => {
                let v = self.pull_byte();
                self.flags = Flags::from_byte(v);
            },
        };
        self.advance_pc(mode);
    }

    /// The jump: the program counter takes the effective address.
    fn exec_jmp(&mut self, mode: Mode)
        requires
            old(self).wf(),
        ensures
            final(self).wf(),
            final(self)@ == instr_m(old(self)@, Op::Jmp, mode),
    {
        proof {
            reveal(instr_m);
        }
        let target = self.resolve_addr(mode);
        self.pc = target;
    }

    /// The subroutine call: push the address of the instruction's last
    /// byte, high half first, then jump.
    fn exec_jsr(&mut self, mode: Mode)
        requires
            old(self).wf(),
        ensures
            final(self).wf(),
            final(self)@ == instr_m(old(self)@, Op::Jsr, mode),
    {
        proof {
            reveal(instr_m);
        }
        let target = self.resolve_addr(mode);
        let ret = wrapping_add16(self.pc, 2);
        self.push_byte((ret / 0x100) as u8);
        self.push_byte((ret % 0x100) as u8);
        self.pc = target;
    }

    /// The subroutine return: pull the address, low half first, and
    /// resume one byte past it.
    fn exec_rts(&mut self, mode: Mode)
        requires
            old(self).wf(),
        ensures
            final(self).wf(),
            final(self)@ == instr_m(old(self)@, Op::Rts, mode),
    {
        proof {
            reveal(instr_m);
        }
        let lo = self.pull_byte();
        let hi = self.pull_byte();
        self.pc = wrapping_add16(lo as u16 + 0x100 * (hi as u16), 1);
    }

    /// The software interrupt: push the return address and the status
    /// byte, set interrupt disable, and jump through the vector at
    /// `0xFFFE/0xFFFF`.
    fn exec_brk(&mut self, mode: Mode)
        requires
            old(self).wf(),
        ensures
            final(self).wf(),
            final(self)@ == instr_m(old(self)@, Op::Brk, mode),
    {
        proof {
            reveal(instr_m);
        }
        let ret = wrapping_add16(self.pc, 2);
        let st = self.flags.to_byte();
        self.push_byte((ret / 0x100) as u8);
        self.push_byte((ret % 0x100) as u8);
        self.push_byte(st);
        self.flags = Flags { interrupt_disable: true, ..self.flags };
        let lo = self.read_mem(0xFFFE);
        let hi = self.read_mem(0xFFFF);
        self.pc = lo as u16 + 0x100 * (hi as u16);
    }

    /// The interrupt return: pull the status byte, then the resume
    /// address.
    fn exec_rti(&mut self, mode: Mode)
        requires
            old(self).wf(),
        ensures
            final(self).wf(),
            final(self)@ == instr_m(old(self)@, Op::Rti, mode),
    {
        proof {
            reveal(instr_m);
        }
        let st = self.pull_byte();
        let lo = self.pull_byte();
        let hi = self.pull_byte();
        self.flags = Flags::from_byte(st);
        self.pc = lo as u16 + 0x100 * (hi as u16);
    }

    /// The conditional branches.  A taken branch displaces the program
    /// counter by the argument byte as a two's-complement offset; a branch
    /// not taken advances past the instruction.  Branches touch no flags.
    fn exec_branch(&mut self, op: Op, mode: Mode)
        requires
            old(self).wf(),
            op is Bcc || op is Bcs || op is Beq || op is Bne || op is Bmi || op is Bpl
                || op is Bvc || op is Bvs,
        ensures
            final(self).wf(),
            final(self)@ == instr_m(old(self)@, op, mode),
    {
        proof {
            reveal(instr_m);
        }
        let taken = match op {
            Op::Bcc => !self.flags.carry,
            Op::Bcs => self.flags.carry,
            Op::Beq => self.flags.zero,
            Op::Bne => !self.flags.zero,
            Op::Bmi => self.flags.negative,
            Op::Bpl => !self.flags.negative,
            Op::Bvc => !self.flags.overflow,
            _ => self.flags.overflow,
        };
        if taken {
            let off = self.fetch_arg1();
            let base = wrapping_add16(self.pc, 2);
            self.pc = if off < 0x80 {
                wrapping_add16(base, off as u16)
            } else {
                (((base as u32) + (off as u32) + 0xFF00) % 0x10000) as u16
            };
        } else {
            self.pc = wrapping_add16(self.pc, 2);
        }
    }

    /// The flag set and clear instructions.
    fn exec_flag(&mut self, op: Op, mode: Mode)
        requires
            old(self).wf(),
            op is Clc || op is Sec || op is Cli || op is Sei || op is Clv || op is Cld
                || op is Sed,
        ensures
            final(self).wf(),
            final(self)@ == instr_m(old(self)@, op, mode),
    {
        proof {
            reveal(instr_m);
        }
        match op {
            Op::Clc => self.flags = Flags { carry: false, ..self.flags },
            Op::Sec => self.flags = Flags { carry: true, ..self.flags },
            Op::Cli => self.flags = Flags { interrupt_disable: false, ..self.flags },
            Op::Sei => self.flags = Flags { interrupt_disable: true, ..self.flags },
            Op::Clv => self.flags = Flags { overflow: false, ..self.flags },
            Op::Cld => self.flags = Flags { decimal: false, ..self.flags },
            _ => self.flags = Flags { decimal: true, ..self.flags },
        };
        self.advance_pc(mode);
    }

    /// Execute exactly one instruction: fetch the opcode at the program
    /// counter, decode it, run the operation, and advance the program
    /// counter by the instruction's length unless the operation set it
    /// itself.  A byte the instruction set leaves unassigned is the
    /// documented fallback, a one-byte no-operation.
    pub fn step(&mut self)
        requires
            old(self).wf(),
        ensures
            final(self).wf(),
            final(self)@ == step_m(old(self)@),
    {
        proof {
            reveal(instr_m);
        }
        let opcode = self.read_mem(self.pc);
        match decode(opcode) {
            None => {
                self.pc = wrapping_add16(self.pc, 1);
            },
            Some((op, mode)) => {
                match op {
                    Op::Adc => self.exec_adc_sbc(op, mode),
                    Op::Sbc => self.exec_adc_sbc(op, mode),
                    Op::And => self.exec_logic(op, mode),
                    Op::Ora => self.exec_logic(op, mode),
                    Op::Eor => self.exec_logic(op, mode),
                    Op::Asl => self.exec_shift(op, mode),
                    Op::Lsr => self.exec_shift(op, mode),
                    Op::Rol => self.exec_shift(op, mode),
                    Op::Ror => self.exec_shift(op, mode),
                    Op::Bit => self.exec_bit(mode),
                    Op::Cmp => self.exec_compare(op, mode),
                    Op::Cpx => self.exec_compare(op, mode),
                    Op::Cpy => self.exec_compare(op, mode),
                    Op::Inc => self.exec_inc_dec_mem(op, mode),
                    Op::Dec => self.exec_inc_dec_mem(op, mode),
                    Op::Inx => self.exec_step_reg(op, mode),
                    Op::Iny => self.exec_step_reg(op, mode),
                    Op::Dex => self.exec_step_reg(op, mode),
                    Op::Dey => self.exec_step_reg(op, mode),
                    Op::Lda => self.exec_load(op, mode),
                    Op::Ldx => self.exec_load(op, mode),
                    Op::Ldy => self.exec_load(op, mode),
                    Op::Sta => self.exec_store(op, mode),
                    Op::Stx => self.exec_store(op, mode),
                    Op::Sty => self.exec_store(op, mode),
                    Op::Tax => self.exec_transfer(op, mode),
                    Op::Tay => self.exec_transfer(op, mode),
                    Op::Txa => self.exec_transfer(op, mode),
                    Op::Tya => self.exec_transfer(op, mode),
                    Op::Tsx => self.exec_transfer(op, mode),
                    Op::Txs => self.exec_transfer(op, mode),
                    Op::Pha => self.exec_push_pull(op, mode),
                    Op::Php => self.exec_push_pull(op, mode),
                    Op::Pla => self.exec_push_pull(op, mode),
                    Op::Plp => self.exec_push_pull(op, mode),
                    Op::Jmp => self.exec_jmp(mode),
                    Op::Jsr => self.exec_jsr(mode),
                    Op::Rts => self.exec_rts(mode),
                    Op::Brk => self.exec_brk(mode),
                    Op::Rti => self.exec_rti(mode),
                    Op::Bcc => self.exec_branch(op, mode),
                    Op::Bcs => self.exec_branch(op, mode),
                    Op::Beq => self.exec_branch(op, mode),
                    Op::Bne => self.exec_branch(op, mode),
                    Op::Bmi => self.exec_branch(op, mode),
                    Op::Bpl => self.exec_branch(op, mode),
                    Op::Bvc => self.exec_branch(op, mode),
                    Op::Bvs => self.exec_branch(op, mode),
                    Op::Clc => self.exec_flag(op, mode),
                    Op::Sec => self.exec_flag(op, mode),
                    Op::Cli => self.exec_flag(op, mode),
                    Op::Sei => self.exec_flag(op, mode),
                    Op::Clv => self.exec_flag(op, mode),
                    Op::Cld => self.exec_flag(op, mode),
                    Op::Sed => self.exec_flag(op, mode),
                    Op::Nop => self.advance_pc(mode),
                }
            },
        }
    }
}

/// Compute a shift or rotate result and the bit shifted out.
fn shift_exec(op: Op, v: u8, carry_in: bool) -> (rc: (u8, bool))
    requires
        op is Asl || op is Lsr || op is Rol || op is Ror,
    ensures
        rc == shift_result(op, v, carry_in),
{
    let cin: u8 = if carry_in {
        1
    } else {
        0
    };
    match op {
        Op::Asl => ((((v as u16) * 2) % 0x100) as u8, v >= 0x80),
        Op::Lsr => (v / 2, v % 2 == 1),
        Op::Rol => ((((v as u16) * 2 + cin as u16) % 0x100) as u8, v >= 0x80),
        _ => (v / 2 + 0x80 * cin, v % 2 == 1),
    }
}

} // verus!
