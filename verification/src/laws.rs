//! General properties of the instruction semantics, each stated over the
//! model in [`crate::machine`] and proved once for every machine state.
//! Because [`crate::cpu::CPU::step`] is proved to perform exactly the
//! transition [`step_m`] describes, each of these laws carries over to the
//! executable processor.

use vstd::prelude::*;

use crate::flags::Flags;
use crate::isa::Mode;
use crate::isa::Op;
use crate::isa::mode_len;
use crate::isa::spec_decode;
use crate::machine::Machine;
use crate::machine::arg1;
use crate::machine::branch_cond;
use crate::machine::branch_target;
use crate::machine::effective_addr;
use crate::machine::is_control_op;
use crate::machine::mem_ok;
use crate::machine::mem_read;
use crate::machine::nz;
use crate::machine::pull1;
use crate::machine::stack_addr;
use crate::machine::step_m;
use crate::machine::wrap8;
use crate::machine::word;
use crate::machine::wrap16;

verus! {

/// The addressing modes whose operand is a byte in memory.
pub open spec fn is_memory_mode(mode: Mode) -> bool {
    match mode {
        Mode::ZeroPage => true,
        Mode::ZeroPageX => true,
        Mode::ZeroPageY => true,
        Mode::Absolute => true,
        Mode::AbsoluteX => true,
        Mode::AbsoluteY => true,
        Mode::IndirectX => true,
        Mode::IndirectY => true,
        _ => false,
    }
}

/// The program-counter value a control-flow operation computes: the jump
/// and the call go to the effective address, a branch goes to its target
/// exactly when its condition holds, the returns resume from the pulled
/// address, and the software interrupt goes through the vector at
/// `0xFFFE/0xFFFF`.
pub open spec fn control_target(m: Machine, op: Op, mode: Mode) -> u16 {
    match op {
        Op::Jmp => effective_addr(m, mode),
        Op::Jsr => effective_addr(m, mode),
        Op::Rts => wrap16(word(pull1(m).1, pull1(pull1(m).0).1) + 1),
        Op::Rti => word(pull1(pull1(m).0).1, pull1(pull1(pull1(m).0).0).1),
        Op::Brk => word(mem_read(m.mem, 0xFFFE), mem_read(m.mem, 0xFFFF)),
        Op::Bcc => branch_point(m, op),
        Op::Bcs => branch_point(m, op),
        Op::Beq => branch_point(m, op),
        Op::Bne => branch_point(m, op),
        Op::Bmi => branch_point(m, op),
        Op::Bpl => branch_point(m, op),
        Op::Bvc => branch_point(m, op),
        Op::Bvs => branch_point(m, op),
        _ => m.pc,
    }
}

/// Where a conditional branch continues: its target when the condition
/// holds, past the instruction otherwise.
pub open spec fn branch_point(m: Machine, op: Op) -> u16 {
    if branch_cond(m.flags, op) {
        branch_target(m)
    } else {
        wrap16(m.pc + 2)
    }
}

/// Law: one step advances the program counter by exactly the decoded
/// instruction's byte length, unless the operation is a jump, branch,
/// call, return or software interrupt, in which case the counter equals
/// that operation's computed target; a byte the instruction set leaves
/// unassigned advances the counter by one.
pub proof fn lemma_step_pc(m: Machine)
    requires
        mem_ok(m),
    ensures
        (match spec_decode(mem_read(m.mem, m.pc)) {
            Some((op, mode)) => step_m(m).pc == if is_control_op(op) {
                control_target(m, op, mode)
            } else {
                wrap16(m.pc + mode_len(mode))
            },
            None => step_m(m).pc == wrap16(m.pc + 1),
        }),
{
    reveal(crate::machine::instr_m);
    match spec_decode(mem_read(m.mem, m.pc)) {
        Some((op, mode)) => {
            if op is Brk {
                assert(step_m(m).pc == control_target(m, op, mode));
            }
        },
        None => {},
    }
}

/// Law: a zero-page indexed addressing mode resolves inside the zero
/// page; an index that would carry past `0xFF` wraps within the page and
/// never reaches page one.
pub proof fn lemma_zero_page_index_wraps(m: Machine)
    ensures
        effective_addr(m, Mode::ZeroPageX) < 0x100,
        effective_addr(m, Mode::ZeroPageY) < 0x100,
{
}

/// Law: a byte stored to any address by a store instruction is read back
/// unchanged by a load instruction from the same address: after the store
/// step the byte at the effective address is the accumulator, and a load
/// step whose effective address is the same puts that byte back into the
/// accumulator.
pub proof fn lemma_store_load_round_trip(m: Machine, smode: Mode, lmode: Mode)
    requires
        mem_ok(m),
        spec_decode(mem_read(m.mem, m.pc)) == Some((Op::Sta, smode)),
        is_memory_mode(smode),
        spec_decode(mem_read(step_m(m).mem, step_m(m).pc)) == Some((Op::Lda, lmode)),
        is_memory_mode(lmode),
        effective_addr(step_m(m), lmode) == effective_addr(m, smode),
    ensures
        mem_read(step_m(m).mem, effective_addr(m, smode)) == m.a,
        step_m(step_m(m)).a == m.a,
{
    reveal(crate::machine::instr_m);
}

/// Law: executing the clear-carry instruction twice in a row leaves the
/// carry flag clear after each of the two steps, changes no other flag,
/// and changes nothing else but the program counter.
#[verifier::rlimit(100)]
pub proof fn lemma_clc_idempotent(m: Machine)
    requires
        mem_ok(m),
        mem_read(m.mem, m.pc) == 0x18,
        mem_read(m.mem, wrap16(m.pc + 1)) == 0x18,
    ensures
        step_m(m).flags == (Flags { carry: false, ..m.flags }),
        step_m(step_m(m)).flags == (Flags { carry: false, ..m.flags }),
        step_m(step_m(m)).a == m.a,
        step_m(step_m(m)).x == m.x,
        step_m(step_m(m)).y == m.y,
        step_m(step_m(m)).sp == m.sp,
        step_m(step_m(m)).mem == m.mem,
        step_m(step_m(m)).pc == wrap16(m.pc + 2),
{
    reveal(crate::machine::instr_m);
    assert(step_m(m).pc == wrap16(m.pc + 1));
    assert(mem_read(step_m(m).mem, step_m(m).pc) == 0x18);
    assert(step_m(step_m(m)).pc == wrap16(wrap16(m.pc + 1) + 1));
    assert(wrap16(wrap16(m.pc + 1) + 1) == wrap16(m.pc + 2)) by {
        if m.pc + 1 < 0x10000 {
        } else {
            assert(m.pc == 0xFFFF);
        }
    };
}

/// Law: a load-accumulator-immediate step sets the zero flag exactly when
/// the loaded byte is zero and the negative flag exactly when its sign
/// bit is set, and leaves the carry, overflow, interrupt-disable and
/// decimal flags unchanged from their values before the instruction.
pub proof fn lemma_lda_immediate_flag_isolation(m: Machine)
    requires
        mem_ok(m),
        mem_read(m.mem, m.pc) == 0xA9,
    ensures
        step_m(m).a == arg1(m),
        step_m(m).flags.zero == (arg1(m) == 0),
        step_m(m).flags.negative == (arg1(m) >= 0x80),
        step_m(m).flags.carry == m.flags.carry,
        step_m(m).flags.overflow == m.flags.overflow,
        step_m(m).flags.interrupt_disable == m.flags.interrupt_disable,
        step_m(m).flags.decimal == m.flags.decimal,
{
    reveal(crate::machine::instr_m);
}

/// One push-accumulator step, written out: the accumulator goes to the
/// stack address, the stack pointer steps down one, the counter advances.
proof fn lemma_step_pha(m: Machine)
    requires
        mem_ok(m),
        mem_read(m.mem, m.pc) == 0x48,
    ensures
        step_m(m) == (Machine {
            mem: m.mem.update(stack_addr(m.sp) as int, m.a),
            sp: wrap8(m.sp + 0xFF),
            pc: wrap16(m.pc + 1),
            ..m
        }),
{
    reveal(crate::machine::instr_m);
}

/// One pull-accumulator step, written out: the stack pointer steps up
/// one, the byte at the new stack address becomes the accumulator, the
/// zero and negative flags describe it, the counter advances.
proof fn lemma_step_pla(m: Machine)
    requires
        mem_ok(m),
        mem_read(m.mem, m.pc) == 0x68,
    ensures
        step_m(m) == (Machine {
            a: mem_read(m.mem, stack_addr(wrap8(m.sp + 1))),
            sp: wrap8(m.sp + 1),
            pc: wrap16(m.pc + 1),
            flags: nz(m.flags, mem_read(m.mem, stack_addr(wrap8(m.sp + 1)))),
            ..m
        }),
{
    reveal(crate::machine::instr_m);
}

/// Law: a push of the accumulator followed immediately by a pull restores
/// the original accumulator value and leaves the stack pointer at its
/// value from before the push.
#[verifier::rlimit(100)]
pub proof fn lemma_push_pull_accumulator(m: Machine)
    requires
        mem_ok(m),
        mem_read(m.mem, m.pc) == 0x48,
        mem_read(step_m(m).mem, step_m(m).pc) == 0x68,
    ensures
        step_m(step_m(m)).a == m.a,
        step_m(step_m(m)).sp == m.sp,
{
    let m1 = step_m(m);
    lemma_step_pha(m);
    lemma_step_pla(m1);
    assert(wrap8(wrap8(m.sp + 0xFF) + 1) == m.sp) by {
        if m.sp == 0 {
        } else {
        }
    };
    assert(mem_read(m1.mem, stack_addr(m.sp)) == m.a);
}

} // verus!
