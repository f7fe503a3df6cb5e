use mos6502::cpu::CPU;

fn cpu_with_program(origin: u16, program: &[u8]) -> CPU {
    let mut cpu = CPU::new();
    let mut addr = origin;
    for &b in program {
        cpu.write_mem(addr, b);
        addr = addr.wrapping_add(1);
    }
    cpu.pc = origin;
    cpu
}

#[test]
fn new_processor_is_all_zero() {
    let cpu = CPU::new();
    assert_eq!(cpu.a, 0);
    assert_eq!(cpu.x, 0);
    assert_eq!(cpu.y, 0);
    assert_eq!(cpu.sp, 0);
    assert_eq!(cpu.pc, 0);
    assert!(!cpu.flags.carry);
    assert!(!cpu.flags.zero);
    assert!(!cpu.flags.interrupt_disable);
    assert!(!cpu.flags.decimal);
    assert!(!cpu.flags.overflow);
    assert!(!cpu.flags.negative);
    assert_eq!(cpu.read_mem(0x0000), 0);
    assert_eq!(cpu.read_mem(0x1234), 0);
    assert_eq!(cpu.read_mem(0xFFFF), 0);
}

#[test]
fn boot_loads_reset_vector_and_stack_pointer() {
    let mut cpu = CPU::new();
    cpu.write_mem(0xFFFC, 0x34);
    cpu.write_mem(0xFFFD, 0x12);
    cpu.boot();
    assert_eq!(cpu.pc, 0x1234);
    assert_eq!(cpu.sp, 0xFF);
}

#[test]
fn boot_then_lda_immediate() {
    // Reset vector 0x0200; LDA #$69 there.
    let mut cpu = CPU::new();
    cpu.write_mem(0xFFFC, 0x00);
    cpu.write_mem(0xFFFD, 0x02);
    cpu.write_mem(0x0200, 0xA9);
    cpu.write_mem(0x0201, 0x69);
    cpu.boot();
    cpu.step();
    assert_eq!(cpu.pc, 0x0202);
    assert_eq!(cpu.a, 0x69);
    assert!(!cpu.flags.zero);
    assert!(!cpu.flags.negative);
}

#[test]
fn inc_zero_page_wraps_to_zero() {
    // INC $00 with memory at 0x0000 holding 0xFF.
    let mut cpu = cpu_with_program(0x0200, &[0xE6, 0x00]);
    cpu.write_mem(0x0000, 0xFF);
    cpu.flags.carry = true;
    cpu.step();
    assert_eq!(cpu.read_mem(0x0000), 0x00);
    assert!(cpu.flags.zero);
    assert!(!cpu.flags.negative);
    // The increment has no carry flag effect.
    assert!(cpu.flags.carry);
    assert_eq!(cpu.pc, 0x0202);
}

#[test]
fn pha_then_pla_restores_accumulator_and_stack_pointer() {
    let mut cpu = cpu_with_program(0x0200, &[0x48, 0x68]);
    cpu.sp = 0xFF;
    cpu.a = 0x42;
    cpu.step();
    assert_eq!(cpu.sp, 0xFE);
    assert_eq!(cpu.read_mem(0x01FF), 0x42);
    cpu.a = 0x00;
    cpu.step();
    assert_eq!(cpu.a, 0x42);
    assert_eq!(cpu.sp, 0xFF);
    assert_eq!(cpu.pc, 0x0202);
}

#[test]
fn clc_twice_clears_carry_and_nothing_else() {
    let mut cpu = cpu_with_program(0x0200, &[0x18, 0x18]);
    cpu.flags.carry = true;
    cpu.flags.zero = true;
    cpu.flags.negative = true;
    cpu.flags.overflow = true;
    cpu.step();
    assert!(!cpu.flags.carry);
    assert!(cpu.flags.zero);
    assert!(cpu.flags.negative);
    assert!(cpu.flags.overflow);
    cpu.step();
    assert!(!cpu.flags.carry);
    assert!(cpu.flags.zero);
    assert!(cpu.flags.negative);
    assert!(cpu.flags.overflow);
    assert_eq!(cpu.pc, 0x0202);
}

#[test]
fn lda_immediate_zero_sets_zero_and_isolates_other_flags() {
    let mut cpu = cpu_with_program(0x0200, &[0xA9, 0x00]);
    cpu.flags.carry = true;
    cpu.flags.overflow = true;
    cpu.flags.interrupt_disable = true;
    cpu.flags.decimal = true;
    cpu.a = 0x55;
    cpu.step();
    assert_eq!(cpu.a, 0x00);
    assert!(cpu.flags.zero);
    assert!(!cpu.flags.negative);
    assert!(cpu.flags.carry);
    assert!(cpu.flags.overflow);
    assert!(cpu.flags.interrupt_disable);
    assert!(cpu.flags.decimal);
}

#[test]
fn store_then_load_round_trips_through_memory() {
    // STA $1234 then LDA $1234 hands the stored byte back.
    let mut cpu = cpu_with_program(0x0200, &[0x8D, 0x34, 0x12, 0xAD, 0x34, 0x12]);
    cpu.a = 0x77;
    cpu.step();
    assert_eq!(cpu.read_mem(0x1234), 0x77);
    cpu.a = 0x00;
    cpu.step();
    assert_eq!(cpu.a, 0x77);
}

#[test]
fn unassigned_opcode_is_a_one_byte_no_operation() {
    let mut cpu = cpu_with_program(0x0200, &[0x02]);
    cpu.a = 0x11;
    cpu.flags.carry = true;
    cpu.step();
    assert_eq!(cpu.pc, 0x0201);
    assert_eq!(cpu.a, 0x11);
    assert!(cpu.flags.carry);
}

#[test]
fn nop_advances_only_the_program_counter() {
    let mut cpu = cpu_with_program(0x0200, &[0xEA]);
    cpu.x = 9;
    cpu.step();
    assert_eq!(cpu.pc, 0x0201);
    assert_eq!(cpu.x, 9);
}

#[test]
fn program_counter_wraps_at_address_space_end() {
    let mut cpu = CPU::new();
    cpu.write_mem(0xFFFF, 0xEA);
    cpu.pc = 0xFFFF;
    cpu.step();
    assert_eq!(cpu.pc, 0x0000);
}
