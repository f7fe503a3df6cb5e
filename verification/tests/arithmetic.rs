use mos6502::cpu::CPU;

fn cpu_with_program(origin: u16, program: &[u8]) -> CPU {
    let mut cpu = CPU::new();
    let mut addr = origin;
    for &b in program {
        cpu.write_mem(addr, b);
        addr = addr.wrapping_add(1);
    }
    cpu.pc = origin;
    cpu
}

#[test]
fn adc_adds_without_carry_in() {
    // 0x10 + 0x20 = 0x30.
    let mut cpu = cpu_with_program(0x0200, &[0x69, 0x20]);
    cpu.a = 0x10;
    cpu.step();
    assert_eq!(cpu.a, 0x30);
    assert!(!cpu.flags.carry);
    assert!(!cpu.flags.zero);
    assert!(!cpu.flags.overflow);
    assert!(!cpu.flags.negative);
}

#[test]
fn adc_adds_the_carry_in() {
    let mut cpu = cpu_with_program(0x0200, &[0x69, 0x20]);
    cpu.a = 0x10;
    cpu.flags.carry = true;
    cpu.step();
    assert_eq!(cpu.a, 0x31);
    assert!(!cpu.flags.carry);
}

#[test]
fn adc_sets_carry_and_zero_on_unsigned_overflow() {
    // 0xFF + 0x01 = 0x00 with carry out.
    let mut cpu = cpu_with_program(0x0200, &[0x69, 0x01]);
    cpu.a = 0xFF;
    cpu.step();
    assert_eq!(cpu.a, 0x00);
    assert!(cpu.flags.carry);
    assert!(cpu.flags.zero);
    assert!(!cpu.flags.overflow);
}

#[test]
fn adc_sets_overflow_on_signed_overflow() {
    // 0x50 + 0x50 = 0xA0: two positives give a negative.
    let mut cpu = cpu_with_program(0x0200, &[0x69, 0x50]);
    cpu.a = 0x50;
    cpu.step();
    assert_eq!(cpu.a, 0xA0);
    assert!(cpu.flags.overflow);
    assert!(cpu.flags.negative);
    assert!(!cpu.flags.carry);
}

#[test]
fn sbc_subtracts_when_carry_is_set() {
    // 0x50 - 0x30 = 0x20; carry stays set: no borrow.
    let mut cpu = cpu_with_program(0x0200, &[0xE9, 0x30]);
    cpu.a = 0x50;
    cpu.flags.carry = true;
    cpu.step();
    assert_eq!(cpu.a, 0x20);
    assert!(cpu.flags.carry);
    assert!(!cpu.flags.overflow);
}

#[test]
fn sbc_clears_carry_on_borrow() {
    // 0x30 - 0x50 = 0xE0 with borrow.
    let mut cpu = cpu_with_program(0x0200, &[0xE9, 0x50]);
    cpu.a = 0x30;
    cpu.flags.carry = true;
    cpu.step();
    assert_eq!(cpu.a, 0xE0);
    assert!(!cpu.flags.carry);
    assert!(cpu.flags.negative);
}

#[test]
fn sbc_sets_overflow_crossing_the_signed_range() {
    // 0x80 - 0x01 = 0x7F: a negative minus a positive gives a positive.
    let mut cpu = cpu_with_program(0x0200, &[0xE9, 0x01]);
    cpu.a = 0x80;
    cpu.flags.carry = true;
    cpu.step();
    assert_eq!(cpu.a, 0x7F);
    assert!(cpu.flags.overflow);
    assert!(cpu.flags.carry);
}

#[test]
fn cmp_equal_sets_zero_and_carry() {
    let mut cpu = cpu_with_program(0x0200, &[0xC9, 0x42]);
    cpu.a = 0x42;
    cpu.step();
    assert!(cpu.flags.zero);
    assert!(cpu.flags.carry);
    assert!(!cpu.flags.negative);
    assert_eq!(cpu.a, 0x42);
}

#[test]
fn cmp_smaller_clears_carry() {
    let mut cpu = cpu_with_program(0x0200, &[0xC9, 0x50]);
    cpu.a = 0x30;
    cpu.step();
    assert!(!cpu.flags.carry);
    assert!(!cpu.flags.zero);
    assert!(cpu.flags.negative);
}

#[test]
fn cpx_and_cpy_compare_the_index_registers() {
    let mut cpu = cpu_with_program(0x0200, &[0xE0, 0x10, 0xC0, 0x10]);
    cpu.x = 0x20;
    cpu.y = 0x05;
    cpu.step();
    assert!(cpu.flags.carry);
    assert!(!cpu.flags.zero);
    cpu.step();
    assert!(!cpu.flags.carry);
}

#[test]
fn and_ora_eor_mask_the_accumulator() {
    let mut cpu = cpu_with_program(0x0200, &[0x29, 0x0F, 0x09, 0xF0, 0x49, 0xFF]);
    cpu.a = 0x5A;
    cpu.step();
    assert_eq!(cpu.a, 0x0A);
    cpu.step();
    assert_eq!(cpu.a, 0xFA);
    assert!(cpu.flags.negative);
    cpu.step();
    assert_eq!(cpu.a, 0x05);
    assert!(!cpu.flags.negative);
}

#[test]
fn bit_copies_operand_bits_into_overflow_and_negative() {
    let mut cpu = cpu_with_program(0x0200, &[0x24, 0x10]);
    cpu.write_mem(0x0010, 0xC0);
    cpu.a = 0x3F;
    cpu.step();
    assert!(cpu.flags.zero);
    assert!(cpu.flags.overflow);
    assert!(cpu.flags.negative);
    assert_eq!(cpu.a, 0x3F);
}

#[test]
fn asl_shifts_the_top_bit_into_carry() {
    let mut cpu = cpu_with_program(0x0200, &[0x0A]);
    cpu.a = 0x81;
    cpu.step();
    assert_eq!(cpu.a, 0x02);
    assert!(cpu.flags.carry);
    assert!(!cpu.flags.zero);
}

#[test]
fn lsr_shifts_the_low_bit_into_carry() {
    let mut cpu = cpu_with_program(0x0200, &[0x4A]);
    cpu.a = 0x01;
    cpu.step();
    assert_eq!(cpu.a, 0x00);
    assert!(cpu.flags.carry);
    assert!(cpu.flags.zero);
}

#[test]
fn rol_rotates_the_carry_into_the_low_bit() {
    let mut cpu = cpu_with_program(0x0200, &[0x2A]);
    cpu.a = 0x80;
    cpu.flags.carry = true;
    cpu.step();
    assert_eq!(cpu.a, 0x01);
    assert!(cpu.flags.carry);
}

#[test]
fn ror_rotates_the_carry_into_the_high_bit() {
    let mut cpu = cpu_with_program(0x0200, &[0x6A]);
    cpu.a = 0x01;
    cpu.flags.carry = true;
    cpu.step();
    assert_eq!(cpu.a, 0x80);
    assert!(cpu.flags.carry);
    assert!(cpu.flags.negative);
}

#[test]
fn asl_on_memory_rewrites_the_addressed_byte() {
    let mut cpu = cpu_with_program(0x0200, &[0x06, 0x10]);
    cpu.write_mem(0x0010, 0x40);
    cpu.step();
    assert_eq!(cpu.read_mem(0x0010), 0x80);
    assert!(cpu.flags.negative);
    assert!(!cpu.flags.carry);
}

#[test]
fn dec_wraps_zero_to_ff() {
    let mut cpu = cpu_with_program(0x0200, &[0xC6, 0x10]);
    cpu.step();
    assert_eq!(cpu.read_mem(0x0010), 0xFF);
    assert!(cpu.flags.negative);
    assert!(!cpu.flags.zero);
}

#[test]
fn inx_dex_iny_dey_wrap_and_set_flags() {
    let mut cpu = cpu_with_program(0x0200, &[0xE8, 0xCA, 0xCA, 0xC8, 0x88, 0x88]);
    cpu.x = 0xFF;
    cpu.y = 0x00;
    cpu.step();
    assert_eq!(cpu.x, 0x00);
    assert!(cpu.flags.zero);
    cpu.step();
    assert_eq!(cpu.x, 0xFF);
    assert!(cpu.flags.negative);
    cpu.step();
    assert_eq!(cpu.x, 0xFE);
    cpu.step();
    assert_eq!(cpu.y, 0x01);
    cpu.step();
    assert_eq!(cpu.y, 0x00);
    assert!(cpu.flags.zero);
    cpu.step();
    assert_eq!(cpu.y, 0xFF);
    assert!(cpu.flags.negative);
}

#[test]
fn adc_zero_page_x_reads_its_operand_through_the_index() {
    let mut cpu = cpu_with_program(0x0200, &[0x75, 0x10]);
    cpu.x = 0x05;
    cpu.write_mem(0x0015, 0x22);
    cpu.a = 0x11;
    cpu.step();
    assert_eq!(cpu.a, 0x33);
}

#[test]
fn sbc_with_carry_clear_subtracts_one_more() {
    // 0x50 - 0x30 - 1 = 0x1F when the borrow is pending.
    let mut cpu = cpu_with_program(0x0200, &[0xE9, 0x30]);
    cpu.a = 0x50;
    cpu.step();
    assert_eq!(cpu.a, 0x1F);
    assert!(cpu.flags.carry);
}

#[test]
fn rol_on_memory_rewrites_the_addressed_byte() {
    let mut cpu = cpu_with_program(0x0200, &[0x26, 0x10]);
    cpu.write_mem(0x0010, 0x81);
    cpu.step();
    assert_eq!(cpu.read_mem(0x0010), 0x02);
    assert!(cpu.flags.carry);
}

#[test]
fn ldy_and_dec_absolute_use_the_full_address() {
    let mut cpu = cpu_with_program(0x0200, &[0xAC, 0x00, 0x04, 0xCE, 0x00, 0x04]);
    cpu.write_mem(0x0400, 0x01);
    cpu.step();
    assert_eq!(cpu.y, 0x01);
    cpu.step();
    assert_eq!(cpu.read_mem(0x0400), 0x00);
    assert!(cpu.flags.zero);
}
