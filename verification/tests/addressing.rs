use mos6502::cpu::CPU;

fn cpu_with_program(origin: u16, program: &[u8]) -> CPU {
    let mut cpu = CPU::new();
    let mut addr = origin;
    for &b in program {
        cpu.write_mem(addr, b);
        addr = addr.wrapping_add(1);
    }
    cpu.pc = origin;
    cpu
}

#[test]
fn zero_page_x_wraps_within_the_zero_page() {
    // LDA $FF,X with X = 2 reads 0x0001, not 0x0101.
    let mut cpu = cpu_with_program(0x0200, &[0xB5, 0xFF]);
    cpu.x = 0x02;
    cpu.write_mem(0x0001, 0xAB);
    cpu.write_mem(0x0101, 0xCD);
    cpu.step();
    assert_eq!(cpu.a, 0xAB);
}

#[test]
fn zero_page_y_wraps_within_the_zero_page() {
    // LDX $F0,Y with Y = 0x20 reads 0x0010.
    let mut cpu = cpu_with_program(0x0200, &[0xB6, 0xF0]);
    cpu.y = 0x20;
    cpu.write_mem(0x0010, 0x5A);
    cpu.step();
    assert_eq!(cpu.x, 0x5A);
}

#[test]
fn absolute_x_crosses_a_page_boundary() {
    // LDA $12FF,X with X = 2 reads 0x1301.
    let mut cpu = cpu_with_program(0x0200, &[0xBD, 0xFF, 0x12]);
    cpu.x = 0x02;
    cpu.write_mem(0x1301, 0x99);
    cpu.step();
    assert_eq!(cpu.a, 0x99);
}

#[test]
fn absolute_y_wraps_around_the_address_space() {
    // LDA $FFFF,Y with Y = 2 reads 0x0001.
    let mut cpu = cpu_with_program(0x0200, &[0xB9, 0xFF, 0xFF]);
    cpu.y = 0x02;
    cpu.write_mem(0x0001, 0x3C);
    cpu.step();
    assert_eq!(cpu.a, 0x3C);
}

#[test]
fn indexed_indirect_reads_pointer_from_the_zero_page() {
    // LDA ($F0,X) with X = 0x20: pointer at 0x10/0x11.
    let mut cpu = cpu_with_program(0x0200, &[0xA1, 0xF0]);
    cpu.x = 0x20;
    cpu.write_mem(0x0010, 0x34);
    cpu.write_mem(0x0011, 0x12);
    cpu.write_mem(0x1234, 0x7E);
    cpu.step();
    assert_eq!(cpu.a, 0x7E);
}

#[test]
fn indexed_indirect_pointer_high_half_wraps_in_the_zero_page() {
    // LDA ($FF,X) with X = 0: pointer low at 0xFF, high at 0x00.
    let mut cpu = cpu_with_program(0x0200, &[0xA1, 0xFF]);
    cpu.write_mem(0x00FF, 0x34);
    cpu.write_mem(0x0000, 0x12);
    cpu.write_mem(0x1234, 0x61);
    cpu.step();
    assert_eq!(cpu.a, 0x61);
}

#[test]
fn indirect_indexed_adds_y_to_the_pointer() {
    // LDA ($10),Y with Y = 4: pointer 0x1230 at 0x10/0x11, target 0x1234.
    let mut cpu = cpu_with_program(0x0200, &[0xB1, 0x10]);
    cpu.y = 0x04;
    cpu.write_mem(0x0010, 0x30);
    cpu.write_mem(0x0011, 0x12);
    cpu.write_mem(0x1234, 0x27);
    cpu.step();
    assert_eq!(cpu.a, 0x27);
}

#[test]
fn indirect_indexed_pointer_high_half_wraps_in_the_zero_page() {
    // LDA ($FF),Y: pointer low at 0xFF, high at 0x00.
    let mut cpu = cpu_with_program(0x0200, &[0xB1, 0xFF]);
    cpu.y = 0x01;
    cpu.write_mem(0x00FF, 0x33);
    cpu.write_mem(0x0000, 0x12);
    cpu.write_mem(0x1234, 0x4D);
    cpu.step();
    assert_eq!(cpu.a, 0x4D);
}

#[test]
fn jump_absolute_sets_the_program_counter() {
    let mut cpu = cpu_with_program(0x0200, &[0x4C, 0x00, 0x03]);
    cpu.step();
    assert_eq!(cpu.pc, 0x0300);
}

#[test]
fn jump_indirect_goes_through_the_pointer() {
    let mut cpu = cpu_with_program(0x0200, &[0x6C, 0x00, 0x05]);
    cpu.write_mem(0x0500, 0x02);
    cpu.write_mem(0x0501, 0x02);
    cpu.step();
    assert_eq!(cpu.pc, 0x0202);
}

#[test]
fn jump_indirect_reproduces_the_page_boundary_defect() {
    // JMP ($12FF): the pointer's high half comes from 0x1200, not 0x1300.
    let mut cpu = cpu_with_program(0x0200, &[0x6C, 0xFF, 0x12]);
    cpu.write_mem(0x12FF, 0x34);
    cpu.write_mem(0x1200, 0x56);
    cpu.write_mem(0x1300, 0x78);
    cpu.step();
    assert_eq!(cpu.pc, 0x5634);
}

#[test]
fn immediate_mode_uses_the_argument_byte_itself() {
    let mut cpu = cpu_with_program(0x0200, &[0xA2, 0x80]);
    cpu.step();
    assert_eq!(cpu.x, 0x80);
    assert!(cpu.flags.negative);
    assert!(!cpu.flags.zero);
}

#[test]
fn zero_page_mode_reads_a_one_byte_address() {
    let mut cpu = cpu_with_program(0x0200, &[0xA5, 0x42]);
    cpu.write_mem(0x0042, 0x24);
    cpu.step();
    assert_eq!(cpu.a, 0x24);
    assert_eq!(cpu.pc, 0x0202);
}

#[test]
fn absolute_mode_reads_a_little_endian_address() {
    let mut cpu = cpu_with_program(0x0200, &[0xAD, 0xCD, 0xAB]);
    cpu.write_mem(0xABCD, 0x11);
    cpu.step();
    assert_eq!(cpu.a, 0x11);
    assert_eq!(cpu.pc, 0x0203);
}
