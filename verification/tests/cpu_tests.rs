use nes_rs::cpu::addressing_mode::{AddressingMode, AddressingResult};
use nes_rs::cpu::mem::{Memory, Stack};
use nes_rs::cpu::{CpuError, CPU};

#[test]
fn test_0xa9_lda_immediate_load_data() {
    let mut cpu = CPU::new();
    cpu.load_and_run(&[0xa9, 0x05, 0x00]).unwrap();
    assert_eq!(cpu.registers.a, 0x05);
    assert!(cpu.status.to_byte() & 0b0000_0010 == 0b00);
    assert!(cpu.status.to_byte() & 0b1000_0000 == 0);
}

#[test]
fn test_0xa9_lda_zero_flag() {
    let mut cpu = CPU::new();
    cpu.load_and_run(&[0xa9, 0x00, 0x00]).unwrap();
    assert!(cpu.status.to_byte() & 0b0000_0010 == 0b10);
}

#[test]
fn test_0xaa_tax_move_a_to_x() {
    let mut cpu = CPU::new();
    cpu.load_modify_and_run(&[0xaa, 0x00], |cpu| cpu.registers.a = 10).unwrap();

    assert_eq!(cpu.registers.x, 10)
}

#[test]
fn test_5_ops_working_together() {
    let mut cpu = CPU::new();
    cpu.load_and_run(&[0xa9, 0xc0, 0xaa, 0xe8, 0x00]).unwrap();

    assert_eq!(cpu.registers.x, 0xc1)
}

#[test]
fn test_inx_overflow() {
    let mut cpu = CPU::new();
    cpu.load_modify_and_run(&[0xe8, 0xe8, 0x00], |cpu| cpu.registers.x = 0xff).unwrap();

    assert_eq!(cpu.registers.x, 1)
}

#[test]
fn test_lda_from_memory() {
    let mut cpu = CPU::new();
    cpu.mem_write(0x10, 0x55);

    cpu.load_and_run(&[0xa5, 0x10, 0x00]).unwrap();

    assert_eq!(cpu.registers.a, 0x55);
}

#[test]
fn test_unknown_opcode_rejected() {
    let mut cpu = CPU::new();
    let result = cpu.load_and_run(&[0xff]);
    assert_eq!(result, Err(CpuError::UnknownOpcode(0xff)));
}

#[test]
fn test_zero_page_x_wraparound() {
    // The effective address of zero-page indexed addressing is the sum of
    // the operand and the index register, modulo 256.
    let mut cpu = CPU::new();
    cpu.mem_write(0x0000, 0xff);
    cpu.registers.x = 0x10;
    let resolved = AddressingMode::ZeroPage_X.get_operand_address(&cpu);
    assert_eq!(resolved, AddressingResult::ReadAddress(0x000f));
}

#[test]
fn test_mem_u16_round_trip() {
    let mut cpu = CPU::new();
    cpu.mem_write_u16(0x0010, 0xbeef);
    assert_eq!(cpu.mem_read_u16(0x0010), 0xbeef);
    assert_eq!(cpu.mem_read(0x0010), 0xef);
    assert_eq!(cpu.mem_read(0x0011), 0xbe);
}

#[test]
fn test_stack_lifo_round_trip() {
    let mut cpu = CPU::new();
    let start = cpu.stack_pointer;
    cpu.stack_push(0x11);
    cpu.stack_push(0x22);
    cpu.stack_push(0x33);
    assert_eq!(cpu.stack_pop(), 0x33);
    assert_eq!(cpu.stack_pop(), 0x22);
    assert_eq!(cpu.stack_pop(), 0x11);
    assert_eq!(cpu.stack_pointer, start);
}

#[test]
fn test_jmp_indirect_page_wrap() {
    // A pointer whose low byte is 0xFF takes its high target byte from the
    // start of the same page, not the next one.
    let mut cpu = CPU::new();
    cpu.load(&[0x6c, 0xff, 0x02]);
    cpu.reset();
    cpu.mem_write(0x02ff, 0x34);
    cpu.mem_write(0x0200, 0x12);
    cpu.mem_write(0x0300, 0x56);
    assert_eq!(cpu.tick(), Ok(false));
    assert_eq!(cpu.program_counter, 0x1234);
}

#[test]
fn test_adc_sets_overflow() {
    // 0x50 + 0x50 overflows signed arithmetic: V and N set, C clear.
    let mut cpu = CPU::new();
    cpu.load_and_run(&[0xa9, 0x50, 0x69, 0x50, 0x00]).unwrap();
    assert_eq!(cpu.registers.a, 0xa0);
    assert!(cpu.status.overflow_flag);
    assert!(cpu.status.negative_flag);
    assert!(!cpu.status.carry_flag);
}

#[test]
fn test_sbc_with_carry_set() {
    // With carry set, subtraction has no borrow: 0x50 - 0x10 = 0x40, C set.
    let mut cpu = CPU::new();
    cpu.load_and_run(&[0xa9, 0x50, 0x38, 0xe9, 0x10, 0x00]).unwrap();
    assert_eq!(cpu.registers.a, 0x40);
    assert!(cpu.status.carry_flag);
}

#[test]
fn test_ror_rotates_right() {
    // ROR moves the carry into bit 7 and bit 0 into the carry.
    let mut cpu = CPU::new();
    cpu.load_modify_and_run(&[0x38, 0x6a, 0x00], |cpu| cpu.registers.a = 0x02).unwrap();
    assert_eq!(cpu.registers.a, 0x81);
    assert!(!cpu.status.carry_flag);
}

#[test]
fn test_branch_taken_skips() {
    // BNE after LDA #$01 is taken and jumps over the second load.
    let mut cpu = CPU::new();
    cpu.load_and_run(&[0xa9, 0x01, 0xd0, 0x02, 0xa9, 0xff, 0x00]).unwrap();
    assert_eq!(cpu.registers.a, 0x01);
}

#[test]
fn test_jsr_rts() {
    let mut cpu = CPU::new();
    cpu.load_and_run(&[0x20, 0x06, 0x06, 0xa9, 0x01, 0x00, 0xa2, 0x05, 0x60]).unwrap();
    assert_eq!(cpu.registers.x, 0x05);
    assert_eq!(cpu.registers.a, 0x01);
    assert_eq!(cpu.stack_pointer, 0xfd);
}

#[test]
fn test_load_up_to_vector() {
    // A maximal program fills RAM to the top; the reset-vector store comes
    // last and wins over the two program bytes that land on its cells.
    let mut cpu = CPU::new();
    let program = vec![0xea; 0xfa00];
    cpu.load(&program);
    assert_eq!(cpu.mem_read(0xfffb), 0xea);
    assert_eq!(cpu.mem_read(0xfffc), 0x00);
    assert_eq!(cpu.mem_read(0xfffd), 0x06);
    assert_eq!(cpu.mem_read(0xffff), 0xea);
    assert_eq!(cpu.mem_read_u16(0xfffc), 0x0600);
}
