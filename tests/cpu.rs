use emu6502::{AddressingMode, CpuError, ProcessorStatus, StepStatus, CPU};

#[test]
fn test_adc_from_memory() {
    let mut cpu = CPU::new();
    let _ = cpu.load_and_run(vec![0x69, 0x13, 0x00]);
    assert_eq!(cpu.ra, 0x13);
}

#[test]
fn test_lda_immediate() {
    let mut cpu = CPU::new();
    let _ = cpu.load_and_run(vec![0xA9, 0x17, 0x00]);
    assert_eq!(cpu.ra, 0x17);
}

#[test]
fn test_lda_from_memory() {
    let mut cpu = CPU::new();
    cpu.mem_write(0x10, 0x55);
    let _ = cpu.load_and_run(vec![0xa5, 0x10, 0x00]);
    assert_eq!(cpu.ra, 0x55);
}

#[test]
fn test_0xa9_lda_immidiate_load_data() {
    let mut cpu = CPU::new();
    let _ = cpu.load_and_run(vec![0xa9, 0x05, 0x00]);
    assert_eq!(cpu.ra, 5);
    assert!(!cpu.rp.contains(ProcessorStatus::ZERO));
    assert!(!cpu.rp.contains(ProcessorStatus::NEGATIVE));
}

#[test]
fn test_0xaa_tax_move_a_to_x() {
    let mut cpu = CPU::new();
    cpu.load(vec![0xaa, 0x00]);
    cpu.reset();
    cpu.ra = 10;
    let _ = cpu.run();
    assert_eq!(cpu.rx, 10)
}

#[test]
fn test_5_ops_working_together() {
    let mut cpu = CPU::new();
    let _ = cpu.load_and_run(vec![0xa9, 0xc0, 0xaa, 0xe8, 0x00]);
    assert_eq!(cpu.rx, 0xc1)
}

#[test]
fn test_inx_overflow() {
    let mut cpu = CPU::new();
    let _ = cpu.load_and_run(vec![0xe8, 0xe8, 0x00]);
    assert_eq!(cpu.rx, 2);
}

fn run_program(program: Vec<u8>) -> (CPU, Result<StepStatus, CpuError>) {
    let mut cpu = CPU::new();
    let r = cpu.load_and_run(program);
    (cpu, r)
}

#[test]
fn lda_immediate_flags() {
    let (cpu, r) = run_program(vec![0xa9, 0x17, 0x00]);
    assert_eq!(r, Ok(StepStatus::Halted));
    assert_eq!(cpu.ra, 0x17);
    assert!(!cpu.rp.contains(ProcessorStatus::ZERO));
    assert!(!cpu.rp.contains(ProcessorStatus::NEGATIVE));
    assert_eq!(cpu.pc, 0x0603);
}

#[test]
fn tax_inx_sets_negative() {
    let (cpu, _) = run_program(vec![0xa9, 0xc0, 0xaa, 0xe8, 0x00]);
    assert_eq!(cpu.rx, 0xc1);
    assert!(cpu.rp.contains(ProcessorStatus::NEGATIVE));
    assert!(!cpu.rp.contains(ProcessorStatus::ZERO));
}

#[test]
fn inx_twice_clears_zero() {
    let (cpu, _) = run_program(vec![0xe8, 0xe8, 0x00]);
    assert_eq!(cpu.rx, 2);
    assert!(!cpu.rp.contains(ProcessorStatus::ZERO));
}

#[test]
fn inx_wraps_to_zero() {
    let (cpu, _) = run_program(vec![0xa2, 0xff, 0xe8, 0x00]);
    assert_eq!(cpu.rx, 0);
    assert!(cpu.rp.contains(ProcessorStatus::ZERO));
    assert!(!cpu.rp.contains(ProcessorStatus::NEGATIVE));
}

#[test]
fn adc_immediate_from_reset() {
    let (cpu, _) = run_program(vec![0x69, 0x13, 0x00]);
    assert_eq!(cpu.ra, 0x13);
    assert!(!cpu.rp.contains(ProcessorStatus::CARRY));
    assert!(!cpu.rp.contains(ProcessorStatus::OVERFLOW));
}

#[test]
fn adc_carry_and_overflow() {
    // 0x50 + 0x50 = 0xA0: signed overflow, no carry
    let (cpu, _) = run_program(vec![0xa9, 0x50, 0x69, 0x50, 0x00]);
    assert_eq!(cpu.ra, 0xa0);
    assert!(!cpu.rp.contains(ProcessorStatus::CARRY));
    assert!(cpu.rp.contains(ProcessorStatus::OVERFLOW));
    assert!(cpu.rp.contains(ProcessorStatus::NEGATIVE));
    // 0xFF + 0x01 = 0x00 with carry, no overflow
    let (cpu, _) = run_program(vec![0xa9, 0xff, 0x69, 0x01, 0x00]);
    assert_eq!(cpu.ra, 0x00);
    assert!(cpu.rp.contains(ProcessorStatus::CARRY));
    assert!(!cpu.rp.contains(ProcessorStatus::OVERFLOW));
    assert!(cpu.rp.contains(ProcessorStatus::ZERO));
}

#[test]
fn sbc_with_carry_set_subtracts() {
    // SEC; LDA #$10; SBC #$03
    let (cpu, _) = run_program(vec![0x38, 0xa9, 0x10, 0xe9, 0x03, 0x00]);
    assert_eq!(cpu.ra, 0x0d);
    assert!(cpu.rp.contains(ProcessorStatus::CARRY));
    // SEC; LDA #$03; SBC #$10 borrows
    let (cpu, _) = run_program(vec![0x38, 0xa9, 0x03, 0xe9, 0x10, 0x00]);
    assert_eq!(cpu.ra, 0xf3);
    assert!(!cpu.rp.contains(ProcessorStatus::CARRY));
}

#[test]
fn adc_then_sbc_restores_a() {
    // CLC; LDA #$37; ADC #$C5; SEC; SBC #$C5
    let (cpu, _) = run_program(vec![0x18, 0xa9, 0x37, 0x69, 0xc5, 0x38, 0xe9, 0xc5, 0x00]);
    assert_eq!(cpu.ra, 0x37);
    // CLC; LDA #$37; ADC #$05 (no carry out); SBC #$05 with that carry: off by one
    let (cpu, _) = run_program(vec![0x18, 0xa9, 0x37, 0x69, 0x05, 0xe9, 0x05, 0x00]);
    assert_eq!(cpu.ra, 0x36);
}

#[test]
fn asl_and_lsr_carry_out() {
    let (cpu, _) = run_program(vec![0xa9, 0x81, 0x0a, 0x00]);
    assert_eq!(cpu.ra, 0x02);
    assert!(cpu.rp.contains(ProcessorStatus::CARRY));
    let (cpu, _) = run_program(vec![0xa9, 0x81, 0x4a, 0x00]);
    assert_eq!(cpu.ra, 0x40);
    assert!(cpu.rp.contains(ProcessorStatus::CARRY));
    let (cpu, _) = run_program(vec![0xa9, 0x40, 0x4a, 0x00]);
    assert_eq!(cpu.ra, 0x20);
    assert!(!cpu.rp.contains(ProcessorStatus::CARRY));
}

#[test]
fn asl_memory_writes_back() {
    let mut cpu = CPU::new();
    cpu.mem_write(0x20, 0xc0);
    let _ = cpu.load_and_run(vec![0x06, 0x20, 0x00]);
    assert_eq!(cpu.mem_read(0x20), 0x80);
    assert!(cpu.rp.contains(ProcessorStatus::CARRY));
    assert!(cpu.rp.contains(ProcessorStatus::NEGATIVE));
}

#[test]
fn rotate_through_carry() {
    // SEC; LDA #$80; ROL A -> 0x01, C=1
    let (cpu, _) = run_program(vec![0x38, 0xa9, 0x80, 0x2a, 0x00]);
    assert_eq!(cpu.ra, 0x01);
    assert!(cpu.rp.contains(ProcessorStatus::CARRY));
    // SEC; LDA #$01; ROR A -> 0x80, C=1
    let (cpu, _) = run_program(vec![0x38, 0xa9, 0x01, 0x6a, 0x00]);
    assert_eq!(cpu.ra, 0x80);
    assert!(cpu.rp.contains(ProcessorStatus::CARRY));
    assert!(cpu.rp.contains(ProcessorStatus::NEGATIVE));
}

#[test]
fn rol_memory_sets_zero() {
    let mut cpu = CPU::new();
    cpu.mem_write(0x30, 0x80);
    // CLC; ROL $30 -> 0x00, C=1, Z=1
    let _ = cpu.load_and_run(vec![0x18, 0x26, 0x30, 0x00]);
    assert_eq!(cpu.mem_read(0x30), 0x00);
    assert!(cpu.rp.contains(ProcessorStatus::CARRY));
    assert!(cpu.rp.contains(ProcessorStatus::ZERO));
}

#[test]
fn bit_copies_bits_six_and_seven() {
    let mut cpu = CPU::new();
    cpu.mem_write(0x40, 0x40);
    let _ = cpu.load_and_run(vec![0xa9, 0x01, 0x24, 0x40, 0x00]);
    assert_eq!(cpu.ra, 0x01);
    assert!(!cpu.rp.contains(ProcessorStatus::NEGATIVE));
    assert!(cpu.rp.contains(ProcessorStatus::OVERFLOW));
    assert!(cpu.rp.contains(ProcessorStatus::ZERO));
}

#[test]
fn compare_sets_carry_and_zero() {
    let (cpu, _) = run_program(vec![0xa9, 0x10, 0xc9, 0x10, 0x00]);
    assert!(cpu.rp.contains(ProcessorStatus::CARRY));
    assert!(cpu.rp.contains(ProcessorStatus::ZERO));
    let (cpu, _) = run_program(vec![0xa9, 0x10, 0xc9, 0x20, 0x00]);
    assert!(!cpu.rp.contains(ProcessorStatus::CARRY));
    assert!(!cpu.rp.contains(ProcessorStatus::ZERO));
    assert!(cpu.rp.contains(ProcessorStatus::NEGATIVE));
}

#[test]
fn cpy_zero_page_reads_memory() {
    let mut cpu = CPU::new();
    cpu.mem_write(0x05, 0x07);
    // LDY #$07; CPY $05
    let _ = cpu.load_and_run(vec![0xa0, 0x07, 0xc4, 0x05, 0x00]);
    assert!(cpu.rp.contains(ProcessorStatus::ZERO));
    assert!(cpu.rp.contains(ProcessorStatus::CARRY));
}

#[test]
fn adc_absolute_y_uses_y() {
    let mut cpu = CPU::new();
    cpu.mem_write(0x1234, 0x11);
    cpu.mem_write(0x1232, 0x99);
    // LDY #$04; LDX #$02; ADC $1230,Y
    let _ = cpu.load_and_run(vec![0xa0, 0x04, 0xa2, 0x02, 0x79, 0x30, 0x12, 0x00]);
    assert_eq!(cpu.ra, 0x11);
}

#[test]
fn stack_push_pull_round_trip() {
    // LDA #$42; PHA; LDA #$00; PLA
    let (cpu, _) = run_program(vec![0xa9, 0x42, 0x48, 0xa9, 0x00, 0x68, 0x00]);
    assert_eq!(cpu.ra, 0x42);
    assert_eq!(cpu.rs, 0xfd);
    assert_eq!(cpu.mem_read(0x01fd), 0x42);
}

#[test]
fn stack_u16_byte_order() {
    let mut cpu = CPU::new();
    cpu.stack_push_u16(0xbeef);
    assert_eq!(cpu.rs, 0xfb);
    assert_eq!(cpu.mem_read(0x01fd), 0xbe);
    assert_eq!(cpu.mem_read(0x01fc), 0xef);
    assert_eq!(cpu.stack_pop_u16(), 0xbeef);
    assert_eq!(cpu.rs, 0xfd);
}

#[test]
fn stack_pointer_wraps() {
    let mut cpu = CPU::new();
    cpu.rs = 0x00;
    cpu.stack_push(0x12);
    assert_eq!(cpu.rs, 0xff);
    assert_eq!(cpu.mem_read(0x0100), 0x12);
    assert_eq!(cpu.stack_pop(), 0x12);
    assert_eq!(cpu.rs, 0x00);
}

#[test]
fn php_plp_break_bits() {
    // SEC; PHP; PLA
    let (cpu, _) = run_program(vec![0x38, 0x08, 0x68, 0x00]);
    assert_eq!(cpu.ra, 0x24 | 0x01 | 0x30);
    // LDA #$FF; PHA; PLP
    let (cpu, _) = run_program(vec![0xa9, 0xff, 0x48, 0x28, 0x00]);
    assert_eq!(cpu.rp.bits(), 0xef);
}

#[test]
fn jsr_and_rts() {
    // JSR $0606; BRK; (pad) ; $0606: LDX #$05; RTS
    let (cpu, r) = run_program(vec![0x20, 0x06, 0x06, 0x00, 0xea, 0xea, 0xa2, 0x05, 0x60]);
    assert_eq!(r, Ok(StepStatus::Halted));
    assert_eq!(cpu.rx, 0x05);
    assert_eq!(cpu.pc, 0x0604);
    assert_eq!(cpu.rs, 0xfd);
}

#[test]
fn branch_loop_counts_down() {
    // LDX #$03; loop: DEX; BNE loop; BRK
    let (cpu, _) = run_program(vec![0xa2, 0x03, 0xca, 0xd0, 0xfd, 0x00]);
    assert_eq!(cpu.rx, 0);
    assert_eq!(cpu.pc, 0x0606);
}

#[test]
fn branch_not_taken_skips_offset() {
    // LDA #$01 (Z clear); BEQ +2; LDX #$07; BRK
    let (cpu, _) = run_program(vec![0xa9, 0x01, 0xf0, 0x02, 0xa2, 0x07, 0x00]);
    assert_eq!(cpu.rx, 0x07);
}

#[test]
fn branch_offset_wraps_around_memory() {
    let mut cpu = CPU::new();
    cpu.pc = 0xfffe;
    cpu.mem_write(0xfffe, 0x05);
    cpu.branch(true);
    assert_eq!(cpu.pc, 0x0004);
    cpu.pc = 0x0001;
    cpu.mem_write(0x0001, 0xf0);
    cpu.branch(true);
    assert_eq!(cpu.pc, 0xfff2);
}

#[test]
fn jmp_indirect_page_bug() {
    let mut cpu = CPU::new();
    cpu.mem_write(0x30ff, 0x80);
    cpu.mem_write(0x3000, 0x50);
    cpu.mem_write(0x3100, 0x40);
    let _ = cpu.load_and_run(vec![0x6c, 0xff, 0x30]);
    // jumped to $5080, which holds BRK
    assert_eq!(cpu.pc, 0x5081);
}

#[test]
fn indirect_x_pointer_wraps_in_zero_page() {
    let mut cpu = CPU::new();
    cpu.mem_write(0x00ff, 0x34);
    cpu.mem_write(0x0000, 0x12);
    cpu.mem_write(0x0100, 0x77);
    cpu.mem_write(0x1234, 0x99);
    // LDX #$0F; LDA ($F0,X)
    let _ = cpu.load_and_run(vec![0xa2, 0x0f, 0xa1, 0xf0, 0x00]);
    assert_eq!(cpu.ra, 0x99);
}

#[test]
fn indirect_y_pointer_wraps_in_zero_page() {
    let mut cpu = CPU::new();
    cpu.mem_write(0x00ff, 0x30);
    cpu.mem_write(0x0000, 0x12);
    cpu.mem_write(0x1232, 0x66);
    // LDY #$02; LDA ($FF),Y
    let _ = cpu.load_and_run(vec![0xa0, 0x02, 0xb1, 0xff, 0x00]);
    assert_eq!(cpu.ra, 0x66);
}

#[test]
fn operand_addresses() {
    let mut cpu = CPU::new();
    cpu.pc = 0x0600;
    cpu.rx = 0x10;
    cpu.ry = 0x20;
    cpu.mem_write(0x0600, 0xf8);
    cpu.mem_write(0x0601, 0xff);
    assert_eq!(cpu.get_operand_address(AddressingMode::Immediate), 0x0600);
    assert_eq!(cpu.get_operand_address(AddressingMode::ZeroPage), 0x00f8);
    assert_eq!(cpu.get_operand_address(AddressingMode::ZeroPageX), 0x0008);
    assert_eq!(cpu.get_operand_address(AddressingMode::ZeroPageY), 0x0018);
    assert_eq!(cpu.get_operand_address(AddressingMode::Absolute), 0xfff8);
    assert_eq!(cpu.get_operand_address(AddressingMode::AbsoluteX), 0x0008);
    assert_eq!(cpu.get_operand_address(AddressingMode::AbsoluteY), 0x0018);
}

#[test]
fn memory_u16_little_endian_and_wraps() {
    let mut cpu = CPU::new();
    cpu.mem_write_u16(0x1000, 0xabcd);
    assert_eq!(cpu.mem_read(0x1000), 0xcd);
    assert_eq!(cpu.mem_read(0x1001), 0xab);
    assert_eq!(cpu.mem_read_u16(0x1000), 0xabcd);
    cpu.mem_write_u16(0xffff, 0x1234);
    assert_eq!(cpu.mem_read(0xffff), 0x34);
    assert_eq!(cpu.mem_read(0x0000), 0x12);
    assert_eq!(cpu.mem_read_u16(0xffff), 0x1234);
}

#[test]
fn new_and_reset_state() {
    let mut cpu = CPU::new();
    assert_eq!(cpu.rs, 0xfd);
    assert_eq!(cpu.rp.bits(), 0x24);
    cpu.load(vec![0xea]);
    assert_eq!(cpu.mem_read_u16(0xfffc), 0x0600);
    cpu.ra = 1;
    cpu.rx = 2;
    cpu.ry = 3;
    cpu.rs = 4;
    cpu.rp = ProcessorStatus::from_bits(0xff);
    cpu.reset();
    assert_eq!((cpu.ra, cpu.rx, cpu.ry, cpu.rs), (0, 0, 0, 0xfd));
    assert_eq!(cpu.rp.bits(), 0x24);
    assert_eq!(cpu.pc, 0x0600);
    assert_eq!(cpu.mem_read(0x0600), 0xea);
}

#[test]
fn unknown_opcode_is_reported() {
    let (cpu, r) = run_program(vec![0xe8, 0x02, 0x00]);
    assert_eq!(r, Err(CpuError::UnknownOpcode { opcode: 0x02, pc: 0x0601 }));
    assert_eq!(cpu.pc, 0x0601);
    assert_eq!(cpu.rx, 1);
}

#[test]
fn run_for_stops_at_budget() {
    let mut cpu = CPU::new();
    cpu.load(vec![0xe8, 0xe8, 0xe8, 0x00]);
    cpu.reset();
    assert_eq!(cpu.run_for(2), Ok(StepStatus::Running));
    assert_eq!(cpu.rx, 2);
    assert_eq!(cpu.run_for(5), Ok(StepStatus::Halted));
    assert_eq!(cpu.rx, 3);
}

#[test]
fn flag_instructions() {
    // SEC; SED; SEI; CLV
    let (cpu, _) = run_program(vec![0x38, 0xf8, 0x78, 0xb8, 0x00]);
    assert!(cpu.rp.contains(ProcessorStatus::CARRY));
    assert!(cpu.rp.contains(ProcessorStatus::DECIMAL_MODE));
    assert!(cpu.rp.contains(ProcessorStatus::INTERRUPT_DISABLE));
    // CLC; CLD; CLI
    let (cpu, _) = run_program(vec![0x38, 0x18, 0xd8, 0x58, 0x00]);
    assert!(!cpu.rp.contains(ProcessorStatus::CARRY));
    assert!(!cpu.rp.contains(ProcessorStatus::DECIMAL_MODE));
    assert!(!cpu.rp.contains(ProcessorStatus::INTERRUPT_DISABLE));
}

#[test]
fn transfers_and_stores() {
    // LDA #$05; TAY; TXS; TSX; STY $10; INC $10; LDX $10
    let (cpu, _) = run_program(vec![0xa9, 0x05, 0xa8, 0x9a, 0xba, 0x84, 0x10, 0xe6, 0x10, 0xa6, 0x10, 0x00]);
    assert_eq!(cpu.ry, 0x05);
    assert_eq!(cpu.rs, 0x00);
    assert_eq!(cpu.rx, 0x06);
    assert_eq!(cpu.mem_read(0x10), 0x06);
}

#[test]
fn rti_restores_status_and_pc() {
    let mut cpu = CPU::new();
    cpu.stack_push_u16(0x1234);
    cpu.stack_push(0xff);
    cpu.rti();
    assert_eq!(cpu.pc, 0x1234);
    assert_eq!(cpu.rp.bits(), 0xef);
    assert_eq!(cpu.rs, 0xfd);
}
