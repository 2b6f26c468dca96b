use cpu65c02::cpu::addressing_types::AddressingType;
use cpu65c02::cpu::instructions::{adc, bit, cmp, lda, sbc};
use cpu65c02::cpu::{Cpu, CpuStatusFlags, Register};
use cpu65c02::memory::Memory;
use cpu65c02::test_utils::{setup_test, setup_test_with_ps, START_PROGRAM};

/// A processor reset against a memory holding `bytes` from `START_PROGRAM` on,
/// plus `extra` bytes at given addresses.
fn boot(bytes: &[u8], extra: &[(u16, u8)]) -> (Cpu, Memory) {
    let mut memory = Memory::build_memory();
    memory.write_word(0xFFFC, START_PROGRAM);
    for (i, b) in bytes.iter().enumerate() {
        memory.write_byte(START_PROGRAM + i as u16, *b);
    }
    for (address, b) in extra {
        memory.write_byte(*address, *b);
    }
    let mut cpu = Cpu::build_cpu();
    cpu.reset(&memory);
    (cpu, memory)
}

fn ticks(cpu: &mut Cpu, memory: &mut Memory, n: usize) {
    for _ in 0..n {
        assert!(cpu.can_execute());
        cpu.exec_cycle(memory);
    }
}

#[test]
fn adc_signed_overflow_into_negative() {
    let (cpu, _) = setup_test(Some(0x50), None, None, None, adc::Opcode::Imm.byte(), 0x50);
    assert!(cpu.assert_register(Register::A, 0xA0));
    assert!(cpu.assert_status(CpuStatusFlags::C, false));
    assert!(cpu.assert_status(CpuStatusFlags::Z, false));
    assert!(cpu.assert_status(CpuStatusFlags::V, true));
    assert!(cpu.assert_status(CpuStatusFlags::N, true));
}

#[test]
fn adc_unsigned_carry_to_zero() {
    let (cpu, _) = setup_test(Some(0xFF), None, None, None, adc::Opcode::Imm.byte(), 0x01);
    assert!(cpu.assert_register(Register::A, 0x00));
    assert!(cpu.assert_status(CpuStatusFlags::C, true));
    assert!(cpu.assert_status(CpuStatusFlags::Z, true));
    assert!(cpu.assert_status(CpuStatusFlags::V, false));
    assert!(cpu.assert_status(CpuStatusFlags::N, false));
}

#[test]
fn adc_adds_the_carry_in() {
    let (cpu, _) =
        setup_test_with_ps(Some(0x01), None, None, None, Some(CpuStatusFlags::C), adc::Opcode::Imm.byte(), 0x01);
    assert!(cpu.assert_register(Register::A, 0x03));
    assert!(cpu.assert_status(CpuStatusFlags::C, false));
}

#[test]
fn sbc_with_borrow_clear() {
    let (cpu, _) =
        setup_test_with_ps(Some(0x50), None, None, None, Some(CpuStatusFlags::C), sbc::Opcode::Imm.byte(), 0xF0);
    assert!(cpu.assert_register(Register::A, 0x60));
    assert!(cpu.assert_status(CpuStatusFlags::C, false));
    assert!(cpu.assert_status(CpuStatusFlags::V, false));
}

#[test]
fn sbc_matches_adc_of_complement() {
    let (with_sbc, _) =
        setup_test_with_ps(Some(0x50), None, None, None, Some(CpuStatusFlags::C), sbc::Opcode::Imm.byte(), 0xB0);
    let (with_adc, _) =
        setup_test_with_ps(Some(0x50), None, None, None, Some(CpuStatusFlags::C), adc::Opcode::Imm.byte(), !0xB0u8);
    assert_eq!(with_sbc, with_adc);
    assert!(with_sbc.assert_register(Register::A, 0xA0));
    assert!(with_sbc.assert_status(CpuStatusFlags::V, true));
}

#[test]
fn cmp_greater_and_equal() {
    let (cpu, _) = setup_test(Some(0x50), None, None, None, cmp::Opcode::Imm.byte(), 0x30);
    assert!(cpu.assert_status(CpuStatusFlags::C, true));
    assert!(cpu.assert_status(CpuStatusFlags::Z, false));
    assert!(cpu.assert_status(CpuStatusFlags::N, false));
    let (cpu, _) = setup_test(Some(0x42), None, None, None, cmp::Opcode::Imm.byte(), 0x42);
    assert!(cpu.assert_status(CpuStatusFlags::Z, true));
    assert!(cpu.assert_status(CpuStatusFlags::C, true));
    assert!(cpu.assert_register(Register::A, 0x42));
}

#[test]
fn bit_takes_n_and_v_from_the_operand() {
    for a in [0x00u8, 0x3F, 0x40, 0xFF] {
        let (cpu, _) = setup_test(Some(a), None, None, None, bit::Opcode::Abs.byte(), 0xC0);
        assert!(cpu.assert_status(CpuStatusFlags::N, true));
        assert!(cpu.assert_status(CpuStatusFlags::V, true));
        assert!(cpu.assert_status(CpuStatusFlags::Z, a & 0xC0 == 0));
    }
}

#[test]
fn bit_immediate_only_sets_z() {
    let (cpu, _) = setup_test(Some(0x01), None, None, None, bit::Opcode::Imm.byte(), 0xC0);
    assert!(cpu.assert_status(CpuStatusFlags::Z, true));
    assert!(cpu.assert_status(CpuStatusFlags::N, false));
    assert!(cpu.assert_status(CpuStatusFlags::V, false));
}

#[test]
fn load_and_store() {
    let (mut cpu, mut memory) = boot(&[0xA9, 0x42, 0x8D, 0x00, 0x90], &[]);
    ticks(&mut cpu, &mut memory, 6);
    assert_eq!(cpu.get_register(Register::A), 0x42);
    assert_eq!(memory.read_byte(0x9000), 0x42);
}

#[test]
fn loop_with_decrement_and_branch() {
    let (mut cpu, mut memory) = boot(&[0xA2, 0x03, 0xCA, 0xD0, 0xFD], &[]);
    let mut count = 0;
    while cpu.get_program_counter() != 0x8005 {
        ticks(&mut cpu, &mut memory, 1);
        count += 1;
        assert!(count < 100);
    }
    assert_eq!(cpu.get_register(Register::X), 0x00);
    assert!(cpu.is_set(CpuStatusFlags::Z));
}

#[test]
fn subroutine_call_and_return() {
    let (mut cpu, mut memory) =
        boot(&[0x20, 0x10, 0x80, 0xA9, 0x01, 0x00], &[(0x8010, 0xA9), (0x8011, 0x99), (0x8012, 0x60)]);
    // JSR: fetch and five execute ticks; LDA #$99: fetch and one; RTS: fetch and five.
    ticks(&mut cpu, &mut memory, 14);
    assert_eq!(cpu.get_register(Register::A), 0x99);
    assert_eq!(cpu.get_program_counter(), 0x8003);
    assert_eq!(cpu.get_register(Register::SP), 0xFF);
    assert_eq!(memory.read_word(0x01FE), 0x8002);
}

#[test]
fn break_enters_the_interrupt_vector() {
    let (mut cpu, mut memory) = boot(&[0x00], &[(0xFFFE, 0x00), (0xFFFF, 0xA0)]);
    let ps = cpu.get_processor_status();
    ticks(&mut cpu, &mut memory, 7);
    assert_eq!(cpu.get_register(Register::SP), 0xFC);
    assert_eq!(memory.read_word(0x01FE), 0x8002);
    assert_eq!(memory.read_byte(0x01FD), ps);
    assert_eq!(cpu.get_program_counter(), 0xA000);
    assert!(cpu.is_set(CpuStatusFlags::I));
}

#[test]
fn break_loads_both_vector_bytes() {
    let (mut cpu, mut memory) = boot(&[0x00], &[(0xFFFE, 0x34), (0xFFFF, 0x12)]);
    ticks(&mut cpu, &mut memory, 7);
    assert_eq!(cpu.get_program_counter(), 0x1234);
}

#[test]
fn rotate_left_through_carry() {
    let (mut cpu, mut memory) = boot(&[0x2A, 0x2A], &[]);
    cpu.set_register(Register::A, 0x80);
    cpu.clear_flag(CpuStatusFlags::C);
    ticks(&mut cpu, &mut memory, 2);
    assert_eq!(cpu.get_register(Register::A), 0x00);
    assert!(cpu.is_set(CpuStatusFlags::C));
    assert!(cpu.is_set(CpuStatusFlags::Z));
    ticks(&mut cpu, &mut memory, 2);
    assert_eq!(cpu.get_register(Register::A), 0x01);
    assert!(!cpu.is_set(CpuStatusFlags::C));
    assert!(!cpu.is_set(CpuStatusFlags::Z));
}

#[test]
fn stack_wraps_within_page_one() {
    // PHA; LDA #$00; PLA
    let (mut cpu, mut memory) = boot(&[0x48, 0xA9, 0x00, 0x68], &[]);
    cpu.set_register(Register::SP, 0x00);
    cpu.set_register(Register::A, 0x5A);
    ticks(&mut cpu, &mut memory, 3);
    assert_eq!(memory.read_byte(0x0100), 0x5A);
    assert_eq!(cpu.get_register(Register::SP), 0xFF);
    ticks(&mut cpu, &mut memory, 2);
    assert_eq!(cpu.get_register(Register::A), 0x00);
    ticks(&mut cpu, &mut memory, 4);
    assert_eq!(cpu.get_register(Register::A), 0x5A);
    assert_eq!(cpu.get_register(Register::SP), 0x00);
}

#[test]
fn fetches_are_a_mode_cycle_count_apart() {
    // LDA $1234 (absolute, four clocks), then NOP.
    let (mut cpu, mut memory) = boot(&[0xAD, 0x34, 0x12, 0xEA], &[]);
    assert_eq!(cpu.get_addressing_type_for_opcode(0xAD), AddressingType::Absolute);
    assert_eq!(cpu.get_clocks_for_addressing_type(AddressingType::Absolute), 4);
    ticks(&mut cpu, &mut memory, 1);
    assert_eq!(cpu.get_program_counter(), 0x8001);
    ticks(&mut cpu, &mut memory, 3);
    assert_eq!(cpu.get_program_counter(), 0x8003);
    ticks(&mut cpu, &mut memory, 1);
    assert_eq!(cpu.get_program_counter(), 0x8004);
}

#[test]
fn reserved_status_bit_survives_plp() {
    // LDA #$00; PHA; PLP
    let (mut cpu, mut memory) = boot(&[0xA9, 0x00, 0x48, 0x28], &[]);
    ticks(&mut cpu, &mut memory, 2 + 3 + 4);
    assert_eq!(cpu.get_processor_status(), 0x20);
}

#[test]
fn alu_flags_do_not_depend_on_prior_n_and_v() {
    let (plain, _) = setup_test(Some(0x10), None, None, None, adc::Opcode::Imm.byte(), 0x20);
    let (with_v, _) =
        setup_test_with_ps(Some(0x10), None, None, None, Some(CpuStatusFlags::V), adc::Opcode::Imm.byte(), 0x20);
    let (with_n, _) =
        setup_test_with_ps(Some(0x10), None, None, None, Some(CpuStatusFlags::N), adc::Opcode::Imm.byte(), 0x20);
    assert_eq!(plain, with_v);
    assert_eq!(plain, with_n);
}

#[test]
fn transfer_round_trip() {
    // TAX; TXA; TAY; TYA; TSX; TXS
    let (mut cpu, mut memory) = boot(&[0xAA, 0x8A, 0xA8, 0x98, 0xBA, 0x9A], &[]);
    cpu.set_register(Register::A, 0x42);
    ticks(&mut cpu, &mut memory, 4);
    assert_eq!(cpu.get_register(Register::A), 0x42);
    assert_eq!(cpu.get_register(Register::X), 0x42);
    ticks(&mut cpu, &mut memory, 4);
    assert_eq!(cpu.get_register(Register::A), 0x42);
    assert_eq!(cpu.get_register(Register::Y), 0x42);
    ticks(&mut cpu, &mut memory, 4);
    assert_eq!(cpu.get_register(Register::X), 0xFF);
    assert_eq!(cpu.get_register(Register::SP), 0xFF);
    assert!(cpu.is_set(CpuStatusFlags::N));
}

#[test]
fn push_pull_round_trip() {
    // PHX; LDX #$00; PLX; PHP; PLP
    let (mut cpu, mut memory) = boot(&[0xDA, 0xA2, 0x00, 0xFA, 0x08, 0x28], &[]);
    cpu.set_register(Register::X, 0x77);
    cpu.set_flag(CpuStatusFlags::C);
    cpu.set_flag(CpuStatusFlags::V);
    let status = cpu.get_processor_status();
    ticks(&mut cpu, &mut memory, 3 + 2 + 4);
    assert_eq!(cpu.get_register(Register::X), 0x77);
    assert_eq!(cpu.get_register(Register::SP), 0xFF);
    ticks(&mut cpu, &mut memory, 3 + 4);
    assert_eq!(cpu.get_register(Register::SP), 0xFF);
    assert!(cpu.is_set(CpuStatusFlags::C));
    assert!(cpu.is_set(CpuStatusFlags::V));
    assert_eq!(cpu.get_processor_status() & 0xC3, status & 0xC3);
}

#[test]
fn loads_set_zero_and_negative_from_the_value() {
    let (cpu, _) = setup_test(None, None, None, None, lda::Opcode::Imm.byte(), 0x00);
    assert!(cpu.assert_status(CpuStatusFlags::Z, true));
    assert!(cpu.assert_status(CpuStatusFlags::N, false));
    let (cpu, _) = setup_test(None, None, None, None, lda::Opcode::Imm.byte(), 0x80);
    assert!(cpu.assert_status(CpuStatusFlags::Z, false));
    assert!(cpu.assert_status(CpuStatusFlags::N, true));
}

#[test]
fn jump_indirect_reads_the_pointer_little_endian() {
    // JMP ($6000) with $6000 = $7000.
    let (mut cpu, mut memory) = boot(&[0x6C, 0x00, 0x60], &[(0x6000, 0x00), (0x6001, 0x70)]);
    ticks(&mut cpu, &mut memory, 6);
    assert_eq!(cpu.get_program_counter(), 0x7000);
}

#[test]
fn unknown_opcode_stops_the_processor() {
    let (mut cpu, mut memory) = boot(&[0x02], &[]);
    assert!(cpu.can_execute());
    cpu.exec_cycle(&mut memory);
    assert!(!cpu.can_execute());
}

#[test]
fn opcode_bytes_decode_to_their_mode() {
    let cpu = Cpu::build_cpu();
    assert_eq!(cpu.get_addressing_type_for_opcode(lda::Opcode::ZpXIdxInd.byte()), AddressingType::ZeroPageXIndexedIndirect);
    assert_eq!(cpu.get_addressing_type_for_opcode(0x20), AddressingType::SubroutineJump);
    assert_eq!(cpu.get_processor_status(), 0x20);
}
