use cpu65c02::cpu::instructions::{inc, lsr, ror, stz, trb, tsb};
use cpu65c02::cpu::{Cpu, CpuStatusFlags, Register};
use cpu65c02::memory::Memory;
use cpu65c02::test_utils::{setup_test, setup_test_with_ps, ABS_PTR, START_PROGRAM, ZP_PTR};

fn boot(bytes: &[u8], extra: &[(u16, u8)]) -> (Cpu, Memory) {
    let mut memory = Memory::build_memory();
    memory.write_word(0xFFFC, START_PROGRAM);
    for (i, b) in bytes.iter().enumerate() {
        memory.write_byte(START_PROGRAM + i as u16, *b);
    }
    for (address, b) in extra {
        memory.write_byte(*address, *b);
    }
    let mut cpu = Cpu::build_cpu();
    cpu.reset(&memory);
    (cpu, memory)
}

fn run_ticks(cpu: &mut Cpu, memory: &mut Memory, n: usize) {
    for _ in 0..n {
        assert!(cpu.can_execute());
        cpu.exec_cycle(memory);
    }
}

#[test]
fn lsr_shifts_bit_zero_into_carry() {
    let (cpu, _) = setup_test(Some(0x81), None, None, None, lsr::Opcode::Acc.byte(), 0x00);
    assert!(cpu.assert_register(Register::A, 0x40));
    assert!(cpu.assert_status(CpuStatusFlags::C, true));
    assert!(cpu.assert_status(CpuStatusFlags::N, false));
    assert!(cpu.assert_status(CpuStatusFlags::Z, false));
}

#[test]
fn ror_memory_takes_carry_into_bit_seven() {
    let (cpu, memory) =
        setup_test_with_ps(None, None, None, None, Some(CpuStatusFlags::C), ror::Opcode::Abs.byte(), 0x02);
    assert!(memory.assert_byte(ABS_PTR, 0x81));
    assert!(cpu.assert_status(CpuStatusFlags::C, false));
    assert!(cpu.assert_status(CpuStatusFlags::N, true));
}

#[test]
fn inc_wraps_memory_to_zero() {
    let (cpu, memory) = setup_test(None, None, None, None, inc::Opcode::Zp.byte(), 0xFF);
    assert!(memory.assert_byte(ZP_PTR as u16, 0x00));
    assert!(cpu.assert_status(CpuStatusFlags::Z, true));
    assert!(cpu.assert_status(CpuStatusFlags::N, false));
}

#[test]
fn trb_and_tsb_clear_and_set_bits() {
    let (cpu, memory) = setup_test(Some(0x0F), None, None, None, trb::Opcode::Abs.byte(), 0x3C);
    assert!(memory.assert_byte(ABS_PTR, 0x30));
    assert!(cpu.assert_status(CpuStatusFlags::Z, false));
    let (cpu, memory) = setup_test(Some(0x03), None, None, None, tsb::Opcode::Zp.byte(), 0x30);
    assert!(memory.assert_byte(ZP_PTR as u16, 0x33));
    assert!(cpu.assert_status(CpuStatusFlags::Z, true));
}

#[test]
fn stz_writes_zero() {
    let (_, memory) = setup_test(None, Some(0x02), None, None, stz::Opcode::AbsXIdx.byte(), 0x99);
    assert!(memory.assert_byte(ABS_PTR, 0x00));
}

#[test]
fn branch_offset_applies_to_the_low_byte_only() {
    // At 0x80FD: BRA +4 lands on 0x8003 (low byte wraps, high byte kept).
    let mut memory = Memory::build_memory();
    memory.write_word(0xFFFC, 0x80FD);
    memory.write_byte(0x80FD, 0x80);
    memory.write_byte(0x80FE, 0x04);
    let mut cpu = Cpu::build_cpu();
    cpu.reset(&memory);
    run_ticks(&mut cpu, &mut memory, 2);
    assert_eq!(cpu.get_program_counter(), 0x8003);
}

#[test]
fn jump_absolute_x_indexed_indirect() {
    // JMP ($6000,X) with X = 2 and $6002 = $1234.
    let (mut cpu, mut memory) = boot(&[0x7C, 0x00, 0x60], &[(0x6002, 0x34), (0x6003, 0x12)]);
    cpu.set_register(Register::X, 0x02);
    run_ticks(&mut cpu, &mut memory, 6);
    assert_eq!(cpu.get_program_counter(), 0x1234);
}

#[test]
fn interrupt_return_restores_status_and_pc() {
    // BRK to 0x9000, where RTI returns to the byte after the BRK padding.
    let (mut cpu, mut memory) = boot(&[0x00, 0xEA], &[(0xFFFE, 0x00), (0xFFFF, 0x90), (0x9000, 0x40)]);
    cpu.set_flag(CpuStatusFlags::C);
    run_ticks(&mut cpu, &mut memory, 7);
    cpu.clear_flag(CpuStatusFlags::C);
    run_ticks(&mut cpu, &mut memory, 6);
    assert_eq!(cpu.get_program_counter(), 0x8002);
    assert_eq!(cpu.get_register(Register::SP), 0xFF);
    assert!(cpu.is_set(CpuStatusFlags::C));
    assert!(!cpu.is_set(CpuStatusFlags::I));
}

#[test]
fn reset_sets_documented_state() {
    let (cpu, _) = boot(&[], &[]);
    assert_eq!(cpu.get_register(Register::SP), 0xFF);
    assert_eq!(cpu.get_program_counter(), START_PROGRAM);
    assert!(cpu.is_set(CpuStatusFlags::B));
    assert!(!cpu.is_set(CpuStatusFlags::I));
    assert!(!cpu.is_set(CpuStatusFlags::D));
    assert_eq!(cpu.get_processor_status(), 0x30);
}

#[test]
fn flag_instructions() {
    // SEC; SED; SEI; CLD; CLI
    let (mut cpu, mut memory) = boot(&[0x38, 0xF8, 0x78, 0xD8, 0x58], &[]);
    run_ticks(&mut cpu, &mut memory, 6);
    assert!(cpu.is_set(CpuStatusFlags::C));
    assert!(cpu.is_set(CpuStatusFlags::D));
    assert!(cpu.is_set(CpuStatusFlags::I));
    run_ticks(&mut cpu, &mut memory, 4);
    assert!(!cpu.is_set(CpuStatusFlags::D));
    assert!(!cpu.is_set(CpuStatusFlags::I));
}

#[test]
fn index_increments_and_decrements_wrap() {
    // INX; INY; DEY; DEY
    let (mut cpu, mut memory) = boot(&[0xE8, 0xC8, 0x88, 0x88], &[]);
    cpu.set_register(Register::X, 0xFF);
    run_ticks(&mut cpu, &mut memory, 2);
    assert_eq!(cpu.get_register(Register::X), 0x00);
    assert!(cpu.is_set(CpuStatusFlags::Z));
    run_ticks(&mut cpu, &mut memory, 6);
    assert_eq!(cpu.get_register(Register::Y), 0xFF);
    assert!(cpu.is_set(CpuStatusFlags::N));
}
