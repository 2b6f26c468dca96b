use cpu65c02::cpu::instructions::brk;
use cpu65c02::cpu::{Cpu, Register};
use cpu65c02::memory::Memory;
use cpu65c02::test_utils::{TestCpu, TestMemory, RESET_VECTOR_ADDRESS, START_PROGRAM};

const INT_VECTOR: u16 = 0xFFFE;
const START_INTERRUPT: u16 = 0xA000;

#[test]
fn test_program_interrupt() {
    let mut test_memory = Memory::build_memory();
    // setup vectors
    test_memory.write_word(INT_VECTOR, START_INTERRUPT);
    test_memory.write_word(RESET_VECTOR_ADDRESS, START_PROGRAM);
    // write program
    test_memory.write_byte(START_PROGRAM, brk::Opcode::IntSetup.byte());
    
    let mut test_cpu = Cpu::build_cpu();
    test_cpu.reset(&test_memory);
    let ps = test_cpu.get_processor_status();
    for _ in 0..7 {
        test_cpu.exec_cycle(&mut test_memory);
    }

    // Make assertions
    let cpu = TestCpu::clone_from_cpu(&test_cpu);
    let memory = TestMemory::clone_from_memory(&test_memory);
    assert!(cpu.assert_pc(START_INTERRUPT));
    assert!(cpu.assert_register(Register::SP, 0xFF - 3));
    assert!(memory.assert_word(0x01FE, START_PROGRAM + 2));
    assert!(memory.assert_byte(0x01FD, ps));
}
