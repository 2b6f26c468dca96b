use cpu65c02::cpu::instructions::bra;
use cpu65c02::test_utils::{setup_test, START_PROGRAM};

const OFFSET: u8 = 2; 

#[test]
fn bra_test_operation() {
    let (cpu, _) =
        setup_test(
            None,
            None,
            None,
            None,
            bra::Opcode::PcRel.byte(),
            (0 - OFFSET as i8) as u8
        );
    assert!(cpu.assert_pc(START_PROGRAM));
}
