use cpu65c02::cpu::instructions::beq;
use cpu65c02::test_utils::{setup_test_with_ps, START_PROGRAM};
use cpu65c02::cpu::{CpuStatusFlags};

const OFFSET: u8 = 2;
#[test]

fn test_zero_set() {
    let (cpu, _) =
        setup_test_with_ps(
            None,
            None,
            None,
            None,
            Some(CpuStatusFlags::Z),
            beq::Opcode::PcRel.byte(),
            (0 - OFFSET as i8) as u8
        );
    assert!(cpu.assert_pc(START_PROGRAM));
}

#[test]
fn test_zero_clear() {
    let (cpu, _) =
        setup_test_with_ps(
            None,
            None,
            None,
            None,
            None,
            beq::Opcode::PcRel.byte(),
            (0 - OFFSET as i8) as u8
        );
    assert!(cpu.assert_pc(START_PROGRAM + u16::from(OFFSET)));
}
