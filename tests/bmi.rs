use cpu65c02::cpu::instructions::bmi;
use cpu65c02::test_utils::{setup_test_with_ps, START_PROGRAM};
use cpu65c02::cpu::{CpuStatusFlags};

const OFFSET: u8 = 2;
#[test]

fn test_negative_set() {
    let (cpu, _) =
        setup_test_with_ps(
            None,
            None,
            None,
            None,
            Some(CpuStatusFlags::N),
            bmi::Opcode::PcRel.byte(),
            (0 - OFFSET as i8) as u8
        );
    assert!(cpu.assert_pc(START_PROGRAM));
}

#[test]
fn test_negative_clear() {
    let (cpu, _) =
        setup_test_with_ps(
            None,
            None,
            None,
            None,
            None,
            bmi::Opcode::PcRel.byte(),
            (0 - OFFSET as i8) as u8
        );
    assert!(cpu.assert_pc(START_PROGRAM + u16::from(OFFSET)));
}
