use cpu65c02::cpu::instructions::bvc;
use cpu65c02::test_utils::{setup_test_with_ps, START_PROGRAM};
use cpu65c02::cpu::{CpuStatusFlags};

const OFFSET: u8 = 2;
#[test]

fn bvc_test_overflow_set() {
    let (cpu, _) =
        setup_test_with_ps(
            None,
            None,
            None,
            None,
            Some(CpuStatusFlags::V),
            bvc::Opcode::PcRel.byte(),
            (0 - OFFSET as i8) as u8
        );
    assert!(cpu.assert_pc(START_PROGRAM + u16::from(OFFSET)));
}

#[test]
fn bvc_test_overflow_clear() {
    let (cpu, _) =
        setup_test_with_ps(
            None,
            None,
            None,
            None,
            None,
            bvc::Opcode::PcRel.byte(),
            (0 - OFFSET as i8) as u8
        );
    assert!(cpu.assert_pc(START_PROGRAM));
}
