use cpu65c02::cpu::instructions::clv;
use cpu65c02::test_utils::{setup_test_with_ps};
use cpu65c02::cpu::{CpuStatusFlags};

#[test]
fn clv_test_operation() {
    let (cpu, _) =
        setup_test_with_ps(
            None,
            None,
            None,
            None,
            Some(CpuStatusFlags::V),
            clv::Opcode::Imp.byte(),
            0x00
        );
    assert!(cpu.assert_status(CpuStatusFlags::V, false));
}
