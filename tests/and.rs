use cpu65c02::cpu::instructions::and;
use cpu65c02::test_utils::{setup_test, TestCpu};
use cpu65c02::cpu::{CpuStatusFlags, Register};

const PTR_OFFSET: u8 = 0x02;

fn and_flags(cpu: TestCpu, z_flag: bool, n_flag: bool) {
    assert!(cpu.assert_status(CpuStatusFlags::Z, z_flag));
    assert!(cpu.assert_status(CpuStatusFlags::N, n_flag));
}

// Test each addressing with basic sum that does not set flags
#[test]
fn and_test_abs() {
    let (cpu, _) =
        setup_test(
            Some(0x01),
            None,
            None,
            None,
            and::Opcode::Abs.byte(),
            0x01
        );
    assert!(cpu.assert_register(Register::A, 0x01));
}

#[test]
fn and_test_abs_x_idx() {
    let (cpu, _) =
        setup_test(
            Some(0x01),
            Some(PTR_OFFSET),
            None,
            None,
            and::Opcode::AbsXIdx.byte(),
            0x01
        );
    assert!(cpu.assert_register(Register::A, 0x01));
}

#[test]
fn and_test_abs_y_idx() {
    let (cpu, _) =
        setup_test(
            Some(0x01),
            None,
            Some(PTR_OFFSET),
            None,
            and::Opcode::AbsYIdx.byte(),
            0x01
        );
    assert!(cpu.assert_register(Register::A, 0x01));
}

#[test]
fn and_test_imm() {
    let (cpu, _) =
        setup_test(
            Some(0x01),
            None,
            None,
            None,
            and::Opcode::Imm.byte(),
            0x01
        );
    assert!(cpu.assert_register(Register::A, 0x01));
}

#[test]
fn and_test_zp() {
    let (cpu, _) =
        setup_test(
            Some(0x01),
            None,
            None,
            None,
            and::Opcode::Zp.byte(),
            0x01
        );
    assert!(cpu.assert_register(Register::A, 0x01));
}

#[test]
fn and_test_zp_x_idx() {
    let (cpu, _) =
        setup_test(
            Some(0x01),
            Some(PTR_OFFSET),
            None,
            None,
            and::Opcode::ZpXIdx.byte(),
            0x01
        );
    assert!(cpu.assert_register(Register::A, 0x01));
}

#[test]
fn and_test_zp_ind() {
    let (cpu, _) =
        setup_test(
            Some(0x01),
            None,
            None,
            None,
            and::Opcode::ZpInd.byte(),
            0x01
        );
    assert!(cpu.assert_register(Register::A, 0x01));
}

#[test]
fn and_test_zp_x_idx_ind() {
    let (cpu, _) =
        setup_test(
            Some(0x01),
            Some(PTR_OFFSET),
            None,
            None,
            and::Opcode::ZpXIdxInd.byte(),
            0x01
        );
    assert!(cpu.assert_register(Register::A, 0x01));
}

#[test]
fn and_test_zp_ind_y_idx() {
    let (cpu, _) =
        setup_test(
            Some(0x01),
            None,
            Some(PTR_OFFSET),
            None,
            and::Opcode::ZpIndYIdx.byte(),
            0x01
        );
    assert!(cpu.assert_register(Register::A, 0x01));
}

// Running unit tests for flags and operation 
#[test]
fn and_test_op_flags() {
    let test_cases: Vec<(u8, u8, u8, bool, bool)> = vec![
        (0xFF, 0xAA, 0xAA, false, true),
        (0xCC, 0x66, 0x44, false, false),
        (0xFE, 0x01, 0x00, true, false)
    ];
    for (a_reg, data, result, z_flag, n_flag) in test_cases {
        let (cpu, _) =
            setup_test(
                Some(a_reg),
                None,
                None,
                None,
                and::Opcode::Imm.byte(),
                data
            );
        assert!(cpu.assert_register(Register::A, result));
        and_flags(cpu, z_flag, n_flag);
    }
}
