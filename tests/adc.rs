use cpu65c02::cpu::instructions::adc;
use cpu65c02::test_utils::{setup_test, TestCpu};
use cpu65c02::cpu::{CpuStatusFlags, Register};

const PTR_OFFSET: u8 = 0x02;

fn adc_flags(cpu: TestCpu, c_flag: bool, z_flag: bool, v_flag: bool, n_flag: bool) {
    assert!(cpu.assert_status(CpuStatusFlags::C, c_flag));
    assert!(cpu.assert_status(CpuStatusFlags::Z, z_flag));
    assert!(cpu.assert_status(CpuStatusFlags::V, v_flag));
    assert!(cpu.assert_status(CpuStatusFlags::N, n_flag));
}

// Test each addressing with basic sum that does not set flags
#[test]
fn adc_test_abs() {
    let (cpu, _) =
        setup_test(
            Some(0x01),
            None,
            None,
            None,
            adc::Opcode::Abs.byte(),
            0x01
        );
    assert!(cpu.assert_register(Register::A, 0x02));
}

#[test]
fn adc_test_abs_x_idx() {
    let (cpu, _) =
        setup_test(
            Some(0x01),
            Some(PTR_OFFSET),
            None,
            None,
            adc::Opcode::AbsXIdx.byte(),
            0x01
        );
    assert!(cpu.assert_register(Register::A, 0x02));
}

#[test]
fn adc_test_abs_y_idx() {
    let (cpu, _) =
        setup_test(
            Some(0x01),
            None,
            Some(PTR_OFFSET),
            None,
            adc::Opcode::AbsYIdx.byte(),
            0x01
        );
    assert!(cpu.assert_register(Register::A, 0x02));
}

#[test]
fn adc_test_imm() {
    let (cpu, _) =
        setup_test(
            Some(0x01),
            None,
            None,
            None,
            adc::Opcode::Imm.byte(),
            0x01
        );
    assert!(cpu.assert_register(Register::A, 0x02));
}

#[test]
fn adc_test_zp() {
    let (cpu, _) =
        setup_test(
            Some(0x01),
            None,
            None,
            None,
            adc::Opcode::Zp.byte(),
            0x01
        );
    assert!(cpu.assert_register(Register::A, 0x02));
}

#[test]
fn adc_test_zp_x_idx() {
    let (cpu, _) =
        setup_test(
            Some(0x01),
            Some(PTR_OFFSET),
            None,
            None,
            adc::Opcode::ZpXIdx.byte(),
            0x01
        );
    assert!(cpu.assert_register(Register::A, 0x02));
}

#[test]
fn adc_test_zp_ind() {
    let (cpu, _) =
        setup_test(
            Some(0x01),
            None,
            None,
            None,
            adc::Opcode::ZpInd.byte(),
            0x01
        );
    assert!(cpu.assert_register(Register::A, 0x02));
}

#[test]
fn adc_test_zp_x_idx_ind() {
    let (cpu, _) =
        setup_test(
            Some(0x01),
            Some(PTR_OFFSET),
            None,
            None,
            adc::Opcode::ZpXIdxInd.byte(),
            0x01
        );
    assert!(cpu.assert_register(Register::A, 0x02));
}

#[test]
fn adc_test_zp_ind_y_idx() {
    let (cpu, _) =
        setup_test(
            Some(0x01),
            None,
            Some(PTR_OFFSET),
            None,
            adc::Opcode::ZpIndYIdx.byte(),
            0x01
        );
    assert!(cpu.assert_register(Register::A, 0x02));
}

// Running unit tests for flags, based on following link: http://www.righto.com/2012/12/the-6502-overflow-flag-explained.html
// Added extra cases for testing the zero flag 
#[test]
fn adc_test_op_flags() {
    let test_cases: Vec<(u8, u8, u8, bool, bool, bool, bool)> = vec![
        (0x50, 0x10, 0x60, false, false, false, false),
        (0x50, 0x50, 0xa0, false, false, true, true),
        (0x50, 0x90, 0xe0, false, false, false, true),
        (0x50, 0xd0, 0x20, true, false, false, false),
        (0xd0, 0x10, 0xe0, false, false, false, true),
        (0xd0, 0x50, 0x20, true, false, false, false),
        (0xd0, 0x90, 0x60, true, false, true, false),
        (0xd0, 0xd0, 0xa0, true, false, false, true),
        (0x00, 0x00, 0x00, false, true, false, false),
        (0xFF, 0x01, 0x00, true, true, false, false)
    ];
    for (a_reg, data, result, c_flag, z_flag, v_flag, n_flag) in test_cases {
        let (cpu, _) =
            setup_test(
                Some(a_reg),
                None,
                None,
                None,
                adc::Opcode::Imm.byte(),
                data
            );
        assert!(cpu.assert_register(Register::A, result));
        adc_flags(cpu, c_flag, z_flag, v_flag, n_flag);
    }
}
