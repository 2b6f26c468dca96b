use cpu65c02::cpu::instructions::cmp;
use cpu65c02::test_utils::{setup_test, TestCpu, ABS_PTR, ZP_PTR, IND_PTR};
use cpu65c02::cpu::{CpuStatusFlags, Register};

const PTR_OFFSET: u8 = 0x02;

fn cmp_flags(cpu: TestCpu, c_flag: bool, z_flag: bool, n_flag: bool) {
    assert!(cpu.assert_status(CpuStatusFlags::C, c_flag));
    assert!(cpu.assert_status(CpuStatusFlags::Z, z_flag));
    assert!(cpu.assert_status(CpuStatusFlags::N, n_flag));
}

// Test each addressing with basic sum that does not set flags
#[test]
fn cmp_test_abs() {
    let (cpu, memory) =
        setup_test(
            Some(0x01),
            None,
            None,
            None,
            cmp::Opcode::Abs.byte(),
            0x01
        );
    assert!(cpu.assert_register(Register::A, 0x01));
    assert!(memory.assert_byte(ABS_PTR, 0x01));
}

#[test]
fn cmp_test_abs_x_idx() {
    let (cpu, memory) =
        setup_test(
            Some(0x01),
            Some(PTR_OFFSET),
            None,
            None,
            cmp::Opcode::AbsXIdx.byte(),
            0x01
        );
    assert!(cpu.assert_register(Register::A, 0x01));
    assert!(memory.assert_byte(ABS_PTR, 0x01));
}

#[test]
fn cmp_test_abs_y_idx() {
    let (cpu, memory) =
        setup_test(
            Some(0x01),
            None,
            Some(PTR_OFFSET),
            None,
            cmp::Opcode::AbsYIdx.byte(),
            0x01
        );
    assert!(cpu.assert_register(Register::A, 0x01));
    assert!(memory.assert_byte(ABS_PTR, 0x01));
}

#[test]
fn cmp_test_imm() {
    let (cpu, _) =
        setup_test(
            Some(0x01),
            None,
            None,
            None,
            cmp::Opcode::Imm.byte(),
            0x01
        );
    assert!(cpu.assert_register(Register::A, 0x01));
}

#[test]
fn cmp_test_zp() {
    let (cpu, memory) =
        setup_test(
            Some(0x01),
            None,
            None,
            None,
            cmp::Opcode::Zp.byte(),
            0x01
        );
    assert!(cpu.assert_register(Register::A, 0x01));
    assert!(memory.assert_byte(u16::from(ZP_PTR), 0x01));
}

#[test]
fn cmp_test_zp_x_idx() {
    let (cpu, memory) =
        setup_test(
            Some(0x01),
            Some(PTR_OFFSET),
            None,
            None,
            cmp::Opcode::ZpXIdx.byte(),
            0x01
        );
    assert!(cpu.assert_register(Register::A, 0x01));
    assert!(memory.assert_byte(u16::from(ZP_PTR), 0x01));
}

#[test]
fn cmp_test_zp_ind() {
    let (cpu, memory) =
        setup_test(
            Some(0x01),
            None,
            None,
            None,
            cmp::Opcode::ZpInd.byte(),
            0x01
        );
    assert!(cpu.assert_register(Register::A, 0x01));
    assert!(memory.assert_byte(IND_PTR, 0x01));
}

#[test]
fn cmp_test_zp_x_idx_ind() {
    let (cpu, memory) =
        setup_test(
            Some(0x01),
            Some(PTR_OFFSET),
            None,
            None,
            cmp::Opcode::ZpXIdxInd.byte(),
            0x01
        );
    assert!(cpu.assert_register(Register::A, 0x01));
    assert!(memory.assert_byte(IND_PTR, 0x01));
}

#[test]
fn cmp_test_zp_ind_y_idx() {
    let (cpu, memory) =
        setup_test(
            Some(0x01),
            None,
            Some(PTR_OFFSET),
            None,
            cmp::Opcode::ZpIndYIdx.byte(),
            0x01
        );
    assert!(cpu.assert_register(Register::A, 0x01));
    assert!(memory.assert_byte(IND_PTR, 0x01));
}

#[test]
fn cmp_test_op_flags() {
    let test_cases: Vec<(u8, u8, bool, bool, bool)> = vec![
        (0x50, 0xf0, false, false, false),
        (0x50, 0xb0, false, false, true),
        (0x50, 0x30, true, false, false),
        (0xd0, 0x30, true, false, true),
        (0x03, 0x03, true, true, false)
    ];
    for (a_reg, data, c_flag, z_flag, n_flag) in test_cases {
        let (cpu, _) =
            setup_test(
                Some(a_reg),
                None,
                None,
                None,
                cmp::Opcode::Imm.byte(),
                data
            );
        cmp_flags(cpu, c_flag, z_flag, n_flag);
    }
}
