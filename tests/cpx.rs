use cpu65c02::cpu::instructions::cpx;
use cpu65c02::test_utils::{setup_test, TestCpu, ABS_PTR, ZP_PTR};
use cpu65c02::cpu::{CpuStatusFlags, Register};

fn cpx_flags(cpu: TestCpu, c_flag: bool, z_flag: bool, n_flag: bool) {
    assert!(cpu.assert_status(CpuStatusFlags::C, c_flag));
    assert!(cpu.assert_status(CpuStatusFlags::Z, z_flag));
    assert!(cpu.assert_status(CpuStatusFlags::N, n_flag));
}

// Test each addressing with basic sum that does not set flags
#[test]
fn cpx_test_abs() {
    let (cpu, memory) =
        setup_test(
            None,
            Some(0x01),
            None,
            None,
            cpx::Opcode::Abs.byte(),
            0x01
        );
    assert!(cpu.assert_register(Register::X, 0x01));
    assert!(memory.assert_byte(ABS_PTR, 0x01));
}

#[test]
fn cpx_test_imm() {
    let (cpu, _) =
        setup_test(
            None,
            Some(0x01),
            None,
            None,
            cpx::Opcode::Imm.byte(),
            0x01
        );
    assert!(cpu.assert_register(Register::X, 0x01));
}

#[test]
fn cpx_test_zp() {
    let (cpu, memory) =
        setup_test(
            None,
            Some(0x01),
            None,
            None,
            cpx::Opcode::Zp.byte(),
            0x01
        );
    assert!(cpu.assert_register(Register::X, 0x01));
    assert!(memory.assert_byte(u16::from(ZP_PTR), 0x01));
}

#[test]
fn cpx_test_op_flags() {
    let test_cases: Vec<(u8, u8, bool, bool, bool)> = vec![
        (0x50, 0xf0, false, false, false),
        (0x50, 0xb0, false, false, true),
        (0x50, 0x30, true, false, false),
        (0xd0, 0x30, true, false, true),
        (0x03, 0x03, true, true, false)
    ];
    for (x_reg, data, c_flag, z_flag, n_flag) in test_cases {
        let (cpu, _) =
            setup_test(
                None,
                Some(x_reg),
                None,
                None,
                cpx::Opcode::Imm.byte(),
                data
            );
        cpx_flags(cpu, c_flag, z_flag, n_flag);
    }
}
