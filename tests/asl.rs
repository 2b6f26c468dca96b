use cpu65c02::cpu::instructions::asl;
use cpu65c02::test_utils::{setup_test, TestCpu, ABS_PTR, ZP_PTR};
use cpu65c02::cpu::{CpuStatusFlags, Register};

const PTR_OFFSET: u8 = 0x02;

fn asl_flags(cpu: TestCpu, c_flag: bool, z_flag: bool, n_flag: bool) {
    assert!(cpu.assert_status(CpuStatusFlags::C, c_flag));
    assert!(cpu.assert_status(CpuStatusFlags::Z, z_flag));
    assert!(cpu.assert_status(CpuStatusFlags::N, n_flag));
}

// Test each addressing that does not set flags
#[test]
fn asl_test_acc() {
    let (cpu, _) =
        setup_test(
            Some(0x01),
            None,
            None,
            None,
            asl::Opcode::Acc.byte(),
            0x00
        );
    assert!(cpu.assert_register(Register::A, 0x02));
}

#[test]
fn asl_test_abs() {
    let (_, memory) =
        setup_test(
            None,
            None,
            None,
            None,
            asl::Opcode::Abs.byte(),
            0x01
        );
    assert!(memory.assert_byte(ABS_PTR, 0x02));
}

#[test]
fn asl_test_abs_x_idx() {
    let (_, memory) =
        setup_test(
            None,
            Some(PTR_OFFSET),
            None,
            None,
            asl::Opcode::AbsXIdx.byte(),
            0x01
        );
    assert!(memory.assert_byte(ABS_PTR, 0x02));
}

#[test]
fn asl_test_zp() {
    let (_, memory) =
        setup_test(
            None,
            None,
            None,
            None,
            asl::Opcode::Zp.byte(),
            0x01
        );
    assert!(memory.assert_byte(u16::from(ZP_PTR), 0x02));
}

#[test]
fn asl_test_zp_x_idx() {
    let (_, memory) =
        setup_test(
            None,
            Some(PTR_OFFSET),
            None,
            None,
            asl::Opcode::ZpXIdx.byte(),
            0x01
        );
        assert!(memory.assert_byte(u16::from(ZP_PTR), 0x02));
}

// Running unit tests for flags and operation 
#[test]
fn asl_test_op_flags() {
    let test_cases: Vec<(u8, u8, bool, bool, bool)> = vec![
        (0x01, 0x02, false, false, false),
        (0x00, 0x00, false, true, false),
        (0xC2, 0x84, true, false, true),
        (0x42, 0x84, false, false, true),
        (0x80, 0x00, true, true, false)
    ];
    for (a_reg, result, c_flag, z_flag, n_flag) in test_cases {
        let (cpu, _) =
            setup_test(
                Some(a_reg),
                None,
                None,
                None,
                asl::Opcode::Acc.byte(),
                0x00
            );
        assert!(cpu.assert_register(Register::A, result));
        asl_flags(cpu, c_flag, z_flag, n_flag);
    }
}
