use cpu65c02::cpu::instructions::dec;
use cpu65c02::test_utils::{setup_test, TestCpu, ABS_PTR, ZP_PTR};
use cpu65c02::cpu::{CpuStatusFlags, Register};

const PTR_OFFSET: u8 = 0x02;

fn dec_flags(cpu: TestCpu, z_flag: bool, n_flag: bool) {
    assert!(cpu.assert_status(CpuStatusFlags::Z, z_flag));
    assert!(cpu.assert_status(CpuStatusFlags::N, n_flag));
}

// Test each addressing that does not set flags
#[test]
fn dec_test_acc() {
    let (cpu, _) =
        setup_test(
            Some(0x01),
            None,
            None,
            None,
            dec::Opcode::Acc.byte(),
            0x00
        );
    assert!(cpu.assert_register(Register::A, 0x00));
}

#[test]
fn dec_test_abs() {
    let (_, memory) =
        setup_test(
            None,
            None,
            None,
            None,
            dec::Opcode::Abs.byte(),
            0x01
        );
    assert!(memory.assert_byte(ABS_PTR, 0x00));
}

#[test]
fn dec_test_abs_x_idx() {
    let (_, memory) =
        setup_test(
            None,
            Some(PTR_OFFSET),
            None,
            None,
            dec::Opcode::AbsXIdx.byte(),
            0x01
        );
    assert!(memory.assert_byte(ABS_PTR, 0x00));
}

#[test]
fn dec_test_zp() {
    let (_, memory) =
        setup_test(
            None,
            None,
            None,
            None,
            dec::Opcode::Zp.byte(),
            0x01
        );
    assert!(memory.assert_byte(u16::from(ZP_PTR), 0x00));
}

#[test]
fn dec_test_zp_x_idx() {
    let (_, memory) =
        setup_test(
            None,
            Some(PTR_OFFSET),
            None,
            None,
            dec::Opcode::ZpXIdx.byte(),
            0x01
        );
        assert!(memory.assert_byte(u16::from(ZP_PTR), 0x00));
}

// Running unit tests for flags and operation 
#[test]
fn dec_test_op_flags() {
    let test_cases: Vec<(u8, u8, bool, bool)> = vec![
        
    ];
    for (a_reg, result, z_flag, n_flag) in test_cases {
        let (cpu, _) =
            setup_test(
                Some(a_reg),
                None,
                None,
                None,
                dec::Opcode::Acc.byte(),
                0x00
            );
        assert!(cpu.assert_register(Register::A, result));
        dec_flags(cpu, z_flag, n_flag);
    }
}
