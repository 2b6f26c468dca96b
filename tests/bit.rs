use cpu65c02::cpu::instructions::bit;
use cpu65c02::test_utils::{setup_test, TestCpu, ABS_PTR, ZP_PTR};
use cpu65c02::cpu::{CpuStatusFlags, Register};

const PTR_OFFSET: u8 = 0x02;

fn bit_flags(cpu: TestCpu, z_flag: bool, v_flag:bool, n_flag: bool) {
    assert!(cpu.assert_status(CpuStatusFlags::Z, z_flag));
    assert!(cpu.assert_status(CpuStatusFlags::V, v_flag));
    assert!(cpu.assert_status(CpuStatusFlags::N, n_flag));
}

// Test each addressing that does not set flags
#[test]
fn bit_test_abs() {
    let (cpu, memory) =
        setup_test(
            Some(0xFF),
            None,
            None,
            None,
            bit::Opcode::Abs.byte(),
            0xAA
        );
    assert!(cpu.assert_register(Register::A, 0xFF));
    assert!(memory.assert_byte(ABS_PTR, 0xAA));
}

#[test]
fn bit_test_abs_x_idx() {
    let (cpu, memory) =
        setup_test(
            Some(0xFF),
            Some(PTR_OFFSET),
            None,
            None,
            bit::Opcode::AbsXIdx.byte(),
            0xAA
        );
    assert!(cpu.assert_register(Register::A, 0xFF));
    assert!(memory.assert_byte(ABS_PTR, 0xAA));
}

#[test]
fn bit_test_imm() {
    let (cpu, _) =
        setup_test(
            Some(0xFF),
            None,
            None,
            None,
            bit::Opcode::Imm.byte(),
            0x01
        );
    assert!(cpu.assert_register(Register::A, 0xFF));
}

#[test]
fn bit_test_zp() {
    let (cpu, memory) =
        setup_test(
            Some(0xFF),
            None,
            None,
            None,
            bit::Opcode::Zp.byte(),
            0xAA
        );
    assert!(cpu.assert_register(Register::A, 0xFF));
    assert!(memory.assert_byte(u16::from(ZP_PTR), 0xAA));
}

#[test]
fn bit_test_zp_x_idx() {
    let (cpu, memory) =
        setup_test(
            Some(0xFF),
            Some(PTR_OFFSET),
            None,
            None,
            bit::Opcode::ZpXIdx.byte(),
            0xAA
        );
    assert!(cpu.assert_register(Register::A, 0xFF));
    assert!(memory.assert_byte(u16::from(ZP_PTR), 0xAA));
}

// Running unit tests for flags and operation 
#[test]
fn bit_test_op_flags() {
    let test_cases: Vec<(u8, u8, bool, bool, bool)> = vec![
        (0xFF, 0x00, true, false, false),
        (0x00, 0xFF, true, true, true),
        (0x80, 0xFF, false, true, true),
        (0xC0, 0x80, false, false, true),
        (0xC0, 0x40, false, true, false),
        (0xFF, 0x20, false, false, false)
    ];
    for (a_reg, data, z_flag, v_flag, n_flag) in test_cases {
        let (cpu, _) =
            setup_test(
                Some(a_reg),
                None,
                None,
                None,
                bit::Opcode::Abs.byte(),
                data
            );

        println!("0x{:08b} & 0x{:08b} = 0b{:08b}", a_reg, data, a_reg & data);
        
        bit_flags(cpu, z_flag, v_flag, n_flag);
    }
}
