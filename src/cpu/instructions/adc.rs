use vstd::prelude::*;

use crate::cpu::addressing_types::AddressingType;
use crate::cpu::instruction_set::{Instruction, Phase, add_with_carry, load_operand, opcode_table, read_phase, read_phase_spec};
use crate::cpu::{Cpu, CpuState};
use crate::memory::Memory;

verus! {

/// The opcodes of ADC (add with carry), one per addressing mode.
#[derive(Clone, Copy, Debug, PartialEq, Eq, Structural)]
pub enum Opcode {
    ZpXIdxInd,
    Zp,
    Imm,
    Abs,
    ZpIndYIdx,
    ZpInd,
    ZpXIdx,
    AbsYIdx,
    AbsXIdx,
}

impl Opcode {
    pub open spec fn code(self) -> u8 {
        match self {
            Opcode::ZpXIdxInd => 0x61,
            Opcode::Zp => 0x65,
            Opcode::Imm => 0x69,
            Opcode::Abs => 0x6D,
            Opcode::ZpIndYIdx => 0x71,
            Opcode::ZpInd => 0x72,
            Opcode::ZpXIdx => 0x75,
            Opcode::AbsYIdx => 0x79,
            Opcode::AbsXIdx => 0x7D,
        }
    }

    pub open spec fn mode(self) -> AddressingType {
        match self {
            Opcode::ZpXIdxInd => AddressingType::ZeroPageXIndexedIndirect,
            Opcode::Zp => AddressingType::ZeroPage,
            Opcode::Imm => AddressingType::Immediate,
            Opcode::Abs => AddressingType::Absolute,
            Opcode::ZpIndYIdx => AddressingType::ZeroPageIndirectYIndexed,
            Opcode::ZpInd => AddressingType::ZeroPageIndirect,
            Opcode::ZpXIdx => AddressingType::ZeroPageXIndexed,
            Opcode::AbsYIdx => AddressingType::AbsoluteYIndexed,
            Opcode::AbsXIdx => AddressingType::AbsoluteXIndexed,
        }
    }

    /// The opcode byte, which the decode table maps back to ADC in this mode.
    pub fn byte(self) -> (r: u8)
        ensures
            r == self.code(),
            opcode_table(r) == Some((Instruction::Adc, self.mode())),
    {
        match self {
            Opcode::ZpXIdxInd => 0x61,
            Opcode::Zp => 0x65,
            Opcode::Imm => 0x69,
            Opcode::Abs => 0x6D,
            Opcode::ZpIndYIdx => 0x71,
            Opcode::ZpInd => 0x72,
            Opcode::ZpXIdx => 0x75,
            Opcode::AbsYIdx => 0x79,
            Opcode::AbsXIdx => 0x7D,
        }
    }
}

/// What ADC does with its operand: a + operand + C into A; C is the carry out, V the signed overflow, Z and N describe the sum.
pub open spec fn adc_result(s: CpuState) -> CpuState {
    add_with_carry(s, s.alu)
}

/// One sub-cycle of ADC: the operand is read on the cycle its address is
/// ready and used on the next, or used at cycle 1 in immediate mode.
#[verifier::opaque]
pub open spec fn adc_step(s: CpuState, m: Seq<u8>, mode: AddressingType) -> CpuState {
    match read_phase_spec(s.tcu, mode) {
        Phase::Read => load_operand(s, m),
        Phase::Execute => adc_result(s),
        _ => s,
    }
}

impl Cpu {
    pub(crate) fn adc(&mut self, memory: &Memory, mode: AddressingType)
        ensures
            final(self)@ == adc_step(old(self)@, memory@, mode),
    {
        proof {
            reveal(adc_step);
        }
        match read_phase(self.tcu, mode) {
            Phase::Read => self.load_operand(memory),
            Phase::Execute => {
                let operand: u8 = self.alu;
                self.add_with_carry(operand);
            },
            _ => {},
        }
    }
}

} // verus!
