use vstd::prelude::*;

use crate::cpu::addressing_types::AddressingType;
use crate::cpu::instruction_set::{Instruction, Phase, add_with_carry, load_operand, opcode_table, read_phase, read_phase_spec};
use crate::cpu::{Cpu, CpuState};
use crate::memory::Memory;

verus! {

/// The opcodes of SBC (subtract with borrow), one per addressing mode.
#[derive(Clone, Copy, Debug, PartialEq, Eq, Structural)]
pub enum Opcode {
    ZpXIdxInd,
    Zp,
    Imm,
    Abs,
    ZpIndYIdx,
    ZpInd,
    ZpXIdx,
    AbsYIdx,
    AbsXIdx,
}

impl Opcode {
    pub open spec fn code(self) -> u8 {
        match self {
            Opcode::ZpXIdxInd => 0xE1,
            Opcode::Zp => 0xE5,
            Opcode::Imm => 0xE9,
            Opcode::Abs => 0xED,
            Opcode::ZpIndYIdx => 0xF1,
            Opcode::ZpInd => 0xF2,
            Opcode::ZpXIdx => 0xF5,
            Opcode::AbsYIdx => 0xF9,
            Opcode::AbsXIdx => 0xFD,
        }
    }

    pub open spec fn mode(self) -> AddressingType {
        match self {
            Opcode::ZpXIdxInd => AddressingType::ZeroPageXIndexedIndirect,
            Opcode::Zp => AddressingType::ZeroPage,
            Opcode::Imm => AddressingType::Immediate,
            Opcode::Abs => AddressingType::Absolute,
            Opcode::ZpIndYIdx => AddressingType::ZeroPageIndirectYIndexed,
            Opcode::ZpInd => AddressingType::ZeroPageIndirect,
            Opcode::ZpXIdx => AddressingType::ZeroPageXIndexed,
            Opcode::AbsYIdx => AddressingType::AbsoluteYIndexed,
            Opcode::AbsXIdx => AddressingType::AbsoluteXIndexed,
        }
    }

    /// The opcode byte, which the decode table maps back to SBC in this mode.
    pub fn byte(self) -> (r: u8)
        ensures
            r == self.code(),
            opcode_table(r) == Some((Instruction::Sbc, self.mode())),
    {
        match self {
            Opcode::ZpXIdxInd => 0xE1,
            Opcode::Zp => 0xE5,
            Opcode::Imm => 0xE9,
            Opcode::Abs => 0xED,
            Opcode::ZpIndYIdx => 0xF1,
            Opcode::ZpInd => 0xF2,
            Opcode::ZpXIdx => 0xF5,
            Opcode::AbsYIdx => 0xF9,
            Opcode::AbsXIdx => 0xFD,
        }
    }
}

/// What SBC does with its operand: a - operand - (1 - C), computed as A + !operand + C, into A, with the flags of that sum.
pub open spec fn sbc_result(s: CpuState) -> CpuState {
    add_with_carry(s, !s.alu)
}

/// One sub-cycle of SBC: the operand is read on the cycle its address is
/// ready and used on the next, or used at cycle 1 in immediate mode.
#[verifier::opaque]
pub open spec fn sbc_step(s: CpuState, m: Seq<u8>, mode: AddressingType) -> CpuState {
    match read_phase_spec(s.tcu, mode) {
        Phase::Read => load_operand(s, m),
        Phase::Execute => sbc_result(s),
        _ => s,
    }
}

impl Cpu {
    pub(crate) fn sbc(&mut self, memory: &Memory, mode: AddressingType)
        ensures
            final(self)@ == sbc_step(old(self)@, memory@, mode),
    {
        proof {
            reveal(sbc_step);
        }
        match read_phase(self.tcu, mode) {
            Phase::Read => self.load_operand(memory),
            Phase::Execute => {
                let operand: u8 = !self.alu;
                self.add_with_carry(operand);
            },
            _ => {},
        }
    }
}

} // verus!
