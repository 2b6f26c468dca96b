use vstd::prelude::*;

use crate::cpu::addressing_types::AddressingType;
use crate::cpu::instruction_set::{Instruction, Phase, load_operand, opcode_table, read_phase, read_phase_spec};
use crate::cpu::{Cpu, CpuState, with_nz};
use crate::memory::Memory;

verus! {

/// The opcodes of LDA (load A), one per addressing mode.
#[derive(Clone, Copy, Debug, PartialEq, Eq, Structural)]
pub enum Opcode {
    ZpXIdxInd,
    Zp,
    Imm,
    Abs,
    ZpIndYIdx,
    ZpInd,
    ZpXIdx,
    AbsYIdx,
    AbsXIdx,
}

impl Opcode {
    pub open spec fn code(self) -> u8 {
        match self {
            Opcode::ZpXIdxInd => 0xA1,
            Opcode::Zp => 0xA5,
            Opcode::Imm => 0xA9,
            Opcode::Abs => 0xAD,
            Opcode::ZpIndYIdx => 0xB1,
            Opcode::ZpInd => 0xB2,
            Opcode::ZpXIdx => 0xB5,
            Opcode::AbsYIdx => 0xB9,
            Opcode::AbsXIdx => 0xBD,
        }
    }

    pub open spec fn mode(self) -> AddressingType {
        match self {
            Opcode::ZpXIdxInd => AddressingType::ZeroPageXIndexedIndirect,
            Opcode::Zp => AddressingType::ZeroPage,
            Opcode::Imm => AddressingType::Immediate,
            Opcode::Abs => AddressingType::Absolute,
            Opcode::ZpIndYIdx => AddressingType::ZeroPageIndirectYIndexed,
            Opcode::ZpInd => AddressingType::ZeroPageIndirect,
            Opcode::ZpXIdx => AddressingType::ZeroPageXIndexed,
            Opcode::AbsYIdx => AddressingType::AbsoluteYIndexed,
            Opcode::AbsXIdx => AddressingType::AbsoluteXIndexed,
        }
    }

    /// The opcode byte, which the decode table maps back to LDA in this mode.
    pub fn byte(self) -> (r: u8)
        ensures
            r == self.code(),
            opcode_table(r) == Some((Instruction::Lda, self.mode())),
    {
        match self {
            Opcode::ZpXIdxInd => 0xA1,
            Opcode::Zp => 0xA5,
            Opcode::Imm => 0xA9,
            Opcode::Abs => 0xAD,
            Opcode::ZpIndYIdx => 0xB1,
            Opcode::ZpInd => 0xB2,
            Opcode::ZpXIdx => 0xB5,
            Opcode::AbsYIdx => 0xB9,
            Opcode::AbsXIdx => 0xBD,
        }
    }
}

/// What LDA does with its operand: the operand into A; Z and N describe it.
pub open spec fn lda_result(s: CpuState) -> CpuState {
    CpuState { a: s.alu, ps: with_nz(s.ps, s.alu), ..s }
}

/// One sub-cycle of LDA: the operand is read on the cycle its address is
/// ready and used on the next, or used at cycle 1 in immediate mode.
#[verifier::opaque]
pub open spec fn lda_step(s: CpuState, m: Seq<u8>, mode: AddressingType) -> CpuState {
    match read_phase_spec(s.tcu, mode) {
        Phase::Read => load_operand(s, m),
        Phase::Execute => lda_result(s),
        _ => s,
    }
}

impl Cpu {
    pub(crate) fn lda(&mut self, memory: &Memory, mode: AddressingType)
        ensures
            final(self)@ == lda_step(old(self)@, memory@, mode),
    {
        proof {
            reveal(lda_step);
        }
        match read_phase(self.tcu, mode) {
            Phase::Read => self.load_operand(memory),
            Phase::Execute => {
                self.a = self.alu;
                self.ps = self.ps.with_nz(self.alu);
            },
            _ => {},
        }
    }
}

} // verus!
