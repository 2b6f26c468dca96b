use vstd::prelude::*;

use crate::cpu::addressing_types::AddressingType;
use crate::cpu::instruction_set::{Instruction, Phase, load_operand, opcode_table, read_phase, read_phase_spec};
use crate::cpu::{Cpu, CpuState, with_nz};
use crate::memory::Memory;

verus! {

/// The opcodes of ORA (bitwise OR into A), one per addressing mode.
#[derive(Clone, Copy, Debug, PartialEq, Eq, Structural)]
pub enum Opcode {
    ZpXIdxInd,
    Zp,
    Imm,
    Abs,
    ZpIndYIdx,
    ZpInd,
    ZpXIdx,
    AbsYIdx,
    AbsXIdx,
}

impl Opcode {
    pub open spec fn code(self) -> u8 {
        match self {
            Opcode::ZpXIdxInd => 0x01,
            Opcode::Zp => 0x05,
            Opcode::Imm => 0x09,
            Opcode::Abs => 0x0D,
            Opcode::ZpIndYIdx => 0x11,
            Opcode::ZpInd => 0x12,
            Opcode::ZpXIdx => 0x15,
            Opcode::AbsYIdx => 0x19,
            Opcode::AbsXIdx => 0x1D,
        }
    }

    pub open spec fn mode(self) -> AddressingType {
        match self {
            Opcode::ZpXIdxInd => AddressingType::ZeroPageXIndexedIndirect,
            Opcode::Zp => AddressingType::ZeroPage,
            Opcode::Imm => AddressingType::Immediate,
            Opcode::Abs => AddressingType::Absolute,
            Opcode::ZpIndYIdx => AddressingType::ZeroPageIndirectYIndexed,
            Opcode::ZpInd => AddressingType::ZeroPageIndirect,
            Opcode::ZpXIdx => AddressingType::ZeroPageXIndexed,
            Opcode::AbsYIdx => AddressingType::AbsoluteYIndexed,
            Opcode::AbsXIdx => AddressingType::AbsoluteXIndexed,
        }
    }

    /// The opcode byte, which the decode table maps back to ORA in this mode.
    pub fn byte(self) -> (r: u8)
        ensures
            r == self.code(),
            opcode_table(r) == Some((Instruction::Ora, self.mode())),
    {
        match self {
            Opcode::ZpXIdxInd => 0x01,
            Opcode::Zp => 0x05,
            Opcode::Imm => 0x09,
            Opcode::Abs => 0x0D,
            Opcode::ZpIndYIdx => 0x11,
            Opcode::ZpInd => 0x12,
            Opcode::ZpXIdx => 0x15,
            Opcode::AbsYIdx => 0x19,
            Opcode::AbsXIdx => 0x1D,
        }
    }
}

/// What ORA does with its operand: a | operand into A; Z and N describe the result.
pub open spec fn ora_result(s: CpuState) -> CpuState {
    CpuState { a: s.a | s.alu, ps: with_nz(s.ps, s.a | s.alu), ..s }
}

/// One sub-cycle of ORA: the operand is read on the cycle its address is
/// ready and used on the next, or used at cycle 1 in immediate mode.
#[verifier::opaque]
pub open spec fn ora_step(s: CpuState, m: Seq<u8>, mode: AddressingType) -> CpuState {
    match read_phase_spec(s.tcu, mode) {
        Phase::Read => load_operand(s, m),
        Phase::Execute => ora_result(s),
        _ => s,
    }
}

impl Cpu {
    pub(crate) fn ora(&mut self, memory: &Memory, mode: AddressingType)
        ensures
            final(self)@ == ora_step(old(self)@, memory@, mode),
    {
        proof {
            reveal(ora_step);
        }
        match read_phase(self.tcu, mode) {
            Phase::Read => self.load_operand(memory),
            Phase::Execute => {
                self.a = self.a | self.alu;
                self.ps = self.ps.with_nz(self.a);
            },
            _ => {},
        }
    }
}

} // verus!
