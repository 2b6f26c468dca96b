use vstd::prelude::*;

use crate::cpu::addressing_types::AddressingType;
use crate::cpu::instruction_set::{Instruction, Phase, opcode_table, store_phase, store_phase_spec};
use crate::cpu::{Cpu, CpuState};
use crate::memory::Memory;

verus! {

/// The opcodes of STA (store A), one per addressing mode.
#[derive(Clone, Copy, Debug, PartialEq, Eq, Structural)]
pub enum Opcode {
    ZpXIdxInd,
    Zp,
    Abs,
    ZpIndYIdx,
    ZpInd,
    ZpXIdx,
    AbsYIdx,
    AbsXIdx,
}

impl Opcode {
    pub open spec fn code(self) -> u8 {
        match self {
            Opcode::ZpXIdxInd => 0x81,
            Opcode::Zp => 0x85,
            Opcode::Abs => 0x8D,
            Opcode::ZpIndYIdx => 0x91,
            Opcode::ZpInd => 0x92,
            Opcode::ZpXIdx => 0x95,
            Opcode::AbsYIdx => 0x99,
            Opcode::AbsXIdx => 0x9D,
        }
    }

    pub open spec fn mode(self) -> AddressingType {
        match self {
            Opcode::ZpXIdxInd => AddressingType::ZeroPageXIndexedIndirect,
            Opcode::Zp => AddressingType::ZeroPage,
            Opcode::Abs => AddressingType::Absolute,
            Opcode::ZpIndYIdx => AddressingType::ZeroPageIndirectYIndexed,
            Opcode::ZpInd => AddressingType::ZeroPageIndirect,
            Opcode::ZpXIdx => AddressingType::ZeroPageXIndexed,
            Opcode::AbsYIdx => AddressingType::AbsoluteYIndexed,
            Opcode::AbsXIdx => AddressingType::AbsoluteXIndexed,
        }
    }

    /// The opcode byte, which the decode table maps back to STA in this mode.
    pub fn byte(self) -> (r: u8)
        ensures
            r == self.code(),
            opcode_table(r) == Some((Instruction::Sta, self.mode())),
    {
        match self {
            Opcode::ZpXIdxInd => 0x81,
            Opcode::Zp => 0x85,
            Opcode::Abs => 0x8D,
            Opcode::ZpIndYIdx => 0x91,
            Opcode::ZpInd => 0x92,
            Opcode::ZpXIdx => 0x95,
            Opcode::AbsYIdx => 0x99,
            Opcode::AbsXIdx => 0x9D,
        }
    }
}

/// One sub-cycle of STA: A is written to the effective address on the
/// cycle it is ready.
#[verifier::opaque]
pub open spec fn sta_step(s: CpuState, m: Seq<u8>, mode: AddressingType) -> Seq<u8> {
    match store_phase_spec(s.tcu, mode) {
        Phase::Write => m.update(s.addressing as int, s.a),
        _ => m,
    }
}

impl Cpu {
    pub(crate) fn sta(&self, memory: &mut Memory, mode: AddressingType)
        ensures
            final(memory)@ == sta_step(self@, old(memory)@, mode),
    {
        proof {
            reveal(sta_step);
        }
        match store_phase(self.tcu, mode) {
            Phase::Write => memory.write_byte(self.addressing, self.a),
            _ => {},
        }
    }
}

} // verus!
