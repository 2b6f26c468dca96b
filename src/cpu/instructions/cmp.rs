use vstd::prelude::*;

use crate::cpu::addressing_types::AddressingType;
use crate::cpu::instruction_set::{Instruction, Phase, compare, load_operand, opcode_table, read_phase, read_phase_spec};
use crate::cpu::{Cpu, CpuState};
use crate::memory::Memory;

verus! {

/// The opcodes of CMP (compare A with memory), one per addressing mode.
#[derive(Clone, Copy, Debug, PartialEq, Eq, Structural)]
pub enum Opcode {
    ZpXIdxInd,
    Zp,
    Imm,
    Abs,
    ZpIndYIdx,
    ZpInd,
    ZpXIdx,
    AbsYIdx,
    AbsXIdx,
}

impl Opcode {
    pub open spec fn code(self) -> u8 {
        match self {
            Opcode::ZpXIdxInd => 0xC1,
            Opcode::Zp => 0xC5,
            Opcode::Imm => 0xC9,
            Opcode::Abs => 0xCD,
            Opcode::ZpIndYIdx => 0xD1,
            Opcode::ZpInd => 0xD2,
            Opcode::ZpXIdx => 0xD5,
            Opcode::AbsYIdx => 0xD9,
            Opcode::AbsXIdx => 0xDD,
        }
    }

    pub open spec fn mode(self) -> AddressingType {
        match self {
            Opcode::ZpXIdxInd => AddressingType::ZeroPageXIndexedIndirect,
            Opcode::Zp => AddressingType::ZeroPage,
            Opcode::Imm => AddressingType::Immediate,
            Opcode::Abs => AddressingType::Absolute,
            Opcode::ZpIndYIdx => AddressingType::ZeroPageIndirectYIndexed,
            Opcode::ZpInd => AddressingType::ZeroPageIndirect,
            Opcode::ZpXIdx => AddressingType::ZeroPageXIndexed,
            Opcode::AbsYIdx => AddressingType::AbsoluteYIndexed,
            Opcode::AbsXIdx => AddressingType::AbsoluteXIndexed,
        }
    }

    /// The opcode byte, which the decode table maps back to CMP in this mode.
    pub fn byte(self) -> (r: u8)
        ensures
            r == self.code(),
            opcode_table(r) == Some((Instruction::Cmp, self.mode())),
    {
        match self {
            Opcode::ZpXIdxInd => 0xC1,
            Opcode::Zp => 0xC5,
            Opcode::Imm => 0xC9,
            Opcode::Abs => 0xCD,
            Opcode::ZpIndYIdx => 0xD1,
            Opcode::ZpInd => 0xD2,
            Opcode::ZpXIdx => 0xD5,
            Opcode::AbsYIdx => 0xD9,
            Opcode::AbsXIdx => 0xDD,
        }
    }
}

/// What CMP does with its operand: compares A with the operand (see `compare`).
pub open spec fn cmp_result(s: CpuState) -> CpuState {
    compare(s, s.a)
}

/// One sub-cycle of CMP: the operand is read on the cycle its address is
/// ready and used on the next, or used at cycle 1 in immediate mode.
#[verifier::opaque]
pub open spec fn cmp_step(s: CpuState, m: Seq<u8>, mode: AddressingType) -> CpuState {
    match read_phase_spec(s.tcu, mode) {
        Phase::Read => load_operand(s, m),
        Phase::Execute => cmp_result(s),
        _ => s,
    }
}

impl Cpu {
    pub(crate) fn cmp(&mut self, memory: &Memory, mode: AddressingType)
        ensures
            final(self)@ == cmp_step(old(self)@, memory@, mode),
    {
        proof {
            reveal(cmp_step);
        }
        match read_phase(self.tcu, mode) {
            Phase::Read => self.load_operand(memory),
            Phase::Execute => {
                let register: u8 = self.a;
                self.compare(register);
            },
            _ => {},
        }
    }
}

} // verus!
