use vstd::prelude::*;

use crate::cpu::addressing_types::AddressingType;
use crate::cpu::instruction_set::{Instruction, Phase, load_operand, opcode_table, read_phase, read_phase_spec};
use crate::cpu::{Cpu, CpuState, with_nz};
use crate::memory::Memory;

verus! {

/// The opcodes of LDX (load X), one per addressing mode.
#[derive(Clone, Copy, Debug, PartialEq, Eq, Structural)]
pub enum Opcode {
    Imm,
    Zp,
    Abs,
    ZpYIdx,
    AbsYIdx,
}

impl Opcode {
    pub open spec fn code(self) -> u8 {
        match self {
            Opcode::Imm => 0xA2,
            Opcode::Zp => 0xA6,
            Opcode::Abs => 0xAE,
            Opcode::ZpYIdx => 0xB6,
            Opcode::AbsYIdx => 0xBE,
        }
    }

    pub open spec fn mode(self) -> AddressingType {
        match self {
            Opcode::Imm => AddressingType::Immediate,
            Opcode::Zp => AddressingType::ZeroPage,
            Opcode::Abs => AddressingType::Absolute,
            Opcode::ZpYIdx => AddressingType::ZeroPageYIndexed,
            Opcode::AbsYIdx => AddressingType::AbsoluteYIndexed,
        }
    }

    /// The opcode byte, which the decode table maps back to LDX in this mode.
    pub fn byte(self) -> (r: u8)
        ensures
            r == self.code(),
            opcode_table(r) == Some((Instruction::Ldx, self.mode())),
    {
        match self {
            Opcode::Imm => 0xA2,
            Opcode::Zp => 0xA6,
            Opcode::Abs => 0xAE,
            Opcode::ZpYIdx => 0xB6,
            Opcode::AbsYIdx => 0xBE,
        }
    }
}

/// What LDX does with its operand: the operand into X; Z and N describe it.
pub open spec fn ldx_result(s: CpuState) -> CpuState {
    CpuState { x: s.alu, ps: with_nz(s.ps, s.alu), ..s }
}

/// One sub-cycle of LDX: the operand is read on the cycle its address is
/// ready and used on the next, or used at cycle 1 in immediate mode.
#[verifier::opaque]
pub open spec fn ldx_step(s: CpuState, m: Seq<u8>, mode: AddressingType) -> CpuState {
    match read_phase_spec(s.tcu, mode) {
        Phase::Read => load_operand(s, m),
        Phase::Execute => ldx_result(s),
        _ => s,
    }
}

impl Cpu {
    pub(crate) fn ldx(&mut self, memory: &Memory, mode: AddressingType)
        ensures
            final(self)@ == ldx_step(old(self)@, memory@, mode),
    {
        proof {
            reveal(ldx_step);
        }
        match read_phase(self.tcu, mode) {
            Phase::Read => self.load_operand(memory),
            Phase::Execute => {
                self.x = self.alu;
                self.ps = self.ps.with_nz(self.alu);
            },
            _ => {},
        }
    }
}

} // verus!
