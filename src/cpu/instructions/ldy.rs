use vstd::prelude::*;

use crate::cpu::addressing_types::AddressingType;
use crate::cpu::instruction_set::{Instruction, Phase, load_operand, opcode_table, read_phase, read_phase_spec};
use crate::cpu::{Cpu, CpuState, with_nz};
use crate::memory::Memory;

verus! {

/// The opcodes of LDY (load Y), one per addressing mode.
#[derive(Clone, Copy, Debug, PartialEq, Eq, Structural)]
pub enum Opcode {
    Imm,
    Zp,
    Abs,
    ZpXIdx,
    AbsXIdx,
}

impl Opcode {
    pub open spec fn code(self) -> u8 {
        match self {
            Opcode::Imm => 0xA0,
            Opcode::Zp => 0xA4,
            Opcode::Abs => 0xAC,
            Opcode::ZpXIdx => 0xB4,
            Opcode::AbsXIdx => 0xBC,
        }
    }

    pub open spec fn mode(self) -> AddressingType {
        match self {
            Opcode::Imm => AddressingType::Immediate,
            Opcode::Zp => AddressingType::ZeroPage,
            Opcode::Abs => AddressingType::Absolute,
            Opcode::ZpXIdx => AddressingType::ZeroPageXIndexed,
            Opcode::AbsXIdx => AddressingType::AbsoluteXIndexed,
        }
    }

    /// The opcode byte, which the decode table maps back to LDY in this mode.
    pub fn byte(self) -> (r: u8)
        ensures
            r == self.code(),
            opcode_table(r) == Some((Instruction::Ldy, self.mode())),
    {
        match self {
            Opcode::Imm => 0xA0,
            Opcode::Zp => 0xA4,
            Opcode::Abs => 0xAC,
            Opcode::ZpXIdx => 0xB4,
            Opcode::AbsXIdx => 0xBC,
        }
    }
}

/// What LDY does with its operand: the operand into Y; Z and N describe it.
pub open spec fn ldy_result(s: CpuState) -> CpuState {
    CpuState { y: s.alu, ps: with_nz(s.ps, s.alu), ..s }
}

/// One sub-cycle of LDY: the operand is read on the cycle its address is
/// ready and used on the next, or used at cycle 1 in immediate mode.
#[verifier::opaque]
pub open spec fn ldy_step(s: CpuState, m: Seq<u8>, mode: AddressingType) -> CpuState {
    match read_phase_spec(s.tcu, mode) {
        Phase::Read => load_operand(s, m),
        Phase::Execute => ldy_result(s),
        _ => s,
    }
}

impl Cpu {
    pub(crate) fn ldy(&mut self, memory: &Memory, mode: AddressingType)
        ensures
            final(self)@ == ldy_step(old(self)@, memory@, mode),
    {
        proof {
            reveal(ldy_step);
        }
        match read_phase(self.tcu, mode) {
            Phase::Read => self.load_operand(memory),
            Phase::Execute => {
                self.y = self.alu;
                self.ps = self.ps.with_nz(self.alu);
            },
            _ => {},
        }
    }
}

} // verus!
