use vstd::prelude::*;

use crate::cpu::addressing_types::AddressingType;
use crate::cpu::instruction_set::{Instruction, Phase, compare, load_operand, opcode_table, read_phase, read_phase_spec};
use crate::cpu::{Cpu, CpuState};
use crate::memory::Memory;

verus! {

/// The opcodes of CPY (compare Y with memory), one per addressing mode.
#[derive(Clone, Copy, Debug, PartialEq, Eq, Structural)]
pub enum Opcode {
    Imm,
    Zp,
    Abs,
}

impl Opcode {
    pub open spec fn code(self) -> u8 {
        match self {
            Opcode::Imm => 0xC0,
            Opcode::Zp => 0xC4,
            Opcode::Abs => 0xCC,
        }
    }

    pub open spec fn mode(self) -> AddressingType {
        match self {
            Opcode::Imm => AddressingType::Immediate,
            Opcode::Zp => AddressingType::ZeroPage,
            Opcode::Abs => AddressingType::Absolute,
        }
    }

    /// The opcode byte, which the decode table maps back to CPY in this mode.
    pub fn byte(self) -> (r: u8)
        ensures
            r == self.code(),
            opcode_table(r) == Some((Instruction::Cpy, self.mode())),
    {
        match self {
            Opcode::Imm => 0xC0,
            Opcode::Zp => 0xC4,
            Opcode::Abs => 0xCC,
        }
    }
}

/// What CPY does with its operand: compares Y with the operand (see `compare`).
pub open spec fn cpy_result(s: CpuState) -> CpuState {
    compare(s, s.y)
}

/// One sub-cycle of CPY: the operand is read on the cycle its address is
/// ready and used on the next, or used at cycle 1 in immediate mode.
#[verifier::opaque]
pub open spec fn cpy_step(s: CpuState, m: Seq<u8>, mode: AddressingType) -> CpuState {
    match read_phase_spec(s.tcu, mode) {
        Phase::Read => load_operand(s, m),
        Phase::Execute => cpy_result(s),
        _ => s,
    }
}

impl Cpu {
    pub(crate) fn cpy(&mut self, memory: &Memory, mode: AddressingType)
        ensures
            final(self)@ == cpy_step(old(self)@, memory@, mode),
    {
        proof {
            reveal(cpy_step);
        }
        match read_phase(self.tcu, mode) {
            Phase::Read => self.load_operand(memory),
            Phase::Execute => {
                let register: u8 = self.y;
                self.compare(register);
            },
            _ => {},
        }
    }
}

} // verus!
