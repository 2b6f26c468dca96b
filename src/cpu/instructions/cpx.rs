use vstd::prelude::*;

use crate::cpu::addressing_types::AddressingType;
use crate::cpu::instruction_set::{Instruction, Phase, compare, load_operand, opcode_table, read_phase, read_phase_spec};
use crate::cpu::{Cpu, CpuState};
use crate::memory::Memory;

verus! {

/// The opcodes of CPX (compare X with memory), one per addressing mode.
#[derive(Clone, Copy, Debug, PartialEq, Eq, Structural)]
pub enum Opcode {
    Imm,
    Zp,
    Abs,
}

impl Opcode {
    pub open spec fn code(self) -> u8 {
        match self {
            Opcode::Imm => 0xE0,
            Opcode::Zp => 0xE4,
            Opcode::Abs => 0xEC,
        }
    }

    pub open spec fn mode(self) -> AddressingType {
        match self {
            Opcode::Imm => AddressingType::Immediate,
            Opcode::Zp => AddressingType::ZeroPage,
            Opcode::Abs => AddressingType::Absolute,
        }
    }

    /// The opcode byte, which the decode table maps back to CPX in this mode.
    pub fn byte(self) -> (r: u8)
        ensures
            r == self.code(),
            opcode_table(r) == Some((Instruction::Cpx, self.mode())),
    {
        match self {
            Opcode::Imm => 0xE0,
            Opcode::Zp => 0xE4,
            Opcode::Abs => 0xEC,
        }
    }
}

/// What CPX does with its operand: compares X with the operand (see `compare`).
pub open spec fn cpx_result(s: CpuState) -> CpuState {
    compare(s, s.x)
}

/// One sub-cycle of CPX: the operand is read on the cycle its address is
/// ready and used on the next, or used at cycle 1 in immediate mode.
#[verifier::opaque]
pub open spec fn cpx_step(s: CpuState, m: Seq<u8>, mode: AddressingType) -> CpuState {
    match read_phase_spec(s.tcu, mode) {
        Phase::Read => load_operand(s, m),
        Phase::Execute => cpx_result(s),
        _ => s,
    }
}

impl Cpu {
    pub(crate) fn cpx(&mut self, memory: &Memory, mode: AddressingType)
        ensures
            final(self)@ == cpx_step(old(self)@, memory@, mode),
    {
        proof {
            reveal(cpx_step);
        }
        match read_phase(self.tcu, mode) {
            Phase::Read => self.load_operand(memory),
            Phase::Execute => {
                let register: u8 = self.x;
                self.compare(register);
            },
            _ => {},
        }
    }
}

} // verus!
