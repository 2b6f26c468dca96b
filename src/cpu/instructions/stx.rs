use vstd::prelude::*;

use crate::cpu::addressing_types::AddressingType;
use crate::cpu::instruction_set::{Instruction, Phase, opcode_table, store_phase, store_phase_spec};
use crate::cpu::{Cpu, CpuState};
use crate::memory::Memory;

verus! {

/// The opcodes of STX (store X), one per addressing mode.
#[derive(Clone, Copy, Debug, PartialEq, Eq, Structural)]
pub enum Opcode {
    Zp,
    Abs,
    ZpYIdx,
}

impl Opcode {
    pub open spec fn code(self) -> u8 {
        match self {
            Opcode::Zp => 0x86,
            Opcode::Abs => 0x8E,
            Opcode::ZpYIdx => 0x96,
        }
    }

    pub open spec fn mode(self) -> AddressingType {
        match self {
            Opcode::Zp => AddressingType::ZeroPage,
            Opcode::Abs => AddressingType::Absolute,
            Opcode::ZpYIdx => AddressingType::ZeroPageYIndexed,
        }
    }

    /// The opcode byte, which the decode table maps back to STX in this mode.
    pub fn byte(self) -> (r: u8)
        ensures
            r == self.code(),
            opcode_table(r) == Some((Instruction::Stx, self.mode())),
    {
        match self {
            Opcode::Zp => 0x86,
            Opcode::Abs => 0x8E,
            Opcode::ZpYIdx => 0x96,
        }
    }
}

/// One sub-cycle of STX: X is written to the effective address on the
/// cycle it is ready.
#[verifier::opaque]
pub open spec fn stx_step(s: CpuState, m: Seq<u8>, mode: AddressingType) -> Seq<u8> {
    match store_phase_spec(s.tcu, mode) {
        Phase::Write => m.update(s.addressing as int, s.x),
        _ => m,
    }
}

impl Cpu {
    pub(crate) fn stx(&self, memory: &mut Memory, mode: AddressingType)
        ensures
            final(memory)@ == stx_step(self@, old(memory)@, mode),
    {
        proof {
            reveal(stx_step);
        }
        match store_phase(self.tcu, mode) {
            Phase::Write => memory.write_byte(self.addressing, self.x),
            _ => {},
        }
    }
}

} // verus!
