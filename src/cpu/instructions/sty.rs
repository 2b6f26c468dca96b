use vstd::prelude::*;

use crate::cpu::addressing_types::AddressingType;
use crate::cpu::instruction_set::{Instruction, Phase, opcode_table, store_phase, store_phase_spec};
use crate::cpu::{Cpu, CpuState};
use crate::memory::Memory;

verus! {

/// The opcodes of STY (store Y), one per addressing mode.
#[derive(Clone, Copy, Debug, PartialEq, Eq, Structural)]
pub enum Opcode {
    Zp,
    Abs,
    ZpXIdx,
}

impl Opcode {
    pub open spec fn code(self) -> u8 {
        match self {
            Opcode::Zp => 0x84,
            Opcode::Abs => 0x8C,
            Opcode::ZpXIdx => 0x94,
        }
    }

    pub open spec fn mode(self) -> AddressingType {
        match self {
            Opcode::Zp => AddressingType::ZeroPage,
            Opcode::Abs => AddressingType::Absolute,
            Opcode::ZpXIdx => AddressingType::ZeroPageXIndexed,
        }
    }

    /// The opcode byte, which the decode table maps back to STY in this mode.
    pub fn byte(self) -> (r: u8)
        ensures
            r == self.code(),
            opcode_table(r) == Some((Instruction::Sty, self.mode())),
    {
        match self {
            Opcode::Zp => 0x84,
            Opcode::Abs => 0x8C,
            Opcode::ZpXIdx => 0x94,
        }
    }
}

/// One sub-cycle of STY: Y is written to the effective address on the
/// cycle it is ready.
#[verifier::opaque]
pub open spec fn sty_step(s: CpuState, m: Seq<u8>, mode: AddressingType) -> Seq<u8> {
    match store_phase_spec(s.tcu, mode) {
        Phase::Write => m.update(s.addressing as int, s.y),
        _ => m,
    }
}

impl Cpu {
    pub(crate) fn sty(&self, memory: &mut Memory, mode: AddressingType)
        ensures
            final(memory)@ == sty_step(self@, old(memory)@, mode),
    {
        proof {
            reveal(sty_step);
        }
        match store_phase(self.tcu, mode) {
            Phase::Write => memory.write_byte(self.addressing, self.y),
            _ => {},
        }
    }
}

} // verus!
