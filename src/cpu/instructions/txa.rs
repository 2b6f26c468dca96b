use vstd::prelude::*;

use crate::cpu::addressing_types::AddressingType;
use crate::cpu::instruction_set::{Instruction, opcode_table};
use crate::cpu::{Cpu, CpuState, with_nz};

verus! {

/// The opcodes of TXA (transfer X to A), one per addressing mode.
#[derive(Clone, Copy, Debug, PartialEq, Eq, Structural)]
pub enum Opcode {
    Imp,
}

impl Opcode {
    pub open spec fn code(self) -> u8 {
        match self {
            Opcode::Imp => 0x8A,
        }
    }

    pub open spec fn mode(self) -> AddressingType {
        match self {
            Opcode::Imp => AddressingType::Implied,
        }
    }

    /// The opcode byte, which the decode table maps back to TXA in this mode.
    pub fn byte(self) -> (r: u8)
        ensures
            r == self.code(),
            opcode_table(r) == Some((Instruction::Txa, self.mode())),
    {
        match self {
            Opcode::Imp => 0x8A,
        }
    }
}

/// One sub-cycle of TXA: transfer X to A at cycle 1; Z and N describe the result.
#[verifier::opaque]
pub open spec fn txa_step(s: CpuState) -> CpuState {
    if s.tcu == 1 {
        CpuState { a: s.x, ps: with_nz(s.ps, s.x), ..s }
    } else {
        s
    }
}

impl Cpu {
    pub(crate) fn txa(&mut self)
        ensures
            final(self)@ == txa_step(old(self)@),
    {
        proof {
            reveal(txa_step);
        }
        if self.tcu == 1 {
            self.a = self.x;
            self.ps = self.ps.with_nz(self.a);
        }
    }
}

} // verus!
