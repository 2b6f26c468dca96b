use vstd::prelude::*;

use crate::cpu::addressing_types::AddressingType;
use crate::cpu::instruction_set::{Instruction, opcode_table};
use crate::cpu::{Cpu, CpuState, Flags};

verus! {

/// The opcodes of CLV (clear overflow), one per addressing mode.
#[derive(Clone, Copy, Debug, PartialEq, Eq, Structural)]
pub enum Opcode {
    Imp,
}

impl Opcode {
    pub open spec fn code(self) -> u8 {
        match self {
            Opcode::Imp => 0xB8,
        }
    }

    pub open spec fn mode(self) -> AddressingType {
        match self {
            Opcode::Imp => AddressingType::Implied,
        }
    }

    /// The opcode byte, which the decode table maps back to CLV in this mode.
    pub fn byte(self) -> (r: u8)
        ensures
            r == self.code(),
            opcode_table(r) == Some((Instruction::Clv, self.mode())),
    {
        match self {
            Opcode::Imp => 0xB8,
        }
    }
}

/// One sub-cycle of CLV: clear overflow at cycle 1.
#[verifier::opaque]
pub open spec fn clv_step(s: CpuState) -> CpuState {
    if s.tcu == 1 {
        CpuState { ps: Flags { v: false, ..s.ps }, ..s }
    } else {
        s
    }
}

impl Cpu {
    pub(crate) fn clv(&mut self)
        ensures
            final(self)@ == clv_step(old(self)@),
    {
        proof {
            reveal(clv_step);
        }
        if self.tcu == 1 {
            self.ps.v = false;
        }
    }
}

} // verus!
