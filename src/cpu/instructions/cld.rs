use vstd::prelude::*;

use crate::cpu::addressing_types::AddressingType;
use crate::cpu::instruction_set::{Instruction, opcode_table};
use crate::cpu::{Cpu, CpuState, Flags};

verus! {

/// The opcodes of CLD (clear decimal mode), one per addressing mode.
#[derive(Clone, Copy, Debug, PartialEq, Eq, Structural)]
pub enum Opcode {
    Imp,
}

impl Opcode {
    pub open spec fn code(self) -> u8 {
        match self {
            Opcode::Imp => 0xD8,
        }
    }

    pub open spec fn mode(self) -> AddressingType {
        match self {
            Opcode::Imp => AddressingType::Implied,
        }
    }

    /// The opcode byte, which the decode table maps back to CLD in this mode.
    pub fn byte(self) -> (r: u8)
        ensures
            r == self.code(),
            opcode_table(r) == Some((Instruction::Cld, self.mode())),
    {
        match self {
            Opcode::Imp => 0xD8,
        }
    }
}

/// One sub-cycle of CLD: clear decimal mode at cycle 1.
#[verifier::opaque]
pub open spec fn cld_step(s: CpuState) -> CpuState {
    if s.tcu == 1 {
        CpuState { ps: Flags { d: false, ..s.ps }, ..s }
    } else {
        s
    }
}

impl Cpu {
    pub(crate) fn cld(&mut self)
        ensures
            final(self)@ == cld_step(old(self)@),
    {
        proof {
            reveal(cld_step);
        }
        if self.tcu == 1 {
            self.ps.d = false;
        }
    }
}

} // verus!
