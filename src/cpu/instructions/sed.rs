use vstd::prelude::*;

use crate::cpu::addressing_types::AddressingType;
use crate::cpu::instruction_set::{Instruction, opcode_table};
use crate::cpu::{Cpu, CpuState, Flags};

verus! {

/// The opcodes of SED (set decimal mode), one per addressing mode.
#[derive(Clone, Copy, Debug, PartialEq, Eq, Structural)]
pub enum Opcode {
    Imp,
}

impl Opcode {
    pub open spec fn code(self) -> u8 {
        match self {
            Opcode::Imp => 0xF8,
        }
    }

    pub open spec fn mode(self) -> AddressingType {
        match self {
            Opcode::Imp => AddressingType::Implied,
        }
    }

    /// The opcode byte, which the decode table maps back to SED in this mode.
    pub fn byte(self) -> (r: u8)
        ensures
            r == self.code(),
            opcode_table(r) == Some((Instruction::Sed, self.mode())),
    {
        match self {
            Opcode::Imp => 0xF8,
        }
    }
}

/// One sub-cycle of SED: set decimal mode at cycle 1.
#[verifier::opaque]
pub open spec fn sed_step(s: CpuState) -> CpuState {
    if s.tcu == 1 {
        CpuState { ps: Flags { d: true, ..s.ps }, ..s }
    } else {
        s
    }
}

impl Cpu {
    pub(crate) fn sed(&mut self)
        ensures
            final(self)@ == sed_step(old(self)@),
    {
        proof {
            reveal(sed_step);
        }
        if self.tcu == 1 {
            self.ps.d = true;
        }
    }
}

} // verus!
