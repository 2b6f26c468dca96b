use vstd::prelude::*;

use crate::cpu::addressing_types::AddressingType;
use crate::cpu::instruction_set::{Instruction, opcode_table};
use crate::cpu::{Cpu, CpuState, Flags};

verus! {

/// The opcodes of CLC (clear carry), one per addressing mode.
#[derive(Clone, Copy, Debug, PartialEq, Eq, Structural)]
pub enum Opcode {
    Imp,
}

impl Opcode {
    pub open spec fn code(self) -> u8 {
        match self {
            Opcode::Imp => 0x18,
        }
    }

    pub open spec fn mode(self) -> AddressingType {
        match self {
            Opcode::Imp => AddressingType::Implied,
        }
    }

    /// The opcode byte, which the decode table maps back to CLC in this mode.
    pub fn byte(self) -> (r: u8)
        ensures
            r == self.code(),
            opcode_table(r) == Some((Instruction::Clc, self.mode())),
    {
        match self {
            Opcode::Imp => 0x18,
        }
    }
}

/// One sub-cycle of CLC: clear carry at cycle 1.
#[verifier::opaque]
pub open spec fn clc_step(s: CpuState) -> CpuState {
    if s.tcu == 1 {
        CpuState { ps: Flags { c: false, ..s.ps }, ..s }
    } else {
        s
    }
}

impl Cpu {
    pub(crate) fn clc(&mut self)
        ensures
            final(self)@ == clc_step(old(self)@),
    {
        proof {
            reveal(clc_step);
        }
        if self.tcu == 1 {
            self.ps.c = false;
        }
    }
}

} // verus!
