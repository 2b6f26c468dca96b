use vstd::prelude::*;

use crate::cpu::addressing_types::AddressingType;
use crate::cpu::instruction_set::{Instruction, opcode_table};
use crate::cpu::{Cpu, CpuState, with_nz};

verus! {

/// The opcodes of TYA (transfer Y to A), one per addressing mode.
#[derive(Clone, Copy, Debug, PartialEq, Eq, Structural)]
pub enum Opcode {
    Imp,
}

impl Opcode {
    pub open spec fn code(self) -> u8 {
        match self {
            Opcode::Imp => 0x98,
        }
    }

    pub open spec fn mode(self) -> AddressingType {
        match self {
            Opcode::Imp => AddressingType::Implied,
        }
    }

    /// The opcode byte, which the decode table maps back to TYA in this mode.
    pub fn byte(self) -> (r: u8)
        ensures
            r == self.code(),
            opcode_table(r) == Some((Instruction::Tya, self.mode())),
    {
        match self {
            Opcode::Imp => 0x98,
        }
    }
}

/// One sub-cycle of TYA: transfer Y to A at cycle 1; Z and N describe the result.
#[verifier::opaque]
pub open spec fn tya_step(s: CpuState) -> CpuState {
    if s.tcu == 1 {
        CpuState { a: s.y, ps: with_nz(s.ps, s.y), ..s }
    } else {
        s
    }
}

impl Cpu {
    pub(crate) fn tya(&mut self)
        ensures
            final(self)@ == tya_step(old(self)@),
    {
        proof {
            reveal(tya_step);
        }
        if self.tcu == 1 {
            self.a = self.y;
            self.ps = self.ps.with_nz(self.a);
        }
    }
}

} // verus!
