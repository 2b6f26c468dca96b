use vstd::prelude::*;

use crate::cpu::addressing_types::AddressingType;
use crate::cpu::instruction_set::{Instruction, opcode_table};
use crate::cpu::{Cpu, CpuState, with_nz};

verus! {

/// The opcodes of TAY (transfer A to Y), one per addressing mode.
#[derive(Clone, Copy, Debug, PartialEq, Eq, Structural)]
pub enum Opcode {
    Imp,
}

impl Opcode {
    pub open spec fn code(self) -> u8 {
        match self {
            Opcode::Imp => 0xA8,
        }
    }

    pub open spec fn mode(self) -> AddressingType {
        match self {
            Opcode::Imp => AddressingType::Implied,
        }
    }

    /// The opcode byte, which the decode table maps back to TAY in this mode.
    pub fn byte(self) -> (r: u8)
        ensures
            r == self.code(),
            opcode_table(r) == Some((Instruction::Tay, self.mode())),
    {
        match self {
            Opcode::Imp => 0xA8,
        }
    }
}

/// One sub-cycle of TAY: transfer A to Y at cycle 1; Z and N describe the result.
#[verifier::opaque]
pub open spec fn tay_step(s: CpuState) -> CpuState {
    if s.tcu == 1 {
        CpuState { y: s.a, ps: with_nz(s.ps, s.a), ..s }
    } else {
        s
    }
}

impl Cpu {
    pub(crate) fn tay(&mut self)
        ensures
            final(self)@ == tay_step(old(self)@),
    {
        proof {
            reveal(tay_step);
        }
        if self.tcu == 1 {
            self.y = self.a;
            self.ps = self.ps.with_nz(self.y);
        }
    }
}

} // verus!
