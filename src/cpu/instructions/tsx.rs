use vstd::prelude::*;

use crate::cpu::addressing_types::AddressingType;
use crate::cpu::instruction_set::{Instruction, opcode_table};
use crate::cpu::{Cpu, CpuState, with_nz};

verus! {

/// The opcodes of TSX (transfer SP to X), one per addressing mode.
#[derive(Clone, Copy, Debug, PartialEq, Eq, Structural)]
pub enum Opcode {
    Imp,
}

impl Opcode {
    pub open spec fn code(self) -> u8 {
        match self {
            Opcode::Imp => 0xBA,
        }
    }

    pub open spec fn mode(self) -> AddressingType {
        match self {
            Opcode::Imp => AddressingType::Implied,
        }
    }

    /// The opcode byte, which the decode table maps back to TSX in this mode.
    pub fn byte(self) -> (r: u8)
        ensures
            r == self.code(),
            opcode_table(r) == Some((Instruction::Tsx, self.mode())),
    {
        match self {
            Opcode::Imp => 0xBA,
        }
    }
}

/// One sub-cycle of TSX: transfer SP to X at cycle 1; Z and N describe the result.
#[verifier::opaque]
pub open spec fn tsx_step(s: CpuState) -> CpuState {
    if s.tcu == 1 {
        CpuState { x: s.sp, ps: with_nz(s.ps, s.sp), ..s }
    } else {
        s
    }
}

impl Cpu {
    pub(crate) fn tsx(&mut self)
        ensures
            final(self)@ == tsx_step(old(self)@),
    {
        proof {
            reveal(tsx_step);
        }
        if self.tcu == 1 {
            self.x = self.sp;
            self.ps = self.ps.with_nz(self.x);
        }
    }
}

} // verus!
