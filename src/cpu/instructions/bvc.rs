use vstd::prelude::*;

use crate::cpu::addressing_types::AddressingType;
use crate::cpu::instruction_set::{Instruction, branch_step, opcode_table};
use crate::cpu::{Cpu, CpuState};

verus! {

/// The opcodes of BVC (branch if overflow clear), one per addressing mode.
#[derive(Clone, Copy, Debug, PartialEq, Eq, Structural)]
pub enum Opcode {
    PcRel,
}

impl Opcode {
    pub open spec fn code(self) -> u8 {
        match self {
            Opcode::PcRel => 0x50,
        }
    }

    pub open spec fn mode(self) -> AddressingType {
        match self {
            Opcode::PcRel => AddressingType::PcRelative,
        }
    }

    /// The opcode byte, which the decode table maps back to BVC in this mode.
    pub fn byte(self) -> (r: u8)
        ensures
            r == self.code(),
            opcode_table(r) == Some((Instruction::Bvc, self.mode())),
    {
        match self {
            Opcode::PcRel => 0x50,
        }
    }
}

/// One sub-cycle of BVC, branch if overflow clear: at cycle 1 the offset read into
/// ALU is applied to PC when the branch is taken.
#[verifier::opaque]
pub open spec fn bvc_step(s: CpuState) -> CpuState {
    branch_step(s, !s.ps.v)
}

impl Cpu {
    pub(crate) fn bvc(&mut self)
        ensures
            final(self)@ == bvc_step(old(self)@),
    {
        proof {
            reveal(bvc_step);
        }
        let taken: bool = !self.ps.v;
        self.branch(taken);
    }
}

} // verus!
