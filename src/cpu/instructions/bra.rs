use vstd::prelude::*;

use crate::cpu::addressing_types::AddressingType;
use crate::cpu::instruction_set::{Instruction, branch_step, opcode_table};
use crate::cpu::{Cpu, CpuState};

verus! {

/// The opcodes of BRA (branch always), one per addressing mode.
#[derive(Clone, Copy, Debug, PartialEq, Eq, Structural)]
pub enum Opcode {
    PcRel,
}

impl Opcode {
    pub open spec fn code(self) -> u8 {
        match self {
            Opcode::PcRel => 0x80,
        }
    }

    pub open spec fn mode(self) -> AddressingType {
        match self {
            Opcode::PcRel => AddressingType::PcRelative,
        }
    }

    /// The opcode byte, which the decode table maps back to BRA in this mode.
    pub fn byte(self) -> (r: u8)
        ensures
            r == self.code(),
            opcode_table(r) == Some((Instruction::Bra, self.mode())),
    {
        match self {
            Opcode::PcRel => 0x80,
        }
    }
}

/// One sub-cycle of BRA, branch always: at cycle 1 the offset read into
/// ALU is applied to PC when the branch is taken.
#[verifier::opaque]
pub open spec fn bra_step(s: CpuState) -> CpuState {
    branch_step(s, true)
}

impl Cpu {
    pub(crate) fn bra(&mut self)
        ensures
            final(self)@ == bra_step(old(self)@),
    {
        proof {
            reveal(bra_step);
        }
        let taken: bool = true;
        self.branch(taken);
    }
}

} // verus!
