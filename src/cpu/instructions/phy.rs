use vstd::prelude::*;

use crate::cpu::addressing_types::AddressingType;
use crate::cpu::instruction_set::{Instruction, opcode_table};
use crate::cpu::{Cpu, CpuState, push};
use crate::memory::Memory;

verus! {

/// The opcodes of PHY (push Y), one per addressing mode.
#[derive(Clone, Copy, Debug, PartialEq, Eq, Structural)]
pub enum Opcode {
    Sta,
}

impl Opcode {
    pub open spec fn code(self) -> u8 {
        match self {
            Opcode::Sta => 0x5A,
        }
    }

    pub open spec fn mode(self) -> AddressingType {
        match self {
            Opcode::Sta => AddressingType::StackPush,
        }
    }

    /// The opcode byte, which the decode table maps back to PHY in this mode.
    pub fn byte(self) -> (r: u8)
        ensures
            r == self.code(),
            opcode_table(r) == Some((Instruction::Phy, self.mode())),
    {
        match self {
            Opcode::Sta => 0x5A,
        }
    }
}

/// One sub-cycle of PHY: push Y at cycle 1.
#[verifier::opaque]
pub open spec fn phy_step(s: CpuState, m: Seq<u8>) -> (CpuState, Seq<u8>) {
    if s.tcu == 1 {
        push(s, m, s.y)
    } else {
        (s, m)
    }
}

impl Cpu {
    pub(crate) fn phy(&mut self, memory: &mut Memory)
        ensures
            (final(self)@, final(memory)@) == phy_step(old(self)@, old(memory)@),
    {
        proof {
            reveal(phy_step);
        }
        if self.tcu == 1 {
            let v: u8 = self.y;
            self.stack_push(memory, v);
        }
    }
}

} // verus!
