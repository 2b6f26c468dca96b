use vstd::prelude::*;

use crate::cpu::addressing_types::AddressingType;
use crate::cpu::instruction_set::{Instruction, opcode_table};
use crate::cpu::{Cpu, CpuState, push};
use crate::memory::Memory;

verus! {

/// The opcodes of PHX (push X), one per addressing mode.
#[derive(Clone, Copy, Debug, PartialEq, Eq, Structural)]
pub enum Opcode {
    Sta,
}

impl Opcode {
    pub open spec fn code(self) -> u8 {
        match self {
            Opcode::Sta => 0xDA,
        }
    }

    pub open spec fn mode(self) -> AddressingType {
        match self {
            Opcode::Sta => AddressingType::StackPush,
        }
    }

    /// The opcode byte, which the decode table maps back to PHX in this mode.
    pub fn byte(self) -> (r: u8)
        ensures
            r == self.code(),
            opcode_table(r) == Some((Instruction::Phx, self.mode())),
    {
        match self {
            Opcode::Sta => 0xDA,
        }
    }
}

/// One sub-cycle of PHX: push X at cycle 1.
#[verifier::opaque]
pub open spec fn phx_step(s: CpuState, m: Seq<u8>) -> (CpuState, Seq<u8>) {
    if s.tcu == 1 {
        push(s, m, s.x)
    } else {
        (s, m)
    }
}

impl Cpu {
    pub(crate) fn phx(&mut self, memory: &mut Memory)
        ensures
            (final(self)@, final(memory)@) == phx_step(old(self)@, old(memory)@),
    {
        proof {
            reveal(phx_step);
        }
        if self.tcu == 1 {
            let v: u8 = self.x;
            self.stack_push(memory, v);
        }
    }
}

} // verus!
