use vstd::prelude::*;

use crate::cpu::addressing_types::AddressingType;
use crate::cpu::instruction_set::{Instruction, opcode_table};
use crate::cpu::{Cpu, CpuState, pull, with_nz};
use crate::memory::Memory;

verus! {

/// The opcodes of PLX (pull X), one per addressing mode.
#[derive(Clone, Copy, Debug, PartialEq, Eq, Structural)]
pub enum Opcode {
    Sta,
}

impl Opcode {
    pub open spec fn code(self) -> u8 {
        match self {
            Opcode::Sta => 0xFA,
        }
    }

    pub open spec fn mode(self) -> AddressingType {
        match self {
            Opcode::Sta => AddressingType::StackPull,
        }
    }

    /// The opcode byte, which the decode table maps back to PLX in this mode.
    pub fn byte(self) -> (r: u8)
        ensures
            r == self.code(),
            opcode_table(r) == Some((Instruction::Plx, self.mode())),
    {
        match self {
            Opcode::Sta => 0xFA,
        }
    }
}

/// One sub-cycle of PLX: pull X at cycle 1; Z and N describe the byte.
#[verifier::opaque]
pub open spec fn plx_step(s: CpuState, m: Seq<u8>) -> CpuState {
    if s.tcu == 1 {
        let (t, b) = pull(s, m);
        CpuState { x: b, ps: with_nz(t.ps, b), ..t }
    } else {
        s
    }
}

impl Cpu {
    pub(crate) fn plx(&mut self, memory: &Memory)
        ensures
            final(self)@ == plx_step(old(self)@, memory@),
    {
        proof {
            reveal(plx_step);
        }
        if self.tcu == 1 {
            let b: u8 = self.stack_pull(memory);
            self.x = b;
            self.ps = self.ps.with_nz(b);
        }
    }
}

} // verus!
