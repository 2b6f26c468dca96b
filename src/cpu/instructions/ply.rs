use vstd::prelude::*;

use crate::cpu::addressing_types::AddressingType;
use crate::cpu::instruction_set::{Instruction, opcode_table};
use crate::cpu::{Cpu, CpuState, pull, with_nz};
use crate::memory::Memory;

verus! {

/// The opcodes of PLY (pull Y), one per addressing mode.
#[derive(Clone, Copy, Debug, PartialEq, Eq, Structural)]
pub enum Opcode {
    Sta,
}

impl Opcode {
    pub open spec fn code(self) -> u8 {
        match self {
            Opcode::Sta => 0x7A,
        }
    }

    pub open spec fn mode(self) -> AddressingType {
        match self {
            Opcode::Sta => AddressingType::StackPull,
        }
    }

    /// The opcode byte, which the decode table maps back to PLY in this mode.
    pub fn byte(self) -> (r: u8)
        ensures
            r == self.code(),
            opcode_table(r) == Some((Instruction::Ply, self.mode())),
    {
        match self {
            Opcode::Sta => 0x7A,
        }
    }
}

/// One sub-cycle of PLY: pull Y at cycle 1; Z and N describe the byte.
#[verifier::opaque]
pub open spec fn ply_step(s: CpuState, m: Seq<u8>) -> CpuState {
    if s.tcu == 1 {
        let (t, b) = pull(s, m);
        CpuState { y: b, ps: with_nz(t.ps, b), ..t }
    } else {
        s
    }
}

impl Cpu {
    pub(crate) fn ply(&mut self, memory: &Memory)
        ensures
            final(self)@ == ply_step(old(self)@, memory@),
    {
        proof {
            reveal(ply_step);
        }
        if self.tcu == 1 {
            let b: u8 = self.stack_pull(memory);
            self.y = b;
            self.ps = self.ps.with_nz(b);
        }
    }
}

} // verus!
