use vstd::prelude::*;

use crate::cpu::addressing_types::AddressingType;
use crate::cpu::instruction_set::{Instruction, opcode_table};
use crate::cpu::{Cpu, CpuState, Flags, pull, unpack};
use crate::memory::Memory;

verus! {

/// The opcodes of PLP (pull the status byte), one per addressing mode.
#[derive(Clone, Copy, Debug, PartialEq, Eq, Structural)]
pub enum Opcode {
    Sta,
}

impl Opcode {
    pub open spec fn code(self) -> u8 {
        match self {
            Opcode::Sta => 0x28,
        }
    }

    pub open spec fn mode(self) -> AddressingType {
        match self {
            Opcode::Sta => AddressingType::StackPull,
        }
    }

    /// The opcode byte, which the decode table maps back to PLP in this mode.
    pub fn byte(self) -> (r: u8)
        ensures
            r == self.code(),
            opcode_table(r) == Some((Instruction::Plp, self.mode())),
    {
        match self {
            Opcode::Sta => 0x28,
        }
    }
}

/// One sub-cycle of PLP: pull the status byte at cycle 1.
#[verifier::opaque]
pub open spec fn plp_step(s: CpuState, m: Seq<u8>) -> CpuState {
    if s.tcu == 1 {
        let (t, b) = pull(s, m);
        CpuState { ps: unpack(b), ..t }
    } else {
        s
    }
}

impl Cpu {
    pub(crate) fn plp(&mut self, memory: &Memory)
        ensures
            final(self)@ == plp_step(old(self)@, memory@),
    {
        proof {
            reveal(plp_step);
        }
        if self.tcu == 1 {
            let b: u8 = self.stack_pull(memory);
            self.ps = Flags::from_byte(b);
        }
    }
}

} // verus!
