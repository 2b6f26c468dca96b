use vstd::prelude::*;

use crate::cpu::addressing_types::AddressingType;
use crate::cpu::instruction_set::{Instruction, opcode_table};
use crate::cpu::{Cpu, CpuState, pull};
use crate::memory::{Memory, wrap16};

verus! {

/// The opcodes of RTS (return from subroutine), one per addressing mode.
#[derive(Clone, Copy, Debug, PartialEq, Eq, Structural)]
pub enum Opcode {
    Sta,
}

impl Opcode {
    pub open spec fn code(self) -> u8 {
        match self {
            Opcode::Sta => 0x60,
        }
    }

    pub open spec fn mode(self) -> AddressingType {
        match self {
            Opcode::Sta => AddressingType::SubroutineReturn,
        }
    }

    /// The opcode byte, which the decode table maps back to RTS in this mode.
    pub fn byte(self) -> (r: u8)
        ensures
            r == self.code(),
            opcode_table(r) == Some((Instruction::Rts, self.mode())),
    {
        match self {
            Opcode::Sta => 0x60,
        }
    }
}

/// One sub-cycle of RTS: cycle 1 pulls the low byte of PC, cycle 2 adds the
/// pulled high byte, cycle 3 steps PC past the JSR.
#[verifier::opaque]
pub open spec fn rts_step(s: CpuState, m: Seq<u8>) -> CpuState {
    if s.tcu == 1 {
        let (t, b) = pull(s, m);
        CpuState { pc: b as u16, ..t }
    } else if s.tcu == 2 {
        let (t, b) = pull(s, m);
        CpuState { pc: wrap16(t.pc + 256 * b), ..t }
    } else if s.tcu == 3 {
        CpuState { pc: wrap16(s.pc + 1), ..s }
    } else {
        s
    }
}

impl Cpu {
    pub(crate) fn rts(&mut self, memory: &Memory)
        ensures
            final(self)@ == rts_step(old(self)@, memory@),
    {
        proof {
            reveal(rts_step);
        }
        if self.tcu == 1 {
            self.pc = self.stack_pull(memory) as u16;
        } else if self.tcu == 2 {
            let high: u16 = self.stack_pull(memory) as u16 * 256;
            self.pc = self.pc.wrapping_add(high);
        } else if self.tcu == 3 {
            self.pc = self.pc.wrapping_add(1);
        }
    }
}

} // verus!
