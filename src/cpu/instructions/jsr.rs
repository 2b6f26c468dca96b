use vstd::prelude::*;

use crate::cpu::addressing_types::AddressingType;
use crate::cpu::instruction_set::{Instruction, opcode_table};
use crate::cpu::{Cpu, CpuState, push};
use crate::memory::{Memory, high_byte, low_byte, u16_to_le, wrap16};

verus! {

/// The opcodes of JSR (jump to subroutine), one per addressing mode.
#[derive(Clone, Copy, Debug, PartialEq, Eq, Structural)]
pub enum Opcode {
    Abs,
}

impl Opcode {
    pub open spec fn code(self) -> u8 {
        match self {
            Opcode::Abs => 0x20,
        }
    }

    pub open spec fn mode(self) -> AddressingType {
        match self {
            Opcode::Abs => AddressingType::SubroutineJump,
        }
    }

    /// The opcode byte, which the decode table maps back to JSR in this mode.
    pub fn byte(self) -> (r: u8)
        ensures
            r == self.code(),
            opcode_table(r) == Some((Instruction::Jsr, self.mode())),
    {
        match self {
            Opcode::Abs => 0x20,
        }
    }
}

/// One sub-cycle of JSR: cycles 2 and 3 push the high and low bytes of
/// PC - 1 (the last byte of the JSR), cycle 4 jumps to the address.
#[verifier::opaque]
pub open spec fn jsr_step(s: CpuState, m: Seq<u8>) -> (CpuState, Seq<u8>) {
    let ret: u16 = wrap16(s.pc - 1);
    if s.tcu == 2 {
        push(s, m, high_byte(ret))
    } else if s.tcu == 3 {
        push(s, m, low_byte(ret))
    } else if s.tcu == 4 {
        (CpuState { pc: s.addressing, ..s }, m)
    } else {
        (s, m)
    }
}

impl Cpu {
    pub(crate) fn jsr(&mut self, memory: &mut Memory)
        ensures
            (final(self)@, final(memory)@) == jsr_step(old(self)@, old(memory)@),
    {
        proof {
            reveal(jsr_step);
        }
        if self.tcu == 2 || self.tcu == 3 {
            let (lo, hi) = u16_to_le(self.pc.wrapping_sub(1));
            if self.tcu == 2 {
                self.stack_push(memory, hi);
            } else {
                self.stack_push(memory, lo);
            }
        } else if self.tcu == 4 {
            self.pc = self.addressing;
        }
    }
}

} // verus!
