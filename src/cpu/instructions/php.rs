use vstd::prelude::*;

use crate::cpu::addressing_types::AddressingType;
use crate::cpu::instruction_set::{Instruction, opcode_table};
use crate::cpu::{Cpu, CpuState, pack, push};
use crate::memory::Memory;

verus! {

/// The opcodes of PHP (push the status byte), one per addressing mode.
#[derive(Clone, Copy, Debug, PartialEq, Eq, Structural)]
pub enum Opcode {
    Sta,
}

impl Opcode {
    pub open spec fn code(self) -> u8 {
        match self {
            Opcode::Sta => 0x08,
        }
    }

    pub open spec fn mode(self) -> AddressingType {
        match self {
            Opcode::Sta => AddressingType::StackPush,
        }
    }

    /// The opcode byte, which the decode table maps back to PHP in this mode.
    pub fn byte(self) -> (r: u8)
        ensures
            r == self.code(),
            opcode_table(r) == Some((Instruction::Php, self.mode())),
    {
        match self {
            Opcode::Sta => 0x08,
        }
    }
}

/// One sub-cycle of PHP: push the status byte at cycle 1.
#[verifier::opaque]
pub open spec fn php_step(s: CpuState, m: Seq<u8>) -> (CpuState, Seq<u8>) {
    if s.tcu == 1 {
        push(s, m, pack(s.ps))
    } else {
        (s, m)
    }
}

impl Cpu {
    pub(crate) fn php(&mut self, memory: &mut Memory)
        ensures
            (final(self)@, final(memory)@) == php_step(old(self)@, old(memory)@),
    {
        proof {
            reveal(php_step);
        }
        if self.tcu == 1 {
            let v: u8 = self.ps.to_byte();
            self.stack_push(memory, v);
        }
    }
}

} // verus!
