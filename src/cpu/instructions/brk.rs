use vstd::prelude::*;

use crate::cpu::addressing_types::AddressingType;
use crate::cpu::instruction_set::{Instruction, opcode_table};
use crate::cpu::{Cpu};

verus! {

/// The opcodes of BRK (software interrupt), one per addressing mode.
#[derive(Clone, Copy, Debug, PartialEq, Eq, Structural)]
pub enum Opcode {
    IntSetup,
}

impl Opcode {
    pub open spec fn code(self) -> u8 {
        match self {
            Opcode::IntSetup => 0x00,
        }
    }

    pub open spec fn mode(self) -> AddressingType {
        match self {
            Opcode::IntSetup => AddressingType::InterruptSetup,
        }
    }

    /// The opcode byte, which the decode table maps back to BRK in this mode.
    pub fn byte(self) -> (r: u8)
        ensures
            r == self.code(),
            opcode_table(r) == Some((Instruction::Brk, self.mode())),
    {
        match self {
            Opcode::IntSetup => 0x00,
        }
    }
}

impl Cpu {
    /// BRK does its work in the `InterruptSetup` addressing mode; the instruction itself does nothing.
    pub(crate) fn brk(&self) {
    }
}

} // verus!
