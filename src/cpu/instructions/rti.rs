use vstd::prelude::*;

use crate::cpu::addressing_types::AddressingType;
use crate::cpu::instruction_set::{Instruction, opcode_table};
use crate::cpu::{Cpu};

verus! {

/// The opcodes of RTI (return from interrupt), one per addressing mode.
#[derive(Clone, Copy, Debug, PartialEq, Eq, Structural)]
pub enum Opcode {
    IntRet,
}

impl Opcode {
    pub open spec fn code(self) -> u8 {
        match self {
            Opcode::IntRet => 0x40,
        }
    }

    pub open spec fn mode(self) -> AddressingType {
        match self {
            Opcode::IntRet => AddressingType::InterruptReturn,
        }
    }

    /// The opcode byte, which the decode table maps back to RTI in this mode.
    pub fn byte(self) -> (r: u8)
        ensures
            r == self.code(),
            opcode_table(r) == Some((Instruction::Rti, self.mode())),
    {
        match self {
            Opcode::IntRet => 0x40,
        }
    }
}

impl Cpu {
    /// RTI does its work in the `InterruptReturn` addressing mode; the instruction itself does nothing.
    pub(crate) fn rti(&self) {
    }
}

} // verus!
