use vstd::prelude::*;

use crate::cpu::addressing_types::AddressingType;
use crate::cpu::instruction_set::{Instruction, opcode_table};
use crate::cpu::{Cpu, CpuState, Flags};

verus! {

/// The opcodes of CLI (clear interrupt disable), one per addressing mode.
#[derive(Clone, Copy, Debug, PartialEq, Eq, Structural)]
pub enum Opcode {
    Imp,
}

impl Opcode {
    pub open spec fn code(self) -> u8 {
        match self {
            Opcode::Imp => 0x58,
        }
    }

    pub open spec fn mode(self) -> AddressingType {
        match self {
            Opcode::Imp => AddressingType::Implied,
        }
    }

    /// The opcode byte, which the decode table maps back to CLI in this mode.
    pub fn byte(self) -> (r: u8)
        ensures
            r == self.code(),
            opcode_table(r) == Some((Instruction::Cli, self.mode())),
    {
        match self {
            Opcode::Imp => 0x58,
        }
    }
}

/// One sub-cycle of CLI: clear interrupt disable at cycle 1.
#[verifier::opaque]
pub open spec fn cli_step(s: CpuState) -> CpuState {
    if s.tcu == 1 {
        CpuState { ps: Flags { i: false, ..s.ps }, ..s }
    } else {
        s
    }
}

impl Cpu {
    pub(crate) fn cli(&mut self)
        ensures
            final(self)@ == cli_step(old(self)@),
    {
        proof {
            reveal(cli_step);
        }
        if self.tcu == 1 {
            self.ps.i = false;
        }
    }
}

} // verus!
