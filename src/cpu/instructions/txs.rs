use vstd::prelude::*;

use crate::cpu::addressing_types::AddressingType;
use crate::cpu::instruction_set::{Instruction, opcode_table};
use crate::cpu::{Cpu, CpuState};

verus! {

/// The opcodes of TXS (transfer X to SP), one per addressing mode.
#[derive(Clone, Copy, Debug, PartialEq, Eq, Structural)]
pub enum Opcode {
    Imp,
}

impl Opcode {
    pub open spec fn code(self) -> u8 {
        match self {
            Opcode::Imp => 0x9A,
        }
    }

    pub open spec fn mode(self) -> AddressingType {
        match self {
            Opcode::Imp => AddressingType::Implied,
        }
    }

    /// The opcode byte, which the decode table maps back to TXS in this mode.
    pub fn byte(self) -> (r: u8)
        ensures
            r == self.code(),
            opcode_table(r) == Some((Instruction::Txs, self.mode())),
    {
        match self {
            Opcode::Imp => 0x9A,
        }
    }
}

/// One sub-cycle of TXS: transfer X to SP at cycle 1.
#[verifier::opaque]
pub open spec fn txs_step(s: CpuState) -> CpuState {
    if s.tcu == 1 {
        CpuState { sp: s.x, ..s }
    } else {
        s
    }
}

impl Cpu {
    pub(crate) fn txs(&mut self)
        ensures
            final(self)@ == txs_step(old(self)@),
    {
        proof {
            reveal(txs_step);
        }
        if self.tcu == 1 {
            self.sp = self.x;
        }
    }
}

} // verus!
