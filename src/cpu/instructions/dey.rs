use vstd::prelude::*;

use crate::cpu::addressing_types::AddressingType;
use crate::cpu::instruction_set::{Instruction, offset_byte_signed_byte, opcode_table};
use crate::cpu::{Cpu, CpuState, with_nz};
use crate::memory::wrap8;

verus! {

/// The opcodes of DEY (decrement Y), one per addressing mode.
#[derive(Clone, Copy, Debug, PartialEq, Eq, Structural)]
pub enum Opcode {
    Imp,
}

impl Opcode {
    pub open spec fn code(self) -> u8 {
        match self {
            Opcode::Imp => 0x88,
        }
    }

    pub open spec fn mode(self) -> AddressingType {
        match self {
            Opcode::Imp => AddressingType::Implied,
        }
    }

    /// The opcode byte, which the decode table maps back to DEY in this mode.
    pub fn byte(self) -> (r: u8)
        ensures
            r == self.code(),
            opcode_table(r) == Some((Instruction::Dey, self.mode())),
    {
        match self {
            Opcode::Imp => 0x88,
        }
    }
}

/// One sub-cycle of DEY: decrement Y at cycle 1; Z and N describe the result.
#[verifier::opaque]
pub open spec fn dey_step(s: CpuState) -> CpuState {
    if s.tcu == 1 {
        let r: u8 = wrap8(s.y - 1);
        CpuState { y: r, ps: with_nz(s.ps, r), ..s }
    } else {
        s
    }
}

impl Cpu {
    pub(crate) fn dey(&mut self)
        ensures
            final(self)@ == dey_step(old(self)@),
    {
        proof {
            reveal(dey_step);
        }
        if self.tcu == 1 {
            self.y = offset_byte_signed_byte(self.y, 0xFF);
            self.ps = self.ps.with_nz(self.y);
        }
    }
}

} // verus!
