use vstd::prelude::*;

use crate::cpu::addressing_types::AddressingType;
use crate::cpu::instruction_set::{Instruction, opcode_table};
use crate::cpu::{Cpu, CpuState};

verus! {

/// The opcodes of JMP (jump), one per addressing mode.
#[derive(Clone, Copy, Debug, PartialEq, Eq, Structural)]
pub enum Opcode {
    Abs,
    AbsInd,
    AbsXIdx,
}

impl Opcode {
    pub open spec fn code(self) -> u8 {
        match self {
            Opcode::Abs => 0x4C,
            Opcode::AbsInd => 0x6C,
            Opcode::AbsXIdx => 0x7C,
        }
    }

    pub open spec fn mode(self) -> AddressingType {
        match self {
            Opcode::Abs => AddressingType::Absolute,
            Opcode::AbsInd => AddressingType::AbsoluteIndirect,
            Opcode::AbsXIdx => AddressingType::AbsoluteXIndexedIndirect,
        }
    }

    /// The opcode byte, which the decode table maps back to JMP in this mode.
    pub fn byte(self) -> (r: u8)
        ensures
            r == self.code(),
            opcode_table(r) == Some((Instruction::Jmp, self.mode())),
    {
        match self {
            Opcode::Abs => 0x4C,
            Opcode::AbsInd => 0x6C,
            Opcode::AbsXIdx => 0x7C,
        }
    }
}

/// One sub-cycle of JMP: in absolute mode PC takes the address at cycle 2;
/// the indirect modes load PC themselves.
#[verifier::opaque]
pub open spec fn jmp_step(s: CpuState, mode: AddressingType) -> CpuState {
    if mode == AddressingType::Absolute && s.tcu == 2 {
        CpuState { pc: s.addressing, ..s }
    } else {
        s
    }
}

impl Cpu {
    pub(crate) fn jmp(&mut self, mode: AddressingType)
        ensures
            final(self)@ == jmp_step(old(self)@, mode),
    {
        proof {
            reveal(jmp_step);
        }
        if mode == AddressingType::Absolute && self.tcu == 2 {
            self.pc = self.addressing;
        }
    }
}

} // verus!
