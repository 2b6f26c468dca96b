use vstd::prelude::*;

use crate::cpu::addressing_types::AddressingType;
use crate::cpu::instruction_set::{Instruction, Phase, load_operand, opcode_table, rmw_phase, rmw_phase_spec};
use crate::cpu::{Cpu, CpuState, Flags};
use crate::memory::Memory;

verus! {

/// The opcodes of TRB (test and reset bits), one per addressing mode.
#[derive(Clone, Copy, Debug, PartialEq, Eq, Structural)]
pub enum Opcode {
    Abs,
    Zp,
}

impl Opcode {
    pub open spec fn code(self) -> u8 {
        match self {
            Opcode::Abs => 0x1C,
            Opcode::Zp => 0x14,
        }
    }

    pub open spec fn mode(self) -> AddressingType {
        match self {
            Opcode::Abs => AddressingType::AbsoluteRMW,
            Opcode::Zp => AddressingType::ZeroPageRMW,
        }
    }

    /// The opcode byte, which the decode table maps back to TRB in this mode.
    pub fn byte(self) -> (r: u8)
        ensures
            r == self.code(),
            opcode_table(r) == Some((Instruction::Trb, self.mode())),
    {
        match self {
            Opcode::Abs => 0x1C,
            Opcode::Zp => 0x14,
        }
    }
}

/// What TRB does on its modify cycle: clears in the operand the bits set in A; Z tells whether operand & A was zero.
pub open spec fn trb_result(s: CpuState, mode: AddressingType) -> CpuState {
    CpuState { alu: s.alu & !s.a, ps: Flags { z: s.alu & s.a == 0, ..s.ps }, ..s }
}

/// One sub-cycle of TRB: in accumulator mode A is modified at cycle 1;
/// otherwise the operand is read, modified, left for one idle cycle and
/// written back.
#[verifier::opaque]
pub open spec fn trb_step(s: CpuState, m: Seq<u8>, mode: AddressingType) -> (CpuState, Seq<u8>) {
    match rmw_phase_spec(s.tcu, mode) {
        Phase::Read => (load_operand(s, m), m),
        Phase::Execute => (trb_result(s, mode), m),
        Phase::Write => (s, m.update(s.addressing as int, s.alu)),
        Phase::Idle => (s, m),
    }
}

impl Cpu {
    pub(crate) fn trb(&mut self, memory: &mut Memory, mode: AddressingType)
        ensures
            (final(self)@, final(memory)@) == trb_step(old(self)@, old(memory)@, mode),
    {
        proof {
            reveal(trb_step);
        }
        match rmw_phase(self.tcu, mode) {
            Phase::Read => self.load_operand(memory),
            Phase::Execute => {
                let v: u8 = self.alu;
                self.ps.z = v & self.a == 0;
                self.alu = v & !self.a;
            },
            Phase::Write => memory.write_byte(self.addressing, self.alu),
            Phase::Idle => {},
        }
    }
}

} // verus!
