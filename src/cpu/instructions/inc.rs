use vstd::prelude::*;

use crate::cpu::addressing_types::AddressingType;
use crate::cpu::instruction_set::{Instruction, Phase, load_operand, offset_byte_signed_byte, opcode_table, rmw_operand, rmw_phase, rmw_phase_spec, rmw_store};
use crate::cpu::{Cpu, CpuState, with_nz};
use crate::memory::{Memory, wrap8};

verus! {

/// The opcodes of INC (increment), one per addressing mode.
#[derive(Clone, Copy, Debug, PartialEq, Eq, Structural)]
pub enum Opcode {
    Zp,
    Acc,
    Abs,
    ZpXIdx,
    AbsXIdx,
}

impl Opcode {
    pub open spec fn code(self) -> u8 {
        match self {
            Opcode::Zp => 0xE6,
            Opcode::Acc => 0x1A,
            Opcode::Abs => 0xEE,
            Opcode::ZpXIdx => 0xF6,
            Opcode::AbsXIdx => 0xFE,
        }
    }

    pub open spec fn mode(self) -> AddressingType {
        match self {
            Opcode::Zp => AddressingType::ZeroPageRMW,
            Opcode::Acc => AddressingType::Accumulator,
            Opcode::Abs => AddressingType::AbsoluteRMW,
            Opcode::ZpXIdx => AddressingType::ZeroPageXIndexedRMW,
            Opcode::AbsXIdx => AddressingType::AbsoluteXIndexedRMW,
        }
    }

    /// The opcode byte, which the decode table maps back to INC in this mode.
    pub fn byte(self) -> (r: u8)
        ensures
            r == self.code(),
            opcode_table(r) == Some((Instruction::Inc, self.mode())),
    {
        match self {
            Opcode::Zp => 0xE6,
            Opcode::Acc => 0x1A,
            Opcode::Abs => 0xEE,
            Opcode::ZpXIdx => 0xF6,
            Opcode::AbsXIdx => 0xFE,
        }
    }
}

/// What INC does on its modify cycle: adds one modulo 256; Z and N describe the result.
pub open spec fn inc_result(s: CpuState, mode: AddressingType) -> CpuState {
    let r: u8 = wrap8(rmw_operand(s, mode) + 1);
    CpuState { ps: with_nz(s.ps, r), ..rmw_store(s, mode, r) }
}

/// One sub-cycle of INC: in accumulator mode A is modified at cycle 1;
/// otherwise the operand is read, modified, left for one idle cycle and
/// written back.
#[verifier::opaque]
pub open spec fn inc_step(s: CpuState, m: Seq<u8>, mode: AddressingType) -> (CpuState, Seq<u8>) {
    match rmw_phase_spec(s.tcu, mode) {
        Phase::Read => (load_operand(s, m), m),
        Phase::Execute => (inc_result(s, mode), m),
        Phase::Write => (s, m.update(s.addressing as int, s.alu)),
        Phase::Idle => (s, m),
    }
}

impl Cpu {
    pub(crate) fn inc(&mut self, memory: &mut Memory, mode: AddressingType)
        ensures
            (final(self)@, final(memory)@) == inc_step(old(self)@, old(memory)@, mode),
    {
        proof {
            reveal(inc_step);
        }
        match rmw_phase(self.tcu, mode) {
            Phase::Read => self.load_operand(memory),
            Phase::Execute => {
                let r: u8 = offset_byte_signed_byte(self.rmw_operand(mode), 0x01);
                self.ps = self.ps.with_nz(r);
                self.rmw_store(mode, r);
            },
            Phase::Write => memory.write_byte(self.addressing, self.alu),
            Phase::Idle => {},
        }
    }
}

} // verus!
