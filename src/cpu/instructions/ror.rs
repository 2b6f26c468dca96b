use vstd::prelude::*;

use crate::cpu::addressing_types::AddressingType;
use crate::cpu::instruction_set::{Instruction, Phase, load_operand, opcode_table, rmw_operand, rmw_phase, rmw_phase_spec, rmw_store};
use crate::cpu::{Cpu, CpuState, Flags, with_nz};
use crate::memory::Memory;

verus! {

/// The opcodes of ROR (rotate right through carry), one per addressing mode.
#[derive(Clone, Copy, Debug, PartialEq, Eq, Structural)]
pub enum Opcode {
    Zp,
    Acc,
    Abs,
    ZpXIdx,
    AbsXIdx,
}

impl Opcode {
    pub open spec fn code(self) -> u8 {
        match self {
            Opcode::Zp => 0x66,
            Opcode::Acc => 0x6A,
            Opcode::Abs => 0x6E,
            Opcode::ZpXIdx => 0x76,
            Opcode::AbsXIdx => 0x7E,
        }
    }

    pub open spec fn mode(self) -> AddressingType {
        match self {
            Opcode::Zp => AddressingType::ZeroPageRMW,
            Opcode::Acc => AddressingType::Accumulator,
            Opcode::Abs => AddressingType::AbsoluteRMW,
            Opcode::ZpXIdx => AddressingType::ZeroPageXIndexedRMW,
            Opcode::AbsXIdx => AddressingType::AbsoluteXIndexedRMW,
        }
    }

    /// The opcode byte, which the decode table maps back to ROR in this mode.
    pub fn byte(self) -> (r: u8)
        ensures
            r == self.code(),
            opcode_table(r) == Some((Instruction::Ror, self.mode())),
    {
        match self {
            Opcode::Zp => 0x66,
            Opcode::Acc => 0x6A,
            Opcode::Abs => 0x6E,
            Opcode::ZpXIdx => 0x76,
            Opcode::AbsXIdx => 0x7E,
        }
    }
}

/// What ROR does on its modify cycle: rotates right through C: the old C enters bit 7 and bit 0 leaves into C; Z and N describe the result.
pub open spec fn ror_result(s: CpuState, mode: AddressingType) -> CpuState {
    let v: u8 = rmw_operand(s, mode);
    let r: u8 = (v / 2 + (if s.ps.c { 0x80int } else { 0 })) as u8;
    CpuState { ps: Flags { c: v % 2 == 1, ..with_nz(s.ps, r) }, ..rmw_store(s, mode, r) }
}

/// One sub-cycle of ROR: in accumulator mode A is modified at cycle 1;
/// otherwise the operand is read, modified, left for one idle cycle and
/// written back.
#[verifier::opaque]
pub open spec fn ror_step(s: CpuState, m: Seq<u8>, mode: AddressingType) -> (CpuState, Seq<u8>) {
    match rmw_phase_spec(s.tcu, mode) {
        Phase::Read => (load_operand(s, m), m),
        Phase::Execute => (ror_result(s, mode), m),
        Phase::Write => (s, m.update(s.addressing as int, s.alu)),
        Phase::Idle => (s, m),
    }
}

impl Cpu {
    pub(crate) fn ror(&mut self, memory: &mut Memory, mode: AddressingType)
        ensures
            (final(self)@, final(memory)@) == ror_step(old(self)@, old(memory)@, mode),
    {
        proof {
            reveal(ror_step);
        }
        match rmw_phase(self.tcu, mode) {
            Phase::Read => self.load_operand(memory),
            Phase::Execute => {
                let v: u8 = self.rmw_operand(mode);
                let carry_in: u8 = if self.ps.c {
                    0x80
                } else {
                    0
                };
                let r: u8 = v / 2 + carry_in;
                self.ps = self.ps.with_nz(r);
                self.ps.c = v % 2 == 1;
                self.rmw_store(mode, r);
            },
            Phase::Write => memory.write_byte(self.addressing, self.alu),
            Phase::Idle => {},
        }
    }
}

} // verus!
