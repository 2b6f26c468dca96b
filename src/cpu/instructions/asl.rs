use vstd::prelude::*;

use crate::cpu::addressing_types::AddressingType;
use crate::cpu::instruction_set::{Instruction, Phase, load_operand, opcode_table, rmw_operand, rmw_phase, rmw_phase_spec, rmw_store};
use crate::cpu::{Cpu, CpuState, Flags, with_nz};
use crate::memory::{Memory, wrap8};

verus! {

/// The opcodes of ASL (arithmetic shift left), one per addressing mode.
#[derive(Clone, Copy, Debug, PartialEq, Eq, Structural)]
pub enum Opcode {
    Zp,
    Acc,
    Abs,
    ZpXIdx,
    AbsXIdx,
}

impl Opcode {
    pub open spec fn code(self) -> u8 {
        match self {
            Opcode::Zp => 0x06,
            Opcode::Acc => 0x0A,
            Opcode::Abs => 0x0E,
            Opcode::ZpXIdx => 0x16,
            Opcode::AbsXIdx => 0x1E,
        }
    }

    pub open spec fn mode(self) -> AddressingType {
        match self {
            Opcode::Zp => AddressingType::ZeroPageRMW,
            Opcode::Acc => AddressingType::Accumulator,
            Opcode::Abs => AddressingType::AbsoluteRMW,
            Opcode::ZpXIdx => AddressingType::ZeroPageXIndexedRMW,
            Opcode::AbsXIdx => AddressingType::AbsoluteXIndexedRMW,
        }
    }

    /// The opcode byte, which the decode table maps back to ASL in this mode.
    pub fn byte(self) -> (r: u8)
        ensures
            r == self.code(),
            opcode_table(r) == Some((Instruction::Asl, self.mode())),
    {
        match self {
            Opcode::Zp => 0x06,
            Opcode::Acc => 0x0A,
            Opcode::Abs => 0x0E,
            Opcode::ZpXIdx => 0x16,
            Opcode::AbsXIdx => 0x1E,
        }
    }
}

/// What ASL does on its modify cycle: shifts left by one; C takes the bit shifted out, Z and N describe the result.
pub open spec fn asl_result(s: CpuState, mode: AddressingType) -> CpuState {
    let v: u8 = rmw_operand(s, mode);
    let r: u8 = wrap8(2 * v);
    CpuState { ps: Flags { c: v >= 0x80, ..with_nz(s.ps, r) }, ..rmw_store(s, mode, r) }
}

/// One sub-cycle of ASL: in accumulator mode A is modified at cycle 1;
/// otherwise the operand is read, modified, left for one idle cycle and
/// written back.
#[verifier::opaque]
pub open spec fn asl_step(s: CpuState, m: Seq<u8>, mode: AddressingType) -> (CpuState, Seq<u8>) {
    match rmw_phase_spec(s.tcu, mode) {
        Phase::Read => (load_operand(s, m), m),
        Phase::Execute => (asl_result(s, mode), m),
        Phase::Write => (s, m.update(s.addressing as int, s.alu)),
        Phase::Idle => (s, m),
    }
}

impl Cpu {
    pub(crate) fn asl(&mut self, memory: &mut Memory, mode: AddressingType)
        ensures
            (final(self)@, final(memory)@) == asl_step(old(self)@, old(memory)@, mode),
    {
        proof {
            reveal(asl_step);
        }
        match rmw_phase(self.tcu, mode) {
            Phase::Read => self.load_operand(memory),
            Phase::Execute => {
                let v: u8 = self.rmw_operand(mode);
                let r: u8 = (v % 128) * 2;
                self.ps = self.ps.with_nz(r);
                self.ps.c = v >= 0x80;
                self.rmw_store(mode, r);
            },
            Phase::Write => memory.write_byte(self.addressing, self.alu),
            Phase::Idle => {},
        }
    }
}

} // verus!
