use vstd::prelude::*;

use crate::cpu::addressing_types::AddressingType;
use crate::cpu::instruction_set::{Instruction, Phase, load_operand, opcode_table, rmw_operand, rmw_phase, rmw_phase_spec, rmw_store};
use crate::cpu::{Cpu, CpuState, Flags, with_nz};
use crate::memory::{Memory, wrap8};

verus! {

/// The opcodes of ROL (rotate left through carry), one per addressing mode.
#[derive(Clone, Copy, Debug, PartialEq, Eq, Structural)]
pub enum Opcode {
    Zp,
    Acc,
    Abs,
    ZpXIdx,
    AbsXIdx,
}

impl Opcode {
    pub open spec fn code(self) -> u8 {
        match self {
            Opcode::Zp => 0x26,
            Opcode::Acc => 0x2A,
            Opcode::Abs => 0x2E,
            Opcode::ZpXIdx => 0x36,
            Opcode::AbsXIdx => 0x3E,
        }
    }

    pub open spec fn mode(self) -> AddressingType {
        match self {
            Opcode::Zp => AddressingType::ZeroPageRMW,
            Opcode::Acc => AddressingType::Accumulator,
            Opcode::Abs => AddressingType::AbsoluteRMW,
            Opcode::ZpXIdx => AddressingType::ZeroPageXIndexedRMW,
            Opcode::AbsXIdx => AddressingType::AbsoluteXIndexedRMW,
        }
    }

    /// The opcode byte, which the decode table maps back to ROL in this mode.
    pub fn byte(self) -> (r: u8)
        ensures
            r == self.code(),
            opcode_table(r) == Some((Instruction::Rol, self.mode())),
    {
        match self {
            Opcode::Zp => 0x26,
            Opcode::Acc => 0x2A,
            Opcode::Abs => 0x2E,
            Opcode::ZpXIdx => 0x36,
            Opcode::AbsXIdx => 0x3E,
        }
    }
}

/// What ROL does on its modify cycle: rotates left through C: the old C enters bit 0 and bit 7 leaves into C; Z and N describe the result.
pub open spec fn rol_result(s: CpuState, mode: AddressingType) -> CpuState {
    let v: u8 = rmw_operand(s, mode);
    let r: u8 = wrap8(2 * v + (if s.ps.c { 1int } else { 0 }));
    CpuState { ps: Flags { c: v >= 0x80, ..with_nz(s.ps, r) }, ..rmw_store(s, mode, r) }
}

/// One sub-cycle of ROL: in accumulator mode A is modified at cycle 1;
/// otherwise the operand is read, modified, left for one idle cycle and
/// written back.
#[verifier::opaque]
pub open spec fn rol_step(s: CpuState, m: Seq<u8>, mode: AddressingType) -> (CpuState, Seq<u8>) {
    match rmw_phase_spec(s.tcu, mode) {
        Phase::Read => (load_operand(s, m), m),
        Phase::Execute => (rol_result(s, mode), m),
        Phase::Write => (s, m.update(s.addressing as int, s.alu)),
        Phase::Idle => (s, m),
    }
}

impl Cpu {
    pub(crate) fn rol(&mut self, memory: &mut Memory, mode: AddressingType)
        ensures
            (final(self)@, final(memory)@) == rol_step(old(self)@, old(memory)@, mode),
    {
        proof {
            reveal(rol_step);
        }
        match rmw_phase(self.tcu, mode) {
            Phase::Read => self.load_operand(memory),
            Phase::Execute => {
                let v: u8 = self.rmw_operand(mode);
                let carry_in: u8 = if self.ps.c {
                    1
                } else {
                    0
                };
                let r: u8 = if v >= 0x80 {
                    (v - 0x80) * 2 + carry_in
                } else {
                    v * 2 + carry_in
                };
                assert(r == wrap8(2 * v + (if self.ps.c { 1int } else { 0 })));
                self.ps = self.ps.with_nz(r);
                self.ps.c = v >= 0x80;
                self.rmw_store(mode, r);
            },
            Phase::Write => memory.write_byte(self.addressing, self.alu),
            Phase::Idle => {},
        }
    }
}

} // verus!
