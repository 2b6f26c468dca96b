use vstd::prelude::*;

use crate::cpu::addressing_types::AddressingType;
use crate::cpu::instruction_set::{Instruction, Phase, load_operand, opcode_table, read_phase, read_phase_spec};
use crate::cpu::{Cpu, CpuState, Flags};
use crate::memory::Memory;

verus! {

/// The opcodes of BIT (test bits of memory against A), one per addressing mode.
#[derive(Clone, Copy, Debug, PartialEq, Eq, Structural)]
pub enum Opcode {
    Zp,
    Abs,
    ZpXIdx,
    AbsXIdx,
    Imm,
}

impl Opcode {
    pub open spec fn code(self) -> u8 {
        match self {
            Opcode::Zp => 0x24,
            Opcode::Abs => 0x2C,
            Opcode::ZpXIdx => 0x34,
            Opcode::AbsXIdx => 0x3C,
            Opcode::Imm => 0x89,
        }
    }

    pub open spec fn mode(self) -> AddressingType {
        match self {
            Opcode::Zp => AddressingType::ZeroPage,
            Opcode::Abs => AddressingType::Absolute,
            Opcode::ZpXIdx => AddressingType::ZeroPageXIndexed,
            Opcode::AbsXIdx => AddressingType::AbsoluteXIndexed,
            Opcode::Imm => AddressingType::Immediate,
        }
    }

    /// The opcode byte, which the decode table maps back to BIT in this mode.
    pub fn byte(self) -> (r: u8)
        ensures
            r == self.code(),
            opcode_table(r) == Some((Instruction::Bit, self.mode())),
    {
        match self {
            Opcode::Zp => 0x24,
            Opcode::Abs => 0x2C,
            Opcode::ZpXIdx => 0x34,
            Opcode::AbsXIdx => 0x3C,
            Opcode::Imm => 0x89,
        }
    }
}

/// What BIT does with its operand: z tells whether A & operand is zero; outside immediate mode, N and V take bits 7 and 6 of the operand.
pub open spec fn bit_result(s: CpuState, mode: AddressingType) -> CpuState {
    if mode == AddressingType::Immediate {
        CpuState { ps: Flags { z: s.a & s.alu == 0, ..s.ps }, ..s }
    } else {
        CpuState {
            ps: Flags { z: s.a & s.alu == 0, v: (s.alu / 64) % 2 == 1, n: s.alu >= 0x80, ..s.ps },
            ..s
        }
    }
}

/// One sub-cycle of BIT: the operand is read on the cycle its address is
/// ready and used on the next, or used at cycle 1 in immediate mode.
#[verifier::opaque]
pub open spec fn bit_step(s: CpuState, m: Seq<u8>, mode: AddressingType) -> CpuState {
    match read_phase_spec(s.tcu, mode) {
        Phase::Read => load_operand(s, m),
        Phase::Execute => bit_result(s, mode),
        _ => s,
    }
}

impl Cpu {
    pub(crate) fn bit(&mut self, memory: &Memory, mode: AddressingType)
        ensures
            final(self)@ == bit_step(old(self)@, memory@, mode),
    {
        proof {
            reveal(bit_step);
        }
        match read_phase(self.tcu, mode) {
            Phase::Read => self.load_operand(memory),
            Phase::Execute => {
                let z: bool = self.a & self.alu == 0;
                if mode == AddressingType::Immediate {
                    self.ps.z = z;
                } else {
                    self.ps.z = z;
                    self.ps.v = (self.alu / 64) % 2 == 1;
                    self.ps.n = self.alu >= 0x80;
                }
            },
            _ => {},
        }
    }
}

} // verus!
