use vstd::prelude::*;

use crate::cpu::{pull, push, Cpu, CpuState, IRQ_VECTOR};
use crate::memory::{byte_at, high_byte, low_byte, wrap16, Memory};

verus! {

/// How an instruction finds its operand, and how many clocks that takes.
#[derive(Clone, Copy, Debug, PartialEq, Eq, Hash, Structural)]
pub enum AddressingType {
    Absolute,
    AbsoluteRMW,
    AbsoluteIndirect,
    AbsoluteXIndexed,
    AbsoluteXIndexedRMW,
    AbsoluteXIndexedIndirect,
    AbsoluteYIndexed,
    Accumulator,
    Immediate,
    Implied,
    InterruptSetup,
    InterruptReturn,
    PcRelative,
    StackPull,
    StackPush,
    SubroutineJump,
    SubroutineReturn,
    ZeroPage,
    ZeroPageRMW,
    ZeroPageIndirect,
    ZeroPageIndirectYIndexed,
    ZeroPageXIndexed,
    ZeroPageXIndexedRMW,
    ZeroPageXIndexedIndirect,
    ZeroPageYIndexed,
}

/// Clocks an instruction of the given mode takes, its fetch included.
pub open spec fn clock_count(mode: AddressingType) -> u8 {
    match mode {
        AddressingType::Implied | AddressingType::Immediate | AddressingType::Accumulator
        | AddressingType::PcRelative => 2,
        AddressingType::ZeroPage | AddressingType::StackPush => 3,
        AddressingType::Absolute | AddressingType::AbsoluteXIndexed
        | AddressingType::AbsoluteYIndexed | AddressingType::ZeroPageXIndexed
        | AddressingType::ZeroPageYIndexed | AddressingType::StackPull => 4,
        AddressingType::ZeroPageRMW | AddressingType::ZeroPageIndirect
        | AddressingType::ZeroPageIndirectYIndexed => 5,
        AddressingType::AbsoluteRMW | AddressingType::AbsoluteXIndexedRMW
        | AddressingType::AbsoluteIndirect | AddressingType::AbsoluteXIndexedIndirect
        | AddressingType::ZeroPageXIndexedRMW | AddressingType::ZeroPageXIndexedIndirect
        | AddressingType::InterruptReturn | AddressingType::SubroutineJump
        | AddressingType::SubroutineReturn => 6,
        AddressingType::InterruptSetup => 7,
    }
}

/// The clock count of a mode (see `clock_count`).
pub fn clocks_for(mode: AddressingType) -> (r: u8)
    ensures
        r == clock_count(mode),
{
    match mode {
        AddressingType::Implied | AddressingType::Immediate | AddressingType::Accumulator
        | AddressingType::PcRelative => 2,
        AddressingType::ZeroPage | AddressingType::StackPush => 3,
        AddressingType::Absolute | AddressingType::AbsoluteXIndexed
        | AddressingType::AbsoluteYIndexed | AddressingType::ZeroPageXIndexed
        | AddressingType::ZeroPageYIndexed | AddressingType::StackPull => 4,
        AddressingType::ZeroPageRMW | AddressingType::ZeroPageIndirect
        | AddressingType::ZeroPageIndirectYIndexed => 5,
        AddressingType::AbsoluteRMW | AddressingType::AbsoluteXIndexedRMW
        | AddressingType::AbsoluteIndirect | AddressingType::AbsoluteXIndexedIndirect
        | AddressingType::ZeroPageXIndexedRMW | AddressingType::ZeroPageXIndexedIndirect
        | AddressingType::InterruptReturn | AddressingType::SubroutineJump
        | AddressingType::SubroutineReturn => 6,
        AddressingType::InterruptSetup => 7,
    }
}

/// Cycle 1 reads the byte at PC into ALU and advances PC.
pub open spec fn immediate_step(s: CpuState, m: Seq<u8>) -> CpuState {
    if s.tcu == 1 {
        CpuState { alu: byte_at(m, s.pc), pc: wrap16(s.pc + 1), ..s }
    } else {
        s
    }
}

/// Cycle 1 reads the low address byte, cycle 2 adds the high byte shifted
/// left by 8 and `index`; each advances PC.
pub open spec fn absolute_step(s: CpuState, m: Seq<u8>, index: u8) -> CpuState {
    if s.tcu == 1 {
        CpuState { addressing: byte_at(m, s.pc) as u16, pc: wrap16(s.pc + 1), ..s }
    } else if s.tcu == 2 {
        CpuState {
            addressing: wrap16(s.addressing + 256 * byte_at(m, s.pc) + index),
            pc: wrap16(s.pc + 1),
            ..s
        }
    } else {
        s
    }
}

/// Absolute in cycles 1-2; when `x_indexed`, cycle 3 adds X to the pointer.
/// The next two cycles load PC little-endian from the pointer.
pub open spec fn absolute_indirect_step(s: CpuState, m: Seq<u8>, x_indexed: bool) -> CpuState {
    let first: u8 = if x_indexed { 4 } else { 3 };
    if s.tcu <= 2 {
        absolute_step(s, m, 0)
    } else if s.tcu == 3 && x_indexed {
        CpuState { addressing: wrap16(s.addressing + s.x), ..s }
    } else if s.tcu == first {
        CpuState { pc: byte_at(m, s.addressing) as u16, ..s }
    } else if s.tcu == first + 1 {
        CpuState { pc: wrap16(s.pc + 256 * byte_at(m, wrap16(s.addressing + 1))), ..s }
    } else {
        s
    }
}

/// Cycle 1 reads the zero-page address, cycle 2 adds `index` to it; the high
/// byte stays 0 before the index is added.
pub open spec fn zero_page_step(s: CpuState, m: Seq<u8>, index: u8) -> CpuState {
    if s.tcu == 1 {
        CpuState { addressing: byte_at(m, s.pc) as u16, pc: wrap16(s.pc + 1), ..s }
    } else if s.tcu == 2 {
        CpuState { addressing: wrap16(s.addressing + index), ..s }
    } else {
        s
    }
}

/// Cycle 1 reads the zero-page pointer; cycle 2 reads its low byte into ALU;
/// cycle 3 forms the address from the byte after it, ALU and `index`.
pub open spec fn zero_page_indirect_step(s: CpuState, m: Seq<u8>, index: u8) -> CpuState {
    if s.tcu == 1 {
        CpuState { addressing: byte_at(m, s.pc) as u16, pc: wrap16(s.pc + 1), ..s }
    } else if s.tcu == 2 {
        CpuState { alu: byte_at(m, s.addressing), ..s }
    } else if s.tcu == 3 {
        CpuState {
            addressing: wrap16(256 * byte_at(m, wrap16(s.addressing + 1)) + s.alu + index),
            ..s
        }
    } else {
        s
    }
}

/// Cycle 1 reads the zero-page pointer, cycle 2 adds X, cycle 3 reads the low
/// byte into ALU, cycle 4 forms the address with the byte after it.
pub open spec fn zero_page_x_indirect_step(s: CpuState, m: Seq<u8>) -> CpuState {
    if s.tcu == 1 {
        CpuState { addressing: byte_at(m, s.pc) as u16, pc: wrap16(s.pc + 1), ..s }
    } else if s.tcu == 2 {
        CpuState { addressing: wrap16(s.addressing + s.x), ..s }
    } else if s.tcu == 3 {
        CpuState { alu: byte_at(m, s.addressing), ..s }
    } else if s.tcu == 4 {
        CpuState { addressing: wrap16(256 * byte_at(m, wrap16(s.addressing + 1)) + s.alu), ..s }
    } else {
        s
    }
}

/// BRK: cycles 2-4 push the high and low bytes of PC + 1, then the status
/// byte, and set I; cycles 5-6 load PC little-endian from the IRQ vector.
pub open spec fn interrupt_setup_step(s: CpuState, m: Seq<u8>) -> (CpuState, Seq<u8>) {
    let ret = wrap16(s.pc + 1);
    if s.tcu == 2 {
        push(s, m, high_byte(ret))
    } else if s.tcu == 3 {
        push(s, m, low_byte(ret))
    } else if s.tcu == 4 {
        let (t, m1) = push(s, m, crate::cpu::pack(s.ps));
        (CpuState { ps: crate::cpu::Flags { i: true, ..t.ps }, ..t }, m1)
    } else if s.tcu == 5 {
        (CpuState { pc: byte_at(m, IRQ_VECTOR) as u16, ..s }, m)
    } else if s.tcu == 6 {
        (CpuState { pc: wrap16(s.pc + 256 * byte_at(m, wrap16(IRQ_VECTOR + 1))), ..s }, m)
    } else {
        (s, m)
    }
}

/// RTI: cycle 2 pulls the status byte, cycles 3-4 pull PC low then high.
pub open spec fn interrupt_return_step(s: CpuState, m: Seq<u8>) -> CpuState {
    if s.tcu == 2 {
        let (t, b) = pull(s, m);
        CpuState { ps: crate::cpu::unpack(b), ..t }
    } else if s.tcu == 3 {
        let (t, b) = pull(s, m);
        CpuState { pc: b as u16, ..t }
    } else if s.tcu == 4 {
        let (t, b) = pull(s, m);
        CpuState { pc: wrap16(t.pc + 256 * b), ..t }
    } else {
        s
    }
}

/// The addressing mode's share of one execute sub-cycle.
pub open spec fn address_step(s: CpuState, m: Seq<u8>, mode: AddressingType) -> (
    CpuState,
    Seq<u8>,
) {
    match mode {
        AddressingType::Absolute | AddressingType::AbsoluteRMW
        | AddressingType::SubroutineJump => (absolute_step(s, m, 0), m),
        AddressingType::AbsoluteXIndexed | AddressingType::AbsoluteXIndexedRMW => (
            absolute_step(s, m, s.x),
            m,
        ),
        AddressingType::AbsoluteYIndexed => (absolute_step(s, m, s.y), m),
        AddressingType::AbsoluteIndirect => (absolute_indirect_step(s, m, false), m),
        AddressingType::AbsoluteXIndexedIndirect => (absolute_indirect_step(s, m, true), m),
        AddressingType::Immediate | AddressingType::PcRelative => (immediate_step(s, m), m),
        AddressingType::ZeroPage | AddressingType::ZeroPageRMW => (zero_page_step(s, m, 0), m),
        AddressingType::ZeroPageXIndexed | AddressingType::ZeroPageXIndexedRMW => (
            zero_page_step(s, m, s.x),
            m,
        ),
        AddressingType::ZeroPageYIndexed => (zero_page_step(s, m, s.y), m),
        AddressingType::ZeroPageIndirect => (zero_page_indirect_step(s, m, 0), m),
        AddressingType::ZeroPageIndirectYIndexed => (zero_page_indirect_step(s, m, s.y), m),
        AddressingType::ZeroPageXIndexedIndirect => (zero_page_x_indirect_step(s, m), m),
        AddressingType::InterruptSetup => interrupt_setup_step(s, m),
        AddressingType::InterruptReturn => (interrupt_return_step(s, m), m),
        AddressingType::Accumulator | AddressingType::Implied | AddressingType::StackPull
        | AddressingType::StackPush | AddressingType::SubroutineReturn => (s, m),
    }
}

impl Cpu {
    /// Runs the addressing mode's share of the current sub-cycle.
    pub(crate) fn run_addressing(&mut self, memory: &mut Memory, mode: AddressingType)
        ensures
            (final(self)@, final(memory)@) == address_step(old(self)@, old(memory)@, mode),
    {
        match mode {
            AddressingType::Absolute | AddressingType::AbsoluteRMW
            | AddressingType::SubroutineJump => self.absolute_addressing(memory, 0),
            AddressingType::AbsoluteXIndexed | AddressingType::AbsoluteXIndexedRMW => {
                let x = self.x;
                self.absolute_addressing(memory, x)
            },
            AddressingType::AbsoluteYIndexed => {
                let y = self.y;
                self.absolute_addressing(memory, y)
            },
            AddressingType::AbsoluteIndirect => self.absolute_indirect_addressing(memory, false),
            AddressingType::AbsoluteXIndexedIndirect => self.absolute_indirect_addressing(
                memory,
                true,
            ),
            AddressingType::Immediate | AddressingType::PcRelative => self.immediate_addressing(
                memory,
            ),
            AddressingType::ZeroPage | AddressingType::ZeroPageRMW => self.zero_page_addressing(
                memory,
                0,
            ),
            AddressingType::ZeroPageXIndexed | AddressingType::ZeroPageXIndexedRMW => {
                let x = self.x;
                self.zero_page_addressing(memory, x)
            },
            AddressingType::ZeroPageYIndexed => {
                let y = self.y;
                self.zero_page_addressing(memory, y)
            },
            AddressingType::ZeroPageIndirect => self.zero_page_indirect_addressing(memory, 0),
            AddressingType::ZeroPageIndirectYIndexed => {
                let y = self.y;
                self.zero_page_indirect_addressing(memory, y)
            },
            AddressingType::ZeroPageXIndexedIndirect => self.zero_page_x_indexed_indirect_addressing(
                memory,
            ),
            AddressingType::InterruptSetup => self.interrupt_setup_addressing(memory),
            AddressingType::InterruptReturn => self.interrupt_return_addressing(memory),
            AddressingType::Accumulator | AddressingType::Implied | AddressingType::StackPull
            | AddressingType::StackPush | AddressingType::SubroutineReturn => {},
        }
    }

    fn immediate_addressing(&mut self, memory: &Memory)
        ensures
            final(self)@ == immediate_step(old(self)@, memory@),
    {
        if self.tcu == 1 {
            self.alu = memory.read_byte(self.pc);
            self.pc = self.pc.wrapping_add(1);
        }
    }

    fn absolute_addressing(&mut self, memory: &Memory, index: u8)
        ensures
            final(self)@ == absolute_step(old(self)@, memory@, index),
    {
        if self.tcu == 1 {
            self.addressing = memory.read_byte(self.pc) as u16;
            self.pc = self.pc.wrapping_add(1);
        } else if self.tcu == 2 {
            let high = memory.read_byte(self.pc) as u16 * 256;
            self.addressing = self.addressing.wrapping_add(high).wrapping_add(index as u16);
            self.pc = self.pc.wrapping_add(1);
        }
    }

    // Used only by JMP, so the mode itself loads PC.
    fn absolute_indirect_addressing(&mut self, memory: &Memory, x_indexed: bool)
        ensures
            final(self)@ == absolute_indirect_step(old(self)@, memory@, x_indexed),
    {
        let first: u8 = if x_indexed {
            4
        } else {
            3
        };
        if self.tcu <= 2 {
            self.absolute_addressing(memory, 0);
        } else if self.tcu == 3 && x_indexed {
            self.addressing = self.addressing.wrapping_add(self.x as u16);
        } else if self.tcu == first {
            self.pc = memory.read_byte(self.addressing) as u16;
        } else if self.tcu == first + 1 {
            let high = memory.read_byte(self.addressing.wrapping_add(1)) as u16 * 256;
            self.pc = self.pc.wrapping_add(high);
        }
    }

    fn zero_page_addressing(&mut self, memory: &Memory, index: u8)
        ensures
            final(self)@ == zero_page_step(old(self)@, memory@, index),
    {
        if self.tcu == 1 {
            self.addressing = memory.read_byte(self.pc) as u16;
            self.pc = self.pc.wrapping_add(1);
        } else if self.tcu == 2 {
            self.addressing = self.addressing.wrapping_add(index as u16);
        }
    }

    fn zero_page_indirect_addressing(&mut self, memory: &Memory, index: u8)
        ensures
            final(self)@ == zero_page_indirect_step(old(self)@, memory@, index),
    {
        if self.tcu == 1 {
            self.addressing = memory.read_byte(self.pc) as u16;
            self.pc = self.pc.wrapping_add(1);
        } else if self.tcu == 2 {
            self.alu = memory.read_byte(self.addressing);
        } else if self.tcu == 3 {
            let high = memory.read_byte(self.addressing.wrapping_add(1)) as u16 * 256;
            self.addressing = high.wrapping_add(self.alu as u16).wrapping_add(index as u16);
        }
    }

    fn zero_page_x_indexed_indirect_addressing(&mut self, memory: &Memory)
        ensures
            final(self)@ == zero_page_x_indirect_step(old(self)@, memory@),
    {
        if self.tcu == 1 {
            self.addressing = memory.read_byte(self.pc) as u16;
            self.pc = self.pc.wrapping_add(1);
        } else if self.tcu == 2 {
            self.addressing = self.addressing.wrapping_add(self.x as u16);
        } else if self.tcu == 3 {
            self.alu = memory.read_byte(self.addressing);
        } else if self.tcu == 4 {
            let high = memory.read_byte(self.addressing.wrapping_add(1)) as u16 * 256;
            self.addressing = high.wrapping_add(self.alu as u16);
        }
    }

    fn interrupt_setup_addressing(&mut self, memory: &mut Memory)
        ensures
            (final(self)@, final(memory)@) == interrupt_setup_step(old(self)@, old(memory)@),
    {
        if self.tcu == 2 || self.tcu == 3 {
            let (lo, hi) = crate::memory::u16_to_le(self.pc.wrapping_add(1));
            if self.tcu == 2 {
                self.stack_push(memory, hi);
            } else {
                self.stack_push(memory, lo);
            }
        } else if self.tcu == 4 {
            let status = self.ps.to_byte();
            self.stack_push(memory, status);
            self.ps.i = true;
        } else if self.tcu == 5 {
            self.pc = memory.read_byte(IRQ_VECTOR) as u16;
        } else if self.tcu == 6 {
            let high = memory.read_byte(IRQ_VECTOR + 1) as u16 * 256;
            self.pc = self.pc.wrapping_add(high);
        }
    }

    fn interrupt_return_addressing(&mut self, memory: &Memory)
        ensures
            final(self)@ == interrupt_return_step(old(self)@, memory@),
    {
        if self.tcu == 2 {
            let status = self.stack_pull(memory);
            self.ps = crate::cpu::Flags::from_byte(status);
        } else if self.tcu == 3 {
            self.pc = self.stack_pull(memory) as u16;
        } else if self.tcu == 4 {
            let high = self.stack_pull(memory) as u16 * 256;
            self.pc = self.pc.wrapping_add(high);
        }
    }
}

} // verus!
