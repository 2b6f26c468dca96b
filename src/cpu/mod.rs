pub mod addressing_types;
pub mod instruction_set;
pub mod instructions;
pub mod laws;

use vstd::prelude::*;

use crate::memory::{byte_at, word_at, wrap16, wrap8, Memory};
use self::addressing_types::{address_step, clock_count, clocks_for, AddressingType};
use self::instruction_set::{
    decode, instruction_step, lemma_instruction_step_frame, opcode_table, Instruction,
};

verus! {

pub type Byte = u8;

pub type Word = u16;

/// Address of the little-endian reset vector.
pub const RESET_VECTOR: u16 = 0xFFFC;

/// Address of the little-endian IRQ/BRK vector.
pub const IRQ_VECTOR: u16 = 0xFFFE;

/// First address of the stack page.
pub const STACK_PAGE: u16 = 0x0100;

/// The status register, held as its named bits. The reserved bit 5 is not
/// stored: it reads as 1 whenever the register is packed into a byte.
#[derive(Clone, Copy, Debug)]
pub struct Flags {
    pub c: bool,
    pub z: bool,
    pub i: bool,
    pub d: bool,
    pub b: bool,
    pub v: bool,
    pub n: bool,
}

/// The status register as the byte that PHP and BRK push: C in bit 0 up to N
/// in bit 7, with the reserved bit 5 set.
pub open spec fn pack(f: Flags) -> u8 {
    ((if f.c { 1int } else { 0 }) + (if f.z { 2int } else { 0 }) + (if f.i { 4int } else { 0 })
        + (if f.d { 8int } else { 0 }) + (if f.b { 16int } else { 0 }) + 32 + (if f.v {
        64int
    } else {
        0
    }) + (if f.n { 128int } else { 0 })) as u8
}

/// The named bits of a status byte, as PLP and RTI restore them.
pub open spec fn unpack(b: u8) -> Flags {
    Flags {
        c: b % 2 == 1,
        z: (b / 2) % 2 == 1,
        i: (b / 4) % 2 == 1,
        d: (b / 8) % 2 == 1,
        b: (b / 16) % 2 == 1,
        v: (b / 64) % 2 == 1,
        n: (b / 128) % 2 == 1,
    }
}

/// `f` with Z and N describing the byte `v`.
pub open spec fn with_nz(f: Flags, v: u8) -> Flags {
    Flags { z: v == 0, n: v >= 0x80, ..f }
}

/// The named flag `flag` of `f`.
pub open spec fn flag_of(f: Flags, flag: CpuStatusFlags) -> bool {
    match flag {
        CpuStatusFlags::C => f.c,
        CpuStatusFlags::Z => f.z,
        CpuStatusFlags::I => f.i,
        CpuStatusFlags::D => f.d,
        CpuStatusFlags::B => f.b,
        CpuStatusFlags::V => f.v,
        CpuStatusFlags::N => f.n,
    }
}

/// `f` with the named flag `flag` set to `v`.
pub open spec fn with_flag(f: Flags, flag: CpuStatusFlags, v: bool) -> Flags {
    match flag {
        CpuStatusFlags::C => Flags { c: v, ..f },
        CpuStatusFlags::Z => Flags { z: v, ..f },
        CpuStatusFlags::I => Flags { i: v, ..f },
        CpuStatusFlags::D => Flags { d: v, ..f },
        CpuStatusFlags::B => Flags { b: v, ..f },
        CpuStatusFlags::V => Flags { v: v, ..f },
        CpuStatusFlags::N => Flags { n: v, ..f },
    }
}

impl Flags {
    pub fn to_byte(self) -> (r: u8)
        ensures
            r == pack(self),
    {
        let mut r: u8 = 0x20;
        if self.c {
            r = r + 0x01;
        }
        if self.z {
            r = r + 0x02;
        }
        if self.i {
            r = r + 0x04;
        }
        if self.d {
            r = r + 0x08;
        }
        if self.b {
            r = r + 0x10;
        }
        if self.v {
            r = r + 0x40;
        }
        if self.n {
            r = r + 0x80;
        }
        r
    }

    pub fn from_byte(b: u8) -> (r: Flags)
        ensures
            r == unpack(b),
    {
        Flags {
            c: b % 2 == 1,
            z: (b / 2) % 2 == 1,
            i: (b / 4) % 2 == 1,
            d: (b / 8) % 2 == 1,
            b: (b / 16) % 2 == 1,
            v: (b / 64) % 2 == 1,
            n: (b / 128) % 2 == 1,
        }
    }

    pub fn with_nz(self, v: u8) -> (r: Flags)
        ensures
            r == with_nz(self, v),
    {
        Flags { z: v == 0, n: v >= 0x80, ..self }
    }
}

/// A status flag, by name.
#[derive(Clone, Copy, Debug, PartialEq, Eq, Structural)]
pub enum CpuStatusFlags {
    /// Carry, bit 0.
    C,
    /// Zero, bit 1.
    Z,
    /// Interrupt disable, bit 2.
    I,
    /// Decimal mode, bit 3.
    D,
    /// Break, bit 4.
    B,
    /// Overflow, bit 6.
    V,
    /// Negative, bit 7.
    N,
}

impl CpuStatusFlags {
    /// The flag's bit in the packed status byte.
    pub open spec fn mask(self) -> u8 {
        match self {
            CpuStatusFlags::C => 0x01,
            CpuStatusFlags::Z => 0x02,
            CpuStatusFlags::I => 0x04,
            CpuStatusFlags::D => 0x08,
            CpuStatusFlags::B => 0x10,
            CpuStatusFlags::V => 0x40,
            CpuStatusFlags::N => 0x80,
        }
    }

    pub fn bits(self) -> (r: u8)
        ensures
            r == self.mask(),
    {
        match self {
            CpuStatusFlags::C => 0x01,
            CpuStatusFlags::Z => 0x02,
            CpuStatusFlags::I => 0x04,
            CpuStatusFlags::D => 0x08,
            CpuStatusFlags::B => 0x10,
            CpuStatusFlags::V => 0x40,
            CpuStatusFlags::N => 0x80,
        }
    }
}

/// The registers that the test introspection reads and writes by name.
#[derive(Clone, Copy, Debug, PartialEq, Eq, Structural)]
pub enum Register {
    A,
    X,
    Y,
    SP,
}

/// The full register file of the processor, as plain values.
pub struct CpuState {
    /// Instruction register: the opcode being executed.
    pub ir: u8,
    /// Sub-cycle counter: 0 right after a fetch.
    pub tcu: u8,
    /// Scratch byte for operands and intermediate results.
    pub alu: u8,
    /// Scratch word holding the effective address under construction.
    pub addressing: u16,
    /// Set by `reset`: the next tick fetches without counting a sub-cycle.
    pub reset: bool,
    pub a: u8,
    pub x: u8,
    pub y: u8,
    pub pc: u16,
    pub sp: u8,
    pub ps: Flags,
}

/// Whether `op` is an implemented opcode.
pub open spec fn decodes(op: u8) -> bool {
    opcode_table(op) is Some
}

/// The addressing mode of an implemented opcode.
pub open spec fn mode_of(op: u8) -> AddressingType {
    opcode_table(op).unwrap().1
}

/// The mnemonic of an implemented opcode.
pub open spec fn instruction_of(op: u8) -> Instruction {
    opcode_table(op).unwrap().0
}

impl CpuState {
    /// While an implemented instruction executes, the sub-cycle counter stays
    /// below the cycle count of its addressing mode.
    pub open spec fn wf(self) -> bool {
        !self.reset && decodes(self.ir) ==> self.tcu < clock_count(mode_of(self.ir))
    }

    /// The next tick is defined: it fetches after a reset, or the opcode in
    /// the instruction register is implemented.
    pub open spec fn can_tick(self) -> bool {
        self.reset || decodes(self.ir)
    }
}

/// Reads the opcode at PC into IR, advances PC and restarts the sub-cycle count.
pub open spec fn fetch(s: CpuState, m: Seq<u8>) -> CpuState {
    CpuState { tcu: 0, ir: byte_at(m, s.pc), pc: wrap16(s.pc + 1), ..s }
}

/// Writes `v` at `0x0100 + SP`, then decrements SP modulo 256.
pub open spec fn push(s: CpuState, m: Seq<u8>, v: u8) -> (CpuState, Seq<u8>) {
    (CpuState { sp: wrap8(s.sp - 1), ..s }, m.update(STACK_PAGE + s.sp, v))
}

/// Increments SP modulo 256, then reads the byte at `0x0100 + SP`.
pub open spec fn pull(s: CpuState, m: Seq<u8>) -> (CpuState, u8) {
    let sp = wrap8(s.sp + 1);
    (CpuState { sp: sp, ..s }, m[STACK_PAGE + sp])
}

/// What one clock tick does to the registers and the memory.
#[verifier::opaque]
pub open spec fn tick(s: CpuState, m: Seq<u8>) -> (CpuState, Seq<u8>) {
    if s.reset {
        (fetch(CpuState { reset: false, ..s }, m), m)
    } else {
        let mode = mode_of(s.ir);
        let t = CpuState { tcu: (s.tcu + 1) as u8, ..s };
        if t.tcu == clock_count(mode) {
            (fetch(t, m), m)
        } else {
            let (u, m1) = address_step(t, m, mode);
            instruction_step(u, m1, instruction_of(s.ir), mode)
        }
    }
}

/// The state after `n` ticks.
pub open spec fn run(s: CpuState, m: Seq<u8>, n: nat) -> (CpuState, Seq<u8>)
    decreases n,
{
    if n == 0 {
        (s, m)
    } else {
        let (s1, m1) = run(s, m, (n - 1) as nat);
        tick(s1, m1)
    }
}

/// The register file of a newly built processor: all zero, status byte 0x20.
pub open spec fn initial_state() -> CpuState {
    CpuState {
        ir: 0,
        tcu: 0,
        alu: 0,
        addressing: 0,
        reset: false,
        a: 0,
        x: 0,
        y: 0,
        pc: 0,
        sp: 0,
        ps: Flags { c: false, z: false, i: false, d: false, b: false, v: false, n: false },
    }
}

/// A tick that does not fetch counts one sub-cycle and keeps the opcode.
pub proof fn lemma_tick_counts(s: CpuState, m: Seq<u8>)
    requires
        !s.reset,
        decodes(s.ir),
        s.tcu + 1 < clock_count(mode_of(s.ir)),
    ensures
        tick(s, m).0.ir == s.ir,
        tick(s, m).0.tcu == s.tcu + 1,
        !tick(s, m).0.reset,
{
    reveal(tick);
    let mode = mode_of(s.ir);
    let t = CpuState { tcu: (s.tcu + 1) as u8, ..s };
    let (u, m1) = address_step(t, m, mode);
    assert(u.ir == t.ir && u.tcu == t.tcu && u.reset == t.reset);
    lemma_instruction_step_frame(u, m1, instruction_of(s.ir), mode);
}

/// The state that `reset` leaves.
pub open spec fn reset_state(s: CpuState, m: Seq<u8>) -> CpuState {
    CpuState {
        ps: Flags { i: false, d: false, b: true, ..s.ps },
        sp: 0xFF,
        pc: word_at(m, RESET_VECTOR),
        reset: true,
        ..s
    }
}

/// The named register `r`.
pub open spec fn register_value(s: CpuState, r: Register) -> u8 {
    match r {
        Register::A => s.a,
        Register::X => s.x,
        Register::Y => s.y,
        Register::SP => s.sp,
    }
}

/// `s` with the named register `r` set to `v`.
pub open spec fn with_register(s: CpuState, r: Register, v: u8) -> CpuState {
    match r {
        Register::A => CpuState { a: v, ..s },
        Register::X => CpuState { x: v, ..s },
        Register::Y => CpuState { y: v, ..s },
        Register::SP => CpuState { sp: v, ..s },
    }
}

/// A 65C02 processor core, stepped one clock at a time against a `Memory`.
pub struct Cpu {
    ir: u8,
    tcu: u8,
    alu: u8,
    addressing: u16,
    reset: bool,
    a: u8,
    x: u8,
    y: u8,
    pc: u16,
    sp: u8,
    ps: Flags,
}

impl View for Cpu {
    type V = CpuState;

    closed spec fn view(&self) -> CpuState {
        CpuState {
            ir: self.ir,
            tcu: self.tcu,
            alu: self.alu,
            addressing: self.addressing,
            reset: self.reset,
            a: self.a,
            x: self.x,
            y: self.y,
            pc: self.pc,
            sp: self.sp,
            ps: self.ps,
        }
    }
}

impl Cpu {
    /// A processor with every register zero but the status byte, which reads 0x20.
    pub fn build_cpu() -> (r: Cpu)
        ensures
            r@ == initial_state(),
            pack(r@.ps) == 0x20,
            r@.wf(),
    {
        Cpu {
            ir: 0x00,
            tcu: 0x00,
            alu: 0x00,
            addressing: 0x0000,
            reset: false,
            a: 0x00,
            x: 0x00,
            y: 0x00,
            pc: 0x0000,
            sp: 0x00,
            ps: Flags { c: false, z: false, i: false, d: false, b: false, v: false, n: false },
        }
    }

    /// Loads PC from the reset vector, clears I and D, sets B, sets SP to 0xFF
    /// and arms the reset latch, so that the next tick fetches.
    pub fn reset(&mut self, memory: &Memory)
        ensures
            final(self)@ == reset_state(old(self)@, memory@),
            final(self)@.wf(),
            final(self)@.can_tick(),
    {
        self.ps.i = false;
        self.ps.d = false;
        self.ps.b = true;
        self.sp = 0xff;
        self.pc = memory.read_word(RESET_VECTOR);
        self.reset = true;
    }

    /// Whether the next tick is defined (see `CpuState::can_tick`).
    pub fn can_execute(&self) -> (r: bool)
        ensures
            r == self@.can_tick(),
    {
        self.reset || decode(self.ir).is_some()
    }

    /// Advances the processor by exactly one clock.
    pub fn exec_cycle(&mut self, memory: &mut Memory)
        requires
            old(self)@.wf(),
            old(self)@.can_tick(),
        ensures
            (final(self)@, final(memory)@) == tick(old(self)@, old(memory)@),
            final(self)@.wf(),
    {
        proof {
            reveal(tick);
        }
        if self.reset {
            self.reset = false;
            self.fetch_instruction(memory);
            return ;
        }
        let (instruction, mode) = match decode(self.ir) {
            Some(d) => d,
            None => {
                return ;
            },
        };
        self.tcu = self.tcu + 1;
        if self.tcu == clocks_for(mode) {
            self.fetch_instruction(memory);
        } else {
            self.run_instruction(memory, instruction, mode);
        }
    }

    fn fetch_instruction(&mut self, memory: &Memory)
        ensures
            final(self)@ == fetch(old(self)@, memory@),
    {
        self.tcu = 0;
        self.ir = memory.read_byte(self.pc);
        self.pc = self.pc.wrapping_add(1);
    }

    /// One execute sub-cycle: the addressing mode's work, then the instruction's.
    fn run_instruction(&mut self, memory: &mut Memory, instruction: Instruction, mode: AddressingType)
        ensures
            ({
                let (u, m1) = address_step(old(self)@, old(memory)@, mode);
                (final(self)@, final(memory)@) == instruction_step(u, m1, instruction, mode)
            }),
            final(self)@.ir == old(self)@.ir,
            final(self)@.tcu == old(self)@.tcu,
            final(self)@.reset == old(self)@.reset,
    {
        self.run_addressing(memory, mode);
        self.run_operation(memory, instruction, mode);
        proof {
            let (u, m1) = address_step(old(self)@, old(memory)@, mode);
            lemma_instruction_step_frame(u, m1, instruction, mode);
        }
    }

    pub(crate) fn stack_push(&mut self, memory: &mut Memory, data: u8)
        ensures
            (final(self)@, final(memory)@) == push(old(self)@, old(memory)@, data),
    {
        memory.write_byte(STACK_PAGE + self.sp as u16, data);
        self.sp = self.sp.wrapping_sub(1);
    }

    pub(crate) fn stack_pull(&mut self, memory: &Memory) -> (r: u8)
        ensures
            (final(self)@, r) == pull(old(self)@, memory@),
    {
        self.sp = self.sp.wrapping_add(1);
        memory.read_byte(STACK_PAGE + self.sp as u16)
    }

    /// The addressing mode of an implemented opcode.
    pub fn get_addressing_type_for_opcode(&self, opcode: u8) -> (r: AddressingType)
        requires
            decodes(opcode),
        ensures
            r == mode_of(opcode),
    {
        match decode(opcode) {
            Some((_, mode)) => mode,
            None => AddressingType::Implied,
        }
    }

    /// The number of clocks an instruction of the given addressing mode takes.
    pub fn get_clocks_for_addressing_type(&self, addr_type: AddressingType) -> (r: u8)
        ensures
            r == clock_count(addr_type),
    {
        clocks_for(addr_type)
    }

    pub fn set_register(&mut self, register: Register, data: u8)
        ensures
            final(self)@ == with_register(old(self)@, register, data),
    {
        match register {
            Register::A => {
                self.a = data;
            },
            Register::X => {
                self.x = data;
            },
            Register::Y => {
                self.y = data;
            },
            Register::SP => {
                self.sp = data;
            },
        }
    }

    pub fn get_register(&self, register: Register) -> (r: u8)
        ensures
            r == register_value(self@, register),
    {
        match register {
            Register::A => self.a,
            Register::X => self.x,
            Register::Y => self.y,
            Register::SP => self.sp,
        }
    }

    /// The status register packed into a byte; the reserved bit 5 reads as 1.
    pub fn get_processor_status(&self) -> (r: u8)
        ensures
            r == pack(self@.ps),
    {
        self.ps.to_byte()
    }

    pub fn get_program_counter(&self) -> (r: u16)
        ensures
            r == self@.pc,
    {
        self.pc
    }

    pub fn is_set(&self, flag: CpuStatusFlags) -> (r: bool)
        ensures
            r == flag_of(self@.ps, flag),
    {
        match flag {
            CpuStatusFlags::C => self.ps.c,
            CpuStatusFlags::Z => self.ps.z,
            CpuStatusFlags::I => self.ps.i,
            CpuStatusFlags::D => self.ps.d,
            CpuStatusFlags::B => self.ps.b,
            CpuStatusFlags::V => self.ps.v,
            CpuStatusFlags::N => self.ps.n,
        }
    }

    pub fn clear_flag(&mut self, flag: CpuStatusFlags)
        ensures
            final(self)@ == (CpuState { ps: with_flag(old(self)@.ps, flag, false), ..old(self)@ }),
    {
        self.write_flag(flag, false);
    }

    pub fn set_flag(&mut self, flag: CpuStatusFlags)
        ensures
            final(self)@ == (CpuState { ps: with_flag(old(self)@.ps, flag, true), ..old(self)@ }),
    {
        self.write_flag(flag, true);
    }

    fn write_flag(&mut self, flag: CpuStatusFlags, v: bool)
        ensures
            final(self)@ == (CpuState { ps: with_flag(old(self)@.ps, flag, v), ..old(self)@ }),
    {
        match flag {
            CpuStatusFlags::C => self.ps.c = v,
            CpuStatusFlags::Z => self.ps.z = v,
            CpuStatusFlags::I => self.ps.i = v,
            CpuStatusFlags::D => self.ps.d = v,
            CpuStatusFlags::B => self.ps.b = v,
            CpuStatusFlags::V => self.ps.v = v,
            CpuStatusFlags::N => self.ps.n = v,
        }
    }
}

} // verus!
