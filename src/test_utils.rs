use vstd::prelude::*;

use crate::cpu::addressing_types::{clock_count, AddressingType};
use crate::cpu::{
    decodes, initial_state, mode_of, pack, reset_state, run, tick, with_flag, with_register, Cpu,
    CpuState, CpuStatusFlags, Register,
};
use crate::memory::{
    byte_at, high_byte, low_byte, store_word, word_at, wrap16, wrap8, zero_memory, Memory,
};

verus! {

/// Where the test programs keep the reset vector.
pub const RESET_VECTOR_ADDRESS: u16 = 0xFFFC;

/// Where the test programs start.
pub const START_PROGRAM: u16 = 0x8000;

/// Where indirect test operands point.
pub const IND_PTR: u16 = 0x7000;

/// Where absolute test operands point.
pub const ABS_PTR: u16 = 0x6000;

/// Where zero-page test operands point.
pub const ZP_PTR: u8 = 0x20;

/// A memory image under construction, with the address where the next
/// instruction goes.
#[derive(Clone, Copy)]
pub struct TestMemory {
    pub memory: Memory,
    pub next_address: u16,
}

/// How many operand bytes follow an opcode.
#[derive(Clone, Copy, Debug, PartialEq, Eq, Structural)]
pub enum OperandType {
    Empty,
    Byte,
    Word,
}

/// A snapshot of the programmer-visible registers.
#[derive(Clone, Copy, Debug, PartialEq, Eq, Structural)]
pub struct TestCpu {
    pub a: u8,
    pub x: u8,
    pub y: u8,
    pub pc: u16,
    pub sp: u8,
    pub ps: u8,
}

/// The snapshot of a register file.
pub open spec fn snapshot(s: CpuState) -> TestCpu {
    TestCpu { a: s.a, x: s.x, y: s.y, pc: s.pc, sp: s.sp, ps: pack(s.ps) }
}

/// `m` with an instruction placed at `at`, and the address after it.
pub open spec fn place_instruction(
    m: Seq<u8>,
    at: u16,
    opcode: u8,
    operand: OperandType,
    data: u16,
) -> (Seq<u8>, u16) {
    let m1 = m.update(at as int, opcode);
    let next = wrap16(at + 1);
    match operand {
        OperandType::Empty => (m1, next),
        OperandType::Byte => (m1.update(next as int, low_byte(data)), wrap16(next + 1)),
        OperandType::Word => (store_word(m1, next, data), wrap16(next + 2)),
    }
}

/// The image and next address after placing the first `n` instructions of `program`.
pub open spec fn placed(
    m: Seq<u8>,
    at: u16,
    program: Seq<(u8, OperandType, u16)>,
    n: nat,
) -> (Seq<u8>, u16)
    decreases n,
{
    if n == 0 {
        (m, at)
    } else {
        let (m1, at1) = placed(m, at, program, (n - 1) as nat);
        let (op, operand, data) = program[n - 1];
        place_instruction(m1, at1, op, operand, data)
    }
}

/// The image after writing the first `n` bytes of `data`, each at its address.
pub open spec fn poked(m: Seq<u8>, data: Seq<(u16, u8)>, n: nat) -> Seq<u8>
    decreases n,
{
    if n == 0 {
        m
    } else {
        poked(m, data, (n - 1) as nat).update(data[n - 1].0 as int, data[n - 1].1)
    }
}

/// The register file after setting the first `n` named registers of `registers`.
pub open spec fn registers_set(s: CpuState, registers: Seq<(Register, u8)>, n: nat) -> CpuState
    decreases n,
{
    if n == 0 {
        s
    } else {
        let (r, v) = registers[n - 1];
        with_register(registers_set(s, registers, (n - 1) as nat), r, v)
    }
}

/// The operand that the test program gives an opcode of the given mode.
pub open spec fn test_operand(mode: AddressingType, x: u8, y: u8, data: u8) -> (OperandType, u16) {
    match mode {
        AddressingType::Absolute | AddressingType::AbsoluteRMW | AddressingType::AbsoluteIndirect
        | AddressingType::SubroutineJump => (OperandType::Word, ABS_PTR),
        AddressingType::AbsoluteXIndexed | AddressingType::AbsoluteXIndexedRMW
        | AddressingType::AbsoluteXIndexedIndirect => (OperandType::Word, (ABS_PTR - x) as u16),
        AddressingType::AbsoluteYIndexed => (OperandType::Word, (ABS_PTR - y) as u16),
        AddressingType::Immediate | AddressingType::PcRelative => (OperandType::Byte, data as u16),
        AddressingType::InterruptSetup => (OperandType::Byte, 0),
        AddressingType::ZeroPage | AddressingType::ZeroPageIndirect | AddressingType::ZeroPageRMW
        | AddressingType::ZeroPageIndirectYIndexed => (OperandType::Byte, ZP_PTR as u16),
        AddressingType::ZeroPageXIndexed | AddressingType::ZeroPageXIndexedIndirect
        | AddressingType::ZeroPageXIndexedRMW => (
            OperandType::Byte,
            wrap8(ZP_PTR - x) as u16,
        ),
        AddressingType::ZeroPageYIndexed => (OperandType::Byte, wrap8(ZP_PTR - y) as u16),
        _ => (OperandType::Empty, 0),
    }
}

/// The bytes that the test program places beside the code: the operand
/// `data` where the effective address lands, and the pointers leading to it.
pub open spec fn test_data(mode: AddressingType, y: u8, data: u8) -> Seq<(u16, u8)> {
    match mode {
        AddressingType::Absolute | AddressingType::AbsoluteRMW | AddressingType::AbsoluteXIndexed
        | AddressingType::AbsoluteXIndexedRMW | AddressingType::AbsoluteYIndexed
        | AddressingType::SubroutineJump => seq![(ABS_PTR, data)],
        AddressingType::AbsoluteIndirect | AddressingType::AbsoluteXIndexedIndirect => seq![
            (ABS_PTR, low_byte(IND_PTR)),
            ((ABS_PTR + 1) as u16, high_byte(IND_PTR)),
            (IND_PTR, data),
        ],
        AddressingType::ZeroPage | AddressingType::ZeroPageRMW | AddressingType::ZeroPageXIndexed
        | AddressingType::ZeroPageXIndexedRMW | AddressingType::ZeroPageYIndexed => seq![
            (ZP_PTR as u16, data),
        ],
        AddressingType::ZeroPageIndirect | AddressingType::ZeroPageXIndexedIndirect => seq![
            (ZP_PTR as u16, low_byte(IND_PTR)),
            ((ZP_PTR + 1) as u16, high_byte(IND_PTR)),
            (IND_PTR, data),
        ],
        AddressingType::ZeroPageIndirectYIndexed => seq![
            (ZP_PTR as u16, low_byte((IND_PTR - y) as u16)),
            ((ZP_PTR + 1) as u16, high_byte((IND_PTR - y) as u16)),
            (IND_PTR, data),
        ],
        _ => seq![],
    }
}

/// The memory image of the one-instruction test program for `opcode`.
pub open spec fn test_image(opcode: u8, x: u8, y: u8, data: u8) -> Seq<u8> {
    let mode = mode_of(opcode);
    let (kind, operand) = test_operand(mode, x, y, data);
    let start = store_word(zero_memory(), RESET_VECTOR_ADDRESS, START_PROGRAM);
    let program = seq![(opcode, kind, operand)];
    let data = test_data(mode, y, data);
    poked(placed(start, START_PROGRAM, program, 1).0, data, data.len())
}

/// The registers the test sets before the program runs.
pub open spec fn test_registers(
    a_reg: Option<u8>,
    x_reg: Option<u8>,
    y_reg: Option<u8>,
    sp_reg: Option<u8>,
    ps_flag: Option<CpuStatusFlags>,
    s: CpuState,
) -> CpuState {
    let s1 = CpuState {
        a: if a_reg is Some { a_reg.unwrap() } else { s.a },
        x: if x_reg is Some { x_reg.unwrap() } else { s.x },
        y: if y_reg is Some { y_reg.unwrap() } else { s.y },
        sp: if sp_reg is Some { sp_reg.unwrap() } else { s.sp },
        ..s
    };
    if ps_flag is Some {
        CpuState { ps: with_flag(s1.ps, ps_flag.unwrap(), true), ..s1 }
    } else {
        s1
    }
}

impl TestCpu {
    pub fn clone_from_cpu(cpu: &Cpu) -> (r: TestCpu)
        ensures
            r == snapshot(cpu@),
    {
        TestCpu {
            a: cpu.get_register(Register::A),
            x: cpu.get_register(Register::X),
            y: cpu.get_register(Register::Y),
            sp: cpu.get_register(Register::SP),
            ps: cpu.get_processor_status(),
            pc: cpu.get_program_counter(),
        }
    }

    /// Whether the named register holds `data`.
    pub fn assert_register(&self, register: Register, data: u8) -> (r: bool)
        ensures
            r == (match register {
                Register::A => self.a,
                Register::X => self.x,
                Register::Y => self.y,
                Register::SP => self.sp,
            } == data),
    {
        let register_content: u8 = match register {
            Register::A => self.a,
            Register::X => self.x,
            Register::Y => self.y,
            Register::SP => self.sp,
        };
        register_content == data
    }

    /// Whether the named flag is `value`.
    pub fn assert_status(&self, status_flag: CpuStatusFlags, value: bool) -> (r: bool)
        ensures
            r == ((self.ps & status_flag.mask() != 0) == value),
    {
        (self.ps & status_flag.bits() != 0) == value
    }

    /// Whether PC holds `address`.
    pub fn assert_pc(&self, address: u16) -> (r: bool)
        ensures
            r == (self.pc == address),
    {
        self.pc == address
    }
}

impl TestMemory {
    pub fn clone_from_memory(memory: &Memory) -> (r: TestMemory)
        ensures
            r.memory@ == memory@,
            r.next_address == 0,
    {
        TestMemory { memory: *memory, next_address: 0x0000 }
    }

    /// An empty image whose reset vector points at `res_vec`, where the
    /// first instruction goes.
    pub fn build_test_memory(res_vec: u16) -> (r: TestMemory)
        ensures
            r.memory@ == store_word(zero_memory(), RESET_VECTOR_ADDRESS, res_vec),
            r.next_address == res_vec,
    {
        let mut memory: Memory = Memory::build_memory();
        memory.write_word(RESET_VECTOR_ADDRESS, res_vec);
        TestMemory { memory, next_address: res_vec }
    }

    /// Appends an instruction: the opcode, then its operand little-endian.
    pub fn write_instruction(&mut self, opcode: u8, operand: OperandType, data: u16)
        ensures
            (final(self).memory@, final(self).next_address) == place_instruction(
                old(self).memory@,
                old(self).next_address,
                opcode,
                operand,
                data,
            ),
    {
        self.memory.write_byte(self.next_address, opcode);
        self.next_address = self.next_address.wrapping_add(1);
        match operand {
            OperandType::Byte => {
                self.memory.write_byte(self.next_address, (data % 256) as u8);
                self.next_address = self.next_address.wrapping_add(1);
            },
            OperandType::Word => {
                self.memory.write_word(self.next_address, data);
                self.next_address = self.next_address.wrapping_add(2);
            },
            OperandType::Empty => {},
        }
    }

    pub fn get_memory(&self) -> (r: Memory)
        ensures
            r@ == self.memory@,
    {
        self.memory
    }

    pub fn write_data_byte(&mut self, address: u16, data: u8)
        ensures
            final(self).memory@ == old(self).memory@.update(address as int, data),
            final(self).next_address == old(self).next_address,
    {
        self.memory.write_byte(address, data);
    }

    pub fn write_data_word(&mut self, address: u16, data: u16)
        ensures
            final(self).memory@ == store_word(old(self).memory@, address, data),
            final(self).next_address == old(self).next_address,
    {
        self.memory.write_word(address, data);
    }

    /// Whether the byte at `address` is `data`.
    pub fn assert_byte(&self, address: u16, data: u8) -> (r: bool)
        ensures
            r == (byte_at(self.memory@, address) == data),
    {
        self.memory.read_byte(address) == data
    }

    /// Whether the little-endian word at `address` is `data`.
    pub fn assert_word(&self, address: u16, data: u16) -> (r: bool)
        ensures
            r == (word_at(self.memory@, address) == data),
    {
        self.memory.read_word(address) == data
    }
}

/// The test image starts at `START_PROGRAM` with `opcode`.
proof fn lemma_test_image(opcode: u8, x: u8, y: u8, data: u8)
    ensures
        word_at(test_image(opcode, x, y, data), RESET_VECTOR_ADDRESS) == START_PROGRAM,
        byte_at(test_image(opcode, x, y, data), START_PROGRAM) == opcode,
{
    reveal_with_fuel(poked, 4);
    reveal_with_fuel(placed, 2);
    let mode = mode_of(opcode);
    let (kind, operand) = test_operand(mode, x, y, data);
    let start = store_word(zero_memory(), RESET_VECTOR_ADDRESS, START_PROGRAM);
    let code = placed(start, START_PROGRAM, seq![(opcode, kind, operand)], 1).0;
    assert(word_at(code, RESET_VECTOR_ADDRESS) == START_PROGRAM);
    assert(byte_at(code, START_PROGRAM) == opcode);
}

fn setup_cpu(registers: Vec<(Register, u8)>) -> (r: Cpu)
    ensures
        r@ == registers_set(initial_state(), registers@, registers@.len()),
{
    let mut test_cpu = Cpu::build_cpu();
    let mut i: usize = 0;
    while i < registers.len()
        invariant
            0 <= i <= registers@.len(),
            test_cpu@ == registers_set(initial_state(), registers@, i as nat),
        decreases registers@.len() - i,
    {
        let (register, data) = registers[i];
        test_cpu.set_register(register, data);
        i = i + 1;
    }
    test_cpu
}

fn setup_memory(
    reset_vector: u16,
    program: Vec<(u8, OperandType, u16)>,
    program_data: Vec<(u16, u8)>,
) -> (r: TestMemory)
    ensures
        r.memory@ == poked(
            placed(
                store_word(zero_memory(), RESET_VECTOR_ADDRESS, reset_vector),
                reset_vector,
                program@,
                program@.len(),
            ).0,
            program_data@,
            program_data@.len(),
        ),
{
    let mut test_memory: TestMemory = TestMemory::build_test_memory(reset_vector);
    let ghost start = test_memory.memory@;
    let mut i: usize = 0;
    while i < program.len()
        invariant
            0 <= i <= program@.len(),
            (test_memory.memory@, test_memory.next_address) == placed(
                start,
                reset_vector,
                program@,
                i as nat,
            ),
        decreases program@.len() - i,
    {
        let (opcode, op_type, data) = program[i];
        test_memory.write_instruction(opcode, op_type, data);
        i = i + 1;
    }
    let ghost code = test_memory.memory@;
    let mut j: usize = 0;
    while j < program_data.len()
        invariant
            0 <= j <= program_data@.len(),
            test_memory.memory@ == poked(code, program_data@, j as nat),
        decreases program_data@.len() - j,
    {
        let (address, data) = program_data[j];
        test_memory.write_data_byte(address, data);
        j = j + 1;
    }
    test_memory
}

/// The operand of the test program (see `test_operand`).
fn test_program_operand(mode: AddressingType, x: u8, y: u8, data: u8) -> (r: (OperandType, u16))
    ensures
        r == test_operand(mode, x, y, data),
{
    match mode {
        AddressingType::Absolute | AddressingType::AbsoluteRMW | AddressingType::AbsoluteIndirect
        | AddressingType::SubroutineJump => (OperandType::Word, ABS_PTR),
        AddressingType::AbsoluteXIndexed | AddressingType::AbsoluteXIndexedRMW
        | AddressingType::AbsoluteXIndexedIndirect => (OperandType::Word, ABS_PTR - x as u16),
        AddressingType::AbsoluteYIndexed => (OperandType::Word, ABS_PTR - y as u16),
        AddressingType::Immediate | AddressingType::PcRelative => (OperandType::Byte, data as u16),
        AddressingType::InterruptSetup => (OperandType::Byte, 0),
        AddressingType::ZeroPage | AddressingType::ZeroPageIndirect | AddressingType::ZeroPageRMW
        | AddressingType::ZeroPageIndirectYIndexed => (OperandType::Byte, ZP_PTR as u16),
        AddressingType::ZeroPageXIndexed | AddressingType::ZeroPageXIndexedIndirect
        | AddressingType::ZeroPageXIndexedRMW => (
            OperandType::Byte,
            ZP_PTR.wrapping_sub(x) as u16,
        ),
        AddressingType::ZeroPageYIndexed => (
            OperandType::Byte,
            ZP_PTR.wrapping_sub(y) as u16,
        ),
        _ => (OperandType::Empty, 0),
    }
}

/// The data bytes of the test program (see `test_data`).
fn test_program_data(mode: AddressingType, y: u8, data: u8) -> (r: Vec<(u16, u8)>)
    ensures
        r@ == test_data(mode, y, data),
{
    let mut program_data: Vec<(u16, u8)> = Vec::new();
    match mode {
        AddressingType::Absolute | AddressingType::AbsoluteRMW | AddressingType::AbsoluteXIndexed
        | AddressingType::AbsoluteXIndexedRMW | AddressingType::AbsoluteYIndexed
        | AddressingType::SubroutineJump => {
            program_data.push((ABS_PTR, data));
        },
        AddressingType::AbsoluteIndirect | AddressingType::AbsoluteXIndexedIndirect => {
            program_data.push((ABS_PTR, (IND_PTR % 256) as u8));
            program_data.push((ABS_PTR + 1, (IND_PTR / 256) as u8));
            program_data.push((IND_PTR, data));
        },
        AddressingType::ZeroPage | AddressingType::ZeroPageRMW | AddressingType::ZeroPageXIndexed
        | AddressingType::ZeroPageXIndexedRMW | AddressingType::ZeroPageYIndexed => {
            program_data.push((ZP_PTR as u16, data));
        },
        AddressingType::ZeroPageIndirect | AddressingType::ZeroPageXIndexedIndirect => {
            program_data.push((ZP_PTR as u16, (IND_PTR % 256) as u8));
            program_data.push(((ZP_PTR + 1) as u16, (IND_PTR / 256) as u8));
            program_data.push((IND_PTR, data));
        },
        AddressingType::ZeroPageIndirectYIndexed => {
            let pointer: u16 = IND_PTR - y as u16;
            program_data.push((ZP_PTR as u16, (pointer % 256) as u8));
            program_data.push(((ZP_PTR + 1) as u16, (pointer / 256) as u8));
            program_data.push((IND_PTR, data));
        },
        _ => {},
    }
    proof {
        assert(program_data@ =~= test_data(mode, y, data));
    }
    program_data
}

/// Runs a one-instruction test: sets the given registers and flag, places
/// `opcode` at `START_PROGRAM` with an operand leading to `data` (see
/// `test_operand` and `test_data`), resets and runs the opcode's clock count.
pub fn setup_test(
    a_reg: Option<u8>,
    x_reg: Option<u8>,
    y_reg: Option<u8>,
    sp_reg: Option<u8>,
    opcode: u8,
    data: u8,
) -> (r: (TestCpu, TestMemory))
    requires
        decodes(opcode),
    ensures
        ({
            let s0 = test_registers(a_reg, x_reg, y_reg, sp_reg, None, initial_state());
            let m0 = test_image(opcode, s0.x, s0.y, data);
            let (s, m) = run(reset_state(s0, m0), m0, clock_count(mode_of(opcode)) as nat);
            r.0 == snapshot(s) && r.1.memory@ == m
        }),
{
    setup_test_with_ps(a_reg, x_reg, y_reg, sp_reg, None, opcode, data)
}

/// `setup_test` with one status flag set beforehand.
pub fn setup_test_with_ps(
    a_reg: Option<u8>,
    x_reg: Option<u8>,
    y_reg: Option<u8>,
    sp_reg: Option<u8>,
    ps_flag: Option<CpuStatusFlags>,
    opcode: u8,
    data: u8,
) -> (r: (TestCpu, TestMemory))
    requires
        decodes(opcode),
    ensures
        ({
            let s0 = test_registers(a_reg, x_reg, y_reg, sp_reg, ps_flag, initial_state());
            let m0 = test_image(opcode, s0.x, s0.y, data);
            let (s, m) = run(reset_state(s0, m0), m0, clock_count(mode_of(opcode)) as nat);
            r.0 == snapshot(s) && r.1.memory@ == m
        }),
{
    let mut registers: Vec<(Register, u8)> = Vec::new();
    if let Some(reg) = a_reg {
        registers.push((Register::A, reg));
    }
    if let Some(reg) = x_reg {
        registers.push((Register::X, reg));
    }
    if let Some(reg) = y_reg {
        registers.push((Register::Y, reg));
    }
    if let Some(reg) = sp_reg {
        registers.push((Register::SP, reg));
    }
    let mut test_cpu: Cpu = setup_cpu(registers);
    proof {
        reveal_with_fuel(registers_set, 5);
    }
    assert(test_cpu@ == test_registers(a_reg, x_reg, y_reg, sp_reg, None, initial_state()));
    if let Some(flag) = ps_flag {
        test_cpu.set_flag(flag);
    }
    let mut program: Vec<(u8, OperandType, u16)> = Vec::new();
    let addressing_type: AddressingType = test_cpu.get_addressing_type_for_opcode(opcode);
    let x: u8 = test_cpu.get_register(Register::X);
    let y: u8 = test_cpu.get_register(Register::Y);
    let operand: (OperandType, u16) = test_program_operand(addressing_type, x, y, data);
    program.push((opcode, operand.0, operand.1));
    let program_data: Vec<(u16, u8)> = test_program_data(addressing_type, y, data);
    let clock_cycles: u8 = test_cpu.get_clocks_for_addressing_type(addressing_type);
    proof {
        assert(program@ =~= seq![(opcode, operand.0, operand.1)]);
        lemma_test_image(opcode, x, y, data);
    }
    let mut test_memory = setup_memory(START_PROGRAM, program, program_data);
    run_test_for_x_clock(&mut test_cpu, &mut test_memory, clock_cycles);
    (TestCpu::clone_from_cpu(&test_cpu), test_memory)
}

/// Resets the processor against the image and runs `cycles` clocks; the
/// first fetches the opcode at the reset address and the rest execute it.
fn run_test_for_x_clock(cpu: &mut Cpu, test_memory: &mut TestMemory, cycles: u8)
    requires
        decodes(byte_at(old(test_memory).memory@, word_at(old(test_memory).memory@, RESET_VECTOR_ADDRESS))),
        cycles <= clock_count(
            mode_of(
                byte_at(
                    old(test_memory).memory@,
                    word_at(old(test_memory).memory@, RESET_VECTOR_ADDRESS),
                ),
            ),
        ),
    ensures
        (final(cpu)@, final(test_memory).memory@) == run(
            reset_state(old(cpu)@, old(test_memory).memory@),
            old(test_memory).memory@,
            cycles as nat,
        ),
        final(test_memory).next_address == old(test_memory).next_address,
{
    let mut memory = test_memory.get_memory();
    cpu.reset(&memory);
    let ghost s0 = cpu@;
    let ghost m0 = memory@;
    let ghost op = byte_at(m0, s0.pc);
    let mut i: u8 = 0;
    while i < cycles
        invariant
            0 <= i <= cycles,
            cycles <= clock_count(mode_of(op)),
            decodes(op),
            (cpu@, memory@) == run(s0, m0, i as nat),
            i == 0 ==> cpu@ == s0,
            i > 0 ==> !cpu@.reset && cpu@.ir == op && cpu@.tcu == i - 1,
            s0.reset,
            s0.wf(),
            op == byte_at(m0, s0.pc),
        decreases cycles - i,
    {
        let ghost before = cpu@;
        let ghost m_before = memory@;
        proof {
            if i > 0 {
                crate::cpu::lemma_tick_counts(before, m_before);
            }
        }
        cpu.exec_cycle(&mut memory);
        proof {
            reveal(tick);
        }
        assert(cpu@ == tick(before, m_before).0);
        assert(i > 0 ==> cpu@.ir == op && cpu@.tcu == i && !cpu@.reset);
        assert(i == 0 ==> cpu@.ir == byte_at(m0, s0.pc) && cpu@.tcu == 0 && !cpu@.reset);
        i = i + 1;
    }
    test_memory.memory = memory;
}

} // verus!
