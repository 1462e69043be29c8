pub mod addressing_modes;
pub mod instructions;
pub mod laws;
pub mod operations;

use vstd::prelude::*;

use crate::bus::Bus;
use self::addressing_modes::mode_model;
use self::instructions::{descriptor, OpcodeTable};
use self::operations::op_model;

verus! {

/// First address of the page that holds the stack.
pub const STACK_BASE: u16 = 0x0100;
/// Address of the little-endian reset vector.
pub const RESET_VECTOR: u16 = 0xFFFC;
/// Address of the little-endian maskable-interrupt (and BRK) vector.
pub const IRQ_VECTOR: u16 = 0xFFFE;
/// Address of the little-endian non-maskable-interrupt vector.
pub const NMI_VECTOR: u16 = 0xFFFA;
/// Stack pointer after a reset.
pub const RESET_STACK_POINTER: u8 = 0xFD;
/// Cycles taken by the reset sequence.
pub const RESET_CYCLES: u8 = 8;
/// Cycles taken by a maskable-interrupt entry.
pub const IRQ_CYCLES: u8 = 7;
/// Cycles taken by a non-maskable-interrupt entry.
pub const NMI_CYCLES: u8 = 8;

/// The bits of the status register.
#[derive(Clone, Copy, Debug, PartialEq, Eq)]
pub enum Flag {
    Carry,
    Zero,
    DisableInterrupt,
    Decimal,
    Break,
    Unused,
    Overflow,
    Negative,
}

impl Flag {
    pub open spec fn spec_mask(self) -> u8 {
        match self {
            Flag::Carry => 0x01,
            Flag::Zero => 0x02,
            Flag::DisableInterrupt => 0x04,
            Flag::Decimal => 0x08,
            Flag::Break => 0x10,
            Flag::Unused => 0x20,
            Flag::Overflow => 0x40,
            Flag::Negative => 0x80,
        }
    }

    /// The single bit of the status byte that holds this flag.
    #[verifier::when_used_as_spec(spec_mask)]
    pub fn mask(self) -> (r: u8)
        ensures
            r == self.spec_mask(),
    {
        match self {
            Flag::Carry => 0x01,
            Flag::Zero => 0x02,
            Flag::DisableInterrupt => 0x04,
            Flag::Decimal => 0x08,
            Flag::Break => 0x10,
            Flag::Unused => 0x20,
            Flag::Overflow => 0x40,
            Flag::Negative => 0x80,
        }
    }
}

/// Whether `flag` is set in the status byte `status`.
pub open spec fn flag_set(status: u8, flag: Flag) -> bool {
    status & flag.mask() != 0
}

/// `status` with the bit of `flag` set to `value` and every other bit kept.
pub open spec fn with_flag(status: u8, flag: Flag, value: bool) -> u8 {
    if value {
        status | flag.mask()
    } else {
        status & !flag.mask()
    }
}

/// `status` with Zero and Negative describing the byte `v`.
pub open spec fn with_zn(status: u8, v: u8) -> u8 {
    with_flag(with_flag(status, Flag::Zero, v == 0), Flag::Negative, v >= 128)
}

/// Byte arithmetic modulo 256.
pub open spec fn wrap8(v: int) -> u8 {
    (v % 256) as u8
}

/// Address arithmetic modulo 2^16.
pub open spec fn wrap16(v: int) -> u16 {
    (v % 0x10000) as u16
}

/// Byte arithmetic modulo 256 on a value at most one period out of range.
pub proof fn lemma_wrap8(v: int)
    requires
        -256 <= v < 512,
    ensures
        wrap8(v) == (if v < 0 { v + 256 } else if v >= 256 { v - 256 } else { v }),
{
}

/// Address arithmetic modulo 2^16 on a value at most one period out of range.
pub proof fn lemma_wrap16(v: int)
    requires
        -0x10000 <= v < 0x20000,
    ensures
        wrap16(v) == (if v < 0 { v + 0x10000 } else if v >= 0x10000 { v - 0x10000 } else { v }),
{
}

/// The 16-bit value whose low byte is `lo` and high byte is `hi`.
pub open spec fn word(lo: u8, hi: u8) -> u16 {
    (hi * 256 + lo) as u16
}

pub open spec fn high_byte(a: u16) -> u8 {
    (a / 256) as u8
}

pub open spec fn low_byte(a: u16) -> u8 {
    (a % 256) as u8
}

/// The memory address that the stack pointer `sp` designates.
pub open spec fn stack_address(sp: u8) -> u16 {
    (STACK_BASE + sp) as u16
}

/// What a test harness or debugger can observe of the processor: its
/// registers and the scratch state of the instruction being decoded.
pub struct CpuState {
    pub accumulator: u8,
    pub register_x: u8,
    pub register_y: u8,
    pub stack_pointer: u8,
    pub program_counter: u16,
    pub status: u8,
    pub fetched: u8,
    pub address_absolute: u16,
    pub address_relative: u16,
    pub opcode: u8,
    pub remaining_cycles: u8,
}

/// Pushes `v`: it is stored at the stack pointer, which then moves down.
pub open spec fn push_model(s: CpuState, mem: Seq<u8>, v: u8) -> (CpuState, Seq<u8>) {
    (
        CpuState { stack_pointer: wrap8(s.stack_pointer - 1), ..s },
        mem.update(stack_address(s.stack_pointer) as int, v),
    )
}

/// Pops a byte: the stack pointer moves up, then the byte it designates is read.
pub open spec fn pop_model(s: CpuState, mem: Seq<u8>) -> (CpuState, u8) {
    let sp = wrap8(s.stack_pointer + 1);
    (CpuState { stack_pointer: sp, ..s }, mem[stack_address(sp) as int])
}

/// Pushes the program counter, high byte first.
pub open spec fn push_pc_model(s: CpuState, mem: Seq<u8>) -> (CpuState, Seq<u8>) {
    let first = push_model(s, mem, high_byte(s.program_counter));
    push_model(first.0, first.1, low_byte(s.program_counter))
}

/// The little-endian word stored at `a` and `a + 1`.
pub open spec fn read_word(mem: Seq<u8>, a: u16) -> u16 {
    word(mem[a as int], mem[wrap16(a + 1) as int])
}

/// Interrupt entry: pushes the program counter and the status (Break
/// clear, Unused and DisableInterrupt set, also in the live register), then
/// jumps through `vector` and waits `cycles`.
pub open spec fn interrupt_model(s: CpuState, mem: Seq<u8>, vector: u16, cycles: u8) -> (
    CpuState,
    Seq<u8>,
) {
    let pushed = push_pc_model(s, mem);
    let status = with_flag(
        with_flag(with_flag(s.status, Flag::Break, false), Flag::Unused, true),
        Flag::DisableInterrupt,
        true,
    );
    let done = push_model(CpuState { status, ..pushed.0 }, pushed.1, status);
    (
        CpuState {
            program_counter: read_word(done.1, vector),
            address_absolute: vector,
            remaining_cycles: cycles,
            ..done.0
        },
        done.1,
    )
}

/// The state after a reset, from the bytes of the reset vector.
pub open spec fn reset_model(s: CpuState, mem: Seq<u8>) -> CpuState {
    CpuState {
        accumulator: 0,
        register_x: 0,
        register_y: 0,
        stack_pointer: RESET_STACK_POINTER,
        program_counter: read_word(mem, RESET_VECTOR),
        status: Flag::Unused.mask(),
        fetched: 0,
        address_absolute: 0,
        address_relative: 0,
        opcode: 0,
        remaining_cycles: RESET_CYCLES,
        ..s
    }
}

/// The 16-bit value whose low byte is `lo` and high byte is `hi`.
pub fn make_word(lo: u8, hi: u8) -> (r: u16)
    ensures
        r == word(lo, hi),
{
    let r = ((hi as u16) << 8) | (lo as u16);
    assert(r == (hi as u16) * 256 + (lo as u16)) by (bit_vector)
        requires
            r == ((hi as u16) << 8u16) | (lo as u16),
    ;
    r
}

/// The high byte of `a`.
pub fn high(a: u16) -> (r: u8)
    ensures
        r == high_byte(a),
{
    let r = (a >> 8) as u8;
    assert(r == a / 256) by (bit_vector)
        requires
            r == (a >> 8u16) as u8,
    ;
    r
}

/// The low byte of `a`.
pub fn low(a: u16) -> (r: u8)
    ensures
        r == low_byte(a),
{
    let r = a as u8;
    assert(r == a % 256) by (bit_vector)
        requires
            r == a as u8,
    ;
    r
}

/// Bit 7 of a byte is its sign: it is set exactly from 128 up.
pub proof fn lemma_bit7(v: u8)
    ensures
        (v & 0x80 != 0) == (v >= 128),
{
    assert((v & 0x80 != 0) == (v >= 128)) by (bit_vector);
}

/// The memory address that the stack pointer `sp` designates.
pub fn stack_addr(sp: u8) -> (r: u16)
    ensures
        r == stack_address(sp),
{
    STACK_BASE + sp as u16
}

/// The countdown after one tick: one less, but never below zero.
pub open spec fn count_down(c: u8) -> u8 {
    if c > 0 {
        (c - 1) as u8
    } else {
        0
    }
}

/// The state at the start of an instruction once its opcode has been read:
/// the program counter is past the opcode and the countdown holds the
/// instruction's base cycles.
pub open spec fn decode_model(s: CpuState, mem: Seq<u8>) -> CpuState {
    let opcode = mem[s.program_counter as int];
    CpuState {
        opcode,
        program_counter: wrap16(s.program_counter + 1),
        remaining_cycles: descriptor(opcode).number_cycles,
        ..s
    }
}

/// The execution of one whole instruction from its boundary: decode, resolve
/// the operand, run the operation, and add the extra cycle where both the
/// mode and the operation call for it.
pub open spec fn execute_model(s: CpuState, mem: Seq<u8>) -> (CpuState, Seq<u8>) {
    let d = decode_model(s, mem);
    let ins = descriptor(d.opcode);
    let resolved = mode_model(d, mem, ins.address_mode);
    let done = op_model(ins.operation, resolved.0, mem);
    (
        CpuState {
            remaining_cycles: wrap8(done.0.remaining_cycles + (resolved.1 & done.2)),
            ..done.0
        },
        done.1,
    )
}

/// One tick: at an instruction boundary the whole instruction takes effect;
/// then the countdown moves down by one.
pub open spec fn clock_model(s: CpuState, mem: Seq<u8>) -> (CpuState, Seq<u8>) {
    let run = if s.remaining_cycles == 0 {
        execute_model(s, mem)
    } else {
        (s, mem)
    };
    (CpuState { remaining_cycles: count_down(run.0.remaining_cycles), ..run.0 }, run.1)
}

/// An emulated 6502-family processor. It holds its registers, the scratch
/// state of the instruction being decoded, and its opcode
/// table; memory is handed to each call.
pub struct CPU {
    pub accumulator: u8,
    pub register_x: u8,
    pub register_y: u8,
    pub stack_pointer: u8,
    pub program_counter: u16,
    pub status: u8,
    pub fetched: u8,
    pub address_absolute: u16,
    pub address_relative: u16,
    pub opcode: u8,
    pub remaining_cycles: u8,
    pub instructions: OpcodeTable,
}

impl View for CPU {
    type V = CpuState;

    open spec fn view(&self) -> CpuState {
        CpuState {
            accumulator: self.accumulator,
            register_x: self.register_x,
            register_y: self.register_y,
            stack_pointer: self.stack_pointer,
            program_counter: self.program_counter,
            status: self.status,
            fetched: self.fetched,
            address_absolute: self.address_absolute,
            address_relative: self.address_relative,
            opcode: self.opcode,
            remaining_cycles: self.remaining_cycles,
        }
    }
}

impl CPU {
    /// A processor with every register and counter zero.
    pub fn new() -> (r: CPU)
        ensures
            r@ == (CpuState {
                accumulator: 0,
                register_x: 0,
                register_y: 0,
                stack_pointer: 0,
                program_counter: 0,
                status: 0,
                fetched: 0,
                address_absolute: 0,
                address_relative: 0,
                opcode: 0,
                remaining_cycles: 0,
            }),
    {
        CPU {
            accumulator: 0,
            register_x: 0,
            register_y: 0,
            stack_pointer: 0,
            program_counter: 0,
            status: 0,
            fetched: 0,
            address_absolute: 0,
            address_relative: 0,
            opcode: 0,
            remaining_cycles: 0,
            instructions: OpcodeTable::new(),
        }
    }

    /// Whether `flag` is set in the status register.
    pub fn get_flag(&self, flag: Flag) -> (r: bool)
        ensures
            r == flag_set(self@.status, flag),
    {
        (self.status & flag.mask()) != 0
    }

    /// Sets or clears exactly the bit of `flag` in the status register.
    pub fn set_flag(&mut self, flag: Flag, value: bool)
        ensures
            final(self)@ == (CpuState { status: with_flag(old(self)@.status, flag, value), ..old(self)@ }),
    {
        if value {
            self.status = self.status | flag.mask();
        } else {
            self.status = self.status & !flag.mask();
        }
    }

    /// Pushes `v` onto the stack.
    fn push(&mut self, bus: &mut Bus, v: u8)
        requires
            old(bus).wf(),
        ensures
            final(bus).wf(),
            (final(self)@, final(bus)@) == push_model(old(self)@, old(bus)@, v),
    {
        bus.write(stack_addr(self.stack_pointer), v);
        self.stack_pointer = self.stack_pointer.wrapping_sub(1);
    }

    /// Pops a byte off the stack.
    fn pop(&mut self, bus: &Bus) -> (r: u8)
        requires
            bus.wf(),
        ensures
            (final(self)@, r) == pop_model(old(self)@, bus@),
    {
        self.stack_pointer = self.stack_pointer.wrapping_add(1);
        bus.read(stack_addr(self.stack_pointer), false)
    }

    /// Pushes the program counter, high byte first.
    fn push_pc(&mut self, bus: &mut Bus)
        requires
            old(bus).wf(),
        ensures
            final(bus).wf(),
            (final(self)@, final(bus)@) == push_pc_model(old(self)@, old(bus)@),
    {
        let pc = self.program_counter;
        self.push(bus, high(pc));
        self.push(bus, low(pc));
    }

    /// Reads the little-endian word at `a` and `a + 1`.
    fn read_word(bus: &Bus, a: u16) -> (r: u16)
        requires
            bus.wf(),
        ensures
            r == read_word(bus@, a),
    {
        let lo = bus.read(a, false);
        let hi = bus.read(a.wrapping_add(1), false);
        make_word(lo, hi)
    }

    /// The entry sequence shared by both kinds of interrupt.
    fn enter_interrupt(&mut self, bus: &mut Bus, vector: u16, cycles: u8)
        requires
            old(bus).wf(),
        ensures
            final(bus).wf(),
            (final(self)@, final(bus)@) == interrupt_model(old(self)@, old(bus)@, vector, cycles),
    {
        self.push_pc(bus);
        self.set_flag(Flag::Break, false);
        self.set_flag(Flag::Unused, true);
        self.set_flag(Flag::DisableInterrupt, true);
        let status = self.status;
        self.push(bus, status);
        self.address_absolute = vector;
        self.program_counter = CPU::read_word(bus, vector);
        self.remaining_cycles = cycles;
    }

    /// Puts the processor in its known start state and jumps through the
    /// reset vector.
    pub fn reset(&mut self, bus: &Bus)
        requires
            bus.wf(),
        ensures
            final(self)@ == reset_model(old(self)@, bus@),
    {
        self.program_counter = CPU::read_word(bus, RESET_VECTOR);
        self.accumulator = 0;
        self.register_x = 0;
        self.register_y = 0;
        self.stack_pointer = RESET_STACK_POINTER;
        self.status = Flag::Unused.mask();
        self.address_absolute = 0;
        self.address_relative = 0;
        self.fetched = 0;
        self.opcode = 0;
        self.remaining_cycles = RESET_CYCLES;
    }

    /// A maskable interrupt: taken only while DisableInterrupt is clear.
    pub fn interrupt_request(&mut self, bus: &mut Bus)
        requires
            old(bus).wf(),
        ensures
            final(bus).wf(),
            flag_set(old(self)@.status, Flag::DisableInterrupt) ==> final(self)@ == old(self)@
                && final(bus)@ == old(bus)@,
            !flag_set(old(self)@.status, Flag::DisableInterrupt) ==> (final(self)@, final(bus)@)
                == interrupt_model(old(self)@, old(bus)@, IRQ_VECTOR, IRQ_CYCLES),
    {
        if !self.get_flag(Flag::DisableInterrupt) {
            self.enter_interrupt(bus, IRQ_VECTOR, IRQ_CYCLES);
        }
    }

    /// A non-maskable interrupt: always taken.
    pub fn non_maskable_interrupt(&mut self, bus: &mut Bus)
        requires
            old(bus).wf(),
        ensures
            final(bus).wf(),
            (final(self)@, final(bus)@) == interrupt_model(old(self)@, old(bus)@, NMI_VECTOR, NMI_CYCLES),
    {
        self.enter_interrupt(bus, NMI_VECTOR, NMI_CYCLES);
    }

    /// Advances the processor by one cycle.
    pub fn clock(&mut self, bus: &mut Bus)
        requires
            old(bus).wf(),
        ensures
            final(bus).wf(),
            (final(self)@, final(bus)@) == clock_model(old(self)@, old(bus)@),
    {
        if self.remaining_cycles == 0 {
            let opcode = bus.read(self.program_counter, false);
            self.opcode = opcode;
            self.program_counter = self.program_counter.wrapping_add(1);
            let ins = self.instructions.lookup(opcode);
            self.remaining_cycles = ins.number_cycles;
            let mode_extra = self.call_addressing_mode(bus, ins.address_mode);
            let op_extra = self.call_operation(bus, ins.operation);
            proof {
                lemma_wrap8(self.remaining_cycles + (mode_extra & op_extra));
            }
            self.remaining_cycles = self.remaining_cycles.wrapping_add(mode_extra & op_extra);
        }
        if self.remaining_cycles > 0 {
            self.remaining_cycles = self.remaining_cycles - 1;
        }
    }

    /// Cycles left before the next instruction boundary.
    pub fn remaining_cycles(&self) -> (r: u8)
        ensures
            r == self@.remaining_cycles,
    {
        self.remaining_cycles
    }

    /// Whether the processor stands at an instruction boundary.
    pub fn complete(&self) -> (r: bool)
        ensures
            r == (self@.remaining_cycles == 0),
    {
        self.remaining_cycles == 0
    }
}

impl Default for CPU {
    fn default() -> (r: CPU)
        ensures
            r@ == (CpuState {
                accumulator: 0,
                register_x: 0,
                register_y: 0,
                stack_pointer: 0,
                program_counter: 0,
                status: 0,
                fetched: 0,
                address_absolute: 0,
                address_relative: 0,
                opcode: 0,
                remaining_cycles: 0,
            }),
    {
        CPU::new()
    }
}

} // verus!
