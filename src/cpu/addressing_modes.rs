use vstd::prelude::*;

use crate::bus::Bus;
use super::{high, lemma_wrap8, make_word, high_byte, word, wrap8, wrap16, CpuState, CPU};

verus! {

/// The strategies by which an instruction locates its operand.
#[derive(Clone, Copy, Debug, PartialEq, Eq)]
pub enum AddressMode {
    IMP,
    IMM,
    ZP0,
    ZPX,
    ZPY,
    REL,
    ABS,
    ABX,
    ABY,
    IND,
    IZX,
    IZY,
}

/// The number of operand bytes that follow the opcode in `mode`.
pub open spec fn operand_width(mode: AddressMode) -> int {
    match mode {
        AddressMode::IMP => 0,
        AddressMode::IMM | AddressMode::ZP0 | AddressMode::ZPX | AddressMode::ZPY
        | AddressMode::REL | AddressMode::IZX | AddressMode::IZY => 1,
        AddressMode::ABS | AddressMode::ABX | AddressMode::ABY | AddressMode::IND => 2,
    }
}

/// 1 when `address`, the result of indexing, lies in another page than the
/// base address whose high byte is `base_high`.
pub open spec fn page_cross(address: u16, base_high: u8) -> u8 {
    if high_byte(address) != base_high {
        1
    } else {
        0
    }
}

/// A relative displacement byte, sign-extended to 16 bits.
pub open spec fn sign_extend(b: u8) -> u16 {
    if b >= 128 {
        (b + 0xFF00) as u16
    } else {
        b as u16
    }
}

/// The effect of resolving the operand of `mode` at the program counter:
/// the new state, and 1 where the mode may cost an extra cycle.
#[verifier::opaque]
pub open spec fn mode_model(s: CpuState, mem: Seq<u8>, mode: AddressMode) -> (CpuState, u8) {
    let pc = s.program_counter;
    let pc1 = wrap16(pc + 1);
    let pc2 = wrap16(pc + 2);
    let b0 = mem[pc as int];
    let b1 = mem[pc1 as int];
    match mode {
        AddressMode::IMP => (CpuState { fetched: s.accumulator, ..s }, 0),
        AddressMode::IMM => (CpuState { address_absolute: pc, program_counter: pc1, ..s }, 0),
        AddressMode::ZP0 => (CpuState { address_absolute: b0 as u16, program_counter: pc1, ..s }, 0),
        AddressMode::ZPX => (
            CpuState { address_absolute: wrap8(b0 + s.register_x) as u16, program_counter: pc1, ..s },
            0,
        ),
        AddressMode::ZPY => (
            CpuState { address_absolute: wrap8(b0 + s.register_y) as u16, program_counter: pc1, ..s },
            0,
        ),
        AddressMode::REL => (
            CpuState { address_relative: sign_extend(b0), program_counter: pc1, ..s },
            0,
        ),
        AddressMode::ABS => (CpuState { address_absolute: word(b0, b1), program_counter: pc2, ..s }, 0),
        AddressMode::ABX => {
            let a = wrap16(word(b0, b1) + s.register_x);
            (CpuState { address_absolute: a, program_counter: pc2, ..s }, page_cross(a, b1))
        },
        AddressMode::ABY => {
            let a = wrap16(word(b0, b1) + s.register_y);
            (CpuState { address_absolute: a, program_counter: pc2, ..s }, page_cross(a, b1))
        },
        AddressMode::IND => {
            let ptr = word(b0, b1);
            // The high byte of the target never comes from the next page.
            let hi_at = if b0 == 0xFF { word(0, b1) } else { wrap16(ptr + 1) };
            (
                CpuState {
                    address_absolute: word(mem[ptr as int], mem[hi_at as int]),
                    program_counter: pc2,
                    ..s
                },
                0,
            )
        },
        AddressMode::IZX => {
            let lo = mem[wrap8(b0 + s.register_x) as int];
            let hi = mem[wrap8(b0 + s.register_x + 1) as int];
            (CpuState { address_absolute: word(lo, hi), program_counter: pc1, ..s }, 0)
        },
        AddressMode::IZY => {
            let lo = mem[b0 as int];
            let hi = mem[wrap8(b0 + 1) as int];
            let a = wrap16(word(lo, hi) + s.register_y);
            (CpuState { address_absolute: a, program_counter: pc1, ..s }, page_cross(a, hi))
        },
    }
}

impl CPU {
    /// Resolves the operand of `address_mode`, consuming its operand bytes;
    /// returns 1 where the mode may cost an extra cycle.
    pub fn call_addressing_mode(&mut self, bus: &Bus, address_mode: AddressMode) -> (r: u8)
        requires
            bus.wf(),
        ensures
            (final(self)@, r) == mode_model(old(self)@, bus@, address_mode),
    {
        reveal(mode_model);
        match address_mode {
            AddressMode::IMP => self.imp(),
            AddressMode::IMM => self.imm(),
            AddressMode::ZP0 => self.zp0(bus),
            AddressMode::ZPX => self.zpx(bus),
            AddressMode::ZPY => self.zpy(bus),
            AddressMode::REL => self.rel(bus),
            AddressMode::ABS => self.abs(bus),
            AddressMode::ABX => self.abx(bus),
            AddressMode::ABY => self.aby(bus),
            AddressMode::IND => self.ind(bus),
            AddressMode::IZX => self.izx(bus),
            AddressMode::IZY => self.izy(bus),
        }
    }

    /// Reads the byte at the program counter and moves past it.
    fn next_byte(&mut self, bus: &Bus) -> (r: u8)
        requires
            bus.wf(),
        ensures
            r == bus@[old(self)@.program_counter as int],
            final(self)@ == (CpuState {
                program_counter: wrap16(old(self)@.program_counter + 1),
                ..old(self)@
            }),
    {
        let b = bus.read(self.program_counter, false);
        self.program_counter = self.program_counter.wrapping_add(1);
        b
    }

    /// Implied: the operand is the accumulator.
    pub fn imp(&mut self) -> (r: u8)
        ensures
            final(self)@ == (CpuState { fetched: old(self)@.accumulator, ..old(self)@ }),
            r == 0,
    {
        self.fetched = self.accumulator;
        0
    }

    /// Immediate: the operand is the byte after the opcode.
    pub fn imm(&mut self) -> (r: u8)
        ensures
            final(self)@ == (CpuState {
                address_absolute: old(self)@.program_counter,
                program_counter: wrap16(old(self)@.program_counter + 1),
                ..old(self)@
            }),
            r == 0,
    {
        self.address_absolute = self.program_counter;
        self.program_counter = self.program_counter.wrapping_add(1);
        0
    }

    /// Zero page: one byte addresses the first page.
    pub fn zp0(&mut self, bus: &Bus) -> (r: u8)
        requires
            bus.wf(),
        ensures
            (final(self)@, r) == mode_model(old(self)@, bus@, AddressMode::ZP0),
    {
        reveal(mode_model);
        self.address_absolute = self.next_byte(bus) as u16;
        0
    }

    /// Zero page offset by X, wrapping within the first page.
    pub fn zpx(&mut self, bus: &Bus) -> (r: u8)
        requires
            bus.wf(),
        ensures
            (final(self)@, r) == mode_model(old(self)@, bus@, AddressMode::ZPX),
    {
        reveal(mode_model);
        self.address_absolute = self.next_byte(bus).wrapping_add(self.register_x) as u16;
        0
    }

    /// Zero page offset by Y, wrapping within the first page.
    pub fn zpy(&mut self, bus: &Bus) -> (r: u8)
        requires
            bus.wf(),
        ensures
            (final(self)@, r) == mode_model(old(self)@, bus@, AddressMode::ZPY),
    {
        reveal(mode_model);
        self.address_absolute = self.next_byte(bus).wrapping_add(self.register_y) as u16;
        0
    }

    /// Relative: a signed displacement for branches.
    pub fn rel(&mut self, bus: &Bus) -> (r: u8)
        requires
            bus.wf(),
        ensures
            (final(self)@, r) == mode_model(old(self)@, bus@, AddressMode::REL),
    {
        reveal(mode_model);
        let b = self.next_byte(bus);
        if b >= 0x80 {
            self.address_relative = b as u16 + 0xFF00;
        } else {
            self.address_relative = b as u16;
        }
        0
    }

    /// Reads the little-endian word at the program counter and moves past it.
    fn next_word(&mut self, bus: &Bus) -> (r: (u8, u8))
        requires
            bus.wf(),
        ensures
            r.0 == bus@[old(self)@.program_counter as int],
            r.1 == bus@[wrap16(old(self)@.program_counter + 1) as int],
            final(self)@ == (CpuState {
                program_counter: wrap16(old(self)@.program_counter + 2),
                ..old(self)@
            }),
    {
        let lo = self.next_byte(bus);
        let hi = self.next_byte(bus);
        (lo, hi)
    }

    /// Absolute: two bytes form the address.
    pub fn abs(&mut self, bus: &Bus) -> (r: u8)
        requires
            bus.wf(),
        ensures
            (final(self)@, r) == mode_model(old(self)@, bus@, AddressMode::ABS),
    {
        reveal(mode_model);
        let (lo, hi) = self.next_word(bus);
        self.address_absolute = make_word(lo, hi);
        0
    }

    /// Absolute offset by X; an extra cycle where a page is crossed.
    pub fn abx(&mut self, bus: &Bus) -> (r: u8)
        requires
            bus.wf(),
        ensures
            (final(self)@, r) == mode_model(old(self)@, bus@, AddressMode::ABX),
    {
        reveal(mode_model);
        let (lo, hi) = self.next_word(bus);
        self.address_absolute = make_word(lo, hi).wrapping_add(self.register_x as u16);
        if high(self.address_absolute) != hi {
            1
        } else {
            0
        }
    }

    /// Absolute offset by Y; an extra cycle where a page is crossed.
    pub fn aby(&mut self, bus: &Bus) -> (r: u8)
        requires
            bus.wf(),
        ensures
            (final(self)@, r) == mode_model(old(self)@, bus@, AddressMode::ABY),
    {
        reveal(mode_model);
        let (lo, hi) = self.next_word(bus);
        self.address_absolute = make_word(lo, hi).wrapping_add(self.register_y as u16);
        if high(self.address_absolute) != hi {
            1
        } else {
            0
        }
    }

    /// Indirect: two bytes form a pointer to the address. A pointer whose
    /// low byte is 0xFF takes the high byte from the start of its own page.
    pub fn ind(&mut self, bus: &Bus) -> (r: u8)
        requires
            bus.wf(),
        ensures
            (final(self)@, r) == mode_model(old(self)@, bus@, AddressMode::IND),
    {
        reveal(mode_model);
        let (ptr_lo, ptr_hi) = self.next_word(bus);
        let ptr = make_word(ptr_lo, ptr_hi);
        let hi_at = if ptr_lo == 0xFF {
            make_word(0, ptr_hi)
        } else {
            ptr + 1
        };
        self.address_absolute = make_word(bus.read(ptr, false), bus.read(hi_at, false));
        0
    }

    /// Indexed indirect: the zero-page byte offset by X points to the address.
    pub fn izx(&mut self, bus: &Bus) -> (r: u8)
        requires
            bus.wf(),
        ensures
            (final(self)@, r) == mode_model(old(self)@, bus@, AddressMode::IZX),
    {
        reveal(mode_model);
        let t = self.next_byte(bus);
        let lo_at = t.wrapping_add(self.register_x);
        let hi_at = lo_at.wrapping_add(1);
        proof {
            lemma_wrap8(t + self.register_x);
            lemma_wrap8(lo_at + 1);
            lemma_wrap8(t + self.register_x + 1);
        }
        let lo = bus.read(lo_at as u16, false);
        let hi = bus.read(hi_at as u16, false);
        self.address_absolute = make_word(lo, hi);
        0
    }

    /// Indirect indexed: the zero-page byte points to a base address, which
    /// is offset by Y; an extra cycle where a page is crossed.
    pub fn izy(&mut self, bus: &Bus) -> (r: u8)
        requires
            bus.wf(),
        ensures
            (final(self)@, r) == mode_model(old(self)@, bus@, AddressMode::IZY),
    {
        reveal(mode_model);
        let t = self.next_byte(bus);
        let hi_at = t.wrapping_add(1);
        assert(hi_at == wrap8(t + 1));
        let lo = bus.read(t as u16, false);
        let hi = bus.read(hi_at as u16, false);
        let base = make_word(lo, hi);
        let a = base.wrapping_add(self.register_y as u16);
        assert(a == wrap16(base + self.register_y));
        self.address_absolute = a;
        if high(a) != hi {
            1
        } else {
            0
        }
    }
}

} // verus!
