use vstd::prelude::*;

use crate::bus::Bus;
use super::addressing_modes::{page_cross, AddressMode};
use super::instructions::descriptor;
use super::{
    flag_set, high, high_byte, lemma_bit7, lemma_wrap8, lemma_wrap16, low, make_word, pop_model, push_model, push_pc_model, read_word,
    with_flag, with_zn, word, wrap16, wrap8, CpuState, Flag, CPU, IRQ_VECTOR,
};

verus! {

/// The operation that an opcode performs, one per mnemonic, and `XXX` for
/// the opcodes that have no architectural effect.
#[derive(Clone, Copy, Debug, PartialEq, Eq)]
pub enum Opcode {
    ADC, AND, ASL, BCC, BCS, BEQ, BIT, BMI, BNE, BPL, BRK, BVC, BVS, CLC, CLD, CLI, CLV, CMP, CPX,
    CPY, DEC, DEX, DEY, EOR, INC, INX, INY, JMP, JSR, LDA, LDX, LDY, LSR, NOP, ORA, PHA, PHP, PLA,
    PLP, ROL, ROR, RTI, RTS, SBC, SEC, SED, SEI, STA, STX, STY, TAX, TAY, TSX, TXA, TXS, TYA, XXX,
}

/// The effect of an operation: the new state, the new memory, and 1 where
/// the operation may take the addressing mode's extra cycle.
pub type Effect = (CpuState, Seq<u8>, u8);

/// The addressing mode of the instruction being executed.
pub open spec fn current_mode(s: CpuState) -> AddressMode {
    descriptor(s.opcode).address_mode
}

/// The operand: the accumulator in implied mode, else the byte at the
/// resolved address.
pub open spec fn operand(s: CpuState, mem: Seq<u8>) -> u8 {
    if current_mode(s) == AddressMode::IMP {
        s.fetched
    } else {
        mem[s.address_absolute as int]
    }
}

/// The state once the operand has been fetched.
pub open spec fn fetched_state(s: CpuState, mem: Seq<u8>) -> CpuState {
    CpuState { fetched: operand(s, mem), ..s }
}

/// Whether adding `v` to `a` giving `r` overflows as signed arithmetic:
/// two operands of one sign give a result of the other.
pub open spec fn signed_overflow(a: u8, v: u8, r: u8) -> bool {
    (a >= 128) == (v >= 128) && (r >= 128) != (a >= 128)
}

/// Adds `v` and the carry to the accumulator.
pub open spec fn add_model(s: CpuState, v: u8) -> CpuState {
    let sum = s.accumulator + v + (if flag_set(s.status, Flag::Carry) { 1int } else { 0 });
    let r = wrap8(sum);
    let st = with_flag(s.status, Flag::Carry, sum > 255);
    let st = with_flag(st, Flag::Zero, r == 0);
    let st = with_flag(st, Flag::Overflow, signed_overflow(s.accumulator, v, r));
    let st = with_flag(st, Flag::Negative, r >= 128);
    CpuState { accumulator: r, status: st, ..s }
}

/// Compares `reg` with `v`: Carry when `reg >= v`, Zero and Negative from
/// the byte `reg - v`.
pub open spec fn compare_model(s: CpuState, reg: u8, v: u8) -> CpuState {
    let d = wrap8(reg - v);
    let st = with_flag(s.status, Flag::Carry, reg >= v);
    CpuState { status: with_zn(st, d), ..s }
}

/// Stores the result `r` of a shift or rotate whose shifted-out bit is
/// `carry`: into the accumulator in implied mode, else back to memory.
pub open spec fn shift_model(s: CpuState, mem: Seq<u8>, r: u8, carry: bool) -> Effect {
    let st = with_zn(with_flag(s.status, Flag::Carry, carry), r);
    if current_mode(s) == AddressMode::IMP {
        (CpuState { accumulator: r, status: st, ..s }, mem, 0)
    } else {
        (CpuState { status: st, ..s }, mem.update(s.address_absolute as int, r), 0)
    }
}

/// Where a taken branch lands.
pub open spec fn branch_target(s: CpuState) -> u16 {
    wrap16(s.program_counter + s.address_relative)
}

/// A conditional branch: when taken, one more cycle, a second one where
/// the target lies in another page, and the program counter moves.
pub open spec fn branch_model(s: CpuState, taken: bool) -> CpuState {
    if taken {
        let t = branch_target(s);
        let extra = 1 + page_cross(t, high_byte(s.program_counter));
        CpuState {
            remaining_cycles: wrap8(s.remaining_cycles + extra),
            address_absolute: t,
            program_counter: t,
            ..s
        }
    } else {
        s
    }
}

/// Writes `v` at the resolved address.
pub open spec fn store_model(s: CpuState, mem: Seq<u8>, v: u8) -> Effect {
    (s, mem.update(s.address_absolute as int, v), 0)
}

/// Replaces memory at the resolved address by `v`, with Zero and Negative from `v`.
pub open spec fn modify_model(s: CpuState, mem: Seq<u8>, v: u8) -> Effect {
    (CpuState { status: with_zn(s.status, v), ..s }, mem.update(s.address_absolute as int, v), 0)
}

/// The opcodes of the undocumented no-operations that may take an extra cycle.
pub open spec fn slow_nop(opcode: u8) -> bool {
    opcode == 0x1C || opcode == 0x3C || opcode == 0x5C || opcode == 0x7C || opcode == 0xDC
        || opcode == 0xFC
}

/// BRK: the program counter moves past the padding byte and is pushed, the
/// status is pushed with Break and Unused set in the pushed copy, and the
/// processor jumps through the interrupt vector with interrupts disabled
/// and Break clear.
pub open spec fn brk_model(s: CpuState, mem: Seq<u8>) -> Effect {
    let s1 = CpuState {
        program_counter: wrap16(s.program_counter + 1),
        status: with_flag(s.status, Flag::DisableInterrupt, true),
        ..s
    };
    let pushed = push_pc_model(s1, mem);
    let copy = pushed.0.status | Flag::Break.mask() | Flag::Unused.mask();
    let done = push_model(pushed.0, pushed.1, copy);
    (
        CpuState {
            status: with_flag(pushed.0.status, Flag::Break, false),
            program_counter: read_word(done.1, IRQ_VECTOR),
            ..done.0
        },
        done.1,
        0,
    )
}

/// PHP: pushes the status with Break and Unused set, then clears both in
/// the live register.
pub open spec fn php_model(s: CpuState, mem: Seq<u8>) -> Effect {
    let pushed = s.status | Flag::Break.mask() | Flag::Unused.mask();
    let done = push_model(s, mem, pushed);
    let st = with_flag(with_flag(s.status, Flag::Break, false), Flag::Unused, false);
    (CpuState { status: st, ..done.0 }, done.1, 0)
}

/// RTI: pops the status, with Break and Unused cleared, then the program
/// counter, low byte first.
pub open spec fn rti_model(s: CpuState, mem: Seq<u8>) -> Effect {
    let p0 = pop_model(s, mem);
    let st = with_flag(with_flag(p0.1, Flag::Break, false), Flag::Unused, false);
    let p1 = pop_model(p0.0, mem);
    let p2 = pop_model(p1.0, mem);
    (CpuState { status: st, program_counter: word(p1.1, p2.1), ..p2.0 }, mem, 0)
}

/// RTS: pops the program counter, low byte first, and moves one past it.
pub open spec fn rts_model(s: CpuState, mem: Seq<u8>) -> Effect {
    let p1 = pop_model(s, mem);
    let p2 = pop_model(p1.0, mem);
    (CpuState { program_counter: wrap16(word(p1.1, p2.1) + 1), ..p2.0 }, mem, 0)
}

/// JSR: pushes the address of the last byte of the instruction, then jumps.
pub open spec fn jsr_model(s: CpuState, mem: Seq<u8>) -> Effect {
    let back = CpuState { program_counter: wrap16(s.program_counter - 1), ..s };
    let done = push_pc_model(back, mem);
    (CpuState { program_counter: s.address_absolute, ..done.0 }, done.1, 0)
}

/// Sets or clears one flag.
pub open spec fn flag_model(s: CpuState, mem: Seq<u8>, flag: Flag, value: bool) -> Effect {
    (CpuState { status: with_flag(s.status, flag, value), ..s }, mem, 0)
}

/// The effect of executing `op` on the resolved operand.
#[verifier::opaque]
pub open spec fn op_model(op: Opcode, s: CpuState, mem: Seq<u8>) -> Effect {
    let f = fetched_state(s, mem);
    let m = operand(s, mem);
    let carry_in: u8 = if flag_set(s.status, Flag::Carry) { 1 } else { 0 };
    match op {
        Opcode::ADC => (add_model(f, m), mem, 1),
        Opcode::SBC => (add_model(f, !m), mem, 1),
        Opcode::AND => {
            let a = s.accumulator & m;
            (CpuState { accumulator: a, status: with_zn(f.status, a), ..f }, mem, 1)
        },
        Opcode::ORA => {
            let a = s.accumulator | m;
            (CpuState { accumulator: a, status: with_zn(f.status, a), ..f }, mem, 1)
        },
        Opcode::EOR => {
            let a = s.accumulator ^ m;
            (CpuState { accumulator: a, status: with_zn(f.status, a), ..f }, mem, 0)
        },
        Opcode::BIT => {
            let st = with_flag(f.status, Flag::Zero, s.accumulator & m == 0);
            let st = with_flag(st, Flag::Negative, m >= 128);
            let st = with_flag(st, Flag::Overflow, m & 0x40 != 0);
            (CpuState { status: st, ..f }, mem, 0)
        },
        Opcode::ASL => shift_model(f, mem, m << 1u8, m & 0x80 != 0),
        Opcode::LSR => shift_model(f, mem, m >> 1u8, m & 0x01 != 0),
        Opcode::ROL => shift_model(f, mem, (m << 1u8) | carry_in, m & 0x80 != 0),
        Opcode::ROR => shift_model(f, mem, (carry_in << 7u8) | (m >> 1u8), m & 0x01 != 0),
        Opcode::BCC => (branch_model(s, !flag_set(s.status, Flag::Carry)), mem, 0),
        Opcode::BCS => (branch_model(s, flag_set(s.status, Flag::Carry)), mem, 0),
        Opcode::BNE => (branch_model(s, !flag_set(s.status, Flag::Zero)), mem, 0),
        Opcode::BEQ => (branch_model(s, flag_set(s.status, Flag::Zero)), mem, 0),
        Opcode::BPL => (branch_model(s, !flag_set(s.status, Flag::Negative)), mem, 0),
        Opcode::BMI => (branch_model(s, flag_set(s.status, Flag::Negative)), mem, 0),
        Opcode::BVC => (branch_model(s, !flag_set(s.status, Flag::Overflow)), mem, 0),
        Opcode::BVS => (branch_model(s, flag_set(s.status, Flag::Overflow)), mem, 0),
        Opcode::BRK => brk_model(s, mem),
        Opcode::CLC => flag_model(s, mem, Flag::Carry, false),
        Opcode::CLD => flag_model(s, mem, Flag::Decimal, false),
        Opcode::CLI => flag_model(s, mem, Flag::DisableInterrupt, false),
        Opcode::CLV => flag_model(s, mem, Flag::Overflow, false),
        Opcode::SEC => flag_model(s, mem, Flag::Carry, true),
        Opcode::SED => flag_model(s, mem, Flag::Decimal, true),
        Opcode::SEI => flag_model(s, mem, Flag::DisableInterrupt, true),
        Opcode::CMP => (compare_model(f, s.accumulator, m), mem, 1),
        Opcode::CPX => (compare_model(f, s.register_x, m), mem, 0),
        Opcode::CPY => (compare_model(f, s.register_y, m), mem, 0),
        Opcode::DEC => modify_model(f, mem, wrap8(m - 1)),
        Opcode::INC => modify_model(f, mem, wrap8(m + 1)),
        Opcode::DEX => {
            let x = wrap8(s.register_x - 1);
            (CpuState { register_x: x, status: with_zn(s.status, x), ..s }, mem, 0)
        },
        Opcode::DEY => {
            let y = wrap8(s.register_y - 1);
            (CpuState { register_y: y, status: with_zn(s.status, y), ..s }, mem, 0)
        },
        Opcode::INX => {
            let x = wrap8(s.register_x + 1);
            (CpuState { register_x: x, status: with_zn(s.status, x), ..s }, mem, 0)
        },
        Opcode::INY => {
            let y = wrap8(s.register_y + 1);
            (CpuState { register_y: y, status: with_zn(s.status, y), ..s }, mem, 0)
        },
        Opcode::JMP => (CpuState { program_counter: s.address_absolute, ..s }, mem, 0),
        Opcode::JSR => jsr_model(s, mem),
        Opcode::RTS => rts_model(s, mem),
        Opcode::RTI => rti_model(s, mem),
        Opcode::LDA => (CpuState { accumulator: m, status: with_zn(f.status, m), ..f }, mem, 1),
        Opcode::LDX => (CpuState { register_x: m, status: with_zn(f.status, m), ..f }, mem, 1),
        Opcode::LDY => (CpuState { register_y: m, status: with_zn(f.status, m), ..f }, mem, 1),
        Opcode::STA => store_model(s, mem, s.accumulator),
        Opcode::STX => store_model(s, mem, s.register_x),
        Opcode::STY => store_model(s, mem, s.register_y),
        Opcode::NOP => (s, mem, if slow_nop(s.opcode) { 1 } else { 0 }),
        Opcode::PHA => {
            let done = push_model(s, mem, s.accumulator);
            (done.0, done.1, 0)
        },
        Opcode::PHP => php_model(s, mem),
        Opcode::PLA => {
            let p = pop_model(s, mem);
            (CpuState { accumulator: p.1, status: with_zn(p.0.status, p.1), ..p.0 }, mem, 0)
        },
        Opcode::PLP => {
            let p = pop_model(s, mem);
            (CpuState { status: with_flag(p.1, Flag::Unused, true), ..p.0 }, mem, 0)
        },
        Opcode::TAX => (
            CpuState { register_x: s.accumulator, status: with_zn(s.status, s.accumulator), ..s },
            mem,
            0,
        ),
        Opcode::TAY => (
            CpuState { register_y: s.accumulator, status: with_zn(s.status, s.accumulator), ..s },
            mem,
            0,
        ),
        Opcode::TSX => (
            CpuState { register_x: s.stack_pointer, status: with_zn(s.status, s.stack_pointer), ..s },
            mem,
            0,
        ),
        Opcode::TXA => (
            CpuState { accumulator: s.register_x, status: with_zn(s.status, s.register_x), ..s },
            mem,
            0,
        ),
        Opcode::TYA => (
            CpuState { accumulator: s.register_y, status: with_zn(s.status, s.register_y), ..s },
            mem,
            0,
        ),
        Opcode::TXS => (CpuState { stack_pointer: s.register_x, ..s }, mem, 0),
        Opcode::XXX => (s, mem, 0),
    }
}

/// Bit 7 of `!(a ^ v) & (a ^ r)` is the signed-overflow test of `a + v = r`.
pub proof fn lemma_overflow_bit(a: u8, v: u8, r: u8)
    ensures
        ((!(a ^ v) & (a ^ r) & 0x80) != 0) == signed_overflow(a, v, r),
{
    assert(((!(a ^ v) & (a ^ r) & 0x80u8) != 0u8) == (((a >= 128u8) == (v >= 128u8)) && ((r
        >= 128u8) != (a >= 128u8)))) by (bit_vector);
}

impl CPU {
    /// Executes `opcode` on the operand that the addressing mode resolved;
    /// returns 1 where the operation may take the mode's extra cycle.
    pub fn call_operation(&mut self, bus: &mut Bus, opcode: Opcode) -> (r: u8)
        requires
            old(bus).wf(),
        ensures
            final(bus).wf(),
            (final(self)@, final(bus)@, r) == op_model(opcode, old(self)@, old(bus)@),
    {
        reveal(op_model);
        match opcode {
            Opcode::ADC => self.adc(bus),
            Opcode::SBC => self.sbc(bus),
            Opcode::AND => self.and(bus),
            Opcode::ORA => self.ora(bus),
            Opcode::EOR => self.eor(bus),
            Opcode::BIT => self.bit(bus),
            Opcode::ASL => self.asl(bus),
            Opcode::LSR => self.lsr(bus),
            Opcode::ROL => self.rol(bus),
            Opcode::ROR => self.ror(bus),
            Opcode::BCC => self.bcc(),
            Opcode::BCS => self.bcs(),
            Opcode::BNE => self.bne(),
            Opcode::BEQ => self.beq(),
            Opcode::BPL => self.bpl(),
            Opcode::BMI => self.bmi(),
            Opcode::BVC => self.bvc(),
            Opcode::BVS => self.bvs(),
            Opcode::BRK => self.brk(bus),
            Opcode::CLC => self.clc(),
            Opcode::CLD => self.cld(),
            Opcode::CLI => self.cli(),
            Opcode::CLV => self.clv(),
            Opcode::SEC => self.sec(),
            Opcode::SED => self.sed(),
            Opcode::SEI => self.sei(),
            Opcode::CMP => self.cmp(bus),
            Opcode::CPX => self.cpx(bus),
            Opcode::CPY => self.cpy(bus),
            Opcode::DEC => self.dec(bus),
            Opcode::INC => self.inc(bus),
            Opcode::DEX => self.dex(),
            Opcode::DEY => self.dey(),
            Opcode::INX => self.inx(),
            Opcode::INY => self.iny(),
            Opcode::JMP => self.jmp(),
            Opcode::JSR => self.jsr(bus),
            Opcode::RTS => self.rts(bus),
            Opcode::RTI => self.rti(bus),
            Opcode::LDA => self.lda(bus),
            Opcode::LDX => self.ldx(bus),
            Opcode::LDY => self.ldy(bus),
            Opcode::STA => self.sta(bus),
            Opcode::STX => self.stx(bus),
            Opcode::STY => self.sty(bus),
            Opcode::NOP => self.nop(),
            Opcode::PHA => self.pha(bus),
            Opcode::PHP => self.php(bus),
            Opcode::PLA => self.pla(bus),
            Opcode::PLP => self.plp(bus),
            Opcode::TAX => self.tax(),
            Opcode::TAY => self.tay(),
            Opcode::TSX => self.tsx(),
            Opcode::TXA => self.txa(),
            Opcode::TYA => self.tya(),
            Opcode::TXS => self.txs(),
            Opcode::XXX => self.xxx(),
        }
    }

    /// Whether the instruction being executed is in implied mode.
    fn implied(&self) -> (r: bool)
        ensures
            r == (current_mode(self@) == AddressMode::IMP),
    {
        matches!(self.instructions.lookup(self.opcode).address_mode, AddressMode::IMP)
    }

    /// Loads the operand into the fetched byte, except in implied mode,
    /// where the addressing mode already put the accumulator there.
    fn fetch(&mut self, bus: &Bus) -> (r: u8)
        requires
            bus.wf(),
        ensures
            final(self)@ == fetched_state(old(self)@, bus@),
            r == operand(old(self)@, bus@),
    {
        if !self.implied() {
            self.fetched = bus.read(self.address_absolute, false);
        }
        self.fetched
    }

    /// Sets Zero and Negative from the byte `v`.
    fn set_zn(&mut self, v: u8)
        ensures
            final(self)@ == (CpuState { status: with_zn(old(self)@.status, v), ..old(self)@ }),
    {
        proof {
            lemma_bit7(v);
        }
        self.set_flag(Flag::Zero, v == 0);
        self.set_flag(Flag::Negative, (v & 0x80) != 0);
    }

    /// Adds `v` and the carry to the accumulator.
    fn add(&mut self, v: u8)
        ensures
            final(self)@ == add_model(old(self)@, v),
    {
        let a = self.accumulator;
        let carry: u16 = if self.get_flag(Flag::Carry) { 1 } else { 0 };
        let sum: u16 = a as u16 + v as u16 + carry;
        let r = low(sum);
        proof {
            lemma_overflow_bit(a, v, r);
            lemma_bit7(r);
        }
        self.set_flag(Flag::Carry, sum > 255);
        self.set_flag(Flag::Zero, r == 0);
        self.set_flag(Flag::Overflow, (!(a ^ v) & (a ^ r) & 0x80) != 0);
        self.set_flag(Flag::Negative, (r & 0x80) != 0);
        self.accumulator = r;
    }

    /// Sets the flags of comparing `reg` with `v`.
    fn compare(&mut self, reg: u8, v: u8)
        ensures
            final(self)@ == compare_model(old(self)@, reg, v),
    {
        self.set_flag(Flag::Carry, reg >= v);
        self.set_zn(reg.wrapping_sub(v));
    }

    /// Stores the result of a shift or rotate.
    fn store_shift(&mut self, bus: &mut Bus, r: u8, carry: bool)
        requires
            old(bus).wf(),
        ensures
            final(bus).wf(),
            (final(self)@, final(bus)@, 0u8) == shift_model(old(self)@, old(bus)@, r, carry),
    {
        self.set_flag(Flag::Carry, carry);
        self.set_zn(r);
        if self.implied() {
            self.accumulator = r;
        } else {
            bus.write(self.address_absolute, r);
        }
    }

    /// Replaces the byte at the resolved address by `v`.
    fn modify(&mut self, bus: &mut Bus, v: u8)
        requires
            old(bus).wf(),
        ensures
            final(bus).wf(),
            (final(self)@, final(bus)@, 0u8) == modify_model(old(self)@, old(bus)@, v),
    {
        bus.write(self.address_absolute, v);
        self.set_zn(v);
    }

    /// Takes the branch when `taken`.
    fn branch(&mut self, taken: bool)
        ensures
            final(self)@ == branch_model(old(self)@, taken),
    {
        if taken {
            let t = self.program_counter.wrapping_add(self.address_relative);
            self.remaining_cycles = self.remaining_cycles.wrapping_add(1);
            if high(t) != high(self.program_counter) {
                self.remaining_cycles = self.remaining_cycles.wrapping_add(1);
            }
            self.address_absolute = t;
            self.program_counter = t;
        }
    }

    /// ADC: adds the operand and the carry to the accumulator.
    pub fn adc(&mut self, bus: &Bus) -> (r: u8)
        requires
            bus.wf(),
        ensures
            (final(self)@, bus@, r) == op_model(Opcode::ADC, old(self)@, bus@),
    {
        reveal(op_model);
        let m = self.fetch(bus);
        self.add(m);
        1
    }

    /// SBC: adds the complement of the operand and the carry to the accumulator.
    pub fn sbc(&mut self, bus: &Bus) -> (r: u8)
        requires
            bus.wf(),
        ensures
            (final(self)@, bus@, r) == op_model(Opcode::SBC, old(self)@, bus@),
    {
        reveal(op_model);
        let m = self.fetch(bus);
        self.add(!m);
        1
    }

    /// AND: the accumulator becomes its bitwise and with the operand.
    pub fn and(&mut self, bus: &Bus) -> (r: u8)
        requires
            bus.wf(),
        ensures
            (final(self)@, bus@, r) == op_model(Opcode::AND, old(self)@, bus@),
    {
        reveal(op_model);
        let m = self.fetch(bus);
        let a = self.accumulator & m;
        self.accumulator = a;
        self.set_zn(a);
        1
    }

    /// ORA: the accumulator becomes its bitwise or with the operand.
    pub fn ora(&mut self, bus: &Bus) -> (r: u8)
        requires
            bus.wf(),
        ensures
            (final(self)@, bus@, r) == op_model(Opcode::ORA, old(self)@, bus@),
    {
        reveal(op_model);
        let m = self.fetch(bus);
        let a = self.accumulator | m;
        self.accumulator = a;
        self.set_zn(a);
        1
    }

    /// EOR: the accumulator becomes its exclusive or with the operand.
    pub fn eor(&mut self, bus: &Bus) -> (r: u8)
        requires
            bus.wf(),
        ensures
            (final(self)@, bus@, r) == op_model(Opcode::EOR, old(self)@, bus@),
    {
        reveal(op_model);
        let m = self.fetch(bus);
        let a = self.accumulator ^ m;
        self.accumulator = a;
        self.set_zn(a);
        0
    }

    /// BIT: Zero from the accumulator and the operand, Negative and Overflow
/// from bits 7 and 6 of the operand.
    pub fn bit(&mut self, bus: &Bus) -> (r: u8)
        requires
            bus.wf(),
        ensures
            (final(self)@, bus@, r) == op_model(Opcode::BIT, old(self)@, bus@),
    {
        reveal(op_model);
        let m = self.fetch(bus);
        let a = self.accumulator;
        proof {
            lemma_bit7(m);
        }
        self.set_flag(Flag::Zero, (a & m) == 0);
        self.set_flag(Flag::Negative, (m & 0x80) != 0);
        self.set_flag(Flag::Overflow, (m & 0x40) != 0);
        0
    }

    /// ASL: shifts the operand left; Carry takes bit 7.
    pub fn asl(&mut self, bus: &mut Bus) -> (r: u8)
        requires
            old(bus).wf(),
        ensures
            final(bus).wf(),
            (final(self)@, final(bus)@, r) == op_model(Opcode::ASL, old(self)@, old(bus)@),
    {
        reveal(op_model);
        let m = self.fetch(bus);
        self.store_shift(bus, m << 1u8, (m & 0x80) != 0);
        0
    }

    /// LSR: shifts the operand right; Carry takes bit 0.
    pub fn lsr(&mut self, bus: &mut Bus) -> (r: u8)
        requires
            old(bus).wf(),
        ensures
            final(bus).wf(),
            (final(self)@, final(bus)@, r) == op_model(Opcode::LSR, old(self)@, old(bus)@),
    {
        reveal(op_model);
        let m = self.fetch(bus);
        self.store_shift(bus, m >> 1u8, (m & 0x01) != 0);
        0
    }

    /// ROL: rotates the operand left through Carry.
    pub fn rol(&mut self, bus: &mut Bus) -> (r: u8)
        requires
            old(bus).wf(),
        ensures
            final(bus).wf(),
            (final(self)@, final(bus)@, r) == op_model(Opcode::ROL, old(self)@, old(bus)@),
    {
        reveal(op_model);
        let carry_in: u8 = if self.get_flag(Flag::Carry) { 1 } else { 0 };
        let m = self.fetch(bus);
        self.store_shift(bus, (m << 1u8) | carry_in, (m & 0x80) != 0);
        0
    }

    /// ROR: rotates the operand right through Carry.
    pub fn ror(&mut self, bus: &mut Bus) -> (r: u8)
        requires
            old(bus).wf(),
        ensures
            final(bus).wf(),
            (final(self)@, final(bus)@, r) == op_model(Opcode::ROR, old(self)@, old(bus)@),
    {
        reveal(op_model);
        let carry_in: u8 = if self.get_flag(Flag::Carry) { 1 } else { 0 };
        let m = self.fetch(bus);
        self.store_shift(bus, (carry_in << 7u8) | (m >> 1u8), (m & 0x01) != 0);
        0
    }

    /// BCC: branches when Carry is clear.
    pub fn bcc(&mut self) -> (r: u8)
        ensures
            forall|mem: Seq<u8>| #[trigger] op_model(Opcode::BCC, old(self)@, mem) == (final(self)@, mem, r),
    {
        reveal(op_model);
        let set = self.get_flag(Flag::Carry);
        self.branch(!set);
        0
    }

    /// BCS: branches when Carry is set.
    pub fn bcs(&mut self) -> (r: u8)
        ensures
            forall|mem: Seq<u8>| #[trigger] op_model(Opcode::BCS, old(self)@, mem) == (final(self)@, mem, r),
    {
        reveal(op_model);
        let set = self.get_flag(Flag::Carry);
        self.branch(set);
        0
    }

    /// BNE: branches when Zero is clear.
    pub fn bne(&mut self) -> (r: u8)
        ensures
            forall|mem: Seq<u8>| #[trigger] op_model(Opcode::BNE, old(self)@, mem) == (final(self)@, mem, r),
    {
        reveal(op_model);
        let set = self.get_flag(Flag::Zero);
        self.branch(!set);
        0
    }

    /// BEQ: branches when Zero is set.
    pub fn beq(&mut self) -> (r: u8)
        ensures
            forall|mem: Seq<u8>| #[trigger] op_model(Opcode::BEQ, old(self)@, mem) == (final(self)@, mem, r),
    {
        reveal(op_model);
        let set = self.get_flag(Flag::Zero);
        self.branch(set);
        0
    }

    /// BPL: branches when Negative is clear.
    pub fn bpl(&mut self) -> (r: u8)
        ensures
            forall|mem: Seq<u8>| #[trigger] op_model(Opcode::BPL, old(self)@, mem) == (final(self)@, mem, r),
    {
        reveal(op_model);
        let set = self.get_flag(Flag::Negative);
        self.branch(!set);
        0
    }

    /// BMI: branches when Negative is set.
    pub fn bmi(&mut self) -> (r: u8)
        ensures
            forall|mem: Seq<u8>| #[trigger] op_model(Opcode::BMI, old(self)@, mem) == (final(self)@, mem, r),
    {
        reveal(op_model);
        let set = self.get_flag(Flag::Negative);
        self.branch(set);
        0
    }

    /// BVC: branches when Overflow is clear.
    pub fn bvc(&mut self) -> (r: u8)
        ensures
            forall|mem: Seq<u8>| #[trigger] op_model(Opcode::BVC, old(self)@, mem) == (final(self)@, mem, r),
    {
        reveal(op_model);
        let set = self.get_flag(Flag::Overflow);
        self.branch(!set);
        0
    }

    /// BVS: branches when Overflow is set.
    pub fn bvs(&mut self) -> (r: u8)
        ensures
            forall|mem: Seq<u8>| #[trigger] op_model(Opcode::BVS, old(self)@, mem) == (final(self)@, mem, r),
    {
        reveal(op_model);
        let set = self.get_flag(Flag::Overflow);
        self.branch(set);
        0
    }

    /// BRK: a software interrupt through the interrupt vector.
    pub fn brk(&mut self, bus: &mut Bus) -> (r: u8)
        requires
            old(bus).wf(),
        ensures
            final(bus).wf(),
            (final(self)@, final(bus)@, r) == op_model(Opcode::BRK, old(self)@, old(bus)@),
    {
        reveal(op_model);
        proof {
            lemma_wrap16(self.program_counter + 1);
        }
        self.program_counter = self.program_counter.wrapping_add(1);
        self.set_flag(Flag::DisableInterrupt, true);
        self.push_pc(bus);
        let copy = self.status | Flag::Break.mask() | Flag::Unused.mask();
        self.push(bus, copy);
        self.set_flag(Flag::Break, false);
        self.program_counter = CPU::read_word(bus, IRQ_VECTOR);
        0
    }

    /// CLC: clears Carry.
    pub fn clc(&mut self) -> (r: u8)
        ensures
            forall|mem: Seq<u8>| #[trigger] op_model(Opcode::CLC, old(self)@, mem) == (final(self)@, mem, r),
    {
        reveal(op_model);
        self.set_flag(Flag::Carry, false);
        0
    }

    /// CLD: clears Decimal.
    pub fn cld(&mut self) -> (r: u8)
        ensures
            forall|mem: Seq<u8>| #[trigger] op_model(Opcode::CLD, old(self)@, mem) == (final(self)@, mem, r),
    {
        reveal(op_model);
        self.set_flag(Flag::Decimal, false);
        0
    }

    /// CLI: clears DisableInterrupt.
    pub fn cli(&mut self) -> (r: u8)
        ensures
            forall|mem: Seq<u8>| #[trigger] op_model(Opcode::CLI, old(self)@, mem) == (final(self)@, mem, r),
    {
        reveal(op_model);
        self.set_flag(Flag::DisableInterrupt, false);
        0
    }

    /// CLV: clears Overflow.
    pub fn clv(&mut self) -> (r: u8)
        ensures
            forall|mem: Seq<u8>| #[trigger] op_model(Opcode::CLV, old(self)@, mem) == (final(self)@, mem, r),
    {
        reveal(op_model);
        self.set_flag(Flag::Overflow, false);
        0
    }

    /// SEC: sets Carry.
    pub fn sec(&mut self) -> (r: u8)
        ensures
            forall|mem: Seq<u8>| #[trigger] op_model(Opcode::SEC, old(self)@, mem) == (final(self)@, mem, r),
    {
        reveal(op_model);
        self.set_flag(Flag::Carry, true);
        0
    }

    /// SED: sets Decimal.
    pub fn sed(&mut self) -> (r: u8)
        ensures
            forall|mem: Seq<u8>| #[trigger] op_model(Opcode::SED, old(self)@, mem) == (final(self)@, mem, r),
    {
        reveal(op_model);
        self.set_flag(Flag::Decimal, true);
        0
    }

    /// SEI: sets DisableInterrupt.
    pub fn sei(&mut self) -> (r: u8)
        ensures
            forall|mem: Seq<u8>| #[trigger] op_model(Opcode::SEI, old(self)@, mem) == (final(self)@, mem, r),
    {
        reveal(op_model);
        self.set_flag(Flag::DisableInterrupt, true);
        0
    }

    /// CMP: compares the accumulator with the operand.
    pub fn cmp(&mut self, bus: &Bus) -> (r: u8)
        requires
            bus.wf(),
        ensures
            (final(self)@, bus@, r) == op_model(Opcode::CMP, old(self)@, bus@),
    {
        reveal(op_model);
        let m = self.fetch(bus);
        let reg = self.accumulator;
        self.compare(reg, m);
        1
    }

    /// CPX: compares the x register with the operand.
    pub fn cpx(&mut self, bus: &Bus) -> (r: u8)
        requires
            bus.wf(),
        ensures
            (final(self)@, bus@, r) == op_model(Opcode::CPX, old(self)@, bus@),
    {
        reveal(op_model);
        let m = self.fetch(bus);
        let reg = self.register_x;
        self.compare(reg, m);
        0
    }

    /// CPY: compares the y register with the operand.
    pub fn cpy(&mut self, bus: &Bus) -> (r: u8)
        requires
            bus.wf(),
        ensures
            (final(self)@, bus@, r) == op_model(Opcode::CPY, old(self)@, bus@),
    {
        reveal(op_model);
        let m = self.fetch(bus);
        let reg = self.register_y;
        self.compare(reg, m);
        0
    }

    /// DEC: decrements the byte in memory.
    pub fn dec(&mut self, bus: &mut Bus) -> (r: u8)
        requires
            old(bus).wf(),
        ensures
            final(bus).wf(),
            (final(self)@, final(bus)@, r) == op_model(Opcode::DEC, old(self)@, old(bus)@),
    {
        reveal(op_model);
        let m = self.fetch(bus);
        proof {
            lemma_wrap8(m - 1);
        }
        self.modify(bus, m.wrapping_sub(1));
        0
    }

    /// INC: increments the byte in memory.
    pub fn inc(&mut self, bus: &mut Bus) -> (r: u8)
        requires
            old(bus).wf(),
        ensures
            final(bus).wf(),
            (final(self)@, final(bus)@, r) == op_model(Opcode::INC, old(self)@, old(bus)@),
    {
        reveal(op_model);
        let m = self.fetch(bus);
        proof {
            lemma_wrap8(m + 1);
        }
        self.modify(bus, m.wrapping_add(1));
        0
    }

    /// DEX: decrements the X register.
    pub fn dex(&mut self) -> (r: u8)
        ensures
            forall|mem: Seq<u8>| #[trigger] op_model(Opcode::DEX, old(self)@, mem) == (final(self)@, mem, r),
    {
        reveal(op_model);
        let v = self.register_x.wrapping_sub(1);
        proof {
            lemma_wrap8(old(self).register_x - 1);
        }
        self.register_x = v;
        self.set_zn(v);
        0
    }

    /// DEY: decrements the Y register.
    pub fn dey(&mut self) -> (r: u8)
        ensures
            forall|mem: Seq<u8>| #[trigger] op_model(Opcode::DEY, old(self)@, mem) == (final(self)@, mem, r),
    {
        reveal(op_model);
        let v = self.register_y.wrapping_sub(1);
        proof {
            lemma_wrap8(old(self).register_y - 1);
        }
        self.register_y = v;
        self.set_zn(v);
        0
    }

    /// INX: increments the X register.
    pub fn inx(&mut self) -> (r: u8)
        ensures
            forall|mem: Seq<u8>| #[trigger] op_model(Opcode::INX, old(self)@, mem) == (final(self)@, mem, r),
    {
        reveal(op_model);
        let v = self.register_x.wrapping_add(1);
        proof {
            lemma_wrap8(old(self).register_x + 1);
        }
        self.register_x = v;
        self.set_zn(v);
        0
    }

    /// INY: increments the Y register.
    pub fn iny(&mut self) -> (r: u8)
        ensures
            forall|mem: Seq<u8>| #[trigger] op_model(Opcode::INY, old(self)@, mem) == (final(self)@, mem, r),
    {
        reveal(op_model);
        let v = self.register_y.wrapping_add(1);
        proof {
            lemma_wrap8(old(self).register_y + 1);
        }
        self.register_y = v;
        self.set_zn(v);
        0
    }

    /// JMP: jumps to the resolved address.
    pub fn jmp(&mut self) -> (r: u8)
        ensures
            forall|mem: Seq<u8>| #[trigger] op_model(Opcode::JMP, old(self)@, mem) == (final(self)@, mem, r),
    {
        reveal(op_model);
        self.program_counter = self.address_absolute;
        0
    }

    /// JSR: pushes the address of its own last byte, then jumps.
    pub fn jsr(&mut self, bus: &mut Bus) -> (r: u8)
        requires
            old(bus).wf(),
        ensures
            final(bus).wf(),
            (final(self)@, final(bus)@, r) == op_model(Opcode::JSR, old(self)@, old(bus)@),
    {
        reveal(op_model);
        proof {
            lemma_wrap16(self.program_counter - 1);
        }
        self.program_counter = self.program_counter.wrapping_sub(1);
        self.push_pc(bus);
        self.program_counter = self.address_absolute;
        0
    }

    /// RTS: returns to the instruction after the calling JSR.
    pub fn rts(&mut self, bus: &Bus) -> (r: u8)
        requires
            bus.wf(),
        ensures
            (final(self)@, bus@, r) == op_model(Opcode::RTS, old(self)@, bus@),
    {
        reveal(op_model);
        let lo = self.pop(bus);
        let hi = self.pop(bus);
        proof {
            lemma_wrap16(word(lo, hi) + 1);
        }
        self.program_counter = make_word(lo, hi).wrapping_add(1);
        0
    }

    /// RTI: restores the status and program counter an interrupt saved.
    pub fn rti(&mut self, bus: &Bus) -> (r: u8)
        requires
            bus.wf(),
        ensures
            (final(self)@, bus@, r) == op_model(Opcode::RTI, old(self)@, bus@),
    {
        reveal(op_model);
        let status = self.pop(bus);
        self.status = status;
        self.set_flag(Flag::Break, false);
        self.set_flag(Flag::Unused, false);
        let lo = self.pop(bus);
        let hi = self.pop(bus);
        self.program_counter = make_word(lo, hi);
        0
    }

    /// LDA: loads the operand into the accumulator.
    pub fn lda(&mut self, bus: &Bus) -> (r: u8)
        requires
            bus.wf(),
        ensures
            (final(self)@, bus@, r) == op_model(Opcode::LDA, old(self)@, bus@),
    {
        reveal(op_model);
        let m = self.fetch(bus);
        self.accumulator = m;
        self.set_zn(m);
        1
    }

    /// LDX: loads the operand into the X register.
    pub fn ldx(&mut self, bus: &Bus) -> (r: u8)
        requires
            bus.wf(),
        ensures
            (final(self)@, bus@, r) == op_model(Opcode::LDX, old(self)@, bus@),
    {
        reveal(op_model);
        let m = self.fetch(bus);
        self.register_x = m;
        self.set_zn(m);
        1
    }

    /// LDY: loads the operand into the Y register.
    pub fn ldy(&mut self, bus: &Bus) -> (r: u8)
        requires
            bus.wf(),
        ensures
            (final(self)@, bus@, r) == op_model(Opcode::LDY, old(self)@, bus@),
    {
        reveal(op_model);
        let m = self.fetch(bus);
        self.register_y = m;
        self.set_zn(m);
        1
    }

    /// STA: stores the accumulator at the resolved address.
    pub fn sta(&mut self, bus: &mut Bus) -> (r: u8)
        requires
            old(bus).wf(),
        ensures
            final(bus).wf(),
            (final(self)@, final(bus)@, r) == op_model(Opcode::STA, old(self)@, old(bus)@),
    {
        reveal(op_model);
        let v = self.accumulator;
        bus.write(self.address_absolute, v);
        0
    }

    /// STX: stores the X register at the resolved address.
    pub fn stx(&mut self, bus: &mut Bus) -> (r: u8)
        requires
            old(bus).wf(),
        ensures
            final(bus).wf(),
            (final(self)@, final(bus)@, r) == op_model(Opcode::STX, old(self)@, old(bus)@),
    {
        reveal(op_model);
        let v = self.register_x;
        bus.write(self.address_absolute, v);
        0
    }

    /// STY: stores the Y register at the resolved address.
    pub fn sty(&mut self, bus: &mut Bus) -> (r: u8)
        requires
            old(bus).wf(),
        ensures
            final(bus).wf(),
            (final(self)@, final(bus)@, r) == op_model(Opcode::STY, old(self)@, old(bus)@),
    {
        reveal(op_model);
        let v = self.register_y;
        bus.write(self.address_absolute, v);
        0
    }

    /// NOP: no effect; some undocumented forms may take an extra cycle.
    pub fn nop(&mut self) -> (r: u8)
        ensures
            forall|mem: Seq<u8>| #[trigger] op_model(Opcode::NOP, old(self)@, mem) == (final(self)@, mem, r),
    {
        reveal(op_model);
        let op = self.opcode;
        if op == 0x1C || op == 0x3C || op == 0x5C || op == 0x7C || op == 0xDC || op == 0xFC {
            1
        } else {
            0
        }
    }

    /// PHA: pushes the accumulator.
    pub fn pha(&mut self, bus: &mut Bus) -> (r: u8)
        requires
            old(bus).wf(),
        ensures
            final(bus).wf(),
            (final(self)@, final(bus)@, r) == op_model(Opcode::PHA, old(self)@, old(bus)@),
    {
        reveal(op_model);
        let a = self.accumulator;
        self.push(bus, a);
        0
    }

    /// PHP: pushes the status with Break and Unused set, then clears both.
    pub fn php(&mut self, bus: &mut Bus) -> (r: u8)
        requires
            old(bus).wf(),
        ensures
            final(bus).wf(),
            (final(self)@, final(bus)@, r) == op_model(Opcode::PHP, old(self)@, old(bus)@),
    {
        reveal(op_model);
        let pushed = self.status | Flag::Break.mask() | Flag::Unused.mask();
        self.push(bus, pushed);
        self.set_flag(Flag::Break, false);
        self.set_flag(Flag::Unused, false);
        0
    }

    /// PLA: pops the accumulator.
    pub fn pla(&mut self, bus: &Bus) -> (r: u8)
        requires
            bus.wf(),
        ensures
            (final(self)@, bus@, r) == op_model(Opcode::PLA, old(self)@, bus@),
    {
        reveal(op_model);
        let v = self.pop(bus);
        self.accumulator = v;
        self.set_zn(v);
        0
    }

    /// PLP: pops the status, with Unused set.
    pub fn plp(&mut self, bus: &Bus) -> (r: u8)
        requires
            bus.wf(),
        ensures
            (final(self)@, bus@, r) == op_model(Opcode::PLP, old(self)@, bus@),
    {
        reveal(op_model);
        let v = self.pop(bus);
        self.status = v;
        self.set_flag(Flag::Unused, true);
        0
    }

    /// TAX: copies the accumulator into X.
    pub fn tax(&mut self) -> (r: u8)
        ensures
            forall|mem: Seq<u8>| #[trigger] op_model(Opcode::TAX, old(self)@, mem) == (final(self)@, mem, r),
    {
        reveal(op_model);
        let v = self.accumulator;
        self.register_x = v;
        self.set_zn(v);
        0
    }

    /// TAY: copies the accumulator into Y.
    pub fn tay(&mut self) -> (r: u8)
        ensures
            forall|mem: Seq<u8>| #[trigger] op_model(Opcode::TAY, old(self)@, mem) == (final(self)@, mem, r),
    {
        reveal(op_model);
        let v = self.accumulator;
        self.register_y = v;
        self.set_zn(v);
        0
    }

    /// TSX: copies the stack pointer into X.
    pub fn tsx(&mut self) -> (r: u8)
        ensures
            forall|mem: Seq<u8>| #[trigger] op_model(Opcode::TSX, old(self)@, mem) == (final(self)@, mem, r),
    {
        reveal(op_model);
        let v = self.stack_pointer;
        self.register_x = v;
        self.set_zn(v);
        0
    }

    /// TXA: copies X into the accumulator.
    pub fn txa(&mut self) -> (r: u8)
        ensures
            forall|mem: Seq<u8>| #[trigger] op_model(Opcode::TXA, old(self)@, mem) == (final(self)@, mem, r),
    {
        reveal(op_model);
        let v = self.register_x;
        self.accumulator = v;
        self.set_zn(v);
        0
    }

    /// TYA: copies Y into the accumulator.
    pub fn tya(&mut self) -> (r: u8)
        ensures
            forall|mem: Seq<u8>| #[trigger] op_model(Opcode::TYA, old(self)@, mem) == (final(self)@, mem, r),
    {
        reveal(op_model);
        let v = self.register_y;
        self.accumulator = v;
        self.set_zn(v);
        0
    }

    /// TXS: copies X into the stack pointer.
    pub fn txs(&mut self) -> (r: u8)
        ensures
            forall|mem: Seq<u8>| #[trigger] op_model(Opcode::TXS, old(self)@, mem) == (final(self)@, mem, r),
    {
        reveal(op_model);
        let v = self.register_x;
        self.stack_pointer = v;
        0
    }

    /// An opcode with no architectural effect.
    pub fn xxx(&mut self) -> (r: u8)
        ensures
            forall|mem: Seq<u8>| #[trigger] op_model(Opcode::XXX, old(self)@, mem) == (final(self)@, mem, r),
    {
        reveal(op_model);
        0
    }
}

} // verus!
