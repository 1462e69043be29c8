use vstd::prelude::*;

use super::addressing_modes::AddressMode;
use super::operations::Opcode;

verus! {

/// The mnemonic under which an opcode is listed: that of its operation for
/// the documented opcodes, none for the undocumented ones.
#[derive(Clone, Copy, Debug, PartialEq, Eq)]
pub enum InstructionName {
    Known(Opcode),
    Unknown,
}

/// What the processor does for one opcode byte.
#[derive(Clone, Copy, Debug, PartialEq, Eq)]
pub struct Instruction {
    pub name: InstructionName,
    pub operation: Opcode,
    pub address_mode: AddressMode,
    pub number_cycles: u8,
}

pub open spec fn spec_official(operation: Opcode, address_mode: AddressMode, number_cycles: u8) -> Instruction {
    Instruction { name: InstructionName::Known(operation), operation, address_mode, number_cycles }
}

pub open spec fn spec_unofficial(operation: Opcode, address_mode: AddressMode, number_cycles: u8) -> Instruction {
    Instruction { name: InstructionName::Unknown, operation, address_mode, number_cycles }
}

/// The descriptor of each opcode byte.
#[verifier::opaque]
pub open spec fn descriptor(opcode: u8) -> Instruction {
    match opcode {
        0x00 => spec_official(Opcode::BRK, AddressMode::IMM, 7),
        0x01 => spec_official(Opcode::ORA, AddressMode::IZX, 6),
        0x02 => spec_unofficial(Opcode::XXX, AddressMode::IMP, 2),
        0x03 => spec_unofficial(Opcode::XXX, AddressMode::IMP, 8),
        0x04 => spec_unofficial(Opcode::NOP, AddressMode::IMP, 3),
        0x05 => spec_official(Opcode::ORA, AddressMode::ZP0, 3),
        0x06 => spec_official(Opcode::ASL, AddressMode::ZP0, 5),
        0x07 => spec_unofficial(Opcode::XXX, AddressMode::IMP, 5),
        0x08 => spec_official(Opcode::PHP, AddressMode::IMP, 3),
        0x09 => spec_official(Opcode::ORA, AddressMode::IMM, 2),
        0x0A => spec_official(Opcode::ASL, AddressMode::IMP, 2),
        0x0B => spec_unofficial(Opcode::XXX, AddressMode::IMP, 2),
        0x0C => spec_unofficial(Opcode::NOP, AddressMode::IMP, 4),
        0x0D => spec_official(Opcode::ORA, AddressMode::ABS, 4),
        0x0E => spec_official(Opcode::ASL, AddressMode::ABS, 6),
        0x0F => spec_unofficial(Opcode::XXX, AddressMode::IMP, 6),
        0x10 => spec_official(Opcode::BPL, AddressMode::REL, 2),
        0x11 => spec_official(Opcode::ORA, AddressMode::IZY, 5),
        0x12 => spec_unofficial(Opcode::XXX, AddressMode::IMP, 2),
        0x13 => spec_unofficial(Opcode::XXX, AddressMode::IMP, 8),
        0x14 => spec_unofficial(Opcode::NOP, AddressMode::IMP, 4),
        0x15 => spec_official(Opcode::ORA, AddressMode::ZPX, 4),
        0x16 => spec_official(Opcode::ASL, AddressMode::ZPX, 6),
        0x17 => spec_unofficial(Opcode::XXX, AddressMode::IMP, 6),
        0x18 => spec_official(Opcode::CLC, AddressMode::IMP, 2),
        0x19 => spec_official(Opcode::ORA, AddressMode::ABY, 4),
        0x1A => spec_unofficial(Opcode::NOP, AddressMode::IMP, 2),
        0x1B => spec_unofficial(Opcode::XXX, AddressMode::IMP, 7),
        0x1C => spec_unofficial(Opcode::NOP, AddressMode::ABX, 4),
        0x1D => spec_official(Opcode::ORA, AddressMode::ABX, 4),
        0x1E => spec_official(Opcode::ASL, AddressMode::ABX, 7),
        0x1F => spec_unofficial(Opcode::XXX, AddressMode::IMP, 7),
        0x20 => spec_official(Opcode::JSR, AddressMode::ABS, 6),
        0x21 => spec_official(Opcode::AND, AddressMode::IZX, 6),
        0x22 => spec_unofficial(Opcode::XXX, AddressMode::IMP, 2),
        0x23 => spec_unofficial(Opcode::XXX, AddressMode::IMP, 8),
        0x24 => spec_official(Opcode::BIT, AddressMode::ZP0, 3),
        0x25 => spec_official(Opcode::AND, AddressMode::ZP0, 3),
        0x26 => spec_official(Opcode::ROL, AddressMode::ZP0, 5),
        0x27 => spec_unofficial(Opcode::XXX, AddressMode::IMP, 5),
        0x28 => spec_official(Opcode::PLP, AddressMode::IMP, 4),
        0x29 => spec_official(Opcode::AND, AddressMode::IMM, 2),
        0x2A => spec_official(Opcode::ROL, AddressMode::IMP, 2),
        0x2B => spec_unofficial(Opcode::XXX, AddressMode::IMP, 2),
        0x2C => spec_official(Opcode::BIT, AddressMode::ABS, 4),
        0x2D => spec_official(Opcode::AND, AddressMode::ABS, 4),
        0x2E => spec_official(Opcode::ROL, AddressMode::ABS, 6),
        0x2F => spec_unofficial(Opcode::XXX, AddressMode::IMP, 6),
        0x30 => spec_official(Opcode::BMI, AddressMode::REL, 2),
        0x31 => spec_official(Opcode::AND, AddressMode::IZY, 5),
        0x32 => spec_unofficial(Opcode::XXX, AddressMode::IMP, 2),
        0x33 => spec_unofficial(Opcode::XXX, AddressMode::IMP, 8),
        0x34 => spec_unofficial(Opcode::NOP, AddressMode::IMP, 4),
        0x35 => spec_official(Opcode::AND, AddressMode::ZPX, 4),
        0x36 => spec_official(Opcode::ROL, AddressMode::ZPX, 6),
        0x37 => spec_unofficial(Opcode::XXX, AddressMode::IMP, 6),
        0x38 => spec_official(Opcode::SEC, AddressMode::IMP, 2),
        0x39 => spec_official(Opcode::AND, AddressMode::ABY, 4),
        0x3A => spec_unofficial(Opcode::NOP, AddressMode::IMP, 2),
        0x3B => spec_unofficial(Opcode::XXX, AddressMode::IMP, 7),
        0x3C => spec_unofficial(Opcode::NOP, AddressMode::ABX, 4),
        0x3D => spec_official(Opcode::AND, AddressMode::ABX, 4),
        0x3E => spec_official(Opcode::ROL, AddressMode::ABX, 7),
        0x3F => spec_unofficial(Opcode::XXX, AddressMode::IMP, 7),
        0x40 => spec_official(Opcode::RTI, AddressMode::IMP, 6),
        0x41 => spec_official(Opcode::EOR, AddressMode::IZX, 6),
        0x42 => spec_unofficial(Opcode::XXX, AddressMode::IMP, 2),
        0x43 => spec_unofficial(Opcode::XXX, AddressMode::IMP, 8),
        0x44 => spec_unofficial(Opcode::NOP, AddressMode::IMP, 3),
        0x45 => spec_official(Opcode::EOR, AddressMode::ZP0, 3),
        0x46 => spec_official(Opcode::LSR, AddressMode::ZP0, 5),
        0x47 => spec_unofficial(Opcode::XXX, AddressMode::IMP, 5),
        0x48 => spec_official(Opcode::PHA, AddressMode::IMP, 3),
        0x49 => spec_official(Opcode::EOR, AddressMode::IMM, 2),
        0x4A => spec_official(Opcode::LSR, AddressMode::IMP, 2),
        0x4B => spec_unofficial(Opcode::XXX, AddressMode::IMP, 2),
        0x4C => spec_official(Opcode::JMP, AddressMode::ABS, 3),
        0x4D => spec_official(Opcode::EOR, AddressMode::ABS, 4),
        0x4E => spec_official(Opcode::LSR, AddressMode::ABS, 6),
        0x4F => spec_unofficial(Opcode::XXX, AddressMode::IMP, 6),
        0x50 => spec_official(Opcode::BVC, AddressMode::REL, 2),
        0x51 => spec_official(Opcode::EOR, AddressMode::IZY, 5),
        0x52 => spec_unofficial(Opcode::XXX, AddressMode::IMP, 2),
        0x53 => spec_unofficial(Opcode::XXX, AddressMode::IMP, 8),
        0x54 => spec_unofficial(Opcode::NOP, AddressMode::IMP, 4),
        0x55 => spec_official(Opcode::EOR, AddressMode::ZPX, 4),
        0x56 => spec_official(Opcode::LSR, AddressMode::ZPX, 6),
        0x57 => spec_unofficial(Opcode::XXX, AddressMode::IMP, 6),
        0x58 => spec_official(Opcode::CLI, AddressMode::IMP, 2),
        0x59 => spec_official(Opcode::EOR, AddressMode::ABY, 4),
        0x5A => spec_unofficial(Opcode::NOP, AddressMode::IMP, 2),
        0x5B => spec_unofficial(Opcode::XXX, AddressMode::IMP, 7),
        0x5C => spec_unofficial(Opcode::NOP, AddressMode::ABX, 4),
        0x5D => spec_official(Opcode::EOR, AddressMode::ABX, 4),
        0x5E => spec_official(Opcode::LSR, AddressMode::ABX, 7),
        0x5F => spec_unofficial(Opcode::XXX, AddressMode::IMP, 7),
        0x60 => spec_official(Opcode::RTS, AddressMode::IMP, 6),
        0x61 => spec_official(Opcode::ADC, AddressMode::IZX, 6),
        0x62 => spec_unofficial(Opcode::XXX, AddressMode::IMP, 2),
        0x63 => spec_unofficial(Opcode::XXX, AddressMode::IMP, 8),
        0x64 => spec_unofficial(Opcode::NOP, AddressMode::IMP, 3),
        0x65 => spec_official(Opcode::ADC, AddressMode::ZP0, 3),
        0x66 => spec_official(Opcode::ROR, AddressMode::ZP0, 5),
        0x67 => spec_unofficial(Opcode::XXX, AddressMode::IMP, 5),
        0x68 => spec_official(Opcode::PLA, AddressMode::IMP, 4),
        0x69 => spec_official(Opcode::ADC, AddressMode::IMM, 2),
        0x6A => spec_official(Opcode::ROR, AddressMode::IMP, 2),
        0x6B => spec_unofficial(Opcode::XXX, AddressMode::IMP, 2),
        0x6C => spec_official(Opcode::JMP, AddressMode::IND, 5),
        0x6D => spec_official(Opcode::ADC, AddressMode::ABS, 4),
        0x6E => spec_official(Opcode::ROR, AddressMode::ABS, 6),
        0x6F => spec_unofficial(Opcode::XXX, AddressMode::IMP, 6),
        0x70 => spec_official(Opcode::BVS, AddressMode::REL, 2),
        0x71 => spec_official(Opcode::ADC, AddressMode::IZY, 5),
        0x72 => spec_unofficial(Opcode::XXX, AddressMode::IMP, 2),
        0x73 => spec_unofficial(Opcode::XXX, AddressMode::IMP, 8),
        0x74 => spec_unofficial(Opcode::NOP, AddressMode::IMP, 4),
        0x75 => spec_official(Opcode::ADC, AddressMode::ZPX, 4),
        0x76 => spec_official(Opcode::ROR, AddressMode::ZPX, 6),
        0x77 => spec_unofficial(Opcode::XXX, AddressMode::IMP, 6),
        0x78 => spec_official(Opcode::SEI, AddressMode::IMP, 2),
        0x79 => spec_official(Opcode::ADC, AddressMode::ABY, 4),
        0x7A => spec_unofficial(Opcode::NOP, AddressMode::IMP, 2),
        0x7B => spec_unofficial(Opcode::XXX, AddressMode::IMP, 7),
        0x7C => spec_unofficial(Opcode::NOP, AddressMode::ABX, 4),
        0x7D => spec_official(Opcode::ADC, AddressMode::ABX, 4),
        0x7E => spec_official(Opcode::ROR, AddressMode::ABX, 7),
        0x7F => spec_unofficial(Opcode::XXX, AddressMode::IMP, 7),
        0x80 => spec_unofficial(Opcode::NOP, AddressMode::IMP, 2),
        0x81 => spec_official(Opcode::STA, AddressMode::IZX, 6),
        0x82 => spec_unofficial(Opcode::NOP, AddressMode::IMP, 2),
        0x83 => spec_unofficial(Opcode::XXX, AddressMode::IMP, 6),
        0x84 => spec_official(Opcode::STY, AddressMode::ZP0, 3),
        0x85 => spec_official(Opcode::STA, AddressMode::ZP0, 3),
        0x86 => spec_official(Opcode::STX, AddressMode::ZP0, 3),
        0x87 => spec_unofficial(Opcode::XXX, AddressMode::IMP, 3),
        0x88 => spec_official(Opcode::DEY, AddressMode::IMP, 2),
        0x89 => spec_unofficial(Opcode::NOP, AddressMode::IMP, 2),
        0x8A => spec_official(Opcode::TXA, AddressMode::IMP, 2),
        0x8B => spec_unofficial(Opcode::XXX, AddressMode::IMP, 2),
        0x8C => spec_official(Opcode::STY, AddressMode::ABS, 4),
        0x8D => spec_official(Opcode::STA, AddressMode::ABS, 4),
        0x8E => spec_official(Opcode::STX, AddressMode::ABS, 4),
        0x8F => spec_unofficial(Opcode::XXX, AddressMode::IMP, 4),
        0x90 => spec_official(Opcode::BCC, AddressMode::REL, 2),
        0x91 => spec_official(Opcode::STA, AddressMode::IZY, 6),
        0x92 => spec_unofficial(Opcode::XXX, AddressMode::IMP, 2),
        0x93 => spec_unofficial(Opcode::XXX, AddressMode::IMP, 6),
        0x94 => spec_official(Opcode::STY, AddressMode::ZPX, 4),
        0x95 => spec_official(Opcode::STA, AddressMode::ZPX, 4),
        0x96 => spec_official(Opcode::STX, AddressMode::ZPY, 4),
        0x97 => spec_unofficial(Opcode::XXX, AddressMode::IMP, 4),
        0x98 => spec_official(Opcode::TYA, AddressMode::IMP, 2),
        0x99 => spec_official(Opcode::STA, AddressMode::ABY, 5),
        0x9A => spec_official(Opcode::TXS, AddressMode::IMP, 2),
        0x9B => spec_unofficial(Opcode::XXX, AddressMode::IMP, 5),
        0x9C => spec_unofficial(Opcode::NOP, AddressMode::IMP, 5),
        0x9D => spec_official(Opcode::STA, AddressMode::ABX, 5),
        0x9E => spec_unofficial(Opcode::XXX, AddressMode::IMP, 5),
        0x9F => spec_unofficial(Opcode::XXX, AddressMode::IMP, 5),
        0xA0 => spec_official(Opcode::LDY, AddressMode::IMM, 2),
        0xA1 => spec_official(Opcode::LDA, AddressMode::IZX, 6),
        0xA2 => spec_official(Opcode::LDX, AddressMode::IMM, 2),
        0xA3 => spec_unofficial(Opcode::XXX, AddressMode::IMP, 6),
        0xA4 => spec_official(Opcode::LDY, AddressMode::ZP0, 3),
        0xA5 => spec_official(Opcode::LDA, AddressMode::ZP0, 3),
        0xA6 => spec_official(Opcode::LDX, AddressMode::ZP0, 3),
        0xA7 => spec_unofficial(Opcode::XXX, AddressMode::IMP, 3),
        0xA8 => spec_official(Opcode::TAY, AddressMode::IMP, 2),
        0xA9 => spec_official(Opcode::LDA, AddressMode::IMM, 2),
        0xAA => spec_official(Opcode::TAX, AddressMode::IMP, 2),
        0xAB => spec_unofficial(Opcode::XXX, AddressMode::IMP, 2),
        0xAC => spec_official(Opcode::LDY, AddressMode::ABS, 4),
        0xAD => spec_official(Opcode::LDA, AddressMode::ABS, 4),
        0xAE => spec_official(Opcode::LDX, AddressMode::ABS, 4),
        0xAF => spec_unofficial(Opcode::XXX, AddressMode::IMP, 4),
        0xB0 => spec_official(Opcode::BCS, AddressMode::REL, 2),
        0xB1 => spec_official(Opcode::LDA, AddressMode::IZY, 5),
        0xB2 => spec_unofficial(Opcode::XXX, AddressMode::IMP, 2),
        0xB3 => spec_unofficial(Opcode::XXX, AddressMode::IMP, 5),
        0xB4 => spec_official(Opcode::LDY, AddressMode::ZPX, 4),
        0xB5 => spec_official(Opcode::LDA, AddressMode::ZPX, 4),
        0xB6 => spec_official(Opcode::LDX, AddressMode::ZPY, 4),
        0xB7 => spec_unofficial(Opcode::XXX, AddressMode::IMP, 4),
        0xB8 => spec_official(Opcode::CLV, AddressMode::IMP, 2),
        0xB9 => spec_official(Opcode::LDA, AddressMode::ABY, 4),
        0xBA => spec_official(Opcode::TSX, AddressMode::IMP, 2),
        0xBB => spec_unofficial(Opcode::XXX, AddressMode::IMP, 4),
        0xBC => spec_official(Opcode::LDY, AddressMode::ABX, 4),
        0xBD => spec_official(Opcode::LDA, AddressMode::ABX, 4),
        0xBE => spec_official(Opcode::LDX, AddressMode::ABY, 4),
        0xBF => spec_unofficial(Opcode::XXX, AddressMode::IMP, 4),
        0xC0 => spec_official(Opcode::CPY, AddressMode::IMM, 2),
        0xC1 => spec_official(Opcode::CMP, AddressMode::IZX, 6),
        0xC2 => spec_unofficial(Opcode::NOP, AddressMode::IMP, 2),
        0xC3 => spec_unofficial(Opcode::XXX, AddressMode::IMP, 8),
        0xC4 => spec_official(Opcode::CPY, AddressMode::ZP0, 3),
        0xC5 => spec_official(Opcode::CMP, AddressMode::ZP0, 3),
        0xC6 => spec_official(Opcode::DEC, AddressMode::ZP0, 5),
        0xC7 => spec_unofficial(Opcode::XXX, AddressMode::IMP, 5),
        0xC8 => spec_official(Opcode::INY, AddressMode::IMP, 2),
        0xC9 => spec_official(Opcode::CMP, AddressMode::IMM, 2),
        0xCA => spec_official(Opcode::DEX, AddressMode::IMP, 2),
        0xCB => spec_unofficial(Opcode::XXX, AddressMode::IMP, 2),
        0xCC => spec_official(Opcode::CPY, AddressMode::ABS, 4),
        0xCD => spec_official(Opcode::CMP, AddressMode::ABS, 4),
        0xCE => spec_official(Opcode::DEC, AddressMode::ABS, 6),
        0xCF => spec_unofficial(Opcode::XXX, AddressMode::IMP, 6),
        0xD0 => spec_official(Opcode::BNE, AddressMode::REL, 2),
        0xD1 => spec_official(Opcode::CMP, AddressMode::IZY, 5),
        0xD2 => spec_unofficial(Opcode::XXX, AddressMode::IMP, 2),
        0xD3 => spec_unofficial(Opcode::XXX, AddressMode::IMP, 8),
        0xD4 => spec_unofficial(Opcode::NOP, AddressMode::IMP, 4),
        0xD5 => spec_official(Opcode::CMP, AddressMode::ZPX, 4),
        0xD6 => spec_official(Opcode::DEC, AddressMode::ZPX, 6),
        0xD7 => spec_unofficial(Opcode::XXX, AddressMode::IMP, 6),
        0xD8 => spec_official(Opcode::CLD, AddressMode::IMP, 2),
        0xD9 => spec_official(Opcode::CMP, AddressMode::ABY, 4),
        0xDA => spec_unofficial(Opcode::NOP, AddressMode::IMP, 2),
        0xDB => spec_unofficial(Opcode::XXX, AddressMode::IMP, 7),
        0xDC => spec_unofficial(Opcode::NOP, AddressMode::ABX, 4),
        0xDD => spec_official(Opcode::CMP, AddressMode::ABX, 4),
        0xDE => spec_official(Opcode::DEC, AddressMode::ABX, 7),
        0xDF => spec_unofficial(Opcode::XXX, AddressMode::IMP, 7),
        0xE0 => spec_official(Opcode::CPX, AddressMode::IMM, 2),
        0xE1 => spec_official(Opcode::SBC, AddressMode::IZX, 6),
        0xE2 => spec_unofficial(Opcode::NOP, AddressMode::IMP, 2),
        0xE3 => spec_unofficial(Opcode::XXX, AddressMode::IMP, 8),
        0xE4 => spec_official(Opcode::CPX, AddressMode::ZP0, 3),
        0xE5 => spec_official(Opcode::SBC, AddressMode::ZP0, 3),
        0xE6 => spec_official(Opcode::INC, AddressMode::ZP0, 5),
        0xE7 => spec_unofficial(Opcode::XXX, AddressMode::IMP, 5),
        0xE8 => spec_official(Opcode::INX, AddressMode::IMP, 2),
        0xE9 => spec_official(Opcode::SBC, AddressMode::IMM, 2),
        0xEA => spec_official(Opcode::NOP, AddressMode::IMP, 2),
        0xEB => spec_unofficial(Opcode::XXX, AddressMode::IMP, 2),
        0xEC => spec_official(Opcode::CPX, AddressMode::ABS, 4),
        0xED => spec_official(Opcode::SBC, AddressMode::ABS, 4),
        0xEE => spec_official(Opcode::INC, AddressMode::ABS, 6),
        0xEF => spec_unofficial(Opcode::XXX, AddressMode::IMP, 6),
        0xF0 => spec_official(Opcode::BEQ, AddressMode::REL, 2),
        0xF1 => spec_official(Opcode::SBC, AddressMode::IZY, 5),
        0xF2 => spec_unofficial(Opcode::XXX, AddressMode::IMP, 2),
        0xF3 => spec_unofficial(Opcode::XXX, AddressMode::IMP, 8),
        0xF4 => spec_unofficial(Opcode::NOP, AddressMode::IMP, 4),
        0xF5 => spec_official(Opcode::SBC, AddressMode::ZPX, 4),
        0xF6 => spec_official(Opcode::INC, AddressMode::ZPX, 6),
        0xF7 => spec_unofficial(Opcode::XXX, AddressMode::IMP, 6),
        0xF8 => spec_official(Opcode::SED, AddressMode::IMP, 2),
        0xF9 => spec_official(Opcode::SBC, AddressMode::ABY, 4),
        0xFA => spec_unofficial(Opcode::NOP, AddressMode::IMP, 2),
        0xFB => spec_unofficial(Opcode::XXX, AddressMode::IMP, 7),
        0xFC => spec_unofficial(Opcode::NOP, AddressMode::ABX, 4),
        0xFD => spec_official(Opcode::SBC, AddressMode::ABX, 4),
        0xFE => spec_official(Opcode::INC, AddressMode::ABX, 7),
        _ => spec_unofficial(Opcode::XXX, AddressMode::IMP, 7),
    }
}

impl Instruction {
    fn official(operation: Opcode, address_mode: AddressMode, number_cycles: u8) -> (r: Instruction)
        ensures
            r == spec_official(operation, address_mode, number_cycles),
    {
        Instruction { name: InstructionName::Known(operation), operation, address_mode, number_cycles }
    }

    fn unofficial(operation: Opcode, address_mode: AddressMode, number_cycles: u8) -> (r: Instruction)
        ensures
            r == spec_unofficial(operation, address_mode, number_cycles),
    {
        Instruction { name: InstructionName::Unknown, operation, address_mode, number_cycles }
    }

    /// The descriptor of the opcode byte `opcode`.
    pub fn decode(opcode: u8) -> (r: Instruction)
        ensures
            r == descriptor(opcode),
    {
        reveal(descriptor);
        match opcode {
            0x00 => Instruction::official(Opcode::BRK, AddressMode::IMM, 7),
            0x01 => Instruction::official(Opcode::ORA, AddressMode::IZX, 6),
            0x02 => Instruction::unofficial(Opcode::XXX, AddressMode::IMP, 2),
            0x03 => Instruction::unofficial(Opcode::XXX, AddressMode::IMP, 8),
            0x04 => Instruction::unofficial(Opcode::NOP, AddressMode::IMP, 3),
            0x05 => Instruction::official(Opcode::ORA, AddressMode::ZP0, 3),
            0x06 => Instruction::official(Opcode::ASL, AddressMode::ZP0, 5),
            0x07 => Instruction::unofficial(Opcode::XXX, AddressMode::IMP, 5),
            0x08 => Instruction::official(Opcode::PHP, AddressMode::IMP, 3),
            0x09 => Instruction::official(Opcode::ORA, AddressMode::IMM, 2),
            0x0A => Instruction::official(Opcode::ASL, AddressMode::IMP, 2),
            0x0B => Instruction::unofficial(Opcode::XXX, AddressMode::IMP, 2),
            0x0C => Instruction::unofficial(Opcode::NOP, AddressMode::IMP, 4),
            0x0D => Instruction::official(Opcode::ORA, AddressMode::ABS, 4),
            0x0E => Instruction::official(Opcode::ASL, AddressMode::ABS, 6),
            0x0F => Instruction::unofficial(Opcode::XXX, AddressMode::IMP, 6),
            0x10 => Instruction::official(Opcode::BPL, AddressMode::REL, 2),
            0x11 => Instruction::official(Opcode::ORA, AddressMode::IZY, 5),
            0x12 => Instruction::unofficial(Opcode::XXX, AddressMode::IMP, 2),
            0x13 => Instruction::unofficial(Opcode::XXX, AddressMode::IMP, 8),
            0x14 => Instruction::unofficial(Opcode::NOP, AddressMode::IMP, 4),
            0x15 => Instruction::official(Opcode::ORA, AddressMode::ZPX, 4),
            0x16 => Instruction::official(Opcode::ASL, AddressMode::ZPX, 6),
            0x17 => Instruction::unofficial(Opcode::XXX, AddressMode::IMP, 6),
            0x18 => Instruction::official(Opcode::CLC, AddressMode::IMP, 2),
            0x19 => Instruction::official(Opcode::ORA, AddressMode::ABY, 4),
            0x1A => Instruction::unofficial(Opcode::NOP, AddressMode::IMP, 2),
            0x1B => Instruction::unofficial(Opcode::XXX, AddressMode::IMP, 7),
            0x1C => Instruction::unofficial(Opcode::NOP, AddressMode::ABX, 4),
            0x1D => Instruction::official(Opcode::ORA, AddressMode::ABX, 4),
            0x1E => Instruction::official(Opcode::ASL, AddressMode::ABX, 7),
            0x1F => Instruction::unofficial(Opcode::XXX, AddressMode::IMP, 7),
            0x20 => Instruction::official(Opcode::JSR, AddressMode::ABS, 6),
            0x21 => Instruction::official(Opcode::AND, AddressMode::IZX, 6),
            0x22 => Instruction::unofficial(Opcode::XXX, AddressMode::IMP, 2),
            0x23 => Instruction::unofficial(Opcode::XXX, AddressMode::IMP, 8),
            0x24 => Instruction::official(Opcode::BIT, AddressMode::ZP0, 3),
            0x25 => Instruction::official(Opcode::AND, AddressMode::ZP0, 3),
            0x26 => Instruction::official(Opcode::ROL, AddressMode::ZP0, 5),
            0x27 => Instruction::unofficial(Opcode::XXX, AddressMode::IMP, 5),
            0x28 => Instruction::official(Opcode::PLP, AddressMode::IMP, 4),
            0x29 => Instruction::official(Opcode::AND, AddressMode::IMM, 2),
            0x2A => Instruction::official(Opcode::ROL, AddressMode::IMP, 2),
            0x2B => Instruction::unofficial(Opcode::XXX, AddressMode::IMP, 2),
            0x2C => Instruction::official(Opcode::BIT, AddressMode::ABS, 4),
            0x2D => Instruction::official(Opcode::AND, AddressMode::ABS, 4),
            0x2E => Instruction::official(Opcode::ROL, AddressMode::ABS, 6),
            0x2F => Instruction::unofficial(Opcode::XXX, AddressMode::IMP, 6),
            0x30 => Instruction::official(Opcode::BMI, AddressMode::REL, 2),
            0x31 => Instruction::official(Opcode::AND, AddressMode::IZY, 5),
            0x32 => Instruction::unofficial(Opcode::XXX, AddressMode::IMP, 2),
            0x33 => Instruction::unofficial(Opcode::XXX, AddressMode::IMP, 8),
            0x34 => Instruction::unofficial(Opcode::NOP, AddressMode::IMP, 4),
            0x35 => Instruction::official(Opcode::AND, AddressMode::ZPX, 4),
            0x36 => Instruction::official(Opcode::ROL, AddressMode::ZPX, 6),
            0x37 => Instruction::unofficial(Opcode::XXX, AddressMode::IMP, 6),
            0x38 => Instruction::official(Opcode::SEC, AddressMode::IMP, 2),
            0x39 => Instruction::official(Opcode::AND, AddressMode::ABY, 4),
            0x3A => Instruction::unofficial(Opcode::NOP, AddressMode::IMP, 2),
            0x3B => Instruction::unofficial(Opcode::XXX, AddressMode::IMP, 7),
            0x3C => Instruction::unofficial(Opcode::NOP, AddressMode::ABX, 4),
            0x3D => Instruction::official(Opcode::AND, AddressMode::ABX, 4),
            0x3E => Instruction::official(Opcode::ROL, AddressMode::ABX, 7),
            0x3F => Instruction::unofficial(Opcode::XXX, AddressMode::IMP, 7),
            0x40 => Instruction::official(Opcode::RTI, AddressMode::IMP, 6),
            0x41 => Instruction::official(Opcode::EOR, AddressMode::IZX, 6),
            0x42 => Instruction::unofficial(Opcode::XXX, AddressMode::IMP, 2),
            0x43 => Instruction::unofficial(Opcode::XXX, AddressMode::IMP, 8),
            0x44 => Instruction::unofficial(Opcode::NOP, AddressMode::IMP, 3),
            0x45 => Instruction::official(Opcode::EOR, AddressMode::ZP0, 3),
            0x46 => Instruction::official(Opcode::LSR, AddressMode::ZP0, 5),
            0x47 => Instruction::unofficial(Opcode::XXX, AddressMode::IMP, 5),
            0x48 => Instruction::official(Opcode::PHA, AddressMode::IMP, 3),
            0x49 => Instruction::official(Opcode::EOR, AddressMode::IMM, 2),
            0x4A => Instruction::official(Opcode::LSR, AddressMode::IMP, 2),
            0x4B => Instruction::unofficial(Opcode::XXX, AddressMode::IMP, 2),
            0x4C => Instruction::official(Opcode::JMP, AddressMode::ABS, 3),
            0x4D => Instruction::official(Opcode::EOR, AddressMode::ABS, 4),
            0x4E => Instruction::official(Opcode::LSR, AddressMode::ABS, 6),
            0x4F => Instruction::unofficial(Opcode::XXX, AddressMode::IMP, 6),
            0x50 => Instruction::official(Opcode::BVC, AddressMode::REL, 2),
            0x51 => Instruction::official(Opcode::EOR, AddressMode::IZY, 5),
            0x52 => Instruction::unofficial(Opcode::XXX, AddressMode::IMP, 2),
            0x53 => Instruction::unofficial(Opcode::XXX, AddressMode::IMP, 8),
            0x54 => Instruction::unofficial(Opcode::NOP, AddressMode::IMP, 4),
            0x55 => Instruction::official(Opcode::EOR, AddressMode::ZPX, 4),
            0x56 => Instruction::official(Opcode::LSR, AddressMode::ZPX, 6),
            0x57 => Instruction::unofficial(Opcode::XXX, AddressMode::IMP, 6),
            0x58 => Instruction::official(Opcode::CLI, AddressMode::IMP, 2),
            0x59 => Instruction::official(Opcode::EOR, AddressMode::ABY, 4),
            0x5A => Instruction::unofficial(Opcode::NOP, AddressMode::IMP, 2),
            0x5B => Instruction::unofficial(Opcode::XXX, AddressMode::IMP, 7),
            0x5C => Instruction::unofficial(Opcode::NOP, AddressMode::ABX, 4),
            0x5D => Instruction::official(Opcode::EOR, AddressMode::ABX, 4),
            0x5E => Instruction::official(Opcode::LSR, AddressMode::ABX, 7),
            0x5F => Instruction::unofficial(Opcode::XXX, AddressMode::IMP, 7),
            0x60 => Instruction::official(Opcode::RTS, AddressMode::IMP, 6),
            0x61 => Instruction::official(Opcode::ADC, AddressMode::IZX, 6),
            0x62 => Instruction::unofficial(Opcode::XXX, AddressMode::IMP, 2),
            0x63 => Instruction::unofficial(Opcode::XXX, AddressMode::IMP, 8),
            0x64 => Instruction::unofficial(Opcode::NOP, AddressMode::IMP, 3),
            0x65 => Instruction::official(Opcode::ADC, AddressMode::ZP0, 3),
            0x66 => Instruction::official(Opcode::ROR, AddressMode::ZP0, 5),
            0x67 => Instruction::unofficial(Opcode::XXX, AddressMode::IMP, 5),
            0x68 => Instruction::official(Opcode::PLA, AddressMode::IMP, 4),
            0x69 => Instruction::official(Opcode::ADC, AddressMode::IMM, 2),
            0x6A => Instruction::official(Opcode::ROR, AddressMode::IMP, 2),
            0x6B => Instruction::unofficial(Opcode::XXX, AddressMode::IMP, 2),
            0x6C => Instruction::official(Opcode::JMP, AddressMode::IND, 5),
            0x6D => Instruction::official(Opcode::ADC, AddressMode::ABS, 4),
            0x6E => Instruction::official(Opcode::ROR, AddressMode::ABS, 6),
            0x6F => Instruction::unofficial(Opcode::XXX, AddressMode::IMP, 6),
            0x70 => Instruction::official(Opcode::BVS, AddressMode::REL, 2),
            0x71 => Instruction::official(Opcode::ADC, AddressMode::IZY, 5),
            0x72 => Instruction::unofficial(Opcode::XXX, AddressMode::IMP, 2),
            0x73 => Instruction::unofficial(Opcode::XXX, AddressMode::IMP, 8),
            0x74 => Instruction::unofficial(Opcode::NOP, AddressMode::IMP, 4),
            0x75 => Instruction::official(Opcode::ADC, AddressMode::ZPX, 4),
            0x76 => Instruction::official(Opcode::ROR, AddressMode::ZPX, 6),
            0x77 => Instruction::unofficial(Opcode::XXX, AddressMode::IMP, 6),
            0x78 => Instruction::official(Opcode::SEI, AddressMode::IMP, 2),
            0x79 => Instruction::official(Opcode::ADC, AddressMode::ABY, 4),
            0x7A => Instruction::unofficial(Opcode::NOP, AddressMode::IMP, 2),
            0x7B => Instruction::unofficial(Opcode::XXX, AddressMode::IMP, 7),
            0x7C => Instruction::unofficial(Opcode::NOP, AddressMode::ABX, 4),
            0x7D => Instruction::official(Opcode::ADC, AddressMode::ABX, 4),
            0x7E => Instruction::official(Opcode::ROR, AddressMode::ABX, 7),
            0x7F => Instruction::unofficial(Opcode::XXX, AddressMode::IMP, 7),
            0x80 => Instruction::unofficial(Opcode::NOP, AddressMode::IMP, 2),
            0x81 => Instruction::official(Opcode::STA, AddressMode::IZX, 6),
            0x82 => Instruction::unofficial(Opcode::NOP, AddressMode::IMP, 2),
            0x83 => Instruction::unofficial(Opcode::XXX, AddressMode::IMP, 6),
            0x84 => Instruction::official(Opcode::STY, AddressMode::ZP0, 3),
            0x85 => Instruction::official(Opcode::STA, AddressMode::ZP0, 3),
            0x86 => Instruction::official(Opcode::STX, AddressMode::ZP0, 3),
            0x87 => Instruction::unofficial(Opcode::XXX, AddressMode::IMP, 3),
            0x88 => Instruction::official(Opcode::DEY, AddressMode::IMP, 2),
            0x89 => Instruction::unofficial(Opcode::NOP, AddressMode::IMP, 2),
            0x8A => Instruction::official(Opcode::TXA, AddressMode::IMP, 2),
            0x8B => Instruction::unofficial(Opcode::XXX, AddressMode::IMP, 2),
            0x8C => Instruction::official(Opcode::STY, AddressMode::ABS, 4),
            0x8D => Instruction::official(Opcode::STA, AddressMode::ABS, 4),
            0x8E => Instruction::official(Opcode::STX, AddressMode::ABS, 4),
            0x8F => Instruction::unofficial(Opcode::XXX, AddressMode::IMP, 4),
            0x90 => Instruction::official(Opcode::BCC, AddressMode::REL, 2),
            0x91 => Instruction::official(Opcode::STA, AddressMode::IZY, 6),
            0x92 => Instruction::unofficial(Opcode::XXX, AddressMode::IMP, 2),
            0x93 => Instruction::unofficial(Opcode::XXX, AddressMode::IMP, 6),
            0x94 => Instruction::official(Opcode::STY, AddressMode::ZPX, 4),
            0x95 => Instruction::official(Opcode::STA, AddressMode::ZPX, 4),
            0x96 => Instruction::official(Opcode::STX, AddressMode::ZPY, 4),
            0x97 => Instruction::unofficial(Opcode::XXX, AddressMode::IMP, 4),
            0x98 => Instruction::official(Opcode::TYA, AddressMode::IMP, 2),
            0x99 => Instruction::official(Opcode::STA, AddressMode::ABY, 5),
            0x9A => Instruction::official(Opcode::TXS, AddressMode::IMP, 2),
            0x9B => Instruction::unofficial(Opcode::XXX, AddressMode::IMP, 5),
            0x9C => Instruction::unofficial(Opcode::NOP, AddressMode::IMP, 5),
            0x9D => Instruction::official(Opcode::STA, AddressMode::ABX, 5),
            0x9E => Instruction::unofficial(Opcode::XXX, AddressMode::IMP, 5),
            0x9F => Instruction::unofficial(Opcode::XXX, AddressMode::IMP, 5),
            0xA0 => Instruction::official(Opcode::LDY, AddressMode::IMM, 2),
            0xA1 => Instruction::official(Opcode::LDA, AddressMode::IZX, 6),
            0xA2 => Instruction::official(Opcode::LDX, AddressMode::IMM, 2),
            0xA3 => Instruction::unofficial(Opcode::XXX, AddressMode::IMP, 6),
            0xA4 => Instruction::official(Opcode::LDY, AddressMode::ZP0, 3),
            0xA5 => Instruction::official(Opcode::LDA, AddressMode::ZP0, 3),
            0xA6 => Instruction::official(Opcode::LDX, AddressMode::ZP0, 3),
            0xA7 => Instruction::unofficial(Opcode::XXX, AddressMode::IMP, 3),
            0xA8 => Instruction::official(Opcode::TAY, AddressMode::IMP, 2),
            0xA9 => Instruction::official(Opcode::LDA, AddressMode::IMM, 2),
            0xAA => Instruction::official(Opcode::TAX, AddressMode::IMP, 2),
            0xAB => Instruction::unofficial(Opcode::XXX, AddressMode::IMP, 2),
            0xAC => Instruction::official(Opcode::LDY, AddressMode::ABS, 4),
            0xAD => Instruction::official(Opcode::LDA, AddressMode::ABS, 4),
            0xAE => Instruction::official(Opcode::LDX, AddressMode::ABS, 4),
            0xAF => Instruction::unofficial(Opcode::XXX, AddressMode::IMP, 4),
            0xB0 => Instruction::official(Opcode::BCS, AddressMode::REL, 2),
            0xB1 => Instruction::official(Opcode::LDA, AddressMode::IZY, 5),
            0xB2 => Instruction::unofficial(Opcode::XXX, AddressMode::IMP, 2),
            0xB3 => Instruction::unofficial(Opcode::XXX, AddressMode::IMP, 5),
            0xB4 => Instruction::official(Opcode::LDY, AddressMode::ZPX, 4),
            0xB5 => Instruction::official(Opcode::LDA, AddressMode::ZPX, 4),
            0xB6 => Instruction::official(Opcode::LDX, AddressMode::ZPY, 4),
            0xB7 => Instruction::unofficial(Opcode::XXX, AddressMode::IMP, 4),
            0xB8 => Instruction::official(Opcode::CLV, AddressMode::IMP, 2),
            0xB9 => Instruction::official(Opcode::LDA, AddressMode::ABY, 4),
            0xBA => Instruction::official(Opcode::TSX, AddressMode::IMP, 2),
            0xBB => Instruction::unofficial(Opcode::XXX, AddressMode::IMP, 4),
            0xBC => Instruction::official(Opcode::LDY, AddressMode::ABX, 4),
            0xBD => Instruction::official(Opcode::LDA, AddressMode::ABX, 4),
            0xBE => Instruction::official(Opcode::LDX, AddressMode::ABY, 4),
            0xBF => Instruction::unofficial(Opcode::XXX, AddressMode::IMP, 4),
            0xC0 => Instruction::official(Opcode::CPY, AddressMode::IMM, 2),
            0xC1 => Instruction::official(Opcode::CMP, AddressMode::IZX, 6),
            0xC2 => Instruction::unofficial(Opcode::NOP, AddressMode::IMP, 2),
            0xC3 => Instruction::unofficial(Opcode::XXX, AddressMode::IMP, 8),
            0xC4 => Instruction::official(Opcode::CPY, AddressMode::ZP0, 3),
            0xC5 => Instruction::official(Opcode::CMP, AddressMode::ZP0, 3),
            0xC6 => Instruction::official(Opcode::DEC, AddressMode::ZP0, 5),
            0xC7 => Instruction::unofficial(Opcode::XXX, AddressMode::IMP, 5),
            0xC8 => Instruction::official(Opcode::INY, AddressMode::IMP, 2),
            0xC9 => Instruction::official(Opcode::CMP, AddressMode::IMM, 2),
            0xCA => Instruction::official(Opcode::DEX, AddressMode::IMP, 2),
            0xCB => Instruction::unofficial(Opcode::XXX, AddressMode::IMP, 2),
            0xCC => Instruction::official(Opcode::CPY, AddressMode::ABS, 4),
            0xCD => Instruction::official(Opcode::CMP, AddressMode::ABS, 4),
            0xCE => Instruction::official(Opcode::DEC, AddressMode::ABS, 6),
            0xCF => Instruction::unofficial(Opcode::XXX, AddressMode::IMP, 6),
            0xD0 => Instruction::official(Opcode::BNE, AddressMode::REL, 2),
            0xD1 => Instruction::official(Opcode::CMP, AddressMode::IZY, 5),
            0xD2 => Instruction::unofficial(Opcode::XXX, AddressMode::IMP, 2),
            0xD3 => Instruction::unofficial(Opcode::XXX, AddressMode::IMP, 8),
            0xD4 => Instruction::unofficial(Opcode::NOP, AddressMode::IMP, 4),
            0xD5 => Instruction::official(Opcode::CMP, AddressMode::ZPX, 4),
            0xD6 => Instruction::official(Opcode::DEC, AddressMode::ZPX, 6),
            0xD7 => Instruction::unofficial(Opcode::XXX, AddressMode::IMP, 6),
            0xD8 => Instruction::official(Opcode::CLD, AddressMode::IMP, 2),
            0xD9 => Instruction::official(Opcode::CMP, AddressMode::ABY, 4),
            0xDA => Instruction::unofficial(Opcode::NOP, AddressMode::IMP, 2),
            0xDB => Instruction::unofficial(Opcode::XXX, AddressMode::IMP, 7),
            0xDC => Instruction::unofficial(Opcode::NOP, AddressMode::ABX, 4),
            0xDD => Instruction::official(Opcode::CMP, AddressMode::ABX, 4),
            0xDE => Instruction::official(Opcode::DEC, AddressMode::ABX, 7),
            0xDF => Instruction::unofficial(Opcode::XXX, AddressMode::IMP, 7),
            0xE0 => Instruction::official(Opcode::CPX, AddressMode::IMM, 2),
            0xE1 => Instruction::official(Opcode::SBC, AddressMode::IZX, 6),
            0xE2 => Instruction::unofficial(Opcode::NOP, AddressMode::IMP, 2),
            0xE3 => Instruction::unofficial(Opcode::XXX, AddressMode::IMP, 8),
            0xE4 => Instruction::official(Opcode::CPX, AddressMode::ZP0, 3),
            0xE5 => Instruction::official(Opcode::SBC, AddressMode::ZP0, 3),
            0xE6 => Instruction::official(Opcode::INC, AddressMode::ZP0, 5),
            0xE7 => Instruction::unofficial(Opcode::XXX, AddressMode::IMP, 5),
            0xE8 => Instruction::official(Opcode::INX, AddressMode::IMP, 2),
            0xE9 => Instruction::official(Opcode::SBC, AddressMode::IMM, 2),
            0xEA => Instruction::official(Opcode::NOP, AddressMode::IMP, 2),
            0xEB => Instruction::unofficial(Opcode::XXX, AddressMode::IMP, 2),
            0xEC => Instruction::official(Opcode::CPX, AddressMode::ABS, 4),
            0xED => Instruction::official(Opcode::SBC, AddressMode::ABS, 4),
            0xEE => Instruction::official(Opcode::INC, AddressMode::ABS, 6),
            0xEF => Instruction::unofficial(Opcode::XXX, AddressMode::IMP, 6),
            0xF0 => Instruction::official(Opcode::BEQ, AddressMode::REL, 2),
            0xF1 => Instruction::official(Opcode::SBC, AddressMode::IZY, 5),
            0xF2 => Instruction::unofficial(Opcode::XXX, AddressMode::IMP, 2),
            0xF3 => Instruction::unofficial(Opcode::XXX, AddressMode::IMP, 8),
            0xF4 => Instruction::unofficial(Opcode::NOP, AddressMode::IMP, 4),
            0xF5 => Instruction::official(Opcode::SBC, AddressMode::ZPX, 4),
            0xF6 => Instruction::official(Opcode::INC, AddressMode::ZPX, 6),
            0xF7 => Instruction::unofficial(Opcode::XXX, AddressMode::IMP, 6),
            0xF8 => Instruction::official(Opcode::SED, AddressMode::IMP, 2),
            0xF9 => Instruction::official(Opcode::SBC, AddressMode::ABY, 4),
            0xFA => Instruction::unofficial(Opcode::NOP, AddressMode::IMP, 2),
            0xFB => Instruction::unofficial(Opcode::XXX, AddressMode::IMP, 7),
            0xFC => Instruction::unofficial(Opcode::NOP, AddressMode::ABX, 4),
            0xFD => Instruction::official(Opcode::SBC, AddressMode::ABX, 4),
            0xFE => Instruction::official(Opcode::INC, AddressMode::ABX, 7),
            _ => Instruction::unofficial(Opcode::XXX, AddressMode::IMP, 7),
        }
    }

    /// The opcode table: the descriptor of every byte, indexed by the byte.
    pub fn get_all() -> (r: Vec<Instruction>)
        ensures
            r@.len() == 256,
            forall|i: int| 0 <= i < 256 ==> #[trigger] r@[i] == descriptor(i as u8),
    {
        let mut table: Vec<Instruction> = Vec::new();
        let mut i: u16 = 0;
        while i < 256
            invariant
                i <= 256,
                table@.len() == i,
                forall|j: int| 0 <= j < i ==> #[trigger] table@[j] == descriptor(j as u8),
            decreases 256 - i,
        {
            table.push(Instruction::decode(i as u8));
            i = i + 1;
        }
        table
    }
}

/// The opcode table, built once: entry `b` is the descriptor of byte `b`.
pub struct OpcodeTable {
    entries: Vec<Instruction>,
}

impl OpcodeTable {
    #[verifier::type_invariant]
    spec fn complete(&self) -> bool {
        &&& self.entries@.len() == 256
        &&& forall|i: int| 0 <= i < 256 ==> #[trigger] self.entries@[i] == descriptor(i as u8)
    }

    /// Builds the table.
    pub fn new() -> (r: OpcodeTable) {
        OpcodeTable { entries: Instruction::get_all() }
    }

    /// The descriptor of the opcode byte `opcode`.
    pub fn lookup(&self, opcode: u8) -> (r: Instruction)
        ensures
            r == descriptor(opcode),
    {
        proof {
            use_type_invariant(self);
        }
        self.entries[opcode as usize]
    }
}

} // verus!
