use emu6502::bus::Bus;
use emu6502::cpu::addressing_modes::AddressMode;
use emu6502::cpu::instructions::{Instruction, InstructionName};
use emu6502::cpu::operations::Opcode;
use emu6502::cpu::{Flag, CPU};

const START: u16 = 0x0200;

/// A processor at `START` and a memory holding `program` there.
fn machine(program: &[u8]) -> (CPU, Bus) {
    let mut bus = Bus::new();
    for (i, b) in program.iter().enumerate() {
        bus.write(START + i as u16, *b);
    }
    let mut cpu = CPU::new();
    cpu.program_counter = START;
    cpu.stack_pointer = 0xFD;
    (cpu, bus)
}

/// Runs one whole instruction.
fn step(cpu: &mut CPU, bus: &mut Bus) {
    cpu.clock(bus);
    while !cpu.complete() {
        cpu.clock(bus);
    }
}

#[test]
fn addressing_modes_consume_their_operand_bytes() {
    let cases = [
        (AddressMode::IMP, 0u16),
        (AddressMode::IMM, 1),
        (AddressMode::ZP0, 1),
        (AddressMode::ZPX, 1),
        (AddressMode::ZPY, 1),
        (AddressMode::REL, 1),
        (AddressMode::IZX, 1),
        (AddressMode::IZY, 1),
        (AddressMode::ABS, 2),
        (AddressMode::ABX, 2),
        (AddressMode::ABY, 2),
        (AddressMode::IND, 2),
    ];
    for (mode, width) in cases {
        let (mut cpu, bus) = machine(&[0x10, 0x20]);
        cpu.call_addressing_mode(&bus, mode);
        assert_eq!(cpu.program_counter, START + width, "{:?}", mode);
    }
}

#[test]
fn adc_without_overflow() {
    let (mut cpu, mut bus) = machine(&[0x69, 0x10]);
    cpu.accumulator = 0x50;
    step(&mut cpu, &mut bus);
    assert_eq!(cpu.accumulator, 0x60);
    assert!(!cpu.get_flag(Flag::Carry));
    assert!(!cpu.get_flag(Flag::Overflow));
    assert!(!cpu.get_flag(Flag::Negative));
    assert!(!cpu.get_flag(Flag::Zero));
}

#[test]
fn adc_with_signed_overflow() {
    let (mut cpu, mut bus) = machine(&[0x69, 0x50]);
    cpu.accumulator = 0x50;
    step(&mut cpu, &mut bus);
    assert_eq!(cpu.accumulator, 0xA0);
    assert!(cpu.get_flag(Flag::Overflow));
    assert!(cpu.get_flag(Flag::Negative));
    assert!(!cpu.get_flag(Flag::Carry));
}

#[test]
fn adc_carry_out_and_zero() {
    let (mut cpu, mut bus) = machine(&[0x69, 0x01]);
    cpu.accumulator = 0xFF;
    cpu.set_flag(Flag::Carry, true);
    step(&mut cpu, &mut bus);
    assert_eq!(cpu.accumulator, 0x01);
    assert!(cpu.get_flag(Flag::Carry));
    assert!(!cpu.get_flag(Flag::Zero));
}

#[test]
fn sbc_subtracts_with_borrow() {
    let (mut cpu, mut bus) = machine(&[0xE9, 0x10, 0xE9, 0xB0]);
    cpu.accumulator = 0x50;
    cpu.set_flag(Flag::Carry, true);
    step(&mut cpu, &mut bus);
    assert_eq!(cpu.accumulator, 0x40);
    assert!(cpu.get_flag(Flag::Carry));
    step(&mut cpu, &mut bus);
    assert_eq!(cpu.accumulator, 0x90);
    assert!(!cpu.get_flag(Flag::Carry));
    assert!(cpu.get_flag(Flag::Overflow));
    assert!(cpu.get_flag(Flag::Negative));
}

#[test]
fn branch_not_taken_costs_nothing_extra() {
    let (mut cpu, mut bus) = machine(&[0xD0, 0x05]);
    cpu.set_flag(Flag::Zero, true);
    cpu.clock(&mut bus);
    assert_eq!(cpu.remaining_cycles(), 1);
    assert_eq!(cpu.program_counter, START + 2);
}

#[test]
fn branch_taken_within_page_costs_one_cycle() {
    let (mut cpu, mut bus) = machine(&[0xD0, 0x05]);
    cpu.clock(&mut bus);
    assert_eq!(cpu.remaining_cycles(), 2);
    assert_eq!(cpu.program_counter, START + 2 + 5);
}

#[test]
fn branch_taken_across_page_costs_two_cycles() {
    let mut bus = Bus::new();
    bus.write(0x02F0, 0xD0);
    bus.write(0x02F1, 0x20);
    let mut cpu = CPU::new();
    cpu.program_counter = 0x02F0;
    cpu.clock(&mut bus);
    assert_eq!(cpu.remaining_cycles(), 3);
    assert_eq!(cpu.program_counter, 0x0312);
}

#[test]
fn branch_backwards_sign_extends() {
    let (mut cpu, mut bus) = machine(&[0xF0, 0xFC]);
    cpu.set_flag(Flag::Zero, true);
    step(&mut cpu, &mut bus);
    assert_eq!(cpu.program_counter, START + 2 - 4);
}

#[test]
fn reset_loads_vector_and_start_state() {
    let mut bus = Bus::new();
    bus.write(0xFFFC, 0x34);
    bus.write(0xFFFD, 0x12);
    bus.write(0x0000, 0xEA);
    let mut cpu = CPU::new();
    cpu.clock(&mut bus);
    assert_eq!(cpu.opcode, 0xEA);
    cpu.accumulator = 9;
    cpu.register_x = 8;
    cpu.register_y = 7;
    cpu.reset(&bus);
    assert_eq!(cpu.opcode, 0);
    assert_eq!(cpu.program_counter, 0x1234);
    assert_eq!(cpu.stack_pointer, 0xFD);
    assert_eq!(cpu.status, 0x20);
    assert_eq!((cpu.accumulator, cpu.register_x, cpu.register_y), (0, 0, 0));
    assert_eq!(cpu.remaining_cycles(), 8);
}

#[test]
fn push_then_pull_accumulator() {
    // PHA; LDA #0; PLA
    let (mut cpu, mut bus) = machine(&[0x48, 0xA9, 0x00, 0x68]);
    cpu.accumulator = 0x80;
    step(&mut cpu, &mut bus);
    assert_eq!(cpu.stack_pointer, 0xFC);
    assert_eq!(bus.read(0x01FD, true), 0x80);
    step(&mut cpu, &mut bus);
    assert_eq!(cpu.accumulator, 0);
    assert!(cpu.get_flag(Flag::Zero));
    step(&mut cpu, &mut bus);
    assert_eq!(cpu.accumulator, 0x80);
    assert_eq!(cpu.stack_pointer, 0xFD);
    assert!(cpu.get_flag(Flag::Negative));
    assert!(!cpu.get_flag(Flag::Zero));
}

#[test]
fn indirect_jump_wraps_within_page() {
    let (mut cpu, mut bus) = machine(&[0x6C, 0xFF, 0x30]);
    bus.write(0x30FF, 0x80);
    bus.write(0x3000, 0x50);
    bus.write(0x3100, 0x12);
    step(&mut cpu, &mut bus);
    assert_eq!(cpu.program_counter, 0x5080);
}

#[test]
fn indirect_jump_within_page() {
    let (mut cpu, mut bus) = machine(&[0x6C, 0x10, 0x30]);
    bus.write(0x3010, 0x80);
    bus.write(0x3011, 0x50);
    step(&mut cpu, &mut bus);
    assert_eq!(cpu.program_counter, 0x5080);
}

#[test]
fn illegal_opcode_changes_nothing_but_time() {
    for (opcode, cycles) in [(0x02u8, 2u8), (0xFF, 7), (0x03, 8), (0xEB, 2)] {
        let (mut cpu, mut bus) = machine(&[opcode]);
        cpu.accumulator = 0x11;
        cpu.register_x = 0x22;
        cpu.register_y = 0x33;
        cpu.status = 0xA5;
        cpu.clock(&mut bus);
        assert_eq!(cpu.program_counter, START + 1);
        assert_eq!(cpu.remaining_cycles(), cycles - 1);
        assert_eq!((cpu.accumulator, cpu.register_x, cpu.register_y), (0x11, 0x22, 0x33));
        assert_eq!(cpu.status, 0xA5);
        assert_eq!(cpu.stack_pointer, 0xFD);
    }
}

#[test]
fn decrement_register_wraps_at_zero() {
    let (mut cpu, mut bus) = machine(&[0xCA, 0x88]);
    step(&mut cpu, &mut bus);
    assert_eq!(cpu.register_x, 255);
    assert!(cpu.get_flag(Flag::Negative));
    assert!(!cpu.get_flag(Flag::Zero));
    step(&mut cpu, &mut bus);
    assert_eq!(cpu.register_y, 255);
    assert!(cpu.get_flag(Flag::Negative));
}

#[test]
fn increment_register_wraps_at_255() {
    let (mut cpu, mut bus) = machine(&[0xE8, 0xC8]);
    cpu.register_x = 255;
    cpu.register_y = 255;
    step(&mut cpu, &mut bus);
    assert_eq!(cpu.register_x, 0);
    assert!(cpu.get_flag(Flag::Zero));
    assert!(!cpu.get_flag(Flag::Negative));
    step(&mut cpu, &mut bus);
    assert_eq!(cpu.register_y, 0);
    assert!(cpu.get_flag(Flag::Zero));
}

#[test]
fn memory_increment_and_decrement_wrap() {
    // DEC $10; INC $11
    let (mut cpu, mut bus) = machine(&[0xC6, 0x10, 0xE6, 0x11]);
    bus.write(0x11, 0xFF);
    step(&mut cpu, &mut bus);
    assert_eq!(bus.read(0x10, true), 0xFF);
    assert!(cpu.get_flag(Flag::Negative));
    step(&mut cpu, &mut bus);
    assert_eq!(bus.read(0x11, true), 0x00);
    assert!(cpu.get_flag(Flag::Zero));
}

#[test]
fn set_flag_changes_one_bit() {
    let mut cpu = CPU::new();
    cpu.status = 0b1010_1010;
    cpu.set_flag(Flag::Carry, true);
    assert_eq!(cpu.status, 0b1010_1011);
    cpu.set_flag(Flag::Negative, false);
    assert_eq!(cpu.status, 0b0010_1011);
    assert!(cpu.get_flag(Flag::Unused));
    assert!(!cpu.get_flag(Flag::Overflow));
}

#[test]
fn interrupt_request_masked() {
    let (mut cpu, mut bus) = machine(&[]);
    cpu.set_flag(Flag::DisableInterrupt, true);
    cpu.interrupt_request(&mut bus);
    assert_eq!(cpu.program_counter, START);
    assert_eq!(cpu.stack_pointer, 0xFD);
    assert_eq!(cpu.remaining_cycles(), 0);
}

#[test]
fn interrupt_request_taken() {
    let (mut cpu, mut bus) = machine(&[]);
    bus.write(0xFFFE, 0x00);
    bus.write(0xFFFF, 0x80);
    cpu.status = 0x01;
    cpu.interrupt_request(&mut bus);
    assert_eq!(cpu.program_counter, 0x8000);
    assert_eq!(bus.read(0x01FD, true), 0x02);
    assert_eq!(bus.read(0x01FC, true), 0x00);
    assert_eq!(bus.read(0x01FB, true), 0x25);
    assert_eq!(cpu.stack_pointer, 0xFA);
    assert_eq!(cpu.status, 0x25);
    assert_eq!(cpu.remaining_cycles(), 7);
}

#[test]
fn non_maskable_interrupt_ignores_mask() {
    let (mut cpu, mut bus) = machine(&[]);
    bus.write(0xFFFA, 0x00);
    bus.write(0xFFFB, 0x90);
    cpu.set_flag(Flag::DisableInterrupt, true);
    cpu.non_maskable_interrupt(&mut bus);
    assert_eq!(cpu.program_counter, 0x9000);
    assert_eq!(cpu.stack_pointer, 0xFA);
    assert_eq!(cpu.remaining_cycles(), 8);
}

#[test]
fn brk_pushes_state_and_jumps() {
    let (mut cpu, mut bus) = machine(&[0x00, 0xEA]);
    bus.write(0xFFFE, 0x00);
    bus.write(0xFFFF, 0x90);
    cpu.clock(&mut bus);
    assert_eq!(cpu.program_counter, 0x9000);
    assert_eq!(bus.read(0x01FD, true), 0x02);
    assert_eq!(bus.read(0x01FC, true), 0x03);
    assert_eq!(bus.read(0x01FB, true), 0x34);
    assert_eq!(cpu.status, 0x04);
    assert_eq!(cpu.stack_pointer, 0xFA);
    assert_eq!(cpu.remaining_cycles(), 6);
}

#[test]
fn subroutine_call_and_return() {
    let (mut cpu, mut bus) = machine(&[0x20, 0x00, 0x03]);
    bus.write(0x0300, 0x60);
    step(&mut cpu, &mut bus);
    assert_eq!(cpu.program_counter, 0x0300);
    assert_eq!(bus.read(0x01FD, true), 0x02);
    assert_eq!(bus.read(0x01FC, true), 0x02);
    assert_eq!(cpu.stack_pointer, 0xFB);
    step(&mut cpu, &mut bus);
    assert_eq!(cpu.program_counter, START + 3);
    assert_eq!(cpu.stack_pointer, 0xFD);
}

#[test]
fn return_from_interrupt_restores_state() {
    let (mut cpu, mut bus) = machine(&[0x40]);
    cpu.stack_pointer = 0xFA;
    bus.write(0x01FB, 0xFF);
    bus.write(0x01FC, 0x34);
    bus.write(0x01FD, 0x12);
    step(&mut cpu, &mut bus);
    assert_eq!(cpu.status, 0xCF);
    assert_eq!(cpu.program_counter, 0x1234);
    assert_eq!(cpu.stack_pointer, 0xFD);
}

#[test]
fn push_and_pull_status() {
    let (mut cpu, mut bus) = machine(&[0x08, 0x28]);
    cpu.status = 0x01;
    step(&mut cpu, &mut bus);
    assert_eq!(bus.read(0x01FD, true), 0x31);
    assert_eq!(cpu.status, 0x01);
    step(&mut cpu, &mut bus);
    assert_eq!(cpu.status, 0x31);
}

#[test]
fn shifts_and_rotates_on_accumulator() {
    // ROL A; ROR A; LSR A; ASL A
    let (mut cpu, mut bus) = machine(&[0x2A, 0x6A, 0x4A, 0x0A]);
    cpu.accumulator = 0x80;
    step(&mut cpu, &mut bus);
    assert_eq!(cpu.accumulator, 0x00);
    assert!(cpu.get_flag(Flag::Carry));
    assert!(cpu.get_flag(Flag::Zero));
    step(&mut cpu, &mut bus);
    assert_eq!(cpu.accumulator, 0x80);
    assert!(!cpu.get_flag(Flag::Carry));
    assert!(cpu.get_flag(Flag::Negative));
    cpu.accumulator = 0x03;
    step(&mut cpu, &mut bus);
    assert_eq!(cpu.accumulator, 0x01);
    assert!(cpu.get_flag(Flag::Carry));
    cpu.accumulator = 0xC0;
    step(&mut cpu, &mut bus);
    assert_eq!(cpu.accumulator, 0x80);
    assert!(cpu.get_flag(Flag::Carry));
    assert!(cpu.get_flag(Flag::Negative));
}

#[test]
fn shift_on_memory_writes_back() {
    let (mut cpu, mut bus) = machine(&[0x06, 0x10]);
    bus.write(0x10, 0x81);
    cpu.accumulator = 0x55;
    step(&mut cpu, &mut bus);
    assert_eq!(bus.read(0x10, true), 0x02);
    assert_eq!(cpu.accumulator, 0x55);
    assert!(cpu.get_flag(Flag::Carry));
}

#[test]
fn compare_sets_carry_zero_negative() {
    let (mut cpu, mut bus) = machine(&[0xC9, 0x40, 0xC9, 0x50]);
    cpu.accumulator = 0x40;
    step(&mut cpu, &mut bus);
    assert!(cpu.get_flag(Flag::Zero));
    assert!(cpu.get_flag(Flag::Carry));
    assert!(!cpu.get_flag(Flag::Negative));
    step(&mut cpu, &mut bus);
    assert!(!cpu.get_flag(Flag::Zero));
    assert!(!cpu.get_flag(Flag::Carry));
    assert!(cpu.get_flag(Flag::Negative));
    assert_eq!(cpu.accumulator, 0x40);
}

#[test]
fn logical_operations() {
    // AND #$0F; ORA #$80; EOR #$FF
    let (mut cpu, mut bus) = machine(&[0x29, 0x0F, 0x09, 0x80, 0x49, 0xFF]);
    cpu.accumulator = 0x3C;
    step(&mut cpu, &mut bus);
    assert_eq!(cpu.accumulator, 0x0C);
    step(&mut cpu, &mut bus);
    assert_eq!(cpu.accumulator, 0x8C);
    assert!(cpu.get_flag(Flag::Negative));
    step(&mut cpu, &mut bus);
    assert_eq!(cpu.accumulator, 0x73);
    assert!(!cpu.get_flag(Flag::Negative));
}

#[test]
fn bit_test_flags() {
    let (mut cpu, mut bus) = machine(&[0x24, 0x10]);
    bus.write(0x10, 0xC0);
    cpu.accumulator = 0x0F;
    step(&mut cpu, &mut bus);
    assert!(cpu.get_flag(Flag::Zero));
    assert!(cpu.get_flag(Flag::Negative));
    assert!(cpu.get_flag(Flag::Overflow));
    assert_eq!(cpu.accumulator, 0x0F);
}

#[test]
fn zero_page_index_wraps_within_page() {
    let (mut cpu, mut bus) = machine(&[0xB5, 0xF0]);
    bus.write(0x0010, 0x77);
    bus.write(0x0110, 0x99);
    cpu.register_x = 0x20;
    step(&mut cpu, &mut bus);
    assert_eq!(cpu.accumulator, 0x77);
}

#[test]
fn absolute_indexed_page_cross_costs_a_cycle() {
    let (mut cpu, mut bus) = machine(&[0xBD, 0xF0, 0x02]);
    bus.write(0x0310, 0x42);
    cpu.register_x = 0x20;
    cpu.clock(&mut bus);
    assert_eq!(cpu.accumulator, 0x42);
    assert_eq!(cpu.remaining_cycles(), 4);

    let (mut cpu, mut bus) = machine(&[0xBD, 0xF0, 0x02]);
    bus.write(0x02F1, 0x43);
    cpu.register_x = 0x01;
    cpu.clock(&mut bus);
    assert_eq!(cpu.accumulator, 0x43);
    assert_eq!(cpu.remaining_cycles(), 3);
}

#[test]
fn store_never_takes_the_extra_cycle() {
    let (mut cpu, mut bus) = machine(&[0x9D, 0xF0, 0x02]);
    cpu.register_x = 0x20;
    cpu.accumulator = 0x66;
    cpu.clock(&mut bus);
    assert_eq!(bus.read(0x0310, true), 0x66);
    assert_eq!(cpu.remaining_cycles(), 4);
}

#[test]
fn indexed_indirect_load() {
    let (mut cpu, mut bus) = machine(&[0xA1, 0x20]);
    cpu.register_x = 0x04;
    bus.write(0x24, 0x00);
    bus.write(0x25, 0x04);
    bus.write(0x0400, 0x5A);
    step(&mut cpu, &mut bus);
    assert_eq!(cpu.accumulator, 0x5A);
}

#[test]
fn indirect_indexed_load_and_page_cross() {
    let (mut cpu, mut bus) = machine(&[0xB1, 0x86]);
    bus.write(0x86, 0x28);
    bus.write(0x87, 0x40);
    bus.write(0x4038, 0x99);
    cpu.register_y = 0x10;
    cpu.clock(&mut bus);
    assert_eq!(cpu.accumulator, 0x99);
    assert_eq!(cpu.remaining_cycles(), 4);

    let (mut cpu, mut bus) = machine(&[0xB1, 0x86]);
    bus.write(0x86, 0x28);
    bus.write(0x87, 0x40);
    bus.write(0x4118, 0x98);
    cpu.register_y = 0xF0;
    cpu.clock(&mut bus);
    assert_eq!(cpu.accumulator, 0x98);
    assert_eq!(cpu.remaining_cycles(), 5);
}

#[test]
fn transfers_set_flags_except_into_stack_pointer() {
    // TAX; TXS; TSX
    let (mut cpu, mut bus) = machine(&[0xAA, 0x9A, 0xBA]);
    cpu.accumulator = 0x00;
    step(&mut cpu, &mut bus);
    assert_eq!(cpu.register_x, 0);
    assert!(cpu.get_flag(Flag::Zero));
    cpu.set_flag(Flag::Zero, false);
    step(&mut cpu, &mut bus);
    assert_eq!(cpu.stack_pointer, 0);
    assert!(!cpu.get_flag(Flag::Zero));
    step(&mut cpu, &mut bus);
    assert!(cpu.get_flag(Flag::Zero));
}

#[test]
fn undocumented_nop_takes_base_cycles() {
    let (mut cpu, mut bus) = machine(&[0x1C, 0x10, 0x02]);
    cpu.accumulator = 0x12;
    cpu.clock(&mut bus);
    assert_eq!(cpu.remaining_cycles(), 3);
    assert_eq!(cpu.program_counter, START + 3);
    assert_eq!(cpu.accumulator, 0x12);
}

#[test]
fn undocumented_nop_takes_extra_cycle_across_page() {
    let (mut cpu, mut bus) = machine(&[0xFC, 0x10, 0x02]);
    cpu.register_x = 0xF0;
    cpu.clock(&mut bus);
    assert_eq!(cpu.remaining_cycles(), 4);
    assert_eq!(cpu.program_counter, START + 3);
}

#[test]
fn clock_counts_down_to_boundary() {
    let (mut cpu, mut bus) = machine(&[0xEA, 0xEA]);
    assert!(cpu.complete());
    cpu.clock(&mut bus);
    assert!(!cpu.complete());
    cpu.clock(&mut bus);
    assert!(cpu.complete());
    assert_eq!(cpu.program_counter, START + 1);
    cpu.clock(&mut bus);
    assert_eq!(cpu.program_counter, START + 2);
}

#[test]
fn opcode_table_covers_every_byte() {
    let table = Instruction::get_all();
    assert_eq!(table.len(), 256);
    assert_eq!(
        table[0xA9],
        Instruction {
            name: InstructionName::Known(Opcode::LDA),
            operation: Opcode::LDA,
            address_mode: AddressMode::IMM,
            number_cycles: 2,
        }
    );
    assert_eq!(table[0x02].name, InstructionName::Unknown);
    assert_eq!(table[0x02].operation, Opcode::XXX);
    assert_eq!(table[0x6C].address_mode, AddressMode::IND);
    assert_eq!(table[0xEB].operation, Opcode::XXX);
    assert_eq!(table[0xDA].name, InstructionName::Unknown);
    assert_eq!(table[0xEA].name, InstructionName::Known(Opcode::NOP));
    assert_eq!(table[0x1C].address_mode, AddressMode::ABX);
    for (i, ins) in table.iter().enumerate() {
        assert_eq!(*ins, Instruction::decode(i as u8));
    }
}

#[test]
fn bus_starts_zeroed_and_keeps_writes() {
    let mut bus = Bus::new();
    assert_eq!(bus.read(0xFFFF, false), 0);
    bus.write(0xFFFF, 0xAB);
    bus.write(0x0000, 0xCD);
    assert_eq!(bus.read(0xFFFF, false), 0xAB);
    assert_eq!(bus.read(0x0000, true), 0xCD);
    assert_eq!(bus.read(0x0001, true), 0x00);
}

#[test]
fn default_processor_is_zeroed() {
    let cpu = CPU::default();
    assert_eq!(cpu.program_counter, 0);
    assert_eq!(cpu.status, 0);
    assert!(cpu.complete());
}
