use gbemu::bus::Bus;
use gbemu::cpu::{Fault, Registers, CPU};
use gbemu::instructions::{Instruction, Operation};
use gbemu::registers::RegisterPart;

/// A bus whose cartridge holds `program` at 0x100.
fn machine(program: &[u8]) -> (CPU, Bus) {
    let mut rom = vec![0u8; 0x8000];
    rom[0x100..0x100 + program.len()].copy_from_slice(program);
    (CPU::new_cpu(), Bus::new_bus(rom))
}

/// Runs one instruction and spends its cycles.
fn step(cpu: &mut CPU, bus: &mut Bus) -> Result<(), Fault> {
    cpu.tick(bus)?;
    while cpu.clock_cycles_to_go > 0 {
        cpu.tick(bus)?;
    }
    Ok(())
}

fn flags(cpu: &CPU) -> (bool, bool, bool, bool) {
    (cpu.get_flag('z'), cpu.get_flag('n'), cpu.get_flag('h'), cpu.get_flag('c'))
}

#[test]
fn increment_wraps_ff_to_zero() {
    // LD B,0xFF ; INC B
    let (mut cpu, mut bus) = machine(&[0x06, 0xFF, 0x04]);
    step(&mut cpu, &mut bus).unwrap();
    step(&mut cpu, &mut bus).unwrap();
    assert_eq!(cpu.bc.high, 0x00);
    let (z, n, h, _) = flags(&cpu);
    assert!(z);
    assert!(h);
    assert!(!n);
    assert_eq!(cpu.pc, 0x103);
}

#[test]
fn decrement_one_to_zero() {
    // LD B,0x01 ; DEC B
    let (mut cpu, mut bus) = machine(&[0x06, 0x01, 0x05]);
    step(&mut cpu, &mut bus).unwrap();
    step(&mut cpu, &mut bus).unwrap();
    assert_eq!(cpu.bc.high, 0x00);
    let (z, n, h, _) = flags(&cpu);
    assert!(z);
    assert!(n);
    assert!(!h);
}

#[test]
fn decrement_zero_wraps_with_half_carry() {
    // LD C,0x00 ; DEC C
    let (mut cpu, mut bus) = machine(&[0x0E, 0x00, 0x0D]);
    step(&mut cpu, &mut bus).unwrap();
    step(&mut cpu, &mut bus).unwrap();
    assert_eq!(cpu.bc.low, 0xFF);
    let (z, n, h, _) = flags(&cpu);
    assert!(!z);
    assert!(n);
    assert!(h);
}

#[test]
fn rotate_left_circular_moves_bit_seven() {
    // LD B,0x81 ; RLC B
    let (mut cpu, mut bus) = machine(&[0x06, 0b1000_0001, 0xCB, 0x00]);
    step(&mut cpu, &mut bus).unwrap();
    step(&mut cpu, &mut bus).unwrap();
    assert_eq!(cpu.bc.high, 0b0000_0011);
    let (z, n, h, c) = flags(&cpu);
    assert!(c);
    assert!(!z && !n && !h);
    assert_eq!(cpu.pc, 0x104);
}

#[test]
fn bit_test_of_bit_three() {
    // LD B,0x08 ; BIT 3,B ; LD B,0xF7 ; BIT 3,B
    let (mut cpu, mut bus) = machine(&[0x06, 0b0000_1000, 0xCB, 0x58, 0x06, 0b1111_0111, 0xCB, 0x58]);
    step(&mut cpu, &mut bus).unwrap();
    step(&mut cpu, &mut bus).unwrap();
    let (z, n, h, _) = flags(&cpu);
    assert!(!z);
    assert!(h);
    assert!(!n);
    assert_eq!(cpu.bc.high, 0b0000_1000);
    step(&mut cpu, &mut bus).unwrap();
    step(&mut cpu, &mut bus).unwrap();
    let (z, _, h, _) = flags(&cpu);
    assert!(z);
    assert!(h);
}

#[test]
fn complement_accumulator() {
    // LD A,0x35 ; CPL
    let (mut cpu, mut bus) = machine(&[0x3E, 0x35, 0x2F]);
    step(&mut cpu, &mut bus).unwrap();
    step(&mut cpu, &mut bus).unwrap();
    assert_eq!(cpu.af.a, 0xCA);
    let (_, n, h, _) = flags(&cpu);
    assert!(n && h);
}

#[test]
fn shifts_and_swap() {
    // LD B,0x81 ; SRA B ; LD C,0x81 ; SRL C ; LD D,0xF1 ; SWAP D ; LD E,0x81 ; SLA E
    let (mut cpu, mut bus) = machine(&[
        0x06, 0x81, 0xCB, 0x28, 0x0E, 0x81, 0xCB, 0x39, 0x16, 0xF1, 0xCB, 0x32, 0x1E, 0x81, 0xCB,
        0x23,
    ]);
    step(&mut cpu, &mut bus).unwrap();
    step(&mut cpu, &mut bus).unwrap();
    assert_eq!(cpu.bc.high, 0xC0);
    assert!(cpu.get_flag('c'));
    step(&mut cpu, &mut bus).unwrap();
    step(&mut cpu, &mut bus).unwrap();
    assert_eq!(cpu.bc.low, 0x40);
    assert!(cpu.get_flag('c'));
    step(&mut cpu, &mut bus).unwrap();
    step(&mut cpu, &mut bus).unwrap();
    assert_eq!(cpu.de.high, 0x1F);
    assert!(!cpu.get_flag('c'));
    step(&mut cpu, &mut bus).unwrap();
    step(&mut cpu, &mut bus).unwrap();
    assert_eq!(cpu.de.low, 0x02);
    assert!(cpu.get_flag('c'));
}

#[test]
fn reset_and_set_bits_touch_no_flags() {
    // LD B,0xFF ; RES 0,B ; SET 7,C
    let (mut cpu, mut bus) = machine(&[0x06, 0xFF, 0xCB, 0x80, 0xCB, 0xF9]);
    step(&mut cpu, &mut bus).unwrap();
    let before = flags(&cpu);
    step(&mut cpu, &mut bus).unwrap();
    step(&mut cpu, &mut bus).unwrap();
    assert_eq!(cpu.bc.high, 0xFE);
    assert_eq!(cpu.bc.low, 0x80);
    assert_eq!(flags(&cpu), before);
}

#[test]
fn arithmetic_on_accumulator() {
    // LD A,0x3A ; ADD A,0xC6 ; LD A,0x3E ; SUB A,0x3E ; LD A,0x0F ; XOR A,0xFF ; CP 0xF0
    let (mut cpu, mut bus) =
        machine(&[0x3E, 0x3A, 0xC6, 0xC6, 0x3E, 0x3E, 0xD6, 0x3E, 0x3E, 0x0F, 0xEE, 0xFF, 0xFE, 0xF0]);
    step(&mut cpu, &mut bus).unwrap();
    step(&mut cpu, &mut bus).unwrap();
    assert_eq!(cpu.af.a, 0x00);
    assert_eq!(flags(&cpu), (true, false, true, true));
    step(&mut cpu, &mut bus).unwrap();
    step(&mut cpu, &mut bus).unwrap();
    assert_eq!(cpu.af.a, 0x00);
    assert_eq!(flags(&cpu), (true, true, false, false));
    step(&mut cpu, &mut bus).unwrap();
    step(&mut cpu, &mut bus).unwrap();
    assert_eq!(cpu.af.a, 0xF0);
    step(&mut cpu, &mut bus).unwrap();
    assert_eq!(cpu.af.a, 0xF0);
    assert!(cpu.get_flag('z'));
    assert!(cpu.get_flag('n'));
}

#[test]
fn absolute_jump_taken_and_not_taken() {
    // 0x100: JP 0x0150 ; at 0x150: XOR A ; JP NZ,0x0200 ; NOP
    let mut program = vec![0xC3, 0x50, 0x01];
    program.resize(0x50, 0);
    program.extend_from_slice(&[0xAF, 0xC2, 0x00, 0x02, 0x00]);
    let (mut cpu, mut bus) = machine(&program);
    step(&mut cpu, &mut bus).unwrap();
    assert_eq!(cpu.pc, 0x150);
    step(&mut cpu, &mut bus).unwrap();
    assert!(cpu.get_flag('z'));
    step(&mut cpu, &mut bus).unwrap();
    assert_eq!(cpu.pc, 0x154);
}

#[test]
fn relative_jump_backwards() {
    // NOP ; JR -3
    let (mut cpu, mut bus) = machine(&[0x00, 0x18, 0xFD]);
    step(&mut cpu, &mut bus).unwrap();
    step(&mut cpu, &mut bus).unwrap();
    assert_eq!(cpu.pc, 0x100);
}

#[test]
fn call_and_return() {
    // LD SP,0xFFFE ; CALL 0x0110 ; ... at 0x110: RET
    let mut program = vec![0x31, 0xFE, 0xFF, 0xCD, 0x10, 0x01];
    program.resize(0x10, 0);
    program.push(0xC9);
    let (mut cpu, mut bus) = machine(&program);
    step(&mut cpu, &mut bus).unwrap();
    step(&mut cpu, &mut bus).unwrap();
    assert_eq!(cpu.pc, 0x110);
    assert_eq!(cpu.sp, 0xFFFC);
    assert_eq!(bus.fetch_word(0xFFFC), 0x0106);
    step(&mut cpu, &mut bus).unwrap();
    assert_eq!(cpu.pc, 0x106);
    assert_eq!(cpu.sp, 0xFFFE);
}

#[test]
fn push_and_pop_through_flags_register() {
    // LD SP,0xD000 ; LD BC,0x12FF ; PUSH BC ; POP AF
    let (mut cpu, mut bus) = machine(&[0x31, 0x00, 0xD0, 0x01, 0xFF, 0x12, 0xC5, 0xF1]);
    for _ in 0..4 {
        step(&mut cpu, &mut bus).unwrap();
    }
    assert_eq!(cpu.af.a, 0x12);
    assert_eq!(cpu.get_register_word(Registers::AF), 0x12F0);
    assert_eq!(cpu.sp, 0xD000);
}

#[test]
fn load_through_io_port() {
    // LD A,0x5A ; LDH (0x80),A ; LD A,0 ; LDH A,(0x80)
    let (mut cpu, mut bus) = machine(&[0x3E, 0x5A, 0xE0, 0x80, 0x3E, 0x00, 0xF0, 0x80]);
    step(&mut cpu, &mut bus).unwrap();
    step(&mut cpu, &mut bus).unwrap();
    assert_eq!(bus.fetch_byte(0xFF80), 0x5A);
    step(&mut cpu, &mut bus).unwrap();
    step(&mut cpu, &mut bus).unwrap();
    assert_eq!(cpu.af.a, 0x5A);
    assert_eq!(cpu.pc, 0x108);
}

#[test]
fn vblank_interrupt_has_priority_over_timer() {
    // EI ; NOP ; NOP
    let (mut cpu, mut bus) = machine(&[0xFB, 0x00, 0x00]);
    cpu.sp = 0xFFFE;
    bus.set_byte(0xFFFF, 0b0000_0101);
    bus.set_byte(0xFF0F, 0b0000_0101);
    step(&mut cpu, &mut bus).unwrap();
    assert_eq!(cpu.pc, 0x40);
    assert!(!cpu.ime);
    assert_eq!(bus.fetch_byte(0xFF0F), 0b0000_0100);
    assert_eq!(bus.fetch_word(0xFFFC), 0x101);
}

#[test]
fn timer_interrupt_served_next() {
    let (mut cpu, mut bus) = machine(&[0xFB]);
    cpu.sp = 0xFFFE;
    bus.set_byte(0xFFFF, 0b0000_0100);
    bus.set_byte(0xFF0F, 0b0000_0100);
    step(&mut cpu, &mut bus).unwrap();
    assert_eq!(cpu.pc, 0x50);
    assert_eq!(bus.fetch_byte(0xFF0F), 0);
}

#[test]
fn interrupt_ignored_without_master_enable() {
    let (mut cpu, mut bus) = machine(&[0x00]);
    bus.set_byte(0xFFFF, 0x01);
    bus.set_byte(0xFF0F, 0x01);
    step(&mut cpu, &mut bus).unwrap();
    assert_eq!(cpu.pc, 0x101);
    assert_eq!(bus.fetch_byte(0xFF0F), 0x01);
}

#[test]
fn unimplemented_opcode_faults() {
    let (mut cpu, mut bus) = machine(&[0xD3]);
    assert_eq!(cpu.tick(&mut bus), Err(Fault::UnimplementedOpcode(0xD3)));
}

#[test]
fn write_to_rom_faults() {
    // LD HL,0x2000 ; LD (HL),A
    let (mut cpu, mut bus) = machine(&[0x21, 0x00, 0x20, 0x77]);
    step(&mut cpu, &mut bus).unwrap();
    assert_eq!(step(&mut cpu, &mut bus), Err(Fault::ReadOnlyWrite(0x2000)));
}

#[test]
fn unusable_window_access_faults() {
    // LD HL,0xFEA0 ; LD A,(HL)
    let (mut cpu, mut bus) = machine(&[0x21, 0xA0, 0xFE, 0x7E]);
    step(&mut cpu, &mut bus).unwrap();
    assert_eq!(step(&mut cpu, &mut bus), Err(Fault::UnusableAccess(0xFEA0)));
}

#[test]
fn cycles_are_spent_as_idle_ticks() {
    // LD BC,0x1234 costs 12 cycles
    let (mut cpu, mut bus) = machine(&[0x01, 0x34, 0x12, 0x00]);
    cpu.tick(&mut bus).unwrap();
    assert_eq!(cpu.clock_cycles_to_go, 12);
    assert_eq!(cpu.get_register_word(Registers::BC), 0x1234);
    for _ in 0..12 {
        cpu.tick(&mut bus).unwrap();
    }
    assert_eq!(cpu.pc, 0x103);
    cpu.tick(&mut bus).unwrap();
    assert_eq!(cpu.pc, 0x104);
}

#[test]
fn decode_twice_yields_same_instruction() {
    let (cpu, bus) = machine(&[0xCB, 0x7E]);
    let a = Instruction::fetch_new(&bus, &cpu).unwrap();
    let b = Instruction::fetch_new(&bus, &cpu).unwrap();
    assert!(a == b);
    assert!(a.op == Operation::Bit(7));
    assert_eq!(a.op_byte_len, 2);
    assert_eq!(a.clock_cycles, 12);
}

#[test]
fn half_registers_and_words() {
    let mut cpu = CPU::new_cpu();
    cpu.set_register(Registers::HL, 0xBEEF);
    assert_eq!(cpu.get_register_byte(Registers::HL, RegisterPart::High), 0xBE);
    assert_eq!(cpu.get_register_byte(Registers::HL, RegisterPart::Low), 0xEF);
    cpu.set_half_register(Registers::AF, RegisterPart::Low, 0xFF);
    assert_eq!(cpu.get_register_word(Registers::AF), 0x00F0);
    assert_eq!(Registers::SP.as_str(), "SP");
}

#[test]
fn stack_push_then_pop() {
    let mut cpu = CPU::new_cpu();
    let mut bus = Bus::new_bus(vec![]);
    cpu.sp = 0xD000;
    cpu.push_word_to_stack(&mut bus, 0xABCD).unwrap();
    assert_eq!(cpu.sp, 0xCFFE);
    assert_eq!(cpu.pop_word_from_stack(&bus), Ok(0xABCD));
    assert_eq!(cpu.sp, 0xD000);
    cpu.sp = 0x0002;
    assert_eq!(cpu.push_word_to_stack(&mut bus, 1), Err(Fault::ReadOnlyWrite(0x0000)));
}

#[test]
fn conditional_call_and_return() {
    // LD SP,0xFFFE ; XOR A ; CALL NZ,0x0120 ; CALL Z,0x0120 ; ... at 0x120: RET NZ ; RET Z
    let mut program = vec![0x31, 0xFE, 0xFF, 0xAF, 0xC4, 0x20, 0x01, 0xCC, 0x20, 0x01];
    program.resize(0x20, 0);
    program.extend_from_slice(&[0xC0, 0xC8]);
    let (mut cpu, mut bus) = machine(&program);
    step(&mut cpu, &mut bus).unwrap();
    step(&mut cpu, &mut bus).unwrap();
    step(&mut cpu, &mut bus).unwrap();
    assert_eq!(cpu.pc, 0x107);
    assert_eq!(cpu.sp, 0xFFFE);
    step(&mut cpu, &mut bus).unwrap();
    assert_eq!(cpu.pc, 0x120);
    step(&mut cpu, &mut bus).unwrap();
    assert_eq!(cpu.pc, 0x121);
    step(&mut cpu, &mut bus).unwrap();
    assert_eq!(cpu.pc, 0x10A);
    assert_eq!(cpu.sp, 0xFFFE);
}

#[test]
fn restart_pushes_and_jumps() {
    // LD SP,0xFFFE ; RST 0x28
    let (mut cpu, mut bus) = machine(&[0x31, 0xFE, 0xFF, 0xEF]);
    step(&mut cpu, &mut bus).unwrap();
    step(&mut cpu, &mut bus).unwrap();
    assert_eq!(cpu.pc, 0x28);
    assert_eq!(bus.fetch_word(0xFFFC), 0x104);
}

#[test]
fn jump_to_hl_and_load_sp_from_hl() {
    // LD HL,0xC123 ; LD SP,HL ; LD HL,0x0200 ; JP (HL)
    let (mut cpu, mut bus) = machine(&[0x21, 0x23, 0xC1, 0xF9, 0x21, 0x00, 0x02, 0xE9]);
    for _ in 0..4 {
        step(&mut cpu, &mut bus).unwrap();
    }
    assert_eq!(cpu.sp, 0xC123);
    assert_eq!(cpu.pc, 0x200);
}

#[test]
fn load_through_port_c() {
    // LD C,0x85 ; LD A,0x77 ; LD (C),A ; LD A,0 ; LD A,(C)
    let (mut cpu, mut bus) = machine(&[0x0E, 0x85, 0x3E, 0x77, 0xE2, 0x3E, 0x00, 0xF2]);
    for _ in 0..5 {
        step(&mut cpu, &mut bus).unwrap();
    }
    assert_eq!(bus.fetch_byte(0xFF85), 0x77);
    assert_eq!(cpu.af.a, 0x77);
}

#[test]
fn sixteen_bit_add_into_hl() {
    // LD HL,0x8FFF ; LD BC,0x8001 ; ADD HL,BC
    let (mut cpu, mut bus) = machine(&[0x21, 0xFF, 0x8F, 0x01, 0x01, 0x80, 0x09]);
    for _ in 0..3 {
        step(&mut cpu, &mut bus).unwrap();
    }
    assert_eq!(cpu.get_register_word(Registers::HL), 0x1000);
    let (z, n, h, c) = flags(&cpu);
    assert!(!z && !n && h && c);
}

#[test]
fn accumulator_rotates_clear_zero_and_carry_flag_ops() {
    // XOR A ; RLCA ; SCF ; CCF ; LD A,0x01 ; RRA
    let (mut cpu, mut bus) = machine(&[0xAF, 0x07, 0x37, 0x3F, 0x3E, 0x01, 0x1F]);
    step(&mut cpu, &mut bus).unwrap();
    step(&mut cpu, &mut bus).unwrap();
    assert_eq!(cpu.af.a, 0);
    assert!(!cpu.get_flag('z'));
    step(&mut cpu, &mut bus).unwrap();
    assert!(cpu.get_flag('c'));
    step(&mut cpu, &mut bus).unwrap();
    assert!(!cpu.get_flag('c'));
    step(&mut cpu, &mut bus).unwrap();
    step(&mut cpu, &mut bus).unwrap();
    assert_eq!(cpu.af.a, 0);
    assert!(cpu.get_flag('c'));
    assert!(!cpu.get_flag('z'));
}

#[test]
fn load_with_hl_increment_and_decrement() {
    // LD HL,0xC000 ; LD A,0x11 ; LD (HL+),A ; LD (HL+),A ; LD (HL-),A ; LD A,(HL-)
    let (mut cpu, mut bus) = machine(&[0x21, 0x00, 0xC0, 0x3E, 0x11, 0x22, 0x22, 0x32, 0x3A]);
    for _ in 0..4 {
        step(&mut cpu, &mut bus).unwrap();
    }
    assert_eq!(cpu.get_register_word(Registers::HL), 0xC002);
    assert_eq!(bus.fetch_byte(0xC000), 0x11);
    assert_eq!(bus.fetch_byte(0xC001), 0x11);
    step(&mut cpu, &mut bus).unwrap();
    assert_eq!(bus.fetch_byte(0xC002), 0x11);
    assert_eq!(cpu.get_register_word(Registers::HL), 0xC001);
    step(&mut cpu, &mut bus).unwrap();
    assert_eq!(cpu.af.a, 0x11);
    assert_eq!(cpu.get_register_word(Registers::HL), 0xC000);
}

#[test]
fn halt_waits_for_an_interrupt() {
    // LD SP,0xFFFE ; EI ; HALT ; NOP
    let (mut cpu, mut bus) = machine(&[0x31, 0xFE, 0xFF, 0xFB, 0x76, 0x00]);
    bus.set_byte(0xFFFF, 0x04);
    for _ in 0..3 {
        step(&mut cpu, &mut bus).unwrap();
    }
    assert!(cpu.halted);
    for _ in 0..10 {
        cpu.tick(&mut bus).unwrap();
    }
    assert!(cpu.halted);
    assert_eq!(cpu.pc, 0x105);
    bus.set_byte(0xFF0F, 0x04);
    cpu.tick(&mut bus).unwrap();
    assert!(!cpu.halted);
    assert_eq!(cpu.pc, 0x50);
    assert_eq!(bus.fetch_word(0xFFFC), 0x105);
}

#[test]
fn decimal_adjust_after_bcd_arithmetic() {
    // LD A,0x45 ; ADD A,0x38 ; DAA ; LD A,0x99 ; ADD A,0x01 ; DAA ; LD A,0x10 ; SUB A,0x01 ; DAA
    let (mut cpu, mut bus) = machine(&[
        0x3E, 0x45, 0xC6, 0x38, 0x27, 0x3E, 0x99, 0xC6, 0x01, 0x27, 0x3E, 0x10, 0xD6, 0x01, 0x27,
    ]);
    for _ in 0..3 {
        step(&mut cpu, &mut bus).unwrap();
    }
    assert_eq!(cpu.af.a, 0x83);
    assert!(!cpu.get_flag('c'));
    for _ in 0..3 {
        step(&mut cpu, &mut bus).unwrap();
    }
    assert_eq!(cpu.af.a, 0x00);
    assert!(cpu.get_flag('z') && cpu.get_flag('c'));
    for _ in 0..3 {
        step(&mut cpu, &mut bus).unwrap();
    }
    assert_eq!(cpu.af.a, 0x09);
    assert!(cpu.get_flag('n'));
}

#[test]
fn stack_pointer_offsets_and_store() {
    // LD SP,0xFFF8 ; ADD SP,8 ; LD SP,0xD000 ; LD HL,SP-2 ; LD SP,0xBEEF ; LD (0xC000),SP
    let (mut cpu, mut bus) = machine(&[
        0x31, 0xF8, 0xFF, 0xE8, 0x08, 0x31, 0x00, 0xD0, 0xF8, 0xFE, 0x31, 0xEF, 0xBE, 0x08, 0x00,
        0xC0,
    ]);
    step(&mut cpu, &mut bus).unwrap();
    step(&mut cpu, &mut bus).unwrap();
    assert_eq!(cpu.sp, 0x0000);
    assert_eq!(flags(&cpu), (false, false, true, true));
    step(&mut cpu, &mut bus).unwrap();
    step(&mut cpu, &mut bus).unwrap();
    assert_eq!(cpu.get_register_word(Registers::HL), 0xCFFE);
    assert_eq!(cpu.sp, 0xD000);
    assert_eq!(flags(&cpu), (false, false, false, false));
    step(&mut cpu, &mut bus).unwrap();
    step(&mut cpu, &mut bus).unwrap();
    assert_eq!(bus.fetch_word(0xC000), 0xBEEF);
    assert_eq!(cpu.pc, 0x110);
}
