use gbemu::buttons::Button;
use gbemu::cpu::Fault;
use gbemu::debugger::{dump_length, string_to_decimal, CommandKind, Debugger};
use gbemu::instructions::{Condition, Operation};
use gbemu::machine::Emulator;
use gbemu::target::Target;

fn program(bytes: &[u8]) -> Vec<u8> {
    let mut rom = vec![0u8; 0x8000];
    rom[0x100..0x100 + bytes.len()].copy_from_slice(bytes);
    rom
}

#[test]
fn emulator_runs_program_and_presents_frames() {
    // LD A,0x91 ; LDH (0x40),A ; JR -2
    let mut emu = Emulator::new(program(&[0x3E, 0x91, 0xE0, 0x40, 0x18, 0xFE]));
    let mut frames = 0;
    for _ in 0..200_000 {
        if emu.tick().unwrap() {
            frames += 1;
        }
    }
    assert!(frames >= 2);
    assert_eq!(emu.peek_byte(0xFF40), Some(0x91));
    assert_eq!(emu.peek_byte(0xFEA0), None);
    assert_eq!(emu.frame().len(), 160 * 144);
    assert_eq!(emu.cpu().pc, 0x104);
}

#[test]
fn emulator_stops_on_fault() {
    let mut emu = Emulator::new(program(&[0xDD]));
    assert_eq!(emu.tick(), Err(Fault::UnimplementedOpcode(0xDD)));
}

#[test]
fn emulator_joypad_reaches_register() {
    // LD A,0x20 ; LDH (0x00),A ; NOP...
    let mut emu = Emulator::new(program(&[0x3E, 0x20, 0xE0, 0x00, 0x00, 0x00]));
    emu.set_key(Button::Right, true);
    for _ in 0..30 {
        emu.tick().unwrap();
    }
    // the select bits were written, then the joypad refreshed the register once
    assert_eq!(emu.peek_byte(0xFF00), Some(0b1111_1110));
    assert!(emu.gpu().stopped);
}

#[test]
fn mnemonics() {
    assert_eq!(Operation::Bit(3).mnemonic(), "BIT");
    assert_eq!(Operation::Jmp(Condition::NonZero).mnemonic(), "JP");
    assert_eq!(Condition::NoCarry.as_str(), "NC");
    assert_eq!(Target::ImmediateWord.as_str(), "d16");
    assert_eq!(Target::IndirectIOPort.as_str(), "(FF00+a8)");
}

#[test]
fn debugger_command_letters() {
    assert_eq!(CommandKind::from_letter('b'), Some(CommandKind::Breakpoint));
    assert_eq!(CommandKind::from_letter('s').map(|k| k.name()), Some("step"));
    assert_eq!(CommandKind::from_letter('x'), None);
    assert_eq!(dump_length(0xFFF0, 0x100), 0x10);
    assert_eq!(dump_length(0x100, 0x10), 0x10);
    assert_eq!(dump_length(0x10000, 4), 0);
}

#[test]
fn debugger_number_arguments() {
    assert_eq!(string_to_decimal(b"1234"), Some(1234));
    assert_eq!(string_to_decimal(b"0x1F"), Some(0x1F));
    assert_eq!(string_to_decimal(b"0xffff"), Some(0xFFFF));
    assert_eq!(string_to_decimal(b"65535"), Some(65535));
    assert_eq!(string_to_decimal(b"65536"), None);
    assert_eq!(string_to_decimal(b"0x10000"), None);
    assert_eq!(string_to_decimal(b"12a"), None);
    assert_eq!(string_to_decimal(b"0x"), None);
    assert_eq!(string_to_decimal(b""), None);
    assert_eq!(string_to_decimal(b"007"), Some(7));
}

#[test]
fn emulator_reports_next_instruction() {
    let emu = Emulator::new(program(&[0xCB, 0x11]));
    let i = emu.instruction_at_pc().unwrap();
    assert!(i.op == Operation::Rl);
    assert_eq!(i.op.mnemonic(), "RL");
    assert_eq!(i.source.as_str(), "r8");
}

#[test]
fn debugger_lists_breakpoints_in_order() {
    let mut d = Debugger::new_debugger();
    d.add_breakpoint(0x300);
    d.add_breakpoint(0x100);
    assert_eq!(d.breakpoint_list(), &vec![0x300, 0x100]);
    assert!(!d.stepping());
    d.start_stepping();
    assert!(d.stepping());
}
