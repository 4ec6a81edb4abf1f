//! The CPU core: register file, stack, interrupt servicing and the tick loop.
use vstd::prelude::*;

use crate::alu::bit_mask;
use crate::bus::{
    Bus, BusView, is_unusable, is_writable, lemma_read_after_write, lemma_write_frame, wrap16,
};
use crate::instructions::{Instruction, decode_at};
use crate::registers::{AFRegister, FlagRegister, Register, RegisterPart, is_flag_char};

verus! {

/// A condition that stops emulation: the emulated program cannot continue.
#[derive(Clone, Copy, PartialEq, Eq, Structural, Debug)]
pub enum Fault {
    /// An access to the reserved window 0xFEA0..=0xFEFF.
    UnusableAccess(u16),
    /// A write to the read-only cartridge region.
    ReadOnlyWrite(u16),
    /// An opcode that has no entry in the primary table.
    UnimplementedOpcode(u8),
}

/// The fault that a read of `a` raises, if any.
pub open spec fn checked_read(mem: BusView, a: u16) -> Result<u8, Fault> {
    if is_unusable(a) {
        Err(Fault::UnusableAccess(a))
    } else {
        Ok(mem.read(a))
    }
}

/// A little-endian word read at `a` and `a + 1`, checked byte by byte.
pub open spec fn checked_read_word(mem: BusView, a: u16) -> Result<u16, Fault> {
    if is_unusable(a) {
        Err(Fault::UnusableAccess(a))
    } else if is_unusable(wrap16(a + 1)) {
        Err(Fault::UnusableAccess(wrap16(a + 1)))
    } else {
        Ok(mem.read_word(a))
    }
}

/// The fault that a write to `a` raises, if any.
pub open spec fn write_fault(a: u16) -> Option<Fault> {
    if is_unusable(a) {
        Some(Fault::UnusableAccess(a))
    } else if a < 0x8000 {
        Some(Fault::ReadOnlyWrite(a))
    } else {
        None
    }
}

/// A byte write, checked.
pub open spec fn checked_write(mem: BusView, a: u16, d: u8) -> Result<BusView, Fault> {
    match write_fault(a) {
        Some(f) => Err(f),
        None => Ok(mem.write(a, d)),
    }
}

/// A word write, checked at both addresses before either byte is written.
pub open spec fn checked_write_word(mem: BusView, a: u16, d: u16) -> Result<BusView, Fault> {
    match write_fault(a) {
        Some(f) => Err(f),
        None => match write_fault(wrap16(a + 1)) {
            Some(f) => Err(f),
            None => Ok(mem.write_word(a, d)),
        },
    }
}

pub fn read_byte_checked(bus: &Bus, a: u16) -> (r: Result<u8, Fault>)
    requires
        bus.wf(),
    ensures
        r == checked_read(bus@, a),
{
    if 0xFEA0 <= a && a <= 0xFEFF {
        Err(Fault::UnusableAccess(a))
    } else {
        Ok(bus.fetch_byte(a))
    }
}

pub fn read_word_checked(bus: &Bus, a: u16) -> (r: Result<u16, Fault>)
    requires
        bus.wf(),
    ensures
        r == checked_read_word(bus@, a),
{
    let b = a.wrapping_add(1);
    if 0xFEA0 <= a && a <= 0xFEFF {
        Err(Fault::UnusableAccess(a))
    } else if 0xFEA0 <= b && b <= 0xFEFF {
        Err(Fault::UnusableAccess(b))
    } else {
        Ok(bus.fetch_word(a))
    }
}

fn write_fault_of(a: u16) -> (r: Option<Fault>)
    ensures
        r == write_fault(a),
{
    if 0xFEA0 <= a && a <= 0xFEFF {
        Some(Fault::UnusableAccess(a))
    } else if a < 0x8000 {
        Some(Fault::ReadOnlyWrite(a))
    } else {
        None
    }
}

pub fn write_byte_checked(bus: &mut Bus, a: u16, d: u8) -> (r: Result<(), Fault>)
    requires
        old(bus).wf(),
    ensures
        final(bus).wf(),
        match checked_write(old(bus)@, a, d) {
            Ok(mem) => r == Ok::<(), Fault>(()) && final(bus)@ == mem,
            Err(f) => r == Err::<(), Fault>(f) && final(bus)@ == old(bus)@,
        },
{
    match write_fault_of(a) {
        Some(f) => Err(f),
        None => {
            bus.set_byte(a, d);
            Ok(())
        },
    }
}

pub fn write_word_checked(bus: &mut Bus, a: u16, d: u16) -> (r: Result<(), Fault>)
    requires
        old(bus).wf(),
    ensures
        final(bus).wf(),
        match checked_write_word(old(bus)@, a, d) {
            Ok(mem) => r == Ok::<(), Fault>(()) && final(bus)@ == mem,
            Err(f) => r == Err::<(), Fault>(f) && final(bus)@ == old(bus)@,
        },
{
    match write_fault_of(a) {
        Some(f) => Err(f),
        None => match write_fault_of(a.wrapping_add(1)) {
            Some(f) => Err(f),
            None => {
                bus.set_word(a, d);
                Ok(())
            },
        },
    }
}

/// The five interrupt sources, one bit each from bit 0 up.
#[derive(Clone, Copy, PartialEq, Eq, Structural)]
pub struct InterruptFlags {
    pub vblank: bool,
    pub lcd_stat: bool,
    pub timer: bool,
    pub serial: bool,
    pub joypad: bool,
}

impl InterruptFlags {
    pub open spec fn of_byte(data: u8) -> InterruptFlags {
        InterruptFlags {
            vblank: data & 1 != 0,
            lcd_stat: data & 2 != 0,
            timer: data & 4 != 0,
            serial: data & 8 != 0,
            joypad: data & 16 != 0,
        }
    }

    pub open spec fn byte(self) -> u8 {
        ((if self.vblank { 1int } else { 0 }) + (if self.lcd_stat { 2int } else { 0 }) + (
        if self.timer { 4int } else { 0 }) + (if self.serial { 8int } else { 0 }) + (
        if self.joypad { 16int } else { 0 })) as u8
    }

    pub fn from_byte(data: u8) -> (r: Self)
        ensures
            r == InterruptFlags::of_byte(data),
    {
        InterruptFlags {
            vblank: data & 1 != 0,
            lcd_stat: data & 2 != 0,
            timer: data & 4 != 0,
            serial: data & 8 != 0,
            joypad: data & 16 != 0,
        }
    }

    pub fn to_byte(&self) -> (r: u8)
        ensures
            r == self.byte(),
    {
        let mut result: u8 = 0;
        if self.vblank {
            result = result + 1;
        }
        if self.lcd_stat {
            result = result + 2;
        }
        if self.timer {
            result = result + 4;
        }
        if self.serial {
            result = result + 8;
        }
        if self.joypad {
            result = result + 16;
        }
        result
    }
}

/// The interrupt to service for the enable byte `ie` and the request byte `rf`:
/// the enabled and requested source of lowest bit position.
pub open spec fn interrupt_to_service(ie: u8, rf: u8) -> Option<u8> {
    let e = InterruptFlags::of_byte(ie);
    let q = InterruptFlags::of_byte(rf);
    if e.vblank && q.vblank {
        Some(0u8)
    } else if e.lcd_stat && q.lcd_stat {
        Some(1u8)
    } else if e.timer && q.timer {
        Some(2u8)
    } else if e.serial && q.serial {
        Some(3u8)
    } else if e.joypad && q.joypad {
        Some(4u8)
    } else {
        None
    }
}

/// The service routine of source `k`: 0x40, 0x48, 0x50, 0x58, 0x60.
pub open spec fn interrupt_vector(k: u8) -> u16 {
    (0x40 + 8 * k) as u16
}

pub const INTERRUPT_ENABLE_ADDRESS: u16 = 0xFFFF;
pub const INTERRUPT_REQUEST_ADDRESS: u16 = 0xFF0F;

#[derive(Clone, Copy, PartialEq, Eq, Structural, Debug)]
pub enum Registers {
    AF,
    BC,
    DE,
    HL,
    SP,
    PC,
}

/// The register pairs that have two 8-bit halves.
pub open spec fn is_pair(r: Registers) -> bool {
    r == Registers::AF || r == Registers::BC || r == Registers::DE || r == Registers::HL
}

impl Registers {
    pub fn as_str(&self) -> (r: &'static str)
        ensures
            *self == Registers::AF ==> r@ == "AF"@,
            *self == Registers::BC ==> r@ == "BC"@,
            *self == Registers::DE ==> r@ == "DE"@,
            *self == Registers::HL ==> r@ == "HL"@,
            *self == Registers::SP ==> r@ == "SP"@,
            *self == Registers::PC ==> r@ == "PC"@,
    {
        match self {
            Registers::AF => "AF",
            Registers::BC => "BC",
            Registers::DE => "DE",
            Registers::HL => "HL",
            Registers::SP => "SP",
            Registers::PC => "PC",
        }
    }
}

/// With the vertical-blank and timer interrupts both enabled and requested, servicing
/// jumps to the vertical-blank routine at 0x40 and clears only the vertical-blank
/// request: the timer request stays pending. (The stack slots must be writable and
/// apart from the request register.)
pub proof fn lemma_vblank_before_timer(m: Machine)
    requires
        m.mem.wf(),
        m.mem.read(INTERRUPT_ENABLE_ADDRESS) & 1 != 0,
        m.mem.read(INTERRUPT_ENABLE_ADDRESS) & 4 != 0,
        m.mem.read(INTERRUPT_REQUEST_ADDRESS) & 1 != 0,
        m.mem.read(INTERRUPT_REQUEST_ADDRESS) & 4 != 0,
        is_writable(wrap16(m.cpu.sp - 2)),
        is_writable(wrap16(m.cpu.sp - 1)),
        wrap16(m.cpu.sp - 2) != INTERRUPT_REQUEST_ADDRESS,
        wrap16(m.cpu.sp - 1) != INTERRUPT_REQUEST_ADDRESS,
    ensures
        CPU::interrupt_spec(m) is Ok,
        CPU::interrupt_spec(m)->Ok_0.cpu.pc == 0x40,
        !CPU::interrupt_spec(m)->Ok_0.cpu.ime,
        CPU::interrupt_spec(m)->Ok_0.mem.read(INTERRUPT_REQUEST_ADDRESS) == m.mem.read(
            INTERRUPT_REQUEST_ADDRESS,
        ) & !1u8,
        CPU::interrupt_spec(m)->Ok_0.mem.read(INTERRUPT_REQUEST_ADDRESS) & 4 != 0,
{
    let rf = m.mem.read(INTERRUPT_REQUEST_ADDRESS);
    let cleared = rf & !bit_mask(0);
    let mem1 = m.mem.write(INTERRUPT_REQUEST_ADDRESS, cleared);
    let sp = wrap16(m.cpu.sp - 2);
    let hi = wrap16(sp + 1);
    assert(hi == wrap16(m.cpu.sp - 1));
    let mem2 = mem1.write(sp, (m.cpu.pc % 256) as u8);
    lemma_read_after_write(m.mem, INTERRUPT_REQUEST_ADDRESS, cleared);
    lemma_read_after_write(mem1, sp, (m.cpu.pc % 256) as u8);
    lemma_write_frame(mem1, sp, (m.cpu.pc % 256) as u8, INTERRUPT_REQUEST_ADDRESS);
    lemma_write_frame(mem2, hi, (m.cpu.pc / 256) as u8, INTERRUPT_REQUEST_ADDRESS);
    assert(cleared & 4 != 0) by (bit_vector)
        requires
            cleared == rf & !1u8,
            rf & 4 != 0,
    ;
}

pub struct CPU {
    pub af: AFRegister,
    pub bc: Register,
    pub de: Register,
    pub hl: Register,
    pub sp: u16,
    pub pc: u16,
    pub clock_cycles_to_go: u8,
    pub stopped: bool,
    pub halted: bool,
    pub ime: bool,
}

/// The whole machine state that an instruction sees: the CPU and the bus contents.
pub struct Machine {
    pub cpu: CPU,
    pub mem: BusView,
}

impl CPU {
    /// The 16-bit value of register `r`.
    pub open spec fn word(self, r: Registers) -> u16 {
        match r {
            Registers::AF => self.af.combined(),
            Registers::BC => self.bc.combined(),
            Registers::DE => self.de.combined(),
            Registers::HL => self.hl.combined(),
            Registers::SP => self.sp,
            Registers::PC => self.pc,
        }
    }

    /// The half `part` of the pair `r`.
    pub open spec fn byte(self, r: Registers, part: RegisterPart) -> u8 {
        match r {
            Registers::AF => self.af.part(part),
            Registers::BC => self.bc.part(part),
            Registers::DE => self.de.part(part),
            _ => self.hl.part(part),
        }
    }

    /// The CPU after register `r` is set to `v`.
    pub open spec fn with_word(self, r: Registers, v: u16) -> CPU {
        match r {
            Registers::AF => CPU { af: AFRegister::of_word(v), ..self },
            Registers::BC => CPU { bc: Register::of_word(v), ..self },
            Registers::DE => CPU { de: Register::of_word(v), ..self },
            Registers::HL => CPU { hl: Register::of_word(v), ..self },
            Registers::SP => CPU { sp: v, ..self },
            Registers::PC => CPU { pc: v, ..self },
        }
    }

    /// The CPU after the half `part` of the pair `r` is set to `v`.
    pub open spec fn with_byte(self, r: Registers, part: RegisterPart, v: u8) -> CPU {
        match r {
            Registers::AF => CPU { af: self.af.with_part(part, v), ..self },
            Registers::BC => CPU { bc: self.bc.with_part(part, v), ..self },
            Registers::DE => CPU { de: self.de.with_part(part, v), ..self },
            _ => CPU { hl: self.hl.with_part(part, v), ..self },
        }
    }

    /// The CPU with its flags replaced by `f`.
    pub open spec fn with_flags(self, f: FlagRegister) -> CPU {
        CPU { af: AFRegister { flags: f, ..self.af }, ..self }
    }

    /// The CPU after `data` is pushed: the stack pointer drops by 2 and the word is
    /// written at the new stack pointer.
    pub open spec fn push_spec(m: Machine, data: u16) -> Result<Machine, Fault> {
        let sp = wrap16(m.cpu.sp - 2);
        match checked_write_word(m.mem, sp, data) {
            Ok(mem) => Ok(Machine { cpu: CPU { sp: sp, ..m.cpu }, mem: mem }),
            Err(f) => Err(f),
        }
    }

    /// The word at the stack pointer, and the CPU with the stack pointer raised by 2.
    pub open spec fn pop_spec(m: Machine) -> Result<(Machine, u16), Fault> {
        match checked_read_word(m.mem, m.cpu.sp) {
            Ok(v) => Ok((Machine { cpu: CPU { sp: wrap16(m.cpu.sp + 2), ..m.cpu }, mem: m.mem }, v)),
            Err(f) => Err(f),
        }
    }

    /// Services the highest-priority pending interrupt, if any: clears the master
    /// enable and the request bit, pushes the program counter and jumps to the
    /// source's routine.
    pub open spec fn interrupt_spec(m: Machine) -> Result<Machine, Fault> {
        let rf = m.mem.read(INTERRUPT_REQUEST_ADDRESS);
        match interrupt_to_service(m.mem.read(INTERRUPT_ENABLE_ADDRESS), rf) {
            None => Ok(m),
            Some(k) => {
                let cleared = Machine {
                    cpu: CPU { ime: false, ..m.cpu },
                    mem: m.mem.write(INTERRUPT_REQUEST_ADDRESS, rf & !bit_mask(k)),
                };
                match CPU::push_spec(cleared, m.cpu.pc) {
                    Ok(pushed) => Ok(
                        Machine { cpu: CPU { pc: interrupt_vector(k), ..pushed.cpu }, mem: pushed.mem },
                    ),
                    Err(f) => Err(f),
                }
            },
        }
    }

    /// One instruction: decode at the program counter, execute, charge its cycles,
    /// then service interrupts when the master enable is set.
    pub open spec fn step_spec(m: Machine) -> Result<Machine, Fault> {
        match decode_at(m.mem, m.cpu.pc) {
            Err(f) => Err(f),
            Ok(i) => match i.execute_spec(m) {
                Err(f) => Err(f),
                Ok(done) => {
                    let charged = Machine {
                        cpu: CPU { clock_cycles_to_go: i.clock_cycles, ..done.cpu },
                        mem: done.mem,
                    };
                    if charged.cpu.ime {
                        CPU::interrupt_spec(charged)
                    } else {
                        Ok(charged)
                    }
                },
            },
        }
    }

    /// A halted CPU wakes when an interrupt is both enabled and requested, and then
    /// services it if the master enable is set; otherwise it stays halted.
    pub open spec fn halted_spec(m: Machine) -> Result<Machine, Fault> {
        let ie = m.mem.read(INTERRUPT_ENABLE_ADDRESS);
        let rf = m.mem.read(INTERRUPT_REQUEST_ADDRESS);
        if interrupt_to_service(ie, rf) is Some {
            let woken = Machine { cpu: CPU { halted: false, ..m.cpu }, mem: m.mem };
            if woken.cpu.ime {
                CPU::interrupt_spec(woken)
            } else {
                Ok(woken)
            }
        } else {
            Ok(m)
        }
    }

    /// One clock tick: spend a pending cycle, wait while halted, or run the next
    /// instruction.
    pub open spec fn tick_spec(m: Machine) -> Result<Machine, Fault> {
        if m.cpu.clock_cycles_to_go > 0 {
            Ok(
                Machine {
                    cpu: CPU { clock_cycles_to_go: (m.cpu.clock_cycles_to_go - 1) as u8, ..m.cpu },
                    mem: m.mem,
                },
            )
        } else if m.cpu.halted {
            CPU::halted_spec(m)
        } else {
            CPU::step_spec(m)
        }
    }

    /// A CPU in its power-on state: registers zero, execution from 0x100.
    pub fn new_cpu() -> (r: CPU)
        ensures
            r.af.combined() == 0 && r.bc.combined() == 0 && r.de.combined() == 0
                && r.hl.combined() == 0,
            !r.af.flags.zero_flag && !r.af.flags.n_flag && !r.af.flags.h_flag
                && !r.af.flags.carry_flag,
            r.sp == 0,
            r.pc == 0x100,
            r.clock_cycles_to_go == 0,
            !r.stopped && !r.halted && !r.ime,
    {
        CPU {
            af: AFRegister::new(),
            bc: Register::new(),
            de: Register::new(),
            hl: Register::new(),
            sp: 0,
            pc: 0x100,
            clock_cycles_to_go: 0,
            stopped: false,
            halted: false,
            ime: false,
        }
    }

    pub fn get_register_word(&self, reg: Registers) -> (r: u16)
        ensures
            r == self.word(reg),
    {
        match reg {
            Registers::BC => self.bc.get_combined(),
            Registers::DE => self.de.get_combined(),
            Registers::HL => self.hl.get_combined(),
            Registers::AF => self.af.get_combined(),
            Registers::SP => self.sp,
            Registers::PC => self.pc,
        }
    }

    pub fn get_register_byte(&self, reg: Registers, part: RegisterPart) -> (r: u8)
        requires
            is_pair(reg),
            part != RegisterPart::Both,
        ensures
            r == self.byte(reg, part),
    {
        match reg {
            Registers::BC => self.bc.get_part(part),
            Registers::DE => self.de.get_part(part),
            Registers::AF => self.af.get_part(part),
            _ => self.hl.get_part(part),
        }
    }

    pub fn set_half_register(&mut self, reg: Registers, part: RegisterPart, data: u8)
        requires
            is_pair(reg),
            part != RegisterPart::Both,
        ensures
            *final(self) == old(self).with_byte(reg, part, data),
    {
        match reg {
            Registers::BC => self.bc.set_part(part, data),
            Registers::DE => self.de.set_part(part, data),
            Registers::AF => self.af.set_part(part, data),
            _ => self.hl.set_part(part, data),
        }
    }

    pub fn set_register(&mut self, reg: Registers, data: u16)
        ensures
            *final(self) == old(self).with_word(reg, data),
    {
        match reg {
            Registers::BC => self.bc.set_word(data),
            Registers::DE => self.de.set_word(data),
            Registers::HL => self.hl.set_word(data),
            Registers::AF => self.af.set_word(data),
            Registers::SP => self.sp = data,
            Registers::PC => self.pc = data,
        }
    }

    pub fn get_flag(&self, flag: char) -> (r: bool)
        requires
            is_flag_char(flag),
        ensures
            r == self.af.flags.flag(flag),
    {
        self.af.flags.get(flag)
    }

    pub fn set_flag(&mut self, flag: char)
        requires
            is_flag_char(flag),
        ensures
            *final(self) == old(self).with_flags(old(self).af.flags.with_flag(flag, true)),
    {
        self.af.flags.set(flag)
    }

    pub fn clear_flag(&mut self, flag: char)
        requires
            is_flag_char(flag),
        ensures
            *final(self) == old(self).with_flags(old(self).af.flags.with_flag(flag, false)),
    {
        self.af.flags.clear(flag)
    }

    pub fn update_flag(&mut self, flag: char, value: bool)
        requires
            is_flag_char(flag),
        ensures
            *final(self) == old(self).with_flags(old(self).af.flags.with_flag(flag, value)),
    {
        self.af.flags.update(flag, value)
    }

    /// Pushes `data`: the stack pointer drops by 2, then the word is written there.
    pub fn push_word_to_stack(&mut self, bus: &mut Bus, data: u16) -> (r: Result<(), Fault>)
        requires
            old(bus).wf(),
        ensures
            final(bus).wf(),
            match CPU::push_spec(Machine { cpu: *old(self), mem: old(bus)@ }, data) {
                Ok(m) => r == Ok::<(), Fault>(()) && *final(self) == m.cpu && final(bus)@ == m.mem,
                Err(f) => r == Err::<(), Fault>(f),
            },
    {
        let sp = self.sp.wrapping_sub(2);
        let res = write_word_checked(bus, sp, data);
        if res.is_ok() {
            self.sp = sp;
        }
        res
    }

    /// Pops the word at the stack pointer and raises the pointer by 2.
    pub fn pop_word_from_stack(&mut self, bus: &Bus) -> (r: Result<u16, Fault>)
        requires
            bus.wf(),
        ensures
            match CPU::pop_spec(Machine { cpu: *old(self), mem: bus@ }) {
                Ok((m, v)) => r == Ok::<u16, Fault>(v) && *final(self) == m.cpu,
                Err(f) => r == Err::<u16, Fault>(f),
            },
    {
        let res = read_word_checked(bus, self.sp);
        if res.is_ok() {
            self.sp = self.sp.wrapping_add(2);
        }
        res
    }

    /// The byte at the program counter.
    pub fn peek_bus_byte(&self, bus: &Bus) -> (r: Result<u8, Fault>)
        requires
            bus.wf(),
        ensures
            r == checked_read(bus@, self.pc),
    {
        read_byte_checked(bus, self.pc)
    }

    /// The little-endian word at the program counter.
    pub fn peek_bus_word(&self, bus: &Bus) -> (r: Result<u16, Fault>)
        requires
            bus.wf(),
        ensures
            r == checked_read_word(bus@, self.pc),
    {
        read_word_checked(bus, self.pc)
    }

    /// Services the highest-priority interrupt that is both enabled and requested.
    fn check_for_interrupts(&mut self, bus: &mut Bus) -> (r: Result<(), Fault>)
        requires
            old(bus).wf(),
        ensures
            final(bus).wf(),
            match CPU::interrupt_spec(Machine { cpu: *old(self), mem: old(bus)@ }) {
                Ok(m) => r == Ok::<(), Fault>(()) && *final(self) == m.cpu && final(bus)@ == m.mem,
                Err(f) => r == Err::<(), Fault>(f),
            },
    {
        let ie = bus.fetch_byte(INTERRUPT_ENABLE_ADDRESS);
        let rf = bus.fetch_byte(INTERRUPT_REQUEST_ADDRESS);
        let enabled = InterruptFlags::from_byte(ie);
        let requested = InterruptFlags::from_byte(rf);
        let (k, vector): (u8, u16) = if enabled.vblank && requested.vblank {
            (0, 0x40)
        } else if enabled.lcd_stat && requested.lcd_stat {
            (1, 0x48)
        } else if enabled.timer && requested.timer {
            (2, 0x50)
        } else if enabled.serial && requested.serial {
            (3, 0x58)
        } else if enabled.joypad && requested.joypad {
            (4, 0x60)
        } else {
            return Ok(());
        };
        self.ime = false;
        let mask = crate::alu::mask_of_bit(k);
        bus.set_byte(INTERRUPT_REQUEST_ADDRESS, rf & !mask);
        let pc = self.pc;
        let res = self.push_word_to_stack(bus, pc);
        if res.is_ok() {
            self.pc = vector;
        }
        res
    }

    /// Decodes and executes the instruction at the program counter, charges its
    /// cycles, then services interrupts if the master enable is set.
    fn execute_instruction(&mut self, bus: &mut Bus) -> (r: Result<(), Fault>)
        requires
            old(bus).wf(),
        ensures
            final(bus).wf(),
            match CPU::step_spec(Machine { cpu: *old(self), mem: old(bus)@ }) {
                Ok(m) => r == Ok::<(), Fault>(()) && *final(self) == m.cpu && final(bus)@ == m.mem,
                Err(f) => r == Err::<(), Fault>(f),
            },
    {
        let instruction = match Instruction::fetch_new(bus, self) {
            Ok(i) => i,
            Err(f) => return Err(f),
        };
        let cycles = instruction.clock_cycles;
        match instruction.execute(bus, self) {
            Ok(_) => {},
            Err(f) => return Err(f),
        }
        self.clock_cycles_to_go = cycles;
        if self.ime {
            self.check_for_interrupts(bus)
        } else {
            Ok(())
        }
    }

    /// While halted: wakes on an enabled, requested interrupt and services it if
    /// the master enable is set.
    fn wait_halted(&mut self, bus: &mut Bus) -> (r: Result<(), Fault>)
        requires
            old(bus).wf(),
        ensures
            final(bus).wf(),
            match CPU::halted_spec(Machine { cpu: *old(self), mem: old(bus)@ }) {
                Ok(m) => r == Ok::<(), Fault>(()) && *final(self) == m.cpu && final(bus)@ == m.mem,
                Err(f) => r == Err::<(), Fault>(f),
            },
    {
        let enabled = InterruptFlags::from_byte(bus.fetch_byte(INTERRUPT_ENABLE_ADDRESS));
        let requested = InterruptFlags::from_byte(bus.fetch_byte(INTERRUPT_REQUEST_ADDRESS));
        let pending = enabled.vblank && requested.vblank || enabled.lcd_stat && requested.lcd_stat
            || enabled.timer && requested.timer || enabled.serial && requested.serial
            || enabled.joypad && requested.joypad;
        if !pending {
            return Ok(());
        }
        self.halted = false;
        if self.ime {
            self.check_for_interrupts(bus)
        } else {
            Ok(())
        }
    }

    /// One clock tick: spends a pending cycle of the last instruction, or runs the
    /// next one. A fault leaves the machine in no defined state: emulation stops.
    pub fn tick(&mut self, bus: &mut Bus) -> (r: Result<(), Fault>)
        requires
            old(bus).wf(),
        ensures
            final(bus).wf(),
            match CPU::tick_spec(Machine { cpu: *old(self), mem: old(bus)@ }) {
                Ok(m) => r == Ok::<(), Fault>(()) && *final(self) == m.cpu && final(bus)@ == m.mem,
                Err(f) => r == Err::<(), Fault>(f),
            },
    {
        if self.clock_cycles_to_go > 0 {
            self.clock_cycles_to_go = self.clock_cycles_to_go - 1;
            Ok(())
        } else if self.halted {
            self.wait_halted(bus)
        } else {
            self.execute_instruction(bus)
        }
    }
}

} // verus!
