//! Operand descriptors: where an instruction reads its input and writes its result.
use vstd::prelude::*;

use crate::bus::Bus;
use crate::cpu::{
    CPU,
    Fault,
    Machine,
    Registers,
    checked_read,
    checked_read_word,
    checked_write,
    checked_write_word,
    is_pair,
    read_byte_checked,
    read_word_checked,
    write_byte_checked,
    write_word_checked,
};
use crate::registers::RegisterPart;
use crate::sized::Sized;

verus! {

#[derive(Clone, Copy, PartialEq, Eq, Structural)]
pub enum Target {
    /// One half of a register pair.
    HalfRegister(Registers, RegisterPart),
    /// A whole 16-bit register.
    Register(Registers),
    /// The byte following the opcode.
    ImmediateByte,
    /// The little-endian word following the opcode.
    ImmediateWord,
    /// The byte at the address held in a register.
    IndirectRegister(Registers),
    /// The byte at the address given by the word following the opcode.
    IndirectImmediate,
    /// The byte at 0xFF00 plus the byte following the opcode.
    IndirectIOPort,
    /// The little-endian word at the address given by the word following the opcode.
    IndirectImmediateWord,
    /// The byte at 0xFF00 plus register C.
    IndirectHighC,
    /// The byte at the address in HL; HL is incremented after the instruction.
    IndirectHLIncrement,
    /// The byte at the address in HL; HL is decremented after the instruction.
    IndirectHLDecrement,
    /// No operand.
    Empty,
}

impl Target {
    /// The width in bytes of the value read or written.
    pub open spec fn size(self) -> nat {
        match self {
            Target::Register(_) | Target::ImmediateWord | Target::IndirectImmediateWord => 2,
            Target::Empty => 0,
            _ => 1,
        }
    }

    /// How many operand bytes after the opcode the descriptor consumes.
    pub open spec fn operand_len(self) -> nat {
        match self {
            Target::ImmediateByte | Target::IndirectIOPort => 1,
            Target::ImmediateWord | Target::IndirectImmediate | Target::IndirectImmediateWord => 2,
            _ => 0,
        }
    }

    /// The registers named are ones that the descriptor can address.
    pub open spec fn valid(self) -> bool {
        match self {
            Target::HalfRegister(r, p) => is_pair(r) && p != RegisterPart::Both,
            Target::Register(r) => r != Registers::PC,
            Target::IndirectRegister(r) => r != Registers::PC,
            _ => true,
        }
    }

    /// How the descriptor moves HL once the instruction has run.
    pub open spec fn hl_step(self) -> int {
        match self {
            Target::IndirectHLIncrement => 1,
            Target::IndirectHLDecrement => -1,
            _ => 0,
        }
    }

    /// A descriptor that a result can be written to: immediates cannot.
    pub open spec fn writable(self) -> bool {
        self.valid() && self != Target::ImmediateByte && self != Target::ImmediateWord
    }

    /// The value that the descriptor reads in machine state `m`.
    #[verifier::opaque]
    pub open spec fn fetch_spec(self, m: Machine) -> Result<Sized, Fault> {
        match self {
            Target::HalfRegister(r, p) => Ok(Sized::Byte(m.cpu.byte(r, p))),
            Target::Register(r) => Ok(Sized::Word(m.cpu.word(r))),
            Target::ImmediateByte => match checked_read(m.mem, m.cpu.pc) {
                Ok(v) => Ok(Sized::Byte(v)),
                Err(f) => Err(f),
            },
            Target::ImmediateWord => match checked_read_word(m.mem, m.cpu.pc) {
                Ok(v) => Ok(Sized::Word(v)),
                Err(f) => Err(f),
            },
            Target::IndirectRegister(r) => match checked_read(m.mem, m.cpu.word(r)) {
                Ok(v) => Ok(Sized::Byte(v)),
                Err(f) => Err(f),
            },
            Target::IndirectImmediate => match checked_read_word(m.mem, m.cpu.pc) {
                Ok(a) => match checked_read(m.mem, a) {
                    Ok(v) => Ok(Sized::Byte(v)),
                    Err(f) => Err(f),
                },
                Err(f) => Err(f),
            },
            Target::IndirectIOPort => match checked_read(m.mem, m.cpu.pc) {
                Ok(o) => match checked_read(m.mem, (0xFF00 + o) as u16) {
                    Ok(v) => Ok(Sized::Byte(v)),
                    Err(f) => Err(f),
                },
                Err(f) => Err(f),
            },
            Target::IndirectImmediateWord => match checked_read_word(m.mem, m.cpu.pc) {
                Ok(a) => match checked_read_word(m.mem, a) {
                    Ok(v) => Ok(Sized::Word(v)),
                    Err(f) => Err(f),
                },
                Err(f) => Err(f),
            },
            Target::IndirectHighC => match checked_read(m.mem, (0xFF00 + m.cpu.bc.low) as u16) {
                Ok(v) => Ok(Sized::Byte(v)),
                Err(f) => Err(f),
            },
            Target::IndirectHLIncrement | Target::IndirectHLDecrement => match checked_read(
                m.mem,
                m.cpu.hl.combined(),
            ) {
                Ok(v) => Ok(Sized::Byte(v)),
                Err(f) => Err(f),
            },
            Target::Empty => Ok(Sized::Zero),
        }
    }

    /// The machine state after `data` is written through the descriptor.
    #[verifier::opaque]
    pub open spec fn write_spec(self, m: Machine, data: Sized) -> Result<Machine, Fault> {
        match self {
            Target::HalfRegister(r, p) => Ok(
                Machine { cpu: m.cpu.with_byte(r, p, data.byte_value()), mem: m.mem },
            ),
            Target::Register(r) => Ok(Machine { cpu: m.cpu.with_word(r, data.word_value()), mem: m.mem }),
            Target::IndirectRegister(r) => match checked_write(m.mem, m.cpu.word(r), data.byte_value()) {
                Ok(mem) => Ok(Machine { cpu: m.cpu, mem: mem }),
                Err(f) => Err(f),
            },
            Target::IndirectImmediate => match checked_read_word(m.mem, m.cpu.pc) {
                Ok(a) => match checked_write(m.mem, a, data.byte_value()) {
                    Ok(mem) => Ok(Machine { cpu: m.cpu, mem: mem }),
                    Err(f) => Err(f),
                },
                Err(f) => Err(f),
            },
            Target::IndirectIOPort => match checked_read(m.mem, m.cpu.pc) {
                Ok(o) => match checked_write(m.mem, (0xFF00 + o) as u16, data.byte_value()) {
                    Ok(mem) => Ok(Machine { cpu: m.cpu, mem: mem }),
                    Err(f) => Err(f),
                },
                Err(f) => Err(f),
            },
            Target::IndirectImmediateWord => match checked_read_word(m.mem, m.cpu.pc) {
                Ok(a) => match checked_write_word(m.mem, a, data.word_value()) {
                    Ok(mem) => Ok(Machine { cpu: m.cpu, mem: mem }),
                    Err(f) => Err(f),
                },
                Err(f) => Err(f),
            },
            Target::IndirectHighC => match checked_write(
                m.mem,
                (0xFF00 + m.cpu.bc.low) as u16,
                data.byte_value(),
            ) {
                Ok(mem) => Ok(Machine { cpu: m.cpu, mem: mem }),
                Err(f) => Err(f),
            },
            Target::IndirectHLIncrement | Target::IndirectHLDecrement => match checked_write(
                m.mem,
                m.cpu.hl.combined(),
                data.byte_value(),
            ) {
                Ok(mem) => Ok(Machine { cpu: m.cpu, mem: mem }),
                Err(f) => Err(f),
            },
            _ => Ok(m),
        }
    }

    /// The operand kind as written in an opcode table.
    pub fn as_str(&self) -> (r: &'static str)
        ensures
            *self is HalfRegister ==> r@ == "r8"@,
            *self is Register ==> r@ == "r16"@,
            *self is ImmediateByte ==> r@ == "d8"@,
            *self is ImmediateWord ==> r@ == "d16"@,
            *self is IndirectRegister ==> r@ == "(r16)"@,
            *self is IndirectImmediate ==> r@ == "(a16)"@,
            *self is IndirectIOPort ==> r@ == "(FF00+a8)"@,
            *self is IndirectImmediateWord ==> r@ == "(a16)"@,
            *self is IndirectHighC ==> r@ == "(FF00+C)"@,
            *self is IndirectHLIncrement ==> r@ == "(HL+)"@,
            *self is IndirectHLDecrement ==> r@ == "(HL-)"@,
            *self is Empty ==> r@ == ""@,
    {
        match self {
            Target::HalfRegister(_, _) => "r8",
            Target::Register(_) => "r16",
            Target::ImmediateByte => "d8",
            Target::ImmediateWord => "d16",
            Target::IndirectRegister(_) => "(r16)",
            Target::IndirectImmediate => "(a16)",
            Target::IndirectIOPort => "(FF00+a8)",
            Target::IndirectImmediateWord => "(a16)",
            Target::IndirectHighC => "(FF00+C)",
            Target::IndirectHLIncrement => "(HL+)",
            Target::IndirectHLDecrement => "(HL-)",
            Target::Empty => "",
        }
    }

    pub fn fetch(self, bus: &Bus, cpu: &CPU) -> (r: Result<Sized, Fault>)
        requires
            bus.wf(),
            self.valid(),
        ensures
            r == self.fetch_spec(Machine { cpu: *cpu, mem: bus@ }),
            r is Ok ==> r->Ok_0.width() == self.size(),
    {
        reveal(Target::fetch_spec);
        match self {
            Target::HalfRegister(reg, part) => Ok(Sized::Byte(cpu.get_register_byte(reg, part))),
            Target::Register(reg) => Ok(Sized::Word(cpu.get_register_word(reg))),
            Target::ImmediateByte => match cpu.peek_bus_byte(bus) {
                Ok(v) => Ok(Sized::Byte(v)),
                Err(f) => Err(f),
            },
            Target::ImmediateWord => match cpu.peek_bus_word(bus) {
                Ok(v) => Ok(Sized::Word(v)),
                Err(f) => Err(f),
            },
            Target::IndirectRegister(reg) => match read_byte_checked(bus, cpu.get_register_word(reg)) {
                Ok(v) => Ok(Sized::Byte(v)),
                Err(f) => Err(f),
            },
            Target::IndirectImmediate => match cpu.peek_bus_word(bus) {
                Ok(a) => match read_byte_checked(bus, a) {
                    Ok(v) => Ok(Sized::Byte(v)),
                    Err(f) => Err(f),
                },
                Err(f) => Err(f),
            },
            Target::IndirectIOPort => match cpu.peek_bus_byte(bus) {
                Ok(o) => match read_byte_checked(bus, 0xFF00 + o as u16) {
                    Ok(v) => Ok(Sized::Byte(v)),
                    Err(f) => Err(f),
                },
                Err(f) => Err(f),
            },
            Target::IndirectImmediateWord => match cpu.peek_bus_word(bus) {
                Ok(a) => match read_word_checked(bus, a) {
                    Ok(v) => Ok(Sized::Word(v)),
                    Err(f) => Err(f),
                },
                Err(f) => Err(f),
            },
            Target::IndirectHighC => match read_byte_checked(bus, 0xFF00 + cpu.bc.low as u16) {
                Ok(v) => Ok(Sized::Byte(v)),
                Err(f) => Err(f),
            },
            Target::IndirectHLIncrement | Target::IndirectHLDecrement => match read_byte_checked(
                bus,
                cpu.hl.get_combined(),
            ) {
                Ok(v) => Ok(Sized::Byte(v)),
                Err(f) => Err(f),
            },
            Target::Empty => Ok(Sized::Zero),
        }
    }

    /// How the descriptor moves HL once the instruction has run.
    pub fn hl_adjustment(&self) -> (r: i8)
        ensures
            r == self.hl_step(),
    {
        match self {
            Target::IndirectHLIncrement => 1,
            Target::IndirectHLDecrement => -1,
            _ => 0,
        }
    }

    /// Writes `data` through the descriptor. Immediates are not writable, and the
    /// value must have the descriptor's width.
    pub fn write(self, bus: &mut Bus, cpu: &mut CPU, data: Sized) -> (r: Result<(), Fault>)
        requires
            old(bus).wf(),
            self.writable() || self == Target::Empty,
            data.width() == self.size(),
        ensures
            final(bus).wf(),
            match self.write_spec(Machine { cpu: *old(cpu), mem: old(bus)@ }, data) {
                Ok(m) => r == Ok::<(), Fault>(()) && *final(cpu) == m.cpu && final(bus)@ == m.mem,
                Err(f) => r == Err::<(), Fault>(f),
            },
    {
        reveal(Target::write_spec);
        match self {
            Target::HalfRegister(reg, part) => {
                cpu.set_half_register(reg, part, data.as_byte());
                Ok(())
            },
            Target::Register(reg) => {
                cpu.set_register(reg, data.as_word());
                Ok(())
            },
            Target::IndirectRegister(reg) => {
                let a = cpu.get_register_word(reg);
                write_byte_checked(bus, a, data.as_byte())
            },
            Target::IndirectImmediate => match cpu.peek_bus_word(bus) {
                Ok(a) => write_byte_checked(bus, a, data.as_byte()),
                Err(f) => Err(f),
            },
            Target::IndirectIOPort => match cpu.peek_bus_byte(bus) {
                Ok(o) => write_byte_checked(bus, 0xFF00 + o as u16, data.as_byte()),
                Err(f) => Err(f),
            },
            Target::IndirectImmediateWord => match cpu.peek_bus_word(bus) {
                Ok(a) => write_word_checked(bus, a, data.as_word()),
                Err(f) => Err(f),
            },
            Target::IndirectHighC => write_byte_checked(bus, 0xFF00 + cpu.bc.low as u16, data.as_byte()),
            Target::IndirectHLIncrement | Target::IndirectHLDecrement => {
                let a = cpu.hl.get_combined();
                write_byte_checked(bus, a, data.as_byte())
            },
            _ => Ok(()),
        }
    }
}

} // verus!
