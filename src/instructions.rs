//! The two opcode tables and the execution of one decoded instruction.
use vstd::prelude::*;

use crate::alu::{
    add_offset_to_sp, add_sp8, daa8, decimal_adjust, add16, add8, add_bytes, add_words, and8, and_bytes, bit8, bit_mask, clear_zero, complement,
    cpl8, dec8, dec_byte, flags_of, inc8, inc_byte, or8, or_bytes, res8, reset_bit, rl8, rlc8,
    rotate_left, rotate_left_circular, rotate_right, rotate_right_circular, rr8, rrc8, set8,
    set_bit, shift_left_arithmetic, shift_right_arithmetic, shift_right_logical, sla8, sra8, srl8,
    sub8, sub_bytes, swap8, swap_nibbles, test_bit, with_zero_cleared, xor8, xor_bytes,
};
use crate::bus::{Bus, BusView, wrap16};
use crate::cpu::{CPU, Fault, Machine, Registers, checked_read, read_byte_checked};
use crate::registers::{AFRegister, FlagRegister, Register, RegisterPart};
use crate::sized::Sized;
use crate::target::Target;

verus! {

#[derive(Clone, Copy, PartialEq, Eq, Structural)]
pub enum Condition {
    Always,
    NonZero,
    Zero,
    NoCarry,
    Carry,
}

impl Condition {
    /// Whether the condition holds under the flags `f`.
    pub open spec fn holds(self, f: FlagRegister) -> bool {
        match self {
            Condition::Always => true,
            Condition::NonZero => !f.zero_flag,
            Condition::Zero => f.zero_flag,
            Condition::NoCarry => !f.carry_flag,
            Condition::Carry => f.carry_flag,
        }
    }

    /// The condition as written in an assembler operand; empty for an unconditional jump.
    pub fn as_str(&self) -> (r: &'static str)
        ensures
            *self == Condition::Always ==> r@ == ""@,
            *self == Condition::NonZero ==> r@ == "NZ"@,
            *self == Condition::Zero ==> r@ == "Z"@,
            *self == Condition::NoCarry ==> r@ == "NC"@,
            *self == Condition::Carry ==> r@ == "C"@,
    {
        match self {
            Condition::Always => "",
            Condition::NonZero => "NZ",
            Condition::Zero => "Z",
            Condition::NoCarry => "NC",
            Condition::Carry => "C",
        }
    }

    pub fn check(&self, f: &FlagRegister) -> (r: bool)
        ensures
            r == self.holds(*f),
    {
        match self {
            Condition::Always => true,
            Condition::NonZero => !f.zero_flag,
            Condition::Zero => f.zero_flag,
            Condition::NoCarry => !f.carry_flag,
            Condition::Carry => f.carry_flag,
        }
    }
}

#[derive(Clone, Copy, PartialEq, Eq, Structural)]
pub enum Operation {
    Nop,
    LD,
    Jmp(Condition),
    JmpRelative(Condition),
    Call(Condition),
    Ret(Condition),
    Reti,
    /// Call to the fixed address given.
    Rst(u8),
    Pop,
    Push,
    IncByte,
    IncWord,
    DecByte,
    DecWord,
    CPL,
    /// Set carry.
    Scf,
    /// Complement carry.
    Ccf,
    /// Rotates of the accumulator: as the extended-table rotates, but zero is cleared.
    Rlca,
    Rrca,
    Rla,
    Rra,
    /// 16-bit addition into HL.
    AddWord,
    /// Decimal adjustment of the accumulator.
    Daa,
    /// The stack pointer plus a signed offset, into the destination.
    AddSp,
    Rlc,
    Rrc,
    Rl,
    Rr,
    Sla,
    Sra,
    Swap,
    Srl,
    Bit(u8),
    ResetBit(u8),
    SetBit(u8),
    Add,
    Adc,
    Sub,
    Sbc,
    And,
    Xor,
    Or,
    Cp,
    DI,
    EI,
    /// Stop executing until an interrupt is pending.
    Halt,
    /// The escape to the extended table.
    Prefix,
    Illegal,
}

/// The signed value of an offset byte.
pub open spec fn signed_offset(b: u8) -> int {
    if b < 128 {
        b as int
    } else {
        b as int - 256
    }
}

/// `m` with the program counter set to `pc`.
pub open spec fn with_pc(m: Machine, pc: u16) -> Machine {
    Machine { cpu: CPU { pc: pc, ..m.cpu }, mem: m.mem }
}

/// `cpu` with HL moved by `step` (wrapping), when `step` is not 0.
pub open spec fn step_hl(cpu: CPU, step: int) -> CPU {
    if step == 0 {
        cpu
    } else {
        CPU { hl: Register::of_word(wrap16(cpu.hl.combined() + step + 0x10000)), ..cpu }
    }
}

/// `m` with the flags set to `f`.
pub open spec fn with_flags(m: Machine, f: FlagRegister) -> Machine {
    Machine { cpu: m.cpu.with_flags(f), mem: m.mem }
}

impl Operation {
    /// Control-flow operations set the program counter themselves.
    pub open spec fn advances_pc(self) -> bool {
        match self {
            Operation::Jmp(_) | Operation::JmpRelative(_) | Operation::Call(_) | Operation::Ret(_)
            | Operation::Reti | Operation::Rst(_) => false,
            _ => true,
        }
    }

    /// The effect of the operation on `m`, given the source value `src`, and the
    /// result to write to the destination. The program counter of `m` points just
    /// past the opcode.
    #[verifier::opaque]
    pub open spec fn apply(self, m: Machine, src: Sized) -> Result<(Machine, Sized), Fault> {
        let f = m.cpu.af.flags;
        let a = m.cpu.af.a;
        let v = src.byte_value();
        if self.is_byte_op() {
            let (r, fl) = self.byte_result(a, v, f);
            Ok((with_flags(m, fl), Sized::Byte(r)))
        } else if self.is_flow_op() {
            self.apply_flow(m, src)
        } else {
            self.apply_misc(m, src)
        }
    }

    /// The operations that move the program counter or the stack pointer.
    pub open spec fn is_flow_op(self) -> bool {
        match self {
            Operation::Jmp(_) | Operation::JmpRelative(_) | Operation::Call(_) | Operation::Ret(_)
            | Operation::Reti | Operation::Rst(_) | Operation::Pop | Operation::Push => true,
            _ => false,
        }
    }

    /// `apply` for jumps, calls, returns and stack transfers.
    pub open spec fn apply_flow(self, m: Machine, src: Sized) -> Result<(Machine, Sized), Fault> {
        let f = m.cpu.af.flags;
        let v = src.byte_value();
        let pc = m.cpu.pc;
        match self {
            Operation::Jmp(c) => Ok(
                (with_pc(m, if c.holds(f) { src.word_value() } else { wrap16(pc + 2) }), Sized::Zero),
            ),
            Operation::JmpRelative(c) => Ok(
                (
                    with_pc(
                        m,
                        if c.holds(f) {
                            wrap16(pc + 1 + signed_offset(v))
                        } else {
                            wrap16(pc + 1)
                        },
                    ),
                    Sized::Zero,
                ),
            ),
            Operation::Call(c) => if c.holds(f) {
                match CPU::push_spec(m, wrap16(pc + 2)) {
                    Ok(pushed) => Ok((with_pc(pushed, src.word_value()), Sized::Zero)),
                    Err(e) => Err(e),
                }
            } else {
                Ok((with_pc(m, wrap16(pc + 2)), Sized::Zero))
            },
            Operation::Ret(c) => if c.holds(f) {
                match CPU::pop_spec(m) {
                    Ok((popped, t)) => Ok((with_pc(popped, t), Sized::Zero)),
                    Err(e) => Err(e),
                }
            } else {
                Ok((m, Sized::Zero))
            },
            Operation::Rst(n) => match CPU::push_spec(m, pc) {
                Ok(pushed) => Ok((with_pc(pushed, n as u16), Sized::Zero)),
                Err(e) => Err(e),
            },
            Operation::Reti => match CPU::pop_spec(m) {
                Ok((popped, t)) => Ok(
                    (
                        Machine { cpu: CPU { pc: t, ime: true, ..popped.cpu }, mem: popped.mem },
                        Sized::Zero,
                    ),
                ),
                Err(e) => Err(e),
            },
            Operation::Pop => match CPU::pop_spec(m) {
                Ok((popped, t)) => Ok((popped, Sized::Word(t))),
                Err(e) => Err(e),
            },
            Operation::Push => match CPU::push_spec(m, src.word_value()) {
                Ok(pushed) => Ok((pushed, Sized::Zero)),
                Err(e) => Err(e),
            },
            _ => Ok((m, Sized::Zero)),
        }
    }

    /// `apply` for the remaining operations.
    pub open spec fn apply_misc(self, m: Machine, src: Sized) -> Result<(Machine, Sized), Fault> {
        let f = m.cpu.af.flags;
        let a = m.cpu.af.a;
        let v = src.byte_value();
        match self {
            Operation::LD => Ok((m, src)),
            Operation::IncWord => Ok((m, Sized::Word(wrap16(src.word_value() + 1)))),
            Operation::DecWord => Ok((m, Sized::Word(wrap16(src.word_value() - 1 + 0x10000)))),
            Operation::CPL => Ok(
                (
                    Machine {
                        cpu: CPU { af: AFRegister { a: cpl8(a, f).0, flags: cpl8(a, f).1 }, ..m.cpu },
                        mem: m.mem,
                    },
                    Sized::Zero,
                ),
            ),
            Operation::Scf => Ok((with_flags(m, flags_of(f.zero_flag, false, false, true)), Sized::Zero)),
            Operation::Ccf => Ok(
                (with_flags(m, flags_of(f.zero_flag, false, false, !f.carry_flag)), Sized::Zero),
            ),
            Operation::AddWord => Ok(
                (
                    with_flags(m, add16(m.cpu.hl.combined(), src.word_value(), f).1),
                    Sized::Word(add16(m.cpu.hl.combined(), src.word_value(), f).0),
                ),
            ),
            Operation::AddSp => Ok(
                (with_flags(m, add_sp8(m.cpu.sp, v).1), Sized::Word(add_sp8(m.cpu.sp, v).0)),
            ),
            Operation::Daa => Ok(
                (
                    Machine {
                        cpu: CPU { af: AFRegister { a: daa8(a, f).0, flags: daa8(a, f).1 }, ..m.cpu },
                        mem: m.mem,
                    },
                    Sized::Zero,
                ),
            ),
            Operation::Bit(b) => Ok((with_flags(m, bit8(b, v, f)), Sized::Zero)),
            Operation::ResetBit(b) => Ok((m, Sized::Byte(res8(b, v)))),
            Operation::SetBit(b) => Ok((m, Sized::Byte(set8(b, v)))),
            Operation::Cp => Ok((with_flags(m, sub8(a, v, false).1), Sized::Zero)),
            Operation::DI => Ok((Machine { cpu: CPU { ime: false, ..m.cpu }, mem: m.mem }, Sized::Zero)),
            Operation::Halt => Ok((Machine { cpu: CPU { halted: true, ..m.cpu }, mem: m.mem }, Sized::Zero)),
            Operation::EI => Ok((Machine { cpu: CPU { ime: true, ..m.cpu }, mem: m.mem }, Sized::Zero)),
            _ => Ok((m, Sized::Zero)),
        }
    }

    /// The operations that compute a byte result and new flags from the source
    /// byte, the accumulator and the flags alone.
    pub open spec fn is_byte_op(self) -> bool {
        match self {
            Operation::IncByte | Operation::DecByte | Operation::Rlc | Operation::Rrc
            | Operation::Rl | Operation::Rr | Operation::Sla | Operation::Sra | Operation::Swap
            | Operation::Srl | Operation::Add | Operation::Adc | Operation::Sub | Operation::Sbc
            | Operation::And | Operation::Xor | Operation::Or | Operation::Rlca | Operation::Rrca
            | Operation::Rla | Operation::Rra => true,
            _ => false,
        }
    }

    /// Result and flags of a byte operation on the source byte `v`, with the
    /// accumulator `a` and the flags `f`.
    pub open spec fn byte_result(self, a: u8, v: u8, f: FlagRegister) -> (u8, FlagRegister) {
        match self {
            Operation::IncByte => inc8(v, f),
            Operation::DecByte => dec8(v, f),
            Operation::Rlc => rlc8(v),
            Operation::Rrc => rrc8(v),
            Operation::Rl => rl8(v, f),
            Operation::Rr => rr8(v, f),
            Operation::Sla => sla8(v),
            Operation::Sra => sra8(v),
            Operation::Swap => swap8(v),
            Operation::Srl => srl8(v),
            Operation::Rlca => with_zero_cleared(rlc8(v)),
            Operation::Rrca => with_zero_cleared(rrc8(v)),
            Operation::Rla => with_zero_cleared(rl8(v, f)),
            Operation::Rra => with_zero_cleared(rr8(v, f)),
            Operation::Add => add8(a, v, false),
            Operation::Adc => add8(a, v, f.carry_flag),
            Operation::Sub => sub8(a, v, false),
            Operation::Sbc => sub8(a, v, f.carry_flag),
            Operation::And => and8(a, v),
            Operation::Xor => xor8(a, v),
            _ => or8(a, v),
        }
    }

    /// The width of the result for a source of width `w`.
    pub open spec fn result_size(self, w: nat) -> nat {
        if self.is_byte_op() {
            1
        } else {
            match self {
                Operation::LD => w,
                Operation::Pop | Operation::IncWord | Operation::DecWord | Operation::AddWord
                | Operation::AddSp => 2,
                Operation::ResetBit(_) | Operation::SetBit(_) => 1,
                _ => 0,
            }
        }
    }

    /// The width of the source value that the operation takes.
    pub open spec fn accepts(self, src: Sized) -> bool {
        match self {
            Operation::Jmp(_) | Operation::Call(_) | Operation::Push | Operation::IncWord
            | Operation::DecWord | Operation::AddWord => src.width() == 2,
            Operation::JmpRelative(_) | Operation::IncByte | Operation::DecByte | Operation::Rlc
            | Operation::Rrc | Operation::Rl | Operation::Rr | Operation::Sla | Operation::Sra
            | Operation::Swap | Operation::Srl | Operation::Bit(_) | Operation::ResetBit(_)
            | Operation::SetBit(_) | Operation::Add | Operation::Adc | Operation::Sub
            | Operation::Sbc | Operation::And | Operation::Xor | Operation::Or
            | Operation::Cp | Operation::Rlca | Operation::Rrca | Operation::Rla
            | Operation::Rra | Operation::AddSp => src.width() == 1,
            _ => true,
        }
    }

    /// The assembler mnemonic of the operation.
    pub fn mnemonic(&self) -> (r: &'static str)
        ensures
            *self is Nop ==> r@ == "NOP"@,
            *self is LD ==> r@ == "LD"@,
            *self is Jmp ==> r@ == "JP"@,
            *self is JmpRelative ==> r@ == "JR"@,
            *self is Call ==> r@ == "CALL"@,
            *self is Ret ==> r@ == "RET"@,
            *self is Rst ==> r@ == "RST"@,
            *self is Scf ==> r@ == "SCF"@,
            *self is Ccf ==> r@ == "CCF"@,
            *self is Rlca ==> r@ == "RLCA"@,
            *self is Rrca ==> r@ == "RRCA"@,
            *self is Rla ==> r@ == "RLA"@,
            *self is Rra ==> r@ == "RRA"@,
            *self is AddWord ==> r@ == "ADD"@,
            *self is Daa ==> r@ == "DAA"@,
            *self is AddSp ==> r@ == "ADD SP"@,
            *self is Reti ==> r@ == "RETI"@,
            *self is Pop ==> r@ == "POP"@,
            *self is Push ==> r@ == "PUSH"@,
            *self is IncByte ==> r@ == "INC"@,
            *self is IncWord ==> r@ == "INC"@,
            *self is DecByte ==> r@ == "DEC"@,
            *self is DecWord ==> r@ == "DEC"@,
            *self is CPL ==> r@ == "CPL"@,
            *self is Rlc ==> r@ == "RLC"@,
            *self is Rrc ==> r@ == "RRC"@,
            *self is Rl ==> r@ == "RL"@,
            *self is Rr ==> r@ == "RR"@,
            *self is Sla ==> r@ == "SLA"@,
            *self is Sra ==> r@ == "SRA"@,
            *self is Swap ==> r@ == "SWAP"@,
            *self is Srl ==> r@ == "SRL"@,
            *self is Bit ==> r@ == "BIT"@,
            *self is ResetBit ==> r@ == "RES"@,
            *self is SetBit ==> r@ == "SET"@,
            *self is Add ==> r@ == "ADD"@,
            *self is Adc ==> r@ == "ADC"@,
            *self is Sub ==> r@ == "SUB"@,
            *self is Sbc ==> r@ == "SBC"@,
            *self is And ==> r@ == "AND"@,
            *self is Xor ==> r@ == "XOR"@,
            *self is Or ==> r@ == "OR"@,
            *self is Cp ==> r@ == "CP"@,
            *self is DI ==> r@ == "DI"@,
            *self is EI ==> r@ == "EI"@,
            *self is Halt ==> r@ == "HALT"@,
            *self is Prefix ==> r@ == "PREFIX"@,
            *self is Illegal ==> r@ == "ILLEGAL"@,
    {
        match self {
            Operation::Nop => "NOP",
            Operation::LD => "LD",
            Operation::Jmp(_) => "JP",
            Operation::JmpRelative(_) => "JR",
            Operation::Call(_) => "CALL",
            Operation::Ret(_) => "RET",
            Operation::Rst(_) => "RST",
            Operation::Scf => "SCF",
            Operation::Ccf => "CCF",
            Operation::Rlca => "RLCA",
            Operation::Rrca => "RRCA",
            Operation::Rla => "RLA",
            Operation::Rra => "RRA",
            Operation::AddWord => "ADD",
            Operation::Daa => "DAA",
            Operation::AddSp => "ADD SP",
            Operation::Reti => "RETI",
            Operation::Pop => "POP",
            Operation::Push => "PUSH",
            Operation::IncByte => "INC",
            Operation::IncWord => "INC",
            Operation::DecByte => "DEC",
            Operation::DecWord => "DEC",
            Operation::CPL => "CPL",
            Operation::Rlc => "RLC",
            Operation::Rrc => "RRC",
            Operation::Rl => "RL",
            Operation::Rr => "RR",
            Operation::Sla => "SLA",
            Operation::Sra => "SRA",
            Operation::Swap => "SWAP",
            Operation::Srl => "SRL",
            Operation::Bit(_) => "BIT",
            Operation::ResetBit(_) => "RES",
            Operation::SetBit(_) => "SET",
            Operation::Add => "ADD",
            Operation::Adc => "ADC",
            Operation::Sub => "SUB",
            Operation::Sbc => "SBC",
            Operation::And => "AND",
            Operation::Xor => "XOR",
            Operation::Or => "OR",
            Operation::Cp => "CP",
            Operation::DI => "DI",
            Operation::EI => "EI",
            Operation::Halt => "HALT",
            Operation::Prefix => "PREFIX",
            Operation::Illegal => "ILLEGAL",
        }
    }

    pub fn should_advance_pc(&self) -> (r: bool)
        ensures
            r == self.advances_pc(),
    {
        match self {
            Operation::Jmp(_) | Operation::JmpRelative(_) | Operation::Call(_) | Operation::Ret(_)
            | Operation::Reti | Operation::Rst(_) => false,
            _ => true,
        }
    }

    /// Applies the operation to the CPU and bus; returns the value to write to the
    /// destination.
    pub fn execute(&self, bus: &mut Bus, cpu: &mut CPU, source: Sized) -> (r: Result<Sized, Fault>)
        requires
            old(bus).wf(),
            self.accepts(source),
            *self != Operation::Illegal,
            *self != Operation::Prefix,
        ensures
            final(bus).wf(),
            match self.apply(Machine { cpu: *old(cpu), mem: old(bus)@ }, source) {
                Ok((m, res)) => r == Ok::<Sized, Fault>(res) && *final(cpu) == m.cpu && final(bus)@
                    == m.mem && res.width() == self.result_size(source.width()),
                Err(f) => r == Err::<Sized, Fault>(f),
            },
    {
        reveal(Operation::apply);
        let f = cpu.af.flags;
        let a = cpu.af.a;
        if self.is_byte_operation() {
            let (r, fl) = self.compute_byte(a, source.as_byte(), f);
            cpu.af.flags = fl;
            return Ok(Sized::Byte(r));
        }
        if self.is_flow_operation() {
            self.execute_flow(bus, cpu, source)
        } else {
            self.execute_misc(bus, cpu, source)
        }
    }

    fn is_flow_operation(&self) -> (r: bool)
        ensures
            r == self.is_flow_op(),
    {
        match self {
            Operation::Jmp(_) | Operation::JmpRelative(_) | Operation::Call(_) | Operation::Ret(_)
            | Operation::Reti | Operation::Rst(_) | Operation::Pop | Operation::Push => true,
            _ => false,
        }
    }

    fn is_byte_operation(&self) -> (r: bool)
        ensures
            r == self.is_byte_op(),
    {
        match self {
            Operation::IncByte | Operation::DecByte | Operation::Rlc | Operation::Rrc
            | Operation::Rl | Operation::Rr | Operation::Sla | Operation::Sra | Operation::Swap
            | Operation::Srl | Operation::Add | Operation::Adc | Operation::Sub | Operation::Sbc
            | Operation::And | Operation::Xor | Operation::Or | Operation::Rlca | Operation::Rrca
            | Operation::Rla | Operation::Rra => true,
            _ => false,
        }
    }

    fn execute_flow(&self, bus: &mut Bus, cpu: &mut CPU, source: Sized) -> (r: Result<Sized, Fault>)
        requires
            old(bus).wf(),
            self.accepts(source),
            self.is_flow_op(),
        ensures
            final(bus).wf(),
            match self.apply(Machine { cpu: *old(cpu), mem: old(bus)@ }, source) {
                Ok((m, res)) => r == Ok::<Sized, Fault>(res) && *final(cpu) == m.cpu && final(bus)@
                    == m.mem && res.width() == self.result_size(source.width()),
                Err(f) => r == Err::<Sized, Fault>(f),
            },
    {
        reveal(Operation::apply);
        let f = cpu.af.flags;
        let pc = cpu.pc;
        match self {
            Operation::Jmp(c) => {
                cpu.pc = if c.check(&f) {
                    source.as_word()
                } else {
                    pc.wrapping_add(2)
                };
                Ok(Sized::Zero)
            },
            Operation::JmpRelative(c) => {
                let next = pc.wrapping_add(1);
                let off = source.as_byte();
                cpu.pc = if c.check(&f) {
                    relative_target(next, off)
                } else {
                    next
                };
                Ok(Sized::Zero)
            },
            _ => self.execute_stack(bus, cpu, source),
        }
    }

    fn execute_stack(&self, bus: &mut Bus, cpu: &mut CPU, source: Sized) -> (r: Result<Sized, Fault>)
        requires
            old(bus).wf(),
            self.accepts(source),
            self.is_flow_op(),
            !(self is Jmp),
            !(self is JmpRelative),
        ensures
            final(bus).wf(),
            match self.apply(Machine { cpu: *old(cpu), mem: old(bus)@ }, source) {
                Ok((m, res)) => r == Ok::<Sized, Fault>(res) && *final(cpu) == m.cpu && final(bus)@
                    == m.mem && res.width() == self.result_size(source.width()),
                Err(f) => r == Err::<Sized, Fault>(f),
            },
    {
        reveal(Operation::apply);
        let f = cpu.af.flags;
        let pc = cpu.pc;
        match self {
            Operation::Call(c) => {
                if !c.check(&f) {
                    cpu.pc = pc.wrapping_add(2);
                    return Ok(Sized::Zero);
                }
                match cpu.push_word_to_stack(bus, pc.wrapping_add(2)) {
                    Ok(()) => {},
                    Err(e) => return Err(e),
                }
                cpu.pc = source.as_word();
                Ok(Sized::Zero)
            },
            Operation::Rst(n) => {
                match cpu.push_word_to_stack(bus, pc) {
                    Ok(()) => {},
                    Err(e) => return Err(e),
                }
                cpu.pc = *n as u16;
                Ok(Sized::Zero)
            },
            Operation::Ret(c) if !c.check(&f) => Ok(Sized::Zero),
            Operation::Ret(_) | Operation::Reti => {
                let t = match cpu.pop_word_from_stack(bus) {
                    Ok(t) => t,
                    Err(e) => return Err(e),
                };
                cpu.pc = t;
                if let Operation::Reti = self {
                    cpu.ime = true;
                }
                Ok(Sized::Zero)
            },
            Operation::Pop => match cpu.pop_word_from_stack(bus) {
                Ok(t) => Ok(Sized::Word(t)),
                Err(e) => Err(e),
            },
            Operation::Push => match cpu.push_word_to_stack(bus, source.as_word()) {
                Ok(()) => Ok(Sized::Zero),
                Err(e) => Err(e),
            },
            _ => Ok(Sized::Zero),
        }
    }

    fn execute_misc(&self, bus: &mut Bus, cpu: &mut CPU, source: Sized) -> (r: Result<Sized, Fault>)
        requires
            old(bus).wf(),
            self.accepts(source),
            !self.is_byte_op(),
            !self.is_flow_op(),
        ensures
            final(bus).wf(),
            match self.apply(Machine { cpu: *old(cpu), mem: old(bus)@ }, source) {
                Ok((m, res)) => r == Ok::<Sized, Fault>(res) && *final(cpu) == m.cpu && final(bus)@
                    == m.mem && res.width() == self.result_size(source.width()),
                Err(f) => r == Err::<Sized, Fault>(f),
            },
    {
        reveal(Operation::apply);
        let f = cpu.af.flags;
        let a = cpu.af.a;
        match self {
            Operation::LD => Ok(source),
            Operation::IncWord => Ok(Sized::Word(source.as_word().wrapping_add(1))),
            Operation::DecWord => Ok(Sized::Word(source.as_word().wrapping_sub(1))),
            Operation::CPL => {
                let (r, fl) = complement(a, f);
                cpu.af.a = r;
                cpu.af.flags = fl;
                Ok(Sized::Zero)
            },
            Operation::Scf => {
                cpu.af.flags = FlagRegister { n_flag: false, h_flag: false, carry_flag: true, ..f };
                Ok(Sized::Zero)
            },
            Operation::Ccf => {
                cpu.af.flags = FlagRegister {
                    n_flag: false,
                    h_flag: false,
                    carry_flag: !f.carry_flag,
                    ..f
                };
                Ok(Sized::Zero)
            },
            Operation::AddWord => {
                let (r, fl) = add_words(cpu.hl.get_combined(), source.as_word(), f);
                cpu.af.flags = fl;
                Ok(Sized::Word(r))
            },
            Operation::AddSp => {
                let (r, fl) = add_offset_to_sp(cpu.sp, source.as_byte());
                cpu.af.flags = fl;
                Ok(Sized::Word(r))
            },
            Operation::Daa => {
                let (r, fl) = decimal_adjust(a, f);
                cpu.af.a = r;
                cpu.af.flags = fl;
                Ok(Sized::Zero)
            },
            Operation::Bit(b) => {
                cpu.af.flags = test_bit(*b, source.as_byte(), f);
                Ok(Sized::Zero)
            },
            Operation::ResetBit(b) => Ok(Sized::Byte(reset_bit(*b, source.as_byte()))),
            Operation::SetBit(b) => Ok(Sized::Byte(set_bit(*b, source.as_byte()))),
            Operation::Cp => {
                let (_, fl) = sub_bytes(a, source.as_byte(), false);
                cpu.af.flags = fl;
                Ok(Sized::Zero)
            },
            Operation::DI => {
                cpu.ime = false;
                Ok(Sized::Zero)
            },
            Operation::Halt => {
                cpu.halted = true;
                Ok(Sized::Zero)
            },
            Operation::EI => {
                cpu.ime = true;
                Ok(Sized::Zero)
            },
            _ => Ok(Sized::Zero),
        }
    }


    fn compute_byte(&self, a: u8, v: u8, f: FlagRegister) -> (r: (u8, FlagRegister))
        requires
            self.is_byte_op(),
        ensures
            r == self.byte_result(a, v, f),
    {
        match self {
            Operation::IncByte => inc_byte(v, f),
            Operation::DecByte => dec_byte(v, f),
            Operation::Rlc => rotate_left_circular(v),
            Operation::Rrc => rotate_right_circular(v),
            Operation::Rl => rotate_left(v, f),
            Operation::Rr => rotate_right(v, f),
            Operation::Sla => shift_left_arithmetic(v),
            Operation::Sra => shift_right_arithmetic(v),
            Operation::Swap => swap_nibbles(v),
            Operation::Srl => shift_right_logical(v),
            Operation::Rlca => clear_zero(rotate_left_circular(v)),
            Operation::Rrca => clear_zero(rotate_right_circular(v)),
            Operation::Rla => clear_zero(rotate_left(v, f)),
            Operation::Rra => clear_zero(rotate_right(v, f)),
            Operation::Add => add_bytes(a, v, false),
            Operation::Adc => add_bytes(a, v, f.carry_flag),
            Operation::Sub => sub_bytes(a, v, false),
            Operation::Sbc => sub_bytes(a, v, f.carry_flag),
            Operation::And => and_bytes(a, v),
            Operation::Xor => xor_bytes(a, v),
            _ => or_bytes(a, v),
        }
    }
}

#[derive(Clone, Copy, PartialEq, Eq, Structural)]
pub struct Instruction {
    pub opcode: u8,
    pub op: Operation,
    pub source: Target,
    pub dest: Target,
    pub clock_cycles: u8,
    /// Opcode bytes: 1, or 2 behind the escape prefix.
    pub op_byte_len: u16,
}

/// The 8-bit operand selected by a 3-bit field: B, C, D, E, H, L, (HL), A.
pub open spec fn reg8(i: u8) -> Target {
    if i == 0 {
        Target::HalfRegister(Registers::BC, RegisterPart::High)
    } else if i == 1 {
        Target::HalfRegister(Registers::BC, RegisterPart::Low)
    } else if i == 2 {
        Target::HalfRegister(Registers::DE, RegisterPart::High)
    } else if i == 3 {
        Target::HalfRegister(Registers::DE, RegisterPart::Low)
    } else if i == 4 {
        Target::HalfRegister(Registers::HL, RegisterPart::High)
    } else if i == 5 {
        Target::HalfRegister(Registers::HL, RegisterPart::Low)
    } else if i == 6 {
        Target::IndirectRegister(Registers::HL)
    } else {
        Target::HalfRegister(Registers::AF, RegisterPart::High)
    }
}

/// The register pair selected by a 2-bit field for loads and arithmetic.
pub open spec fn reg16(i: u8) -> Registers {
    if i == 0 {
        Registers::BC
    } else if i == 1 {
        Registers::DE
    } else if i == 2 {
        Registers::HL
    } else {
        Registers::SP
    }
}

/// The register pair selected by a 2-bit field for push and pop.
pub open spec fn reg16_stack(i: u8) -> Registers {
    if i == 0 {
        Registers::BC
    } else if i == 1 {
        Registers::DE
    } else if i == 2 {
        Registers::HL
    } else {
        Registers::AF
    }
}

/// The jump condition selected by a 2-bit field.
pub open spec fn condition_of(i: u8) -> Condition {
    if i == 0 {
        Condition::NonZero
    } else if i == 1 {
        Condition::Zero
    } else if i == 2 {
        Condition::NoCarry
    } else {
        Condition::Carry
    }
}

/// The accumulator operation selected by a 3-bit field.
pub open spec fn alu_op(i: u8) -> Operation {
    if i == 0 {
        Operation::Add
    } else if i == 1 {
        Operation::Adc
    } else if i == 2 {
        Operation::Sub
    } else if i == 3 {
        Operation::Sbc
    } else if i == 4 {
        Operation::And
    } else if i == 5 {
        Operation::Xor
    } else if i == 6 {
        Operation::Or
    } else {
        Operation::Cp
    }
}

/// The rotate or shift selected by a 3-bit field of the extended table.
pub open spec fn rot_op(i: u8) -> Operation {
    if i == 0 {
        Operation::Rlc
    } else if i == 1 {
        Operation::Rrc
    } else if i == 2 {
        Operation::Rl
    } else if i == 3 {
        Operation::Rr
    } else if i == 4 {
        Operation::Sla
    } else if i == 5 {
        Operation::Sra
    } else if i == 6 {
        Operation::Swap
    } else {
        Operation::Srl
    }
}

/// The accumulator rotate selected by a 2-bit field.
pub open spec fn accumulator_rotate(i: u8) -> Operation {
    if i == 0 {
        Operation::Rlca
    } else if i == 1 {
        Operation::Rrca
    } else if i == 2 {
        Operation::Rla
    } else {
        Operation::Rra
    }
}

/// The accumulator as an operand.
pub open spec fn reg_a() -> Target {
    Target::HalfRegister(Registers::AF, RegisterPart::High)
}

/// A one-byte primary table entry.
pub open spec fn entry(opcode: u8, op: Operation, source: Target, dest: Target, cycles: u8) -> Instruction {
    Instruction { opcode, op, source, dest, clock_cycles: cycles, op_byte_len: 1 }
}

/// The primary table. Opcodes are read as three fields: `x` (bits 6-7),
/// `y` (bits 3-5), `z` (bits 0-2).
pub open spec fn primary_entry(op: u8) -> Instruction {
    let x = op / 64;
    let y = (op / 8) % 8;
    let z = op % 8;
    let none = Target::Empty;
    if x == 0 {
        primary_block0(op)
    } else if x == 1 {
        if y == 6 && z == 6 {
            entry(op, Operation::Halt, none, none, 4)
        } else {
            entry(op, Operation::LD, reg8(z), reg8(y), if y == 6 || z == 6 { 8 } else { 4 })
        }
    } else if x == 2 {
        entry(
            op,
            alu_op(y),
            reg8(z),
            if y == 7 { none } else { reg_a() },
            if z == 6 { 8 } else { 4 },
        )
    } else {
        primary_block3(op)
    }
}

/// Primary entries with `x == 0`.
pub open spec fn primary_block0(op: u8) -> Instruction {
    let y = (op / 8) % 8;
    let z = op % 8;
    let none = Target::Empty;
    let illegal = entry(op, Operation::Illegal, none, none, 0);
    if z == 0 {
        if y == 0 {
            entry(op, Operation::Nop, none, none, 4)
        } else if y == 1 {
            entry(op, Operation::LD, Target::Register(Registers::SP), Target::IndirectImmediateWord, 20)
        } else if y == 3 {
            entry(op, Operation::JmpRelative(Condition::Always), Target::ImmediateByte, none, 12)
        } else if y >= 4 {
            entry(
                op,
                Operation::JmpRelative(condition_of((y - 4) as u8)),
                Target::ImmediateByte,
                none,
                12,
            )
        } else {
            illegal
        }
    } else if z == 1 {
        if y % 2 == 0 {
            entry(op, Operation::LD, Target::ImmediateWord, Target::Register(reg16(y / 2)), 12)
        } else {
            entry(
                op,
                Operation::AddWord,
                Target::Register(reg16(y / 2)),
                Target::Register(Registers::HL),
                8,
            )
        }
    } else if z == 2 {
        if y == 0 {
            entry(op, Operation::LD, reg_a(), Target::IndirectRegister(Registers::BC), 8)
        } else if y == 1 {
            entry(op, Operation::LD, Target::IndirectRegister(Registers::BC), reg_a(), 8)
        } else if y == 2 {
            entry(op, Operation::LD, reg_a(), Target::IndirectRegister(Registers::DE), 8)
        } else if y == 3 {
            entry(op, Operation::LD, Target::IndirectRegister(Registers::DE), reg_a(), 8)
        } else if y == 4 {
            entry(op, Operation::LD, reg_a(), Target::IndirectHLIncrement, 8)
        } else if y == 5 {
            entry(op, Operation::LD, Target::IndirectHLIncrement, reg_a(), 8)
        } else if y == 6 {
            entry(op, Operation::LD, reg_a(), Target::IndirectHLDecrement, 8)
        } else {
            entry(op, Operation::LD, Target::IndirectHLDecrement, reg_a(), 8)
        }
    } else if z == 3 {
        let t = Target::Register(reg16(y / 2));
        if y % 2 == 0 {
            entry(op, Operation::IncWord, t, t, 8)
        } else {
            entry(op, Operation::DecWord, t, t, 8)
        }
    } else if z == 4 {
        entry(op, Operation::IncByte, reg8(y), reg8(y), if y == 6 { 12 } else { 4 })
    } else if z == 5 {
        entry(op, Operation::DecByte, reg8(y), reg8(y), if y == 6 { 12 } else { 4 })
    } else if z == 6 {
        entry(op, Operation::LD, Target::ImmediateByte, reg8(y), if y == 6 { 12 } else { 8 })
    } else if y < 4 {
        entry(op, accumulator_rotate(y), reg_a(), reg_a(), 4)
    } else if y == 4 {
        entry(op, Operation::Daa, none, none, 4)
    } else if y == 5 {
        entry(op, Operation::CPL, none, none, 4)
    } else if y == 6 {
        entry(op, Operation::Scf, none, none, 4)
    } else {
        entry(op, Operation::Ccf, none, none, 4)
    }
}

/// Primary entries with `x == 3`.
pub open spec fn primary_block3(op: u8) -> Instruction {
    let y = (op / 8) % 8;
    let z = op % 8;
    let none = Target::Empty;
    let illegal = entry(op, Operation::Illegal, none, none, 0);
    if z == 0 {
        if y < 4 {
            entry(op, Operation::Ret(condition_of(y)), none, none, 20)
        } else if y == 4 {
            entry(op, Operation::LD, reg_a(), Target::IndirectIOPort, 12)
        } else if y == 5 {
            entry(op, Operation::AddSp, Target::ImmediateByte, Target::Register(Registers::SP), 16)
        } else if y == 6 {
            entry(op, Operation::LD, Target::IndirectIOPort, reg_a(), 12)
        } else {
            entry(op, Operation::AddSp, Target::ImmediateByte, Target::Register(Registers::HL), 12)
        }
    } else if z == 1 {
        if y % 2 == 0 {
            entry(op, Operation::Pop, none, Target::Register(reg16_stack(y / 2)), 12)
        } else if y == 1 {
            entry(op, Operation::Ret(Condition::Always), none, none, 16)
        } else if y == 3 {
            entry(op, Operation::Reti, none, none, 16)
        } else if y == 5 {
            entry(op, Operation::Jmp(Condition::Always), Target::Register(Registers::HL), none, 4)
        } else {
            entry(op, Operation::LD, Target::Register(Registers::HL), Target::Register(Registers::SP), 8)
        }
    } else if z == 2 {
        if y < 4 {
            entry(op, Operation::Jmp(condition_of(y)), Target::ImmediateWord, none, 16)
        } else if y == 4 {
            entry(op, Operation::LD, reg_a(), Target::IndirectHighC, 8)
        } else if y == 5 {
            entry(op, Operation::LD, reg_a(), Target::IndirectImmediate, 16)
        } else if y == 6 {
            entry(op, Operation::LD, Target::IndirectHighC, reg_a(), 8)
        } else {
            entry(op, Operation::LD, Target::IndirectImmediate, reg_a(), 16)
        }
    } else if z == 3 {
        if y == 0 {
            entry(op, Operation::Jmp(Condition::Always), Target::ImmediateWord, none, 16)
        } else if y == 1 {
            entry(op, Operation::Prefix, none, none, 4)
        } else if y == 6 {
            entry(op, Operation::DI, none, none, 4)
        } else if y == 7 {
            entry(op, Operation::EI, none, none, 4)
        } else {
            illegal
        }
    } else if z == 4 {
        if y < 4 {
            entry(op, Operation::Call(condition_of(y)), Target::ImmediateWord, none, 24)
        } else {
            illegal
        }
    } else if z == 5 {
        if y % 2 == 0 {
            entry(op, Operation::Push, Target::Register(reg16_stack(y / 2)), none, 16)
        } else if y == 1 {
            entry(op, Operation::Call(Condition::Always), Target::ImmediateWord, none, 24)
        } else {
            illegal
        }
    } else if z == 6 {
        entry(op, alu_op(y), Target::ImmediateByte, if y == 7 { none } else { reg_a() }, 8)
    } else {
        entry(op, Operation::Rst((y * 8) as u8), none, none, 16)
    }
}

/// The extended table, reached through the escape prefix: rotates and shifts,
/// bit tests, bit resets and bit sets over the eight 8-bit operands.
pub open spec fn extended_entry(op: u8) -> Instruction {
    let x = op / 64;
    let y = (op / 8) % 8;
    let z = op % 8;
    let t = reg8(z);
    let (operation, dest, cycles) = if x == 0 {
        (rot_op(y), t, if z == 6 { 16u8 } else { 8u8 })
    } else if x == 1 {
        (Operation::Bit(y), Target::Empty, if z == 6 { 12u8 } else { 8u8 })
    } else if x == 2 {
        (Operation::ResetBit(y), t, if z == 6 { 16u8 } else { 8u8 })
    } else {
        (Operation::SetBit(y), t, if z == 6 { 16u8 } else { 8u8 })
    };
    Instruction { opcode: op, op: operation, source: t, dest, clock_cycles: cycles, op_byte_len: 2 }
}

/// The instruction at `pc`: the escape prefix selects the extended table for the
/// next byte; an opcode without a primary entry is a fault.
pub open spec fn decode_at(mem: BusView, pc: u16) -> Result<Instruction, Fault> {
    match checked_read(mem, pc) {
        Err(f) => Err(f),
        Ok(op) => {
            if primary_entry(op).op == Operation::Prefix {
                match checked_read(mem, wrap16(pc + 1)) {
                    Err(f) => Err(f),
                    Ok(ext) => Ok(extended_entry(ext)),
                }
            } else if primary_entry(op).op == Operation::Illegal {
                Err(Fault::UnimplementedOpcode(op))
            } else {
                Ok(primary_entry(op))
            }
        },
    }
}

/// Decoding reads only the opcode bytes: the same bytes decode to the same
/// instruction, at any address and whatever else the bus holds.
pub proof fn lemma_decode_deterministic(m1: BusView, pc1: u16, m2: BusView, pc2: u16)
    requires
        checked_read(m1, pc1) is Ok,
        checked_read(m1, pc1) == checked_read(m2, pc2),
        checked_read(m1, wrap16(pc1 + 1)) is Ok,
        checked_read(m1, wrap16(pc1 + 1)) == checked_read(m2, wrap16(pc2 + 1)),
    ensures
        decode_at(m1, pc1) == decode_at(m2, pc2),
{
}

/// A bit test sets the zero flag exactly when the tested bit is clear, always sets
/// half-carry, clears negate, keeps carry, and writes nothing back.
pub proof fn lemma_bit_test_flags(b: u8, m: Machine, src: Sized)
    requires
        src.width() == 1,
    ensures
        Operation::Bit(b).apply(m, src) is Ok,
        Operation::Bit(b).apply(m, src)->Ok_0.1 == Sized::Zero,
        Operation::Bit(b).apply(m, src)->Ok_0.0.mem == m.mem,
        Operation::Bit(b).apply(m, src)->Ok_0.0.cpu.af.flags == crate::alu::flags_of(
            src.byte_value() & bit_mask(b) == 0,
            false,
            true,
            m.cpu.af.flags.carry_flag,
        ),
{
    reveal(Operation::apply);
}

impl Instruction {
    /// The instruction's shape fits its operation: operand widths agree and the
    /// destination can be written.
    pub open spec fn wf(self) -> bool {
        let s = self.source;
        let d = self.dest;
        let none = Target::Empty;
        &&& s.valid()
        &&& d.valid()
        &&& (d == none || d.writable())
        &&& 1 <= self.op_byte_len <= 2
        &&& (s.hl_step() == 0 || d.hl_step() == 0)
        &&& match self.op {
            Operation::LD => s.size() == d.size() && s.size() > 0,
            Operation::Jmp(c) => d == none && (s == Target::ImmediateWord || c == Condition::Always
                && s == Target::Register(Registers::HL)),
            Operation::Call(_) => s == Target::ImmediateWord && d == none,
            Operation::AddWord => s.size() == 2 && d == Target::Register(Registers::HL),
            Operation::AddSp => s == Target::ImmediateByte && (d == Target::Register(Registers::SP)
                || d == Target::Register(Registers::HL)),
            Operation::JmpRelative(_) => s == Target::ImmediateByte && d == none,
            Operation::Nop | Operation::Ret(_) | Operation::Reti | Operation::Rst(_)
            | Operation::CPL | Operation::Scf | Operation::Ccf | Operation::DI | Operation::EI
            | Operation::Halt | Operation::Daa => s == none && d == none,
            Operation::Pop => s == none && d.size() == 2,
            Operation::Push => s.size() == 2 && d == none,
            Operation::IncByte | Operation::DecByte | Operation::Rlc | Operation::Rrc
            | Operation::Rl | Operation::Rr | Operation::Sla | Operation::Sra | Operation::Swap
            | Operation::Srl | Operation::ResetBit(_) | Operation::SetBit(_) | Operation::Rlca
            | Operation::Rrca | Operation::Rla | Operation::Rra => s == d && s.size() == 1,
            Operation::IncWord | Operation::DecWord => s == d && s.size() == 2,
            Operation::Bit(_) | Operation::Cp => s.size() == 1 && d == none,
            Operation::Add | Operation::Adc | Operation::Sub | Operation::Sbc | Operation::And
            | Operation::Xor | Operation::Or => s.size() == 1 && d == reg_a(),
            _ => false,
        }
    }

    /// Executes the instruction on `m`, whose program counter points at its opcode:
    /// the counter first moves past the opcode bytes, then the source is read, the
    /// operation applied and the result written; unless the operation set the counter
    /// itself, it then moves past the operand bytes.
    pub open spec fn execute_spec(self, m: Machine) -> Result<Machine, Fault> {
        let m1 = with_pc(m, wrap16(m.cpu.pc + self.op_byte_len));
        let next = wrap16(m1.cpu.pc + self.source.operand_len() + self.dest.operand_len());
        match self.source.fetch_spec(m1) {
            Err(f) => Err(f),
            Ok(src) => match self.op.apply(m1, src) {
                Err(f) => Err(f),
                Ok((m2, res)) => match self.dest.write_spec(m2, res) {
                    Err(f) => Err(f),
                    Ok(m3) => {
                        let m4 = Machine {
                            cpu: step_hl(m3.cpu, self.source.hl_step() + self.dest.hl_step()),
                            mem: m3.mem,
                        };
                        if self.op.advances_pc() {
                            Ok(with_pc(m4, next))
                        } else {
                            Ok(m4)
                        }
                    },
                },
            },
        }
    }

    /// Decodes `op` in the primary table; an opcode without an entry is a fault.
    fn from_opcode(op: u8) -> (r: Result<Instruction, Fault>)
        ensures
            primary_entry(op).op == Operation::Illegal ==> r == Err::<Instruction, Fault>(
                Fault::UnimplementedOpcode(op),
            ),
            primary_entry(op).op != Operation::Illegal ==> r == Ok::<Instruction, Fault>(
                primary_entry(op),
            ),
            r matches Ok(i) ==> i.op != Operation::Prefix ==> i.wf(),
    {
        let entry = Instruction::table_entry(op);
        match entry.op {
            Operation::Illegal => Err(Fault::UnimplementedOpcode(op)),
            _ => Ok(entry),
        }
    }

    /// The primary table's row for `op`, `Illegal` where it has none.
    fn table_entry(op: u8) -> (r: Instruction)
        ensures
            r == primary_entry(op),
            r.op != Operation::Illegal && r.op != Operation::Prefix ==> r.wf(),
    {
        let x = op / 64;
        let y = (op / 8) % 8;
        let z = op % 8;
        let none = Target::Empty;
        if x == 0 {
            Instruction::from_block0(op)
        } else if x == 1 {
            if y == 6 && z == 6 {
                make_entry(op, Operation::Halt, none, none, 4)
            } else {
                make_entry(
                    op,
                    Operation::LD,
                    operand_from(z),
                    operand_from(y),
                    if y == 6 || z == 6 { 8 } else { 4 },
                )
            }
        } else if x == 2 {
            let a = Target::HalfRegister(Registers::AF, RegisterPart::High);
            make_entry(
                op,
                alu_from(y),
                operand_from(z),
                if y == 7 { none } else { a },
                if z == 6 { 8 } else { 4 },
            )
        } else {
            Instruction::from_block3(op)
        }
    }

    fn from_block0(op: u8) -> (r: Instruction)
        requires
            op / 64 == 0,
        ensures
            r == primary_block0(op),
            r.op != Operation::Illegal && r.op != Operation::Prefix ==> r.wf(),
    {
        let y = (op / 8) % 8;
        let z = op % 8;
        let none = Target::Empty;
        let illegal = make_entry(op, Operation::Illegal, none, none, 0);
        let a = Target::HalfRegister(Registers::AF, RegisterPart::High);
        if z == 0 {
            if y == 0 {
                make_entry(op, Operation::Nop, none, none, 4)
            } else if y == 1 {
                make_entry(op, Operation::LD, Target::Register(Registers::SP), Target::IndirectImmediateWord, 20)
            } else if y == 3 {
                make_entry(op, Operation::JmpRelative(Condition::Always), Target::ImmediateByte, none, 12)
            } else if y >= 4 {
                make_entry(
                    op,
                    Operation::JmpRelative(condition_from(y - 4)),
                    Target::ImmediateByte,
                    none,
                    12,
                )
            } else {
                illegal
            }
        } else if z == 1 {
            if y % 2 == 0 {
                make_entry(op, Operation::LD, Target::ImmediateWord, Target::Register(pair_from(y / 2)), 12)
            } else {
                make_entry(
                    op,
                    Operation::AddWord,
                    Target::Register(pair_from(y / 2)),
                    Target::Register(Registers::HL),
                    8,
                )
            }
        } else if z == 2 {
            if y == 0 {
                make_entry(op, Operation::LD, a, Target::IndirectRegister(Registers::BC), 8)
            } else if y == 1 {
                make_entry(op, Operation::LD, Target::IndirectRegister(Registers::BC), a, 8)
            } else if y == 2 {
                make_entry(op, Operation::LD, a, Target::IndirectRegister(Registers::DE), 8)
            } else if y == 3 {
                make_entry(op, Operation::LD, Target::IndirectRegister(Registers::DE), a, 8)
            } else if y == 4 {
                make_entry(op, Operation::LD, a, Target::IndirectHLIncrement, 8)
            } else if y == 5 {
                make_entry(op, Operation::LD, Target::IndirectHLIncrement, a, 8)
            } else if y == 6 {
                make_entry(op, Operation::LD, a, Target::IndirectHLDecrement, 8)
            } else {
                make_entry(op, Operation::LD, Target::IndirectHLDecrement, a, 8)
            }
        } else if z == 3 {
            let t = Target::Register(pair_from(y / 2));
            if y % 2 == 0 {
                make_entry(op, Operation::IncWord, t, t, 8)
            } else {
                make_entry(op, Operation::DecWord, t, t, 8)
            }
        } else if z == 4 {
            make_entry(op, Operation::IncByte, operand_from(y), operand_from(y), if y == 6 { 12 } else { 4 })
        } else if z == 5 {
            make_entry(op, Operation::DecByte, operand_from(y), operand_from(y), if y == 6 { 12 } else { 4 })
        } else if z == 6 {
            make_entry(op, Operation::LD, Target::ImmediateByte, operand_from(y), if y == 6 { 12 } else { 8 })
        } else if y < 4 {
            make_entry(op, accumulator_rotate_from(y), a, a, 4)
        } else if y == 4 {
            make_entry(op, Operation::Daa, none, none, 4)
        } else if y == 5 {
            make_entry(op, Operation::CPL, none, none, 4)
        } else if y == 6 {
            make_entry(op, Operation::Scf, none, none, 4)
        } else {
            make_entry(op, Operation::Ccf, none, none, 4)
        }
    }

    fn from_block3(op: u8) -> (r: Instruction)
        requires
            op / 64 == 3,
        ensures
            r == primary_block3(op),
            r.op != Operation::Illegal && r.op != Operation::Prefix ==> r.wf(),
    {
        let y = (op / 8) % 8;
        let z = op % 8;
        let none = Target::Empty;
        let illegal = make_entry(op, Operation::Illegal, none, none, 0);
        let a = Target::HalfRegister(Registers::AF, RegisterPart::High);
        if z == 0 {
            if y < 4 {
                make_entry(op, Operation::Ret(condition_from(y)), none, none, 20)
            } else if y == 4 {
                make_entry(op, Operation::LD, a, Target::IndirectIOPort, 12)
            } else if y == 5 {
                make_entry(op, Operation::AddSp, Target::ImmediateByte, Target::Register(Registers::SP), 16)
            } else if y == 6 {
                make_entry(op, Operation::LD, Target::IndirectIOPort, a, 12)
            } else {
                make_entry(op, Operation::AddSp, Target::ImmediateByte, Target::Register(Registers::HL), 12)
            }
        } else if z == 1 {
            if y % 2 == 0 {
                make_entry(op, Operation::Pop, none, Target::Register(stack_pair_from(y / 2)), 12)
            } else if y == 1 {
                make_entry(op, Operation::Ret(Condition::Always), none, none, 16)
            } else if y == 3 {
                make_entry(op, Operation::Reti, none, none, 16)
            } else if y == 5 {
                make_entry(op, Operation::Jmp(Condition::Always), Target::Register(Registers::HL), none, 4)
            } else {
                make_entry(op, Operation::LD, Target::Register(Registers::HL), Target::Register(Registers::SP), 8)
            }
        } else if z == 2 {
            if y < 4 {
                make_entry(op, Operation::Jmp(condition_from(y)), Target::ImmediateWord, none, 16)
            } else if y == 4 {
                make_entry(op, Operation::LD, a, Target::IndirectHighC, 8)
            } else if y == 5 {
                make_entry(op, Operation::LD, a, Target::IndirectImmediate, 16)
            } else if y == 6 {
                make_entry(op, Operation::LD, Target::IndirectHighC, a, 8)
            } else {
                make_entry(op, Operation::LD, Target::IndirectImmediate, a, 16)
            }
        } else if z == 3 {
            if y == 0 {
                make_entry(op, Operation::Jmp(Condition::Always), Target::ImmediateWord, none, 16)
            } else if y == 1 {
                make_entry(op, Operation::Prefix, none, none, 4)
            } else if y == 6 {
                make_entry(op, Operation::DI, none, none, 4)
            } else if y == 7 {
                make_entry(op, Operation::EI, none, none, 4)
            } else {
                illegal
            }
        } else if z == 4 {
            if y < 4 {
                make_entry(op, Operation::Call(condition_from(y)), Target::ImmediateWord, none, 24)
            } else {
                illegal
            }
        } else if z == 5 {
            if y % 2 == 0 {
                make_entry(op, Operation::Push, Target::Register(stack_pair_from(y / 2)), none, 16)
            } else if y == 1 {
                make_entry(op, Operation::Call(Condition::Always), Target::ImmediateWord, none, 24)
            } else {
                illegal
            }
        } else if z == 6 {
            make_entry(op, alu_from(y), Target::ImmediateByte, if y == 7 { none } else { a }, 8)
        } else {
            make_entry(op, Operation::Rst(y * 8), none, none, 16)
        }
    }

    fn from_extended_opcode(op: u8) -> (r: Instruction)
        ensures
            r == extended_entry(op),
            r.wf(),
    {
        let x = op / 64;
        let y = (op / 8) % 8;
        let z = op % 8;
        let t = operand_from(z);
        let (operation, dest, cycles) = if x == 0 {
            (rotation_from(y), t, if z == 6 { 16u8 } else { 8u8 })
        } else if x == 1 {
            (Operation::Bit(y), Target::Empty, if z == 6 { 12u8 } else { 8u8 })
        } else if x == 2 {
            (Operation::ResetBit(y), t, if z == 6 { 16u8 } else { 8u8 })
        } else {
            (Operation::SetBit(y), t, if z == 6 { 16u8 } else { 8u8 })
        };
        Instruction { opcode: op, op: operation, source: t, dest, clock_cycles: cycles, op_byte_len: 2 }
    }

    /// Decodes the instruction at the program counter.
    pub fn fetch_new(bus: &Bus, cpu: &CPU) -> (r: Result<Instruction, Fault>)
        requires
            bus.wf(),
        ensures
            r == decode_at(bus@, cpu.pc),
            r matches Ok(i) ==> i.wf(),
    {
        let op = match read_byte_checked(bus, cpu.pc) {
            Ok(op) => op,
            Err(f) => return Err(f),
        };
        let primary = match Instruction::from_opcode(op) {
            Ok(i) => i,
            Err(f) => return Err(f),
        };
        match primary.op {
            Operation::Prefix => match read_byte_checked(bus, cpu.pc.wrapping_add(1)) {
                Ok(ext) => Ok(Instruction::from_extended_opcode(ext)),
                Err(f) => Err(f),
            },
            _ => Ok(primary),
        }
    }

    /// Executes the instruction, whose opcode is at the program counter; returns the
    /// number of clock cycles it costs.
    pub fn execute(self, bus: &mut Bus, cpu: &mut CPU) -> (r: Result<u8, Fault>)
        requires
            old(bus).wf(),
            self.wf(),
        ensures
            final(bus).wf(),
            match self.execute_spec(Machine { cpu: *old(cpu), mem: old(bus)@ }) {
                Ok(m) => r == Ok::<u8, Fault>(self.clock_cycles) && *final(cpu) == m.cpu
                    && final(bus)@ == m.mem,
                Err(f) => r == Err::<u8, Fault>(f),
            },
    {
        cpu.pc = cpu.pc.wrapping_add(self.op_byte_len);
        let operand_len = operand_length(self.source) + operand_length(self.dest);
        let next = cpu.pc.wrapping_add(operand_len);
        let source = match self.source.fetch(bus, cpu) {
            Ok(s) => s,
            Err(f) => return Err(f),
        };
        let result = match self.op.execute(bus, cpu, source) {
            Ok(res) => res,
            Err(f) => return Err(f),
        };
        match self.dest.write(bus, cpu, result) {
            Ok(()) => {},
            Err(f) => return Err(f),
        }
        move_hl(cpu, self.source.hl_adjustment() + self.dest.hl_adjustment());
        if self.op.should_advance_pc() {
            cpu.pc = next;
        }
        Ok(self.clock_cycles)
    }
}

fn relative_target(next: u16, off: u8) -> (r: u16)
    ensures
        r == wrap16(next + signed_offset(off)),
{
    if off < 128 {
        next.wrapping_add(off as u16)
    } else {
        next.wrapping_sub(256 - off as u16)
    }
}

/// Moves HL by `step`, one of -1, 0 and 1.
fn move_hl(cpu: &mut CPU, step: i8)
    requires
        -1 <= step <= 1,
    ensures
        *final(cpu) == step_hl(*old(cpu), step as int),
{
    let hl = cpu.hl.get_combined();
    if step == 1 {
        cpu.hl.set_word(hl.wrapping_add(1));
    } else if step == -1 {
        cpu.hl.set_word(hl.wrapping_sub(1));
    }
}

fn make_entry(opcode: u8, op: Operation, source: Target, dest: Target, cycles: u8) -> (r: Instruction)
    ensures
        r == entry(opcode, op, source, dest, cycles),
{
    Instruction { opcode, op, source, dest, clock_cycles: cycles, op_byte_len: 1 }
}

fn operand_length(t: Target) -> (r: u16)
    ensures
        r == t.operand_len(),
{
    match t {
        Target::ImmediateByte | Target::IndirectIOPort => 1,
        Target::ImmediateWord | Target::IndirectImmediate | Target::IndirectImmediateWord => 2,
        _ => 0,
    }
}

fn operand_from(i: u8) -> (r: Target)
    ensures
        r == reg8(i),
{
    if i == 0 {
        Target::HalfRegister(Registers::BC, RegisterPart::High)
    } else if i == 1 {
        Target::HalfRegister(Registers::BC, RegisterPart::Low)
    } else if i == 2 {
        Target::HalfRegister(Registers::DE, RegisterPart::High)
    } else if i == 3 {
        Target::HalfRegister(Registers::DE, RegisterPart::Low)
    } else if i == 4 {
        Target::HalfRegister(Registers::HL, RegisterPart::High)
    } else if i == 5 {
        Target::HalfRegister(Registers::HL, RegisterPart::Low)
    } else if i == 6 {
        Target::IndirectRegister(Registers::HL)
    } else {
        Target::HalfRegister(Registers::AF, RegisterPart::High)
    }
}

fn pair_from(i: u8) -> (r: Registers)
    ensures
        r == reg16(i),
{
    if i == 0 {
        Registers::BC
    } else if i == 1 {
        Registers::DE
    } else if i == 2 {
        Registers::HL
    } else {
        Registers::SP
    }
}

fn stack_pair_from(i: u8) -> (r: Registers)
    ensures
        r == reg16_stack(i),
{
    if i == 0 {
        Registers::BC
    } else if i == 1 {
        Registers::DE
    } else if i == 2 {
        Registers::HL
    } else {
        Registers::AF
    }
}

fn condition_from(i: u8) -> (r: Condition)
    ensures
        r == condition_of(i),
{
    if i == 0 {
        Condition::NonZero
    } else if i == 1 {
        Condition::Zero
    } else if i == 2 {
        Condition::NoCarry
    } else {
        Condition::Carry
    }
}

fn alu_from(i: u8) -> (r: Operation)
    ensures
        r == alu_op(i),
{
    if i == 0 {
        Operation::Add
    } else if i == 1 {
        Operation::Adc
    } else if i == 2 {
        Operation::Sub
    } else if i == 3 {
        Operation::Sbc
    } else if i == 4 {
        Operation::And
    } else if i == 5 {
        Operation::Xor
    } else if i == 6 {
        Operation::Or
    } else {
        Operation::Cp
    }
}

fn accumulator_rotate_from(i: u8) -> (r: Operation)
    ensures
        r == accumulator_rotate(i),
{
    if i == 0 {
        Operation::Rlca
    } else if i == 1 {
        Operation::Rrca
    } else if i == 2 {
        Operation::Rla
    } else {
        Operation::Rra
    }
}

fn rotation_from(i: u8) -> (r: Operation)
    ensures
        r == rot_op(i),
{
    if i == 0 {
        Operation::Rlc
    } else if i == 1 {
        Operation::Rrc
    } else if i == 2 {
        Operation::Rl
    } else if i == 3 {
        Operation::Rr
    } else if i == 4 {
        Operation::Sla
    } else if i == 5 {
        Operation::Sra
    } else if i == 6 {
        Operation::Swap
    } else {
        Operation::Srl
    }
}

} // verus!
