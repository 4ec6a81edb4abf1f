//! The CPU register file: three regular register pairs and the irregular
//! accumulator/flags pair.
use vstd::prelude::*;

verus! {

/// A regular register pair of two 8-bit halves; `high` is the more significant byte.
#[derive(Clone, Copy, PartialEq, Eq, Structural)]
pub struct Register {
    pub low: u8,
    pub high: u8,
}

/// Selects a half of a register pair. `Both` is a sentinel that selects no half.
#[derive(Clone, Copy, PartialEq, Eq, Structural)]
pub enum RegisterPart {
    Low,
    High,
    Both,
}

impl Register {
    /// The 16-bit value of the pair.
    pub open spec fn combined(self) -> u16 {
        (self.high as int * 256 + self.low as int) as u16
    }

    /// The half that `part` selects.
    pub open spec fn part(self, part: RegisterPart) -> u8 {
        if part == RegisterPart::Low {
            self.low
        } else {
            self.high
        }
    }

    /// The pair after the half `part` is set to `data`.
    pub open spec fn with_part(self, part: RegisterPart, data: u8) -> Register {
        if part == RegisterPart::Low {
            Register { low: data, ..self }
        } else {
            Register { high: data, ..self }
        }
    }

    /// The pair that holds the word `data`.
    pub open spec fn of_word(data: u16) -> Register {
        Register { low: (data % 256) as u8, high: (data / 256) as u8 }
    }

    pub fn new() -> (r: Self)
        ensures
            r.low == 0,
            r.high == 0,
    {
        Register { low: 0, high: 0 }
    }

    pub fn get_part(&self, part: RegisterPart) -> (r: u8)
        requires
            part != RegisterPart::Both,
        ensures
            r == self.part(part),
    {
        match part {
            RegisterPart::Low => self.low,
            _ => self.high,
        }
    }

    pub fn set_part(&mut self, part: RegisterPart, data: u8)
        requires
            part != RegisterPart::Both,
        ensures
            *final(self) == old(self).with_part(part, data),
    {
        match part {
            RegisterPart::Low => self.low = data,
            _ => self.high = data,
        }
    }

    pub fn get_combined(&self) -> (r: u16)
        ensures
            r == self.combined(),
    {
        (self.high as u16) * 256 + (self.low as u16)
    }

    pub fn set_word(&mut self, data: u16)
        ensures
            *final(self) == Register::of_word(data),
            final(self).combined() == data,
    {
        self.low = (data % 256) as u8;
        self.high = (data / 256) as u8;
    }
}

/// The four condition flags.
#[derive(Clone, Copy, PartialEq, Eq, Structural)]
pub struct FlagRegister {
    pub zero_flag: bool,
    pub carry_flag: bool,
    pub n_flag: bool,
    pub h_flag: bool,
}

/// The characters that name a flag: zero, negate, half-carry and carry.
pub open spec fn is_flag_char(c: char) -> bool {
    c == 'z' || c == 'n' || c == 'h' || c == 'c'
}

impl FlagRegister {
    /// The byte view: bit 7 zero, bit 6 negate, bit 5 half-carry, bit 4 carry, bits 0-3 clear.
    pub open spec fn byte(self) -> u8 {
        ((if self.zero_flag { 0x80int } else { 0 }) + (if self.n_flag { 0x40int } else { 0 }) + (
        if self.h_flag { 0x20int } else { 0 }) + (if self.carry_flag { 0x10int } else { 0 })) as u8
    }

    /// The flags that the byte `data` encodes; its low nibble is ignored.
    pub open spec fn of_byte(data: u8) -> FlagRegister {
        FlagRegister {
            zero_flag: data & 0x80 != 0,
            n_flag: data & 0x40 != 0,
            h_flag: data & 0x20 != 0,
            carry_flag: data & 0x10 != 0,
        }
    }

    /// The flag that `c` names.
    pub open spec fn flag(self, c: char) -> bool {
        if c == 'z' {
            self.zero_flag
        } else if c == 'n' {
            self.n_flag
        } else if c == 'h' {
            self.h_flag
        } else {
            self.carry_flag
        }
    }

    /// The flags after the one that `c` names is set to `val`.
    pub open spec fn with_flag(self, c: char, val: bool) -> FlagRegister {
        if c == 'z' {
            FlagRegister { zero_flag: val, ..self }
        } else if c == 'n' {
            FlagRegister { n_flag: val, ..self }
        } else if c == 'h' {
            FlagRegister { h_flag: val, ..self }
        } else {
            FlagRegister { carry_flag: val, ..self }
        }
    }

    pub fn new() -> (r: Self)
        ensures
            !r.zero_flag && !r.carry_flag && !r.n_flag && !r.h_flag,
    {
        FlagRegister { zero_flag: false, carry_flag: false, n_flag: false, h_flag: false }
    }

    pub fn get(&self, c: char) -> (r: bool)
        requires
            is_flag_char(c),
        ensures
            r == self.flag(c),
    {
        if c == 'z' {
            self.zero_flag
        } else if c == 'n' {
            self.n_flag
        } else if c == 'h' {
            self.h_flag
        } else {
            self.carry_flag
        }
    }

    pub fn set(&mut self, c: char)
        requires
            is_flag_char(c),
        ensures
            *final(self) == old(self).with_flag(c, true),
    {
        self.update(c, true);
    }

    pub fn clear(&mut self, c: char)
        requires
            is_flag_char(c),
        ensures
            *final(self) == old(self).with_flag(c, false),
    {
        self.update(c, false);
    }

    pub fn update(&mut self, c: char, val: bool)
        requires
            is_flag_char(c),
        ensures
            *final(self) == old(self).with_flag(c, val),
    {
        if c == 'z' {
            self.zero_flag = val;
        } else if c == 'n' {
            self.n_flag = val;
        } else if c == 'h' {
            self.h_flag = val;
        } else {
            self.carry_flag = val;
        }
    }

    pub fn from_byte(&mut self, data: u8)
        ensures
            *final(self) == FlagRegister::of_byte(data),
    {
        self.zero_flag = data & 0x80 != 0;
        self.n_flag = data & 0x40 != 0;
        self.h_flag = data & 0x20 != 0;
        self.carry_flag = data & 0x10 != 0;
    }

    pub fn to_byte(&self) -> (r: u8)
        ensures
            r == self.byte(),
    {
        let mut result: u8 = 0;
        if self.zero_flag {
            result = result + 0x80;
        }
        if self.n_flag {
            result = result + 0x40;
        }
        if self.h_flag {
            result = result + 0x20;
        }
        if self.carry_flag {
            result = result + 0x10;
        }
        result
    }
}

/// Reading back the flags byte after writing any byte keeps its top nibble and
/// clears the bottom one; writing back the byte view keeps every flag.
pub proof fn lemma_flags_byte_round_trip(data: u8, f: FlagRegister)
    ensures
        FlagRegister::of_byte(data).byte() == data & 0xF0,
        FlagRegister::of_byte(f.byte()) == f,
{
    let z = data & 0x80 != 0;
    let n = data & 0x40 != 0;
    let h = data & 0x20 != 0;
    let c = data & 0x10 != 0;
    assert(((if z { 0x80int } else { 0 }) + (if n { 0x40int } else { 0 }) + (if h { 0x20int } else { 0 })
        + (if c { 0x10int } else { 0 })) as u8 == data & 0xF0) by (bit_vector)
        requires
            z == (data & 0x80 != 0),
            n == (data & 0x40 != 0),
            h == (data & 0x20 != 0),
            c == (data & 0x10 != 0),
    ;
    let b = f.byte();
    let (fz, fn_, fh, fc) = (f.zero_flag, f.n_flag, f.h_flag, f.carry_flag);
    assert(((b & 0x80 != 0) == fz) && ((b & 0x40 != 0) == fn_) && ((b & 0x20 != 0) == fh) && ((b
        & 0x10 != 0) == fc)) by (bit_vector)
        requires
            b == ((if fz { 0x80int } else { 0 }) + (if fn_ { 0x40int } else { 0 }) + (if fh {
                0x20int
            } else {
                0
            }) + (if fc { 0x10int } else { 0 })) as u8,
    ;
}

/// The accumulator/flags pair: its high half is the accumulator, its low half
/// is the byte view of the flags.
#[derive(Clone, Copy, PartialEq, Eq, Structural)]
pub struct AFRegister {
    pub a: u8,
    pub flags: FlagRegister,
}

impl AFRegister {
    /// The 16-bit value of the pair.
    pub open spec fn combined(self) -> u16 {
        (self.a as int * 256 + self.flags.byte() as int) as u16
    }

    /// The half that `part` selects.
    pub open spec fn part(self, part: RegisterPart) -> u8 {
        if part == RegisterPart::Low {
            self.flags.byte()
        } else {
            self.a
        }
    }

    /// The pair after the half `part` is set to `data`.
    pub open spec fn with_part(self, part: RegisterPart, data: u8) -> AFRegister {
        if part == RegisterPart::Low {
            AFRegister { flags: FlagRegister::of_byte(data), ..self }
        } else {
            AFRegister { a: data, ..self }
        }
    }

    /// The pair after the word `data` is written to it.
    pub open spec fn of_word(data: u16) -> AFRegister {
        AFRegister { a: (data / 256) as u8, flags: FlagRegister::of_byte((data % 256) as u8) }
    }

    pub fn new() -> (r: Self)
        ensures
            r.a == 0,
            !r.flags.zero_flag && !r.flags.carry_flag && !r.flags.n_flag && !r.flags.h_flag,
            r.combined() == 0,
    {
        AFRegister { a: 0, flags: FlagRegister::new() }
    }

    pub fn set_word(&mut self, data: u16)
        ensures
            *final(self) == AFRegister::of_word(data),
    {
        self.flags.from_byte((data % 256) as u8);
        self.a = (data / 256) as u8;
    }

    pub fn get_part(&self, part: RegisterPart) -> (r: u8)
        requires
            part != RegisterPart::Both,
        ensures
            r == self.part(part),
    {
        match part {
            RegisterPart::Low => self.flags.to_byte(),
            _ => self.a,
        }
    }

    pub fn set_part(&mut self, part: RegisterPart, data: u8)
        requires
            part != RegisterPart::Both,
        ensures
            *final(self) == old(self).with_part(part, data),
    {
        match part {
            RegisterPart::Low => self.flags.from_byte(data),
            _ => self.a = data,
        }
    }

    pub fn get_combined(&self) -> (r: u16)
        ensures
            r == self.combined(),
    {
        (self.a as u16) * 256 + (self.flags.to_byte() as u16)
    }
}

} // verus!
