//! Value and flag semantics of the 8-bit and 16-bit operations.
use vstd::prelude::*;

use crate::registers::FlagRegister;

verus! {

/// The flags after an operation: each given explicitly.
pub open spec fn flags_of(z: bool, n: bool, h: bool, c: bool) -> FlagRegister {
    FlagRegister { zero_flag: z, n_flag: n, h_flag: h, carry_flag: c }
}

/// The single-bit mask of bit `b` (0..=7).
pub open spec fn bit_mask(b: u8) -> u8 {
    if b == 0 {
        1
    } else if b == 1 {
        2
    } else if b == 2 {
        4
    } else if b == 3 {
        8
    } else if b == 4 {
        16
    } else if b == 5 {
        32
    } else if b == 6 {
        64
    } else {
        128
    }
}

/// Increment: wraps at 8 bits; zero, half-carry when the low nibble rolls over to 0,
/// negate cleared, carry kept.
pub open spec fn inc8(v: u8, f: FlagRegister) -> (u8, FlagRegister) {
    let r = if v == 255 { 0u8 } else { (v + 1) as u8 };
    (r, flags_of(r == 0, false, r % 16 == 0, f.carry_flag))
}

/// Decrement: wraps at 8 bits; zero, half-carry when the low nibble was 0,
/// negate set, carry kept.
pub open spec fn dec8(v: u8, f: FlagRegister) -> (u8, FlagRegister) {
    let r = if v == 0 { 255u8 } else { (v - 1) as u8 };
    (r, flags_of(r == 0, true, v % 16 == 0, f.carry_flag))
}

/// Complement of the accumulator: half-carry and negate set, zero and carry kept.
pub open spec fn cpl8(a: u8, f: FlagRegister) -> (u8, FlagRegister) {
    ((255 - a) as u8, flags_of(f.zero_flag, true, true, f.carry_flag))
}

/// Rotate left circular: bit 7 goes to bit 0 and to carry.
pub open spec fn rlc8(v: u8) -> (u8, FlagRegister) {
    let r = ((v << 1u8) | (v >> 7u8)) as u8;
    (r, flags_of(r == 0, false, false, v >= 128))
}

/// Rotate right circular: bit 0 goes to bit 7 and to carry.
pub open spec fn rrc8(v: u8) -> (u8, FlagRegister) {
    let r = ((v >> 1u8) | (v << 7u8)) as u8;
    (r, flags_of(r == 0, false, false, v % 2 == 1))
}

/// Rotate left through carry: bit 7 goes to carry, the old carry to bit 0.
pub open spec fn rl8(v: u8, f: FlagRegister) -> (u8, FlagRegister) {
    let r = ((v << 1u8) | (if f.carry_flag { 1u8 } else { 0u8 })) as u8;
    (r, flags_of(r == 0, false, false, v >= 128))
}

/// Rotate right through carry: bit 0 goes to carry, the old carry to bit 7.
pub open spec fn rr8(v: u8, f: FlagRegister) -> (u8, FlagRegister) {
    let r = ((v >> 1u8) | (if f.carry_flag { 128u8 } else { 0u8 })) as u8;
    (r, flags_of(r == 0, false, false, v % 2 == 1))
}

/// Shift left arithmetic: bit 7 goes to carry, bit 0 becomes 0.
pub open spec fn sla8(v: u8) -> (u8, FlagRegister) {
    let r = (v << 1u8) as u8;
    (r, flags_of(r == 0, false, false, v >= 128))
}

/// Shift right arithmetic: bit 0 goes to carry, bit 7 is kept.
pub open spec fn sra8(v: u8) -> (u8, FlagRegister) {
    let r = ((v >> 1u8) | (v & 128u8)) as u8;
    (r, flags_of(r == 0, false, false, v % 2 == 1))
}

/// Shift right logical: bit 0 goes to carry, bit 7 becomes 0.
pub open spec fn srl8(v: u8) -> (u8, FlagRegister) {
    let r = (v >> 1u8) as u8;
    (r, flags_of(r == 0, false, false, v % 2 == 1))
}

/// Swap of the two nibbles: carry, half-carry and negate cleared.
pub open spec fn swap8(v: u8) -> (u8, FlagRegister) {
    let r = ((v << 4u8) | (v >> 4u8)) as u8;
    (r, flags_of(r == 0, false, false, false))
}

/// Bit test of bit `b`: zero when the bit is clear, half-carry set, negate cleared,
/// carry kept.
pub open spec fn bit8(b: u8, v: u8, f: FlagRegister) -> FlagRegister {
    flags_of(v & bit_mask(b) == 0, false, true, f.carry_flag)
}

/// `v` with bit `b` cleared.
pub open spec fn res8(b: u8, v: u8) -> u8 {
    v & !bit_mask(b)
}

/// `v` with bit `b` set.
pub open spec fn set8(b: u8, v: u8) -> u8 {
    v | bit_mask(b)
}

/// Addition with an incoming carry: half-carry out of bit 3, carry out of bit 7.
pub open spec fn add8(a: u8, v: u8, carry_in: bool) -> (u8, FlagRegister) {
    let c: int = if carry_in { 1 } else { 0 };
    let sum = a as int + v as int + c;
    let r = (sum % 256) as u8;
    (r, flags_of(r == 0, false, (a % 16) as int + (v % 16) as int + c > 15, sum > 255))
}

/// Subtraction with an incoming borrow: half-carry on a borrow from bit 4, carry on
/// a borrow out of bit 7.
pub open spec fn sub8(a: u8, v: u8, carry_in: bool) -> (u8, FlagRegister) {
    let c: int = if carry_in { 1 } else { 0 };
    let diff = a as int - v as int - c;
    let r = ((diff + 256) % 256) as u8;
    (r, flags_of(r == 0, true, ((a % 16) as int) < (v % 16) as int + c, diff < 0))
}

/// Bitwise and: half-carry set, negate and carry cleared.
pub open spec fn and8(a: u8, v: u8) -> (u8, FlagRegister) {
    let r = a & v;
    (r, flags_of(r == 0, false, true, false))
}

/// Bitwise exclusive or: all flags but zero cleared.
pub open spec fn xor8(a: u8, v: u8) -> (u8, FlagRegister) {
    let r = a ^ v;
    (r, flags_of(r == 0, false, false, false))
}

/// Bitwise or: all flags but zero cleared.
pub open spec fn or8(a: u8, v: u8) -> (u8, FlagRegister) {
    let r = a | v;
    (r, flags_of(r == 0, false, false, false))
}

/// A rotate's result with the zero flag cleared, as the accumulator rotates leave it.
pub open spec fn with_zero_cleared(r: (u8, FlagRegister)) -> (u8, FlagRegister) {
    (r.0, FlagRegister { zero_flag: false, ..r.1 })
}

/// 16-bit addition into HL: half-carry out of bit 11, carry out of bit 15, negate
/// cleared, zero kept.
pub open spec fn add16(hl: u16, v: u16, f: FlagRegister) -> (u16, FlagRegister) {
    let sum = hl as int + v as int;
    (
        (sum % 0x10000) as u16,
        flags_of(f.zero_flag, false, (hl % 0x1000) as int + (v % 0x1000) as int > 0xFFF, sum > 0xFFFF),
    )
}

/// Decimal adjustment of the accumulator after a BCD addition or subtraction: zero
/// set from the result, negate kept, half-carry cleared, carry set when the upper
/// digit needed adjusting after an addition, kept otherwise.
pub open spec fn daa8(a: u8, f: FlagRegister) -> (u8, FlagRegister) {
    if !f.n_flag {
        let high = f.carry_flag || a > 0x99;
        let low = f.h_flag || a % 16 > 9;
        let adj: int = (if high { 0x60int } else { 0 }) + (if low { 6int } else { 0 });
        let r = ((a as int + adj) % 256) as u8;
        (r, flags_of(r == 0, false, false, high))
    } else {
        let adj: int = (if f.carry_flag { 0x60int } else { 0 }) + (if f.h_flag { 6int } else { 0 });
        let r = ((a as int - adj + 256) % 256) as u8;
        (r, flags_of(r == 0, true, false, f.carry_flag))
    }
}

/// The stack pointer plus a signed offset byte: zero and negate cleared, half-carry
/// and carry out of bits 3 and 7 of the unsigned low-byte addition.
pub open spec fn add_sp8(sp: u16, e: u8) -> (u16, FlagRegister) {
    let offset: int = if e < 128 { e as int } else { e as int - 256 };
    (
        ((sp as int + offset + 0x10000) % 0x10000) as u16,
        flags_of(false, false, (sp % 16) as int + (e % 16) as int > 15, (sp % 256) as int + e as int > 255),
    )
}

pub fn decimal_adjust(a: u8, f: FlagRegister) -> (r: (u8, FlagRegister))
    ensures
        r == daa8(a, f),
{
    if !f.n_flag {
        let high = f.carry_flag || a > 0x99;
        let low = f.h_flag || a % 16 > 9;
        let adj: u16 = (if high { 0x60 } else { 0 }) + (if low { 6 } else { 0 });
        let r = ((a as u16 + adj) % 256) as u8;
        (r, FlagRegister { zero_flag: r == 0, n_flag: false, h_flag: false, carry_flag: high })
    } else {
        let adj: u16 = (if f.carry_flag { 0x60 } else { 0 }) + (if f.h_flag { 6 } else { 0 });
        let r = ((a as u16 + 256 - adj) % 256) as u8;
        (r, FlagRegister { zero_flag: r == 0, n_flag: true, h_flag: false, carry_flag: f.carry_flag })
    }
}

pub fn add_offset_to_sp(sp: u16, e: u8) -> (r: (u16, FlagRegister))
    ensures
        r == add_sp8(sp, e),
{
    let value: u16 = if e < 128 {
        sp.wrapping_add(e as u16)
    } else {
        sp.wrapping_sub(256 - e as u16)
    };
    let h = (sp % 16) + (e as u16 % 16) > 15;
    let c = (sp % 256) + e as u16 > 255;
    (value, FlagRegister { zero_flag: false, n_flag: false, h_flag: h, carry_flag: c })
}

pub fn clear_zero(r: (u8, FlagRegister)) -> (s: (u8, FlagRegister))
    ensures
        s == with_zero_cleared(r),
{
    (r.0, FlagRegister { zero_flag: false, ..r.1 })
}

pub fn add_words(hl: u16, v: u16, f: FlagRegister) -> (r: (u16, FlagRegister))
    ensures
        r == add16(hl, v, f),
{
    let sum: u32 = hl as u32 + v as u32;
    let h = (hl % 0x1000) + (v % 0x1000) > 0xFFF;
    (
        (sum % 0x10000) as u16,
        FlagRegister { zero_flag: f.zero_flag, n_flag: false, h_flag: h, carry_flag: sum > 0xFFFF },
    )
}

pub fn inc_byte(v: u8, f: FlagRegister) -> (r: (u8, FlagRegister))
    ensures
        r == inc8(v, f),
{
    let r = v.wrapping_add(1);
    (r, FlagRegister { zero_flag: r == 0, n_flag: false, h_flag: r % 16 == 0, carry_flag: f.carry_flag })
}

pub fn dec_byte(v: u8, f: FlagRegister) -> (r: (u8, FlagRegister))
    ensures
        r == dec8(v, f),
{
    let r = v.wrapping_sub(1);
    (r, FlagRegister { zero_flag: r == 0, n_flag: true, h_flag: v % 16 == 0, carry_flag: f.carry_flag })
}

pub fn complement(a: u8, f: FlagRegister) -> (r: (u8, FlagRegister))
    ensures
        r == cpl8(a, f),
{
    (255 - a, FlagRegister { zero_flag: f.zero_flag, n_flag: true, h_flag: true, carry_flag: f.carry_flag })
}

pub fn rotate_left_circular(v: u8) -> (r: (u8, FlagRegister))
    ensures
        r == rlc8(v),
{
    let r = (v << 1u8) | (v >> 7u8);
    (r, FlagRegister { zero_flag: r == 0, n_flag: false, h_flag: false, carry_flag: v >= 128 })
}

pub fn rotate_right_circular(v: u8) -> (r: (u8, FlagRegister))
    ensures
        r == rrc8(v),
{
    let r = (v >> 1u8) | (v << 7u8);
    (r, FlagRegister { zero_flag: r == 0, n_flag: false, h_flag: false, carry_flag: v % 2 == 1 })
}

pub fn rotate_left(v: u8, f: FlagRegister) -> (r: (u8, FlagRegister))
    ensures
        r == rl8(v, f),
{
    let r = (v << 1u8) | (if f.carry_flag { 1u8 } else { 0u8 });
    (r, FlagRegister { zero_flag: r == 0, n_flag: false, h_flag: false, carry_flag: v >= 128 })
}

pub fn rotate_right(v: u8, f: FlagRegister) -> (r: (u8, FlagRegister))
    ensures
        r == rr8(v, f),
{
    let r = (v >> 1u8) | (if f.carry_flag { 128u8 } else { 0u8 });
    (r, FlagRegister { zero_flag: r == 0, n_flag: false, h_flag: false, carry_flag: v % 2 == 1 })
}

pub fn shift_left_arithmetic(v: u8) -> (r: (u8, FlagRegister))
    ensures
        r == sla8(v),
{
    let r = v << 1u8;
    (r, FlagRegister { zero_flag: r == 0, n_flag: false, h_flag: false, carry_flag: v >= 128 })
}

pub fn shift_right_arithmetic(v: u8) -> (r: (u8, FlagRegister))
    ensures
        r == sra8(v),
{
    let r = (v >> 1u8) | (v & 128u8);
    (r, FlagRegister { zero_flag: r == 0, n_flag: false, h_flag: false, carry_flag: v % 2 == 1 })
}

pub fn shift_right_logical(v: u8) -> (r: (u8, FlagRegister))
    ensures
        r == srl8(v),
{
    let r = v >> 1u8;
    (r, FlagRegister { zero_flag: r == 0, n_flag: false, h_flag: false, carry_flag: v % 2 == 1 })
}

pub fn swap_nibbles(v: u8) -> (r: (u8, FlagRegister))
    ensures
        r == swap8(v),
{
    let r = (v << 4u8) | (v >> 4u8);
    (r, FlagRegister { zero_flag: r == 0, n_flag: false, h_flag: false, carry_flag: false })
}

pub fn mask_of_bit(b: u8) -> (r: u8)
    ensures
        r == bit_mask(b),
{
    if b == 0 {
        1
    } else if b == 1 {
        2
    } else if b == 2 {
        4
    } else if b == 3 {
        8
    } else if b == 4 {
        16
    } else if b == 5 {
        32
    } else if b == 6 {
        64
    } else {
        128
    }
}

pub fn test_bit(b: u8, v: u8, f: FlagRegister) -> (r: FlagRegister)
    ensures
        r == bit8(b, v, f),
{
    let m = mask_of_bit(b);
    FlagRegister { zero_flag: v & m == 0, n_flag: false, h_flag: true, carry_flag: f.carry_flag }
}

pub fn reset_bit(b: u8, v: u8) -> (r: u8)
    ensures
        r == res8(b, v),
{
    v & !mask_of_bit(b)
}

pub fn set_bit(b: u8, v: u8) -> (r: u8)
    ensures
        r == set8(b, v),
{
    v | mask_of_bit(b)
}

pub fn add_bytes(a: u8, v: u8, carry_in: bool) -> (r: (u8, FlagRegister))
    ensures
        r == add8(a, v, carry_in),
{
    let c: u16 = if carry_in { 1 } else { 0 };
    let sum: u16 = a as u16 + v as u16 + c;
    let r = (sum % 256) as u8;
    let h = (a % 16) as u16 + (v % 16) as u16 + c > 15;
    (r, FlagRegister { zero_flag: r == 0, n_flag: false, h_flag: h, carry_flag: sum > 255 })
}

pub fn sub_bytes(a: u8, v: u8, carry_in: bool) -> (r: (u8, FlagRegister))
    ensures
        r == sub8(a, v, carry_in),
{
    let c: u16 = if carry_in { 1 } else { 0 };
    let borrow = (a as u16) < v as u16 + c;
    let r = ((a as u16 + 256 - v as u16 - c) % 256) as u8;
    let h = ((a % 16) as u16) < (v % 16) as u16 + c;
    (r, FlagRegister { zero_flag: r == 0, n_flag: true, h_flag: h, carry_flag: borrow })
}

pub fn and_bytes(a: u8, v: u8) -> (r: (u8, FlagRegister))
    ensures
        r == and8(a, v),
{
    let r = a & v;
    (r, FlagRegister { zero_flag: r == 0, n_flag: false, h_flag: true, carry_flag: false })
}

pub fn xor_bytes(a: u8, v: u8) -> (r: (u8, FlagRegister))
    ensures
        r == xor8(a, v),
{
    let r = a ^ v;
    (r, FlagRegister { zero_flag: r == 0, n_flag: false, h_flag: false, carry_flag: false })
}

pub fn or_bytes(a: u8, v: u8) -> (r: (u8, FlagRegister))
    ensures
        r == or8(a, v),
{
    let r = a | v;
    (r, FlagRegister { zero_flag: r == 0, n_flag: false, h_flag: false, carry_flag: false })
}

} // verus!
