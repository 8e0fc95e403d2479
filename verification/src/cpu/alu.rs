//! The arithmetic and logic unit: what each operation yields and which
//! flags it leaves, as functions of bytes.
//!
//! Every result carries a whole flag byte, packed from the four flags, so
//! its low nibble is clear whatever flag byte went in.

use vstd::prelude::*;
use crate::bits::{signed, wrap16, add_signed};
use crate::cpu::registers::{Flags, flag_in, pack_flags, lemma_pack_flags, lemma_flag_bits};

verus! {

/// A byte result with the flag byte that goes with it.
#[derive(Clone, Copy, Debug, PartialEq, Eq, Structural)]
pub struct Alu {
    pub value: u8,
    pub f: u8,
}

/// A word result with the flag byte that goes with it.
#[derive(Clone, Copy, Debug, PartialEq, Eq, Structural)]
pub struct Alu16 {
    pub value: u16,
    pub f: u8,
}

pub open spec fn carry_in(carry: bool) -> int {
    if carry {
        1
    } else {
        0
    }
}

/// `a + v + carry`: Z from the result, N clear, H on a carry out of bit 3,
/// C on a carry out of bit 7.
#[verifier::opaque]
pub open spec fn add8(a: u8, v: u8, carry: bool) -> Alu {
    let sum = a + v + carry_in(carry);
    Alu {
        value: (sum % 256) as u8,
        f: pack_flags(sum % 256 == 0, false, a % 16 + v % 16 + carry_in(carry) > 15, sum > 255),
    }
}

/// `a - v - carry`: Z from the result, N set, H on a borrow from bit 4, C on
/// a borrow from bit 8.
#[verifier::opaque]
pub open spec fn sub8(a: u8, v: u8, carry: bool) -> Alu {
    let diff = a - v - carry_in(carry);
    Alu {
        value: (diff % 256) as u8,
        f: pack_flags(
            diff % 256 == 0,
            true,
            a % 16 < v % 16 + carry_in(carry),
            a < v + carry_in(carry),
        ),
    }
}

#[verifier::opaque]
pub open spec fn and8(a: u8, v: u8) -> Alu {
    Alu { value: a & v, f: pack_flags(a & v == 0, false, true, false) }
}

#[verifier::opaque]
pub open spec fn or8(a: u8, v: u8) -> Alu {
    Alu { value: a | v, f: pack_flags(a | v == 0, false, false, false) }
}

#[verifier::opaque]
pub open spec fn xor8(a: u8, v: u8) -> Alu {
    Alu { value: a ^ v, f: pack_flags(a ^ v == 0, false, false, false) }
}

/// `v + 1`; C is kept.
#[verifier::opaque]
pub open spec fn inc8(v: u8, f: u8) -> Alu {
    let r = ((v + 1) % 256) as u8;
    Alu { value: r, f: pack_flags(r == 0, false, v % 16 == 15, flag_in(f, Flags::C)) }
}

/// `v - 1`; C is kept.
#[verifier::opaque]
pub open spec fn dec8(v: u8, f: u8) -> Alu {
    let r = ((v + 255) % 256) as u8;
    Alu { value: r, f: pack_flags(r == 0, true, v % 16 == 0, flag_in(f, Flags::C)) }
}

/// The flags of a rotate or shift: C takes the bit moved out; Z follows the
/// result only for the register forms, the accumulator forms clear it.
pub open spec fn shifted(value: u8, carry: bool, zero_matters: bool) -> Alu {
    Alu { value, f: pack_flags(zero_matters && value == 0, false, false, carry) }
}

/// Rotate left; bit 7 goes to bit 0 and to C.
#[verifier::opaque]
pub open spec fn rlc(v: u8, zero_matters: bool) -> Alu {
    shifted(((v % 128) * 2 + v / 128) as u8, v >= 128, zero_matters)
}

/// Rotate left through C.
#[verifier::opaque]
pub open spec fn rl(v: u8, carry: bool, zero_matters: bool) -> Alu {
    shifted(((v % 128) * 2 + carry_in(carry)) as u8, v >= 128, zero_matters)
}

/// Rotate right; bit 0 goes to bit 7 and to C.
#[verifier::opaque]
pub open spec fn rrc(v: u8, zero_matters: bool) -> Alu {
    shifted((v / 2 + (v % 2) * 128) as u8, v % 2 == 1, zero_matters)
}

/// Rotate right through C.
#[verifier::opaque]
pub open spec fn rr(v: u8, carry: bool, zero_matters: bool) -> Alu {
    shifted((v / 2 + carry_in(carry) * 128) as u8, v % 2 == 1, zero_matters)
}

/// Shift left; bit 0 becomes zero.
#[verifier::opaque]
pub open spec fn sla(v: u8) -> Alu {
    shifted(((v % 128) * 2) as u8, v >= 128, true)
}

/// Shift right; bit 7 keeps its value.
#[verifier::opaque]
pub open spec fn sra(v: u8) -> Alu {
    shifted((v / 2 + (v / 128) * 128) as u8, v % 2 == 1, true)
}

/// Shift right; bit 7 becomes zero.
#[verifier::opaque]
pub open spec fn srl(v: u8) -> Alu {
    shifted(v / 2, v % 2 == 1, true)
}

/// The two nibbles exchanged.
#[verifier::opaque]
pub open spec fn swap(v: u8) -> Alu {
    shifted(((v % 16) * 16 + v / 16) as u8, false, true)
}

/// The flags after `BIT n`: Z is the complement of bit `n`, N clear, H set,
/// C kept.
#[verifier::opaque]
pub open spec fn bit_test(n: u8, v: u8, f: u8) -> u8 {
    pack_flags((v >> (n % 8) as u8) & 1 == 0, false, true, flag_in(f, Flags::C))
}

#[verifier::opaque]
pub open spec fn set_bit(n: u8, v: u8) -> u8 {
    v | (1u8 << (n % 8) as u8)
}

#[verifier::opaque]
pub open spec fn reset_bit(n: u8, v: u8) -> u8 {
    v & !(1u8 << (n % 8) as u8)
}

/// The complement of `a`; N and H set, Z and C kept.
#[verifier::opaque]
pub open spec fn cpl(a: u8, f: u8) -> Alu {
    Alu { value: !a, f: pack_flags(flag_in(f, Flags::Z), true, true, flag_in(f, Flags::C)) }
}

/// The flags after `SCF`.
#[verifier::opaque]
pub open spec fn scf(f: u8) -> u8 {
    pack_flags(flag_in(f, Flags::Z), false, false, true)
}

/// The flags after `CCF`.
#[verifier::opaque]
pub open spec fn ccf(f: u8) -> u8 {
    pack_flags(flag_in(f, Flags::Z), false, false, !flag_in(f, Flags::C))
}

/// What `DAA` adds to or takes from the accumulator.
pub open spec fn daa_adjust(a: u8, f: u8) -> int {
    let n = flag_in(f, Flags::N);
    let h = flag_in(f, Flags::H);
    let c = flag_in(f, Flags::C);
    if !n {
        (if h || a % 16 > 9 { 0x06int } else { 0 }) + (if c || a > 0x99 { 0x60int } else { 0 })
    } else {
        (if h { 0x06int } else { 0 }) + (if c { 0x60int } else { 0 })
    }
}

/// Decimal adjust: corrects the accumulator to packed decimal after an
/// addition or subtraction of packed decimals, from the N, H and C that the
/// operation left. H is cleared, N kept; after an addition C is set when
/// the high digit was corrected.
#[verifier::opaque]
pub open spec fn daa(a: u8, f: u8) -> Alu {
    let n = flag_in(f, Flags::N);
    let c = flag_in(f, Flags::C);
    let r = if !n {
        ((a + daa_adjust(a, f)) % 256) as u8
    } else {
        ((a - daa_adjust(a, f)) % 256) as u8
    };
    Alu { value: r, f: pack_flags(r == 0, n, false, c || (!n && a > 0x99)) }
}

/// `hl + v`: Z kept, N clear, H on a carry out of bit 11, C on a carry out
/// of bit 15.
#[verifier::opaque]
pub open spec fn add16(hl: u16, v: u16, f: u8) -> Alu16 {
    Alu16 {
        value: ((hl + v) % 0x10000) as u16,
        f: pack_flags(
            flag_in(f, Flags::Z),
            false,
            hl % 0x1000 + v % 0x1000 > 0x0FFF,
            hl + v > 0xFFFF,
        ),
    }
}

/// `sp + e` with `e` signed: Z and N clear, H and C from the unsigned
/// addition of the low byte.
#[verifier::opaque]
pub open spec fn add_offset(sp: u16, e: u8) -> Alu16 {
    Alu16 {
        value: wrap16(sp + signed(e)),
        f: pack_flags(false, false, sp % 16 + e % 16 > 15, sp % 256 + e > 255),
    }
}

pub proof fn lemma_rotate_bits(v: u8, c: u8)
    by (bit_vector)
    requires
        c <= 1,
    ensures
        (v << 1) | (v >> 7) == (v % 128) * 2 + v / 128,
        (v << 1) | c == (v % 128) * 2 + c,
        (v >> 1) | (v << 7) == v / 2 + (v % 2) * 128,
        (v >> 1) | (c << 7) == v / 2 + c * 128,
        (v >> 1) | (v & 0x80) == v / 2 + (v / 128) * 128,
        (v << 4) | (v >> 4) == (v % 16) * 16 + v / 16,
        v << 1 == (v % 128) * 2,
        v >> 1 == v / 2,
{
}

/// Packs four flags into a flag byte.
pub fn flags(z: bool, n: bool, h: bool, c: bool) -> (r: u8)
    ensures
        r == pack_flags(z, n, h, c),
        r & 0x0F == 0,
{
    proof {
        lemma_pack_flags(z, n, h, c);
    }
    let mut r: u8 = 0;
    if z {
        r = r + 0x80;
    }
    if n {
        r = r + 0x40;
    }
    if h {
        r = r + 0x20;
    }
    if c {
        r = r + 0x10;
    }
    r
}

/// Whether a flag is set in a flag byte.
pub fn is_flag(f: u8, flag: Flags) -> (r: bool)
    ensures
        r == flag_in(f, flag),
{
    proof {
        lemma_flag_bits(f);
    }
    f & flag.bit() != 0
}

pub fn alu_add(a: u8, v: u8, carry: bool) -> (r: Alu)
    ensures
        r == add8(a, v, carry),
        r.f & 0x0F == 0,
{
    reveal(add8);
    let c: u16 = if carry {
        1
    } else {
        0
    };
    let sum: u16 = a as u16 + v as u16 + c;
    let value = (sum % 256) as u8;
    Alu { value, f: flags(value == 0, false, (a % 16) as u16 + (v % 16) as u16 + c > 15, sum > 255) }
}

pub fn alu_sub(a: u8, v: u8, carry: bool) -> (r: Alu)
    ensures
        r == sub8(a, v, carry),
        r.f & 0x0F == 0,
{
    reveal(sub8);
    let c: u16 = if carry {
        1
    } else {
        0
    };
    let diff: u16 = 256 + a as u16 - v as u16 - c;
    let value = (diff % 256) as u8;
    assert(value == (a - v - c) % 256) by {
        if a >= v + c {
            assert(diff == 256 + (a - v - c));
        } else {
            assert(diff == 256 + a - v - c && diff < 256);
        }
    }
    Alu {
        value,
        f: flags(
            value == 0,
            true,
            ((a % 16) as u16) < (v % 16) as u16 + c,
            (a as u16) < v as u16 + c,
        ),
    }
}

pub fn alu_and(a: u8, v: u8) -> (r: Alu)
    ensures
        r == and8(a, v),
        r.f & 0x0F == 0,
{
    reveal(and8);
    let value = a & v;
    Alu { value, f: flags(value == 0, false, true, false) }
}

pub fn alu_or(a: u8, v: u8) -> (r: Alu)
    ensures
        r == or8(a, v),
        r.f & 0x0F == 0,
{
    reveal(or8);
    let value = a | v;
    Alu { value, f: flags(value == 0, false, false, false) }
}

pub fn alu_xor(a: u8, v: u8) -> (r: Alu)
    ensures
        r == xor8(a, v),
        r.f & 0x0F == 0,
{
    reveal(xor8);
    let value = a ^ v;
    Alu { value, f: flags(value == 0, false, false, false) }
}

pub fn alu_inc(v: u8, f: u8) -> (r: Alu)
    ensures
        r == inc8(v, f),
        r.f & 0x0F == 0,
{
    reveal(inc8);
    let value = v.wrapping_add(1);
    Alu { value, f: flags(value == 0, false, v % 16 == 15, is_flag(f, Flags::C)) }
}

pub fn alu_dec(v: u8, f: u8) -> (r: Alu)
    ensures
        r == dec8(v, f),
        r.f & 0x0F == 0,
{
    reveal(dec8);
    let value = v.wrapping_sub(1);
    Alu { value, f: flags(value == 0, true, v % 16 == 0, is_flag(f, Flags::C)) }
}

fn finish_shift(value: u8, carry: bool, zero_matters: bool) -> (r: Alu)
    ensures
        r == shifted(value, carry, zero_matters),
        r.f & 0x0F == 0,
{
    Alu { value, f: flags(zero_matters && value == 0, false, false, carry) }
}

pub fn alu_rlc(v: u8, zero_matters: bool) -> (r: Alu)
    ensures
        r == rlc(v, zero_matters),
        r.f & 0x0F == 0,
{
    reveal(rlc);
    proof {
        lemma_rotate_bits(v, 0);
    }
    finish_shift((v << 1) | (v >> 7), v >= 0x80, zero_matters)
}

pub fn alu_rl(v: u8, carry: bool, zero_matters: bool) -> (r: Alu)
    ensures
        r == rl(v, carry, zero_matters),
        r.f & 0x0F == 0,
{
    reveal(rl);
    let c: u8 = if carry {
        1
    } else {
        0
    };
    proof {
        lemma_rotate_bits(v, c);
    }
    finish_shift((v << 1) | c, v >= 0x80, zero_matters)
}

pub fn alu_rrc(v: u8, zero_matters: bool) -> (r: Alu)
    ensures
        r == rrc(v, zero_matters),
        r.f & 0x0F == 0,
{
    reveal(rrc);
    proof {
        lemma_rotate_bits(v, 0);
    }
    finish_shift((v >> 1) | (v << 7), v % 2 == 1, zero_matters)
}

pub fn alu_rr(v: u8, carry: bool, zero_matters: bool) -> (r: Alu)
    ensures
        r == rr(v, carry, zero_matters),
        r.f & 0x0F == 0,
{
    reveal(rr);
    let c: u8 = if carry {
        1
    } else {
        0
    };
    proof {
        lemma_rotate_bits(v, c);
    }
    finish_shift((v >> 1) | (c << 7), v % 2 == 1, zero_matters)
}

pub fn alu_sla(v: u8) -> (r: Alu)
    ensures
        r == sla(v),
        r.f & 0x0F == 0,
{
    reveal(sla);
    proof {
        lemma_rotate_bits(v, 0);
    }
    finish_shift(v << 1, v >= 0x80, true)
}

pub fn alu_sra(v: u8) -> (r: Alu)
    ensures
        r == sra(v),
        r.f & 0x0F == 0,
{
    reveal(sra);
    proof {
        lemma_rotate_bits(v, 0);
    }
    finish_shift((v >> 1) | (v & 0x80), v % 2 == 1, true)
}

pub fn alu_srl(v: u8) -> (r: Alu)
    ensures
        r == srl(v),
        r.f & 0x0F == 0,
{
    reveal(srl);
    proof {
        lemma_rotate_bits(v, 0);
    }
    finish_shift(v >> 1, v % 2 == 1, true)
}

pub fn alu_swap(v: u8) -> (r: Alu)
    ensures
        r == swap(v),
        r.f & 0x0F == 0,
{
    reveal(swap);
    proof {
        lemma_rotate_bits(v, 0);
    }
    finish_shift((v << 4) | (v >> 4), false, true)
}

pub fn alu_bit(n: u8, v: u8, f: u8) -> (r: u8)
    ensures
        r == bit_test(n, v, f),
        r & 0x0F == 0,
{
    reveal(bit_test);
    flags((v >> (n % 8)) & 1 == 0, false, true, is_flag(f, Flags::C))
}

pub fn alu_set(n: u8, v: u8) -> (r: u8)
    ensures
        r == set_bit(n, v),
{
    reveal(set_bit);
    v | (1u8 << (n % 8))
}

pub fn alu_res(n: u8, v: u8) -> (r: u8)
    ensures
        r == reset_bit(n, v),
{
    reveal(reset_bit);
    v & !(1u8 << (n % 8))
}

pub fn alu_cpl(a: u8, f: u8) -> (r: Alu)
    ensures
        r == cpl(a, f),
        r.f & 0x0F == 0,
{
    reveal(cpl);
    Alu { value: !a, f: flags(is_flag(f, Flags::Z), true, true, is_flag(f, Flags::C)) }
}

pub fn alu_scf(f: u8) -> (r: u8)
    ensures
        r == scf(f),
        r & 0x0F == 0,
{
    reveal(scf);
    flags(is_flag(f, Flags::Z), false, false, true)
}

pub fn alu_ccf(f: u8) -> (r: u8)
    ensures
        r == ccf(f),
        r & 0x0F == 0,
{
    reveal(ccf);
    flags(is_flag(f, Flags::Z), false, false, !is_flag(f, Flags::C))
}

pub fn alu_daa(a: u8, f: u8) -> (r: Alu)
    ensures
        r == daa(a, f),
        r.f & 0x0F == 0,
{
    reveal(daa);
    let n = is_flag(f, Flags::N);
    let h = is_flag(f, Flags::H);
    let mut carry = is_flag(f, Flags::C);
    let mut adjust: u8 = 0;
    let value;
    if !n {
        if h || a % 16 > 9 {
            adjust = adjust + 0x06;
        }
        if carry || a > 0x99 {
            adjust = adjust + 0x60;
            carry = true;
        }
        value = a.wrapping_add(adjust);
    } else {
        if h {
            adjust = adjust + 0x06;
        }
        if carry {
            adjust = adjust + 0x60;
        }
        value = a.wrapping_sub(adjust);
    }
    Alu { value, f: flags(value == 0, n, false, carry) }
}

pub fn alu_add16(hl: u16, v: u16, f: u8) -> (r: Alu16)
    ensures
        r == add16(hl, v, f),
        r.f & 0x0F == 0,
{
    reveal(add16);
    let sum: u32 = hl as u32 + v as u32;
    Alu16 {
        value: (sum % 0x10000) as u16,
        f: flags(is_flag(f, Flags::Z), false, (hl % 0x1000) + (v % 0x1000) > 0x0FFF, sum > 0xFFFF),
    }
}

pub fn alu_add_offset(sp: u16, e: u8) -> (r: Alu16)
    ensures
        r == add_offset(sp, e),
        r.f & 0x0F == 0,
{
    reveal(add_offset);
    Alu16 {
        value: add_signed(sp, e),
        f: flags(false, false, (sp % 16) + (e % 16) as u16 > 15, (sp % 256) + e as u16 > 255),
    }
}

/// Whether a byte holds two decimal digits.
pub open spec fn is_bcd(v: u8) -> bool {
    v % 16 <= 9 && v / 16 <= 9
}

/// The number that a packed decimal byte stands for.
pub open spec fn bcd_value(v: u8) -> int {
    (v / 16) * 10 + v % 16
}

/// The packed decimal byte that stands for `n`, for `n` below 100.
pub open spec fn bcd_byte(n: int) -> u8 {
    ((n / 10) * 16 + n % 10) as u8
}

/// Adding two packed decimal bytes and adjusting the sum gives their
/// decimal sum modulo 100, packed, and sets C exactly when the sum reaches
/// 100.
pub proof fn lemma_daa_after_add(a: u8, b: u8)
    requires
        is_bcd(a),
        is_bcd(b),
    ensures
        daa(add8(a, b, false).value, add8(a, b, false).f).value == bcd_byte(
            (bcd_value(a) + bcd_value(b)) % 100,
        ),
        flag_in(daa(add8(a, b, false).value, add8(a, b, false).f).f, Flags::C) == (bcd_value(a)
            + bcd_value(b) >= 100),
        daa(add8(a, b, false).value, add8(a, b, false).f).f & 0x0F == 0,
{
    reveal(add8);
    reveal(daa);
    let s = add8(a, b, false);
    let r = daa(s.value, s.f);
    let lo = a % 16 + b % 16;
    let hi = a / 16 + b / 16;
    let sum = a + b;
    assert(a == (a / 16) * 16 + a % 16);
    assert(b == (b / 16) * 16 + b % 16);
    assert(sum == hi * 16 + lo);
    let h = lo > 15;
    let c = sum > 255;
    lemma_pack_flags(sum % 256 == 0, false, h, c);
    assert(!flag_in(s.f, Flags::N) && flag_in(s.f, Flags::H) == h && flag_in(s.f, Flags::C) == c);
    let v = s.value as int;
    assert(v == (if c { sum - 256 } else { sum }));
    let low = if h { lo - 16 } else { lo };
    assert(v % 16 == low) by {
        if c {
            assert(v == (hi - 16) * 16 + lo);
        }
    }
    let k: int = if lo >= 10 { 1 } else { 0 };
    let d = lo - 10 * k;
    let top = hi + k;
    let big: int = if top >= 10 { 1 } else { 0 };
    assert((c || v > 0x99) == (top >= 10));
    assert(daa_adjust(s.value, s.f) == 6 * k + 96 * big);
    assert(v + 6 * k + 96 * big == (if c { top - 16 } else { top }) * 16 + d + 96 * big);
    assert(r.value == (top - 10 * big) * 16 + d) by {
        if c {
            assert(v + 6 * k + 96 * big == (top - 10) * 16 + d);
        } else if big == 1 {
            assert(v + 6 * k + 96 * big == 256 + (top - 10) * 16 + d);
        }
    }
    lemma_pack_flags(r.value == 0, false, false, c || v > 0x99);
    let x = bcd_value(a) + bcd_value(b);
    assert(x == top * 10 + d);
    assert(x % 100 == (top - 10 * big) * 10 + d);
    assert((x % 100) / 10 == top - 10 * big);
    assert((x % 100) % 10 == d);
}

} // verus!
