//! The register file: eight 8-bit registers, their 16-bit pair views, SP, PC,
//! and the four flags packed into the high nibble of F.

use vstd::prelude::*;
use crate::bits::{word, make_word, high_byte, low_byte};

verus! {

#[derive(Clone, Copy, Debug, PartialEq, Eq, Structural)]
pub enum Flags {
    Z,
    N,
    H,
    C,
}

impl Flags {
    /// The bit of F that holds this flag.
    pub open spec fn mask(self) -> u8 {
        match self {
            Flags::Z => 0x80,
            Flags::N => 0x40,
            Flags::H => 0x20,
            Flags::C => 0x10,
        }
    }

    pub fn bit(self) -> (r: u8)
        ensures
            r == self.mask(),
    {
        match self {
            Flags::Z => 0x80,
            Flags::N => 0x40,
            Flags::H => 0x20,
            Flags::C => 0x10,
        }
    }
}

/// The flag byte with the given four flags and a clear low nibble.
pub open spec fn pack_flags(z: bool, n: bool, h: bool, c: bool) -> u8 {
    ((if z { 0x80int } else { 0 }) + (if n { 0x40int } else { 0 }) + (if h { 0x20int } else { 0 })
        + (if c { 0x10int } else { 0 })) as u8
}

/// Whether `flag` is set in the flag byte `f`.
pub open spec fn flag_in(f: u8, flag: Flags) -> bool {
    match flag {
        Flags::Z => f >= 0x80,
        Flags::N => f % 0x80 >= 0x40,
        Flags::H => f % 0x40 >= 0x20,
        Flags::C => f % 0x20 >= 0x10,
    }
}

/// The flag byte `f` with `flag` forced to `value` and every other bit kept.
pub open spec fn with_flag(f: u8, flag: Flags, value: bool) -> u8 {
    if flag_in(f, flag) == value {
        f
    } else if value {
        (f + flag.mask()) as u8
    } else {
        (f - flag.mask()) as u8
    }
}

pub proof fn lemma_flag_bits(f: u8)
    by (bit_vector)
    ensures
        (f & 0x80 != 0) == (f >= 0x80),
        (f & 0x40 != 0) == (f % 0x80 >= 0x40),
        (f & 0x20 != 0) == (f % 0x40 >= 0x20),
        (f & 0x10 != 0) == (f % 0x20 >= 0x10),
        f & 0x80 == 0 || f & 0x80 == 0x80,
        f & 0x40 == 0 || f & 0x40 == 0x40,
        f & 0x20 == 0 || f & 0x20 == 0x20,
        f & 0x10 == 0 || f & 0x10 == 0x10,
        f & 0x0F == f % 16,
        f & 0xF0 == f - f % 16,
{
}

/// Four flag bits joined by OR are their sum, with a clear low nibble.
pub proof fn lemma_or_flags(z: u8, n: u8, h: u8, c: u8)
    by (bit_vector)
    requires
        z == 0 || z == 0x80,
        n == 0 || n == 0x40,
        h == 0 || h == 0x20,
        c == 0 || c == 0x10,
    ensures
        z | n | h | c == z + n + h + c,
        (z | n | h | c) & 0x0F == 0,
{
}

proof fn lemma_flag_z(f: u8)
    by (bit_vector)
    ensures
        (f | 0x80) >= 0x80,
        (f & !0x80u8) < 0x80,
        f >= 0x80 ==> (f | 0x80) == f,
        !(f >= 0x80) ==> (f | 0x80) == f + 0x80,
        f >= 0x80 ==> (f & !0x80u8) == f - 0x80,
        !(f >= 0x80) ==> (f & !0x80u8) == f,
        f & 0x0F == 0 ==> (f | 0x80) & 0x0F == 0 && (f & !0x80u8) & 0x0F == 0,
{
}

proof fn lemma_flag_n(f: u8)
    by (bit_vector)
    ensures
        (f | 0x40) % 0x80 >= 0x40,
        (f & !0x40u8) % 0x80 < 0x40,
        f % 0x80 >= 0x40 ==> (f | 0x40) == f,
        !(f % 0x80 >= 0x40) ==> (f | 0x40) == f + 0x40,
        f % 0x80 >= 0x40 ==> (f & !0x40u8) == f - 0x40,
        !(f % 0x80 >= 0x40) ==> (f & !0x40u8) == f,
        f & 0x0F == 0 ==> (f | 0x40) & 0x0F == 0 && (f & !0x40u8) & 0x0F == 0,
{
}

proof fn lemma_flag_h(f: u8)
    by (bit_vector)
    ensures
        (f | 0x20) % 0x40 >= 0x20,
        (f & !0x20u8) % 0x40 < 0x20,
        f % 0x40 >= 0x20 ==> (f | 0x20) == f,
        !(f % 0x40 >= 0x20) ==> (f | 0x20) == f + 0x20,
        f % 0x40 >= 0x20 ==> (f & !0x20u8) == f - 0x20,
        !(f % 0x40 >= 0x20) ==> (f & !0x20u8) == f,
        f & 0x0F == 0 ==> (f | 0x20) & 0x0F == 0 && (f & !0x20u8) & 0x0F == 0,
{
}

proof fn lemma_flag_c(f: u8)
    by (bit_vector)
    ensures
        (f | 0x10) % 0x20 >= 0x10,
        (f & !0x10u8) % 0x20 < 0x10,
        f % 0x20 >= 0x10 ==> (f | 0x10) == f,
        !(f % 0x20 >= 0x10) ==> (f | 0x10) == f + 0x10,
        f % 0x20 >= 0x10 ==> (f & !0x10u8) == f - 0x10,
        !(f % 0x20 >= 0x10) ==> (f & !0x10u8) == f,
        f & 0x0F == 0 ==> (f | 0x10) & 0x0F == 0 && (f & !0x10u8) & 0x0F == 0,
{
}

/// Setting or clearing one flag by mask is `with_flag`; it leaves the flag at
/// the requested value and keeps a clear low nibble clear.
pub proof fn lemma_with_flag(f: u8, flag: Flags, value: bool)
    ensures
        value ==> f | flag.mask() == with_flag(f, flag, value),
        !value ==> f & !flag.mask() == with_flag(f, flag, value),
        flag_in(with_flag(f, flag, value), flag) == value,
        f & 0x0F == 0 ==> with_flag(f, flag, value) & 0x0F == 0,
{
    match flag {
        Flags::Z => {
            lemma_flag_z(f);
        },
        Flags::N => {
            lemma_flag_n(f);
        },
        Flags::H => {
            lemma_flag_h(f);
        },
        Flags::C => {
            lemma_flag_c(f);
        },
    }
}

/// A packed flag byte has a clear low nibble and holds exactly the flags it
/// was packed from.
pub proof fn lemma_pack_flags(z: bool, n: bool, h: bool, c: bool)
    ensures
        pack_flags(z, n, h, c) & 0x0F == 0,
        pack_flags(z, n, h, c) % 16 == 0,
        flag_in(pack_flags(z, n, h, c), Flags::Z) == z,
        flag_in(pack_flags(z, n, h, c), Flags::N) == n,
        flag_in(pack_flags(z, n, h, c), Flags::H) == h,
        flag_in(pack_flags(z, n, h, c), Flags::C) == c,
{
    lemma_flag_bits(pack_flags(z, n, h, c));
}

#[derive(Clone, Copy, Debug, PartialEq, Eq, Structural)]
pub struct Registers {
    pub a: u8,
    pub f: u8,
    pub b: u8,
    pub c: u8,
    pub d: u8,
    pub e: u8,
    pub h: u8,
    pub l: u8,
    pub sp: u16,
    pub pc: u16,
}

impl Registers {
    /// The register file is well formed when the low nibble of F is clear.
    pub open spec fn wf(&self) -> bool {
        self.f & 0x0F == 0
    }

    pub open spec fn spec_af(&self) -> u16 {
        word(self.a, self.f)
    }

    pub open spec fn spec_bc(&self) -> u16 {
        word(self.b, self.c)
    }

    pub open spec fn spec_de(&self) -> u16 {
        word(self.d, self.e)
    }

    pub open spec fn spec_hl(&self) -> u16 {
        word(self.h, self.l)
    }

    pub open spec fn flag(&self, flag: Flags) -> bool {
        flag_in(self.f, flag)
    }

    pub open spec fn with_af(self, val: u16) -> Registers {
        Registers { a: (val / 256) as u8, f: (val % 256 - val % 16) as u8, ..self }
    }

    pub open spec fn with_bc(self, val: u16) -> Registers {
        Registers { b: (val / 256) as u8, c: (val % 256) as u8, ..self }
    }

    pub open spec fn with_de(self, val: u16) -> Registers {
        Registers { d: (val / 256) as u8, e: (val % 256) as u8, ..self }
    }

    pub open spec fn with_hl(self, val: u16) -> Registers {
        Registers { h: (val / 256) as u8, l: (val % 256) as u8, ..self }
    }

    /// The state after power-on as the boot ROM leaves it.
    pub open spec fn dmg_state(self) -> Registers {
        Registers {
            a: 0x01,
            f: 0xB0,
            b: 0x00,
            c: 0x13,
            d: 0x00,
            e: 0xD8,
            h: 0x01,
            l: 0x4D,
            sp: 0xFFFE,
            pc: 0x0100,
        }
    }

    pub fn new() -> (r: Self)
        ensures
            r == (Registers {
                a: 0,
                f: 0,
                b: 0,
                c: 0,
                d: 0,
                e: 0,
                h: 0,
                l: 0,
                sp: 0xFFFE,
                pc: 0x0100,
            }),
            r.wf(),
    {
        proof {
            lemma_flag_bits(0);
        }
        Registers { a: 0, f: 0, b: 0, c: 0, d: 0, e: 0, h: 0, l: 0, sp: 0xFFFE, pc: 0x0100 }
    }

    pub fn af(&self) -> (r: u16)
        ensures
            r == self.spec_af(),
    {
        make_word(self.a, self.f)
    }

    pub fn bc(&self) -> (r: u16)
        ensures
            r == self.spec_bc(),
    {
        make_word(self.b, self.c)
    }

    pub fn de(&self) -> (r: u16)
        ensures
            r == self.spec_de(),
    {
        make_word(self.d, self.e)
    }

    pub fn hl(&self) -> (r: u16)
        ensures
            r == self.spec_hl(),
    {
        make_word(self.h, self.l)
    }

    /// Writes AF; the low nibble of F stays clear.
    pub fn set_af(&mut self, val: u16)
        ensures
            *final(self) == old(self).with_af(val),
            final(self).wf(),
    {
        self.a = high_byte(val);
        let lo = low_byte(val);
        proof {
            lemma_flag_bits(lo);
            lemma_flag_bits((lo & 0xF0) as u8);
        }
        self.f = lo & 0xF0;
    }

    pub fn set_bc(&mut self, val: u16)
        ensures
            *final(self) == old(self).with_bc(val),
            final(self).spec_bc() == val,
    {
        self.b = high_byte(val);
        self.c = low_byte(val);
    }

    pub fn set_de(&mut self, val: u16)
        ensures
            *final(self) == old(self).with_de(val),
            final(self).spec_de() == val,
    {
        self.d = high_byte(val);
        self.e = low_byte(val);
    }

    pub fn set_hl(&mut self, val: u16)
        ensures
            *final(self) == old(self).with_hl(val),
            final(self).spec_hl() == val,
    {
        self.h = high_byte(val);
        self.l = low_byte(val);
    }

    /// Forces one flag and keeps every other bit of F.
    pub fn set_flag(&mut self, flag: Flags, value: bool)
        ensures
            *final(self) == (Registers { f: with_flag(old(self).f, flag, value), ..*old(self) }),
            final(self).flag(flag) == value,
            old(self).wf() ==> final(self).wf(),
    {
        proof {
            lemma_with_flag(self.f, flag, value);
        }
        if value {
            self.f |= flag.bit();
        } else {
            self.f &= !flag.bit();
        }
    }

    /// Replaces all four flags; the low nibble of F is cleared.
    pub fn set_flags(&mut self, z: bool, n: bool, h: bool, c: bool)
        ensures
            *final(self) == (Registers { f: pack_flags(z, n, h, c), ..*old(self) }),
            final(self).wf(),
    {
        let zb: u8 = if z {
            Flags::Z.bit()
        } else {
            0
        };
        let nb: u8 = if n {
            Flags::N.bit()
        } else {
            0
        };
        let hb: u8 = if h {
            Flags::H.bit()
        } else {
            0
        };
        let cb: u8 = if c {
            Flags::C.bit()
        } else {
            0
        };
        proof {
            lemma_or_flags(zb, nb, hb, cb);
        }
        self.f = zb | nb | hb | cb;
    }

    /// The flag's bit of F: the flag's mask when it is set, zero when clear.
    pub fn get_flag(&self, flag: Flags) -> (r: u8)
        ensures
            r == (if self.flag(flag) { flag.mask() } else { 0 }),
    {
        proof {
            lemma_flag_bits(self.f);
        }
        self.f & flag.bit()
    }

    /// Whether the flag is set.
    pub fn is_set(&self, flag: Flags) -> (r: bool)
        ensures
            r == self.flag(flag),
    {
        self.get_flag(flag) != 0
    }

    /// Resets every register to the state the boot ROM leaves behind.
    pub fn reset(&mut self)
        ensures
            *final(self) == old(self).dmg_state(),
            final(self).wf(),
    {
        self.set_af(0x01B0);
        self.set_bc(0x0013);
        self.set_de(0x00D8);
        self.set_hl(0x014D);
        self.sp = 0xFFFE;
        self.pc = 0x0100;
    }
}

} // verus!
