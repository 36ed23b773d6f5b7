use vstd::prelude::*;
use crate::convention::Term;
use crate::memory::{word_of, lo_byte, hi_byte};

verus! {

/// The four condition flags held in the high nibble of F.
#[derive(Clone, Copy, PartialEq, Eq, Structural, Debug)]
pub enum Flag {
    /// Zero.
    Z,
    /// Subtract.
    N,
    /// Half-carry.
    H,
    /// Carry.
    C,
}

impl Flag {
    /// The bit of F that holds this flag.
    pub open spec fn mask(self) -> u8 {
        match self {
            Flag::Z => 0x80,
            Flag::N => 0x40,
            Flag::H => 0x20,
            Flag::C => 0x10,
        }
    }

    /// The flag's own bit.
    pub fn og(self) -> (m: u8)
        ensures
            m == self.mask(),
    {
        match self {
            Flag::Z => 0x80,
            Flag::N => 0x40,
            Flag::H => 0x20,
            Flag::C => 0x10,
        }
    }

    /// Every bit but the flag's own.
    pub fn bw(self) -> (m: u8)
        ensures
            m == !self.mask(),
    {
        !self.og()
    }
}

/// F with the bit `m` forced to `v`.
pub open spec fn put_flag(f: u8, m: u8, v: bool) -> u8 {
    if v {
        f | m
    } else {
        f & !m
    }
}

/// The CPU register file: eight 8-bit registers pairable into AF, BC, DE and
/// HL, the stack pointer and the program counter.
#[derive(Clone, Copy, PartialEq, Eq, Structural, Debug)]
pub struct Register {
    pub a: u8,
    pub f: u8,
    pub b: u8,
    pub c: u8,
    pub d: u8,
    pub e: u8,
    pub h: u8,
    pub l: u8,
    pub sp: u16,
    pub pc: u16,
}

impl Register {
    pub open spec fn af(self) -> u16 {
        word_of(self.f, self.a)
    }

    pub open spec fn bc(self) -> u16 {
        word_of(self.c, self.b)
    }

    pub open spec fn de(self) -> u16 {
        word_of(self.e, self.d)
    }

    pub open spec fn hl(self) -> u16 {
        word_of(self.l, self.h)
    }

    /// The register file after a 16-bit write to AF: the low nibble of F is
    /// masked off.
    pub open spec fn with_af(self, v: u16) -> Register {
        Register { a: hi_byte(v), f: lo_byte(v) & 0xf0, ..self }
    }

    pub open spec fn with_bc(self, v: u16) -> Register {
        Register { b: hi_byte(v), c: lo_byte(v), ..self }
    }

    pub open spec fn with_de(self, v: u16) -> Register {
        Register { d: hi_byte(v), e: lo_byte(v), ..self }
    }

    pub open spec fn with_hl(self, v: u16) -> Register {
        Register { h: hi_byte(v), l: lo_byte(v), ..self }
    }

    /// Whether flag `f` is set.
    pub open spec fn flag(self, f: Flag) -> bool {
        self.f & f.mask() != 0
    }

    /// The register file with flag `f` forced to `v`.
    pub open spec fn with_flag(self, f: Flag, v: bool) -> Register {
        Register { f: put_flag(self.f, f.mask(), v), ..self }
    }

    /// The register file with all four flags forced.
    pub open spec fn with_flags(self, z: bool, n: bool, h: bool, c: bool) -> Register {
        self.with_flag(Flag::Z, z).with_flag(Flag::N, n).with_flag(Flag::H, h).with_flag(Flag::C, c)
    }

    /// The invariant of F: its low nibble reads as zero.
    pub open spec fn f_masked(self) -> bool {
        self.f & 0x0f == 0
    }

    pub fn get_af(&self) -> (r: u16)
        ensures
            r == self.af(),
    {
        (self.a as u16) * 256 + (self.f as u16)
    }

    pub fn get_bc(&self) -> (r: u16)
        ensures
            r == self.bc(),
    {
        (self.b as u16) * 256 + (self.c as u16)
    }

    pub fn get_de(&self) -> (r: u16)
        ensures
            r == self.de(),
    {
        (self.d as u16) * 256 + (self.e as u16)
    }

    pub fn get_hl(&self) -> (r: u16)
        ensures
            r == self.hl(),
    {
        (self.h as u16) * 256 + (self.l as u16)
    }

    pub fn set_af(&mut self, v: u16)
        ensures
            *final(self) == old(self).with_af(v),
            final(self).f_masked(),
    {
        self.a = (v / 256) as u8;
        self.f = ((v % 256) as u8) & 0xf0;
        proof {
            lemma_flag_bits(lo_byte(v), 0x80, 0x40);
        }
    }

    pub fn set_bc(&mut self, v: u16)
        ensures
            *final(self) == old(self).with_bc(v),
    {
        self.b = (v / 256) as u8;
        self.c = (v % 256) as u8;
    }

    pub fn set_de(&mut self, v: u16)
        ensures
            *final(self) == old(self).with_de(v),
    {
        self.d = (v / 256) as u8;
        self.e = (v % 256) as u8;
    }

    pub fn set_hl(&mut self, v: u16)
        ensures
            *final(self) == old(self).with_hl(v),
    {
        self.h = (v / 256) as u8;
        self.l = (v % 256) as u8;
    }

    pub fn get_flag(&self, f: Flag) -> (r: bool)
        ensures
            r == self.flag(f),
    {
        self.f & f.og() != 0
    }

    pub fn set_flag(&mut self, f: Flag, v: bool)
        ensures
            *final(self) == old(self).with_flag(f, v),
    {
        if v {
            self.f = self.f | f.og();
        } else {
            self.f = self.f & f.bw();
        }
    }

    /// The register values with which the program is entered, as the boot
    /// ROM of the given model leaves them.
    pub open spec fn power_up_value(term: Term) -> Register {
        Register {
            a: match term {
                Term::GB => 0x01,
                Term::GBP => 0xff,
                Term::GBC => 0x11,
                Term::SGB => 0x01,
            },
            f: 0xb0,
            b: 0x00,
            c: 0x13,
            d: 0x00,
            e: 0xd8,
            h: 0x01,
            l: 0x4d,
            sp: 0xfffe,
            pc: 0x0100,
        }
    }

    pub fn power_up(term: Term) -> (r: Self)
        ensures
            r == Self::power_up_value(term),
    {
        let a: u8 = match term {
            Term::GB => 0x01,
            Term::GBP => 0xff,
            Term::GBC => 0x11,
            Term::SGB => 0x01,
        };
        Register {
            a,
            f: 0xb0,
            b: 0x00,
            c: 0x13,
            d: 0x00,
            e: 0xd8,
            h: 0x01,
            l: 0x4d,
            sp: 0xfffe,
            pc: 0x0100,
        }
    }
}

/// Facts about single flag bits of F: for two flag bits `m` and `o`, forcing
/// `m` makes `m` read back as forced, leaves `o` (when different) and the low
/// nibble alone, and masking with 0xF0 clears the low nibble.
pub proof fn lemma_flag_bits(f: u8, m: u8, o: u8)
    by (bit_vector)
    requires
        m == 0x80 || m == 0x40 || m == 0x20 || m == 0x10,
        o == 0x80 || o == 0x40 || o == 0x20 || o == 0x10,
    ensures
        (f | m) & m != 0,
        (f & !m) & m == 0,
        o != m ==> (f | m) & o == f & o,
        o != m ==> (f & !m) & o == f & o,
        (f | m) & 0x0f == f & 0x0f,
        (f & !m) & 0x0f == f & 0x0f,
        (f & 0xf0) & 0x0f == 0,
        (f & 0xf0) & m == f & m,
{
}

/// Forcing a flag makes it read back as forced, leaves the other three flags
/// as they were, and keeps the low nibble of F.
pub proof fn lemma_with_flag(r: Register, f: Flag, v: bool, g: Flag)
    ensures
        r.with_flag(f, v).flag(f) == v,
        g != f ==> r.with_flag(f, v).flag(g) == r.flag(g),
        r.with_flag(f, v).f & 0x0f == r.f & 0x0f,
        r.f_masked() ==> r.with_flag(f, v).f_masked(),
{
    lemma_flag_bits(r.f, f.mask(), g.mask());
}

/// Every 16-bit write to AF leaves the low nibble of F zero, whatever the
/// value written, and keeps the four flag bits of the value.
pub proof fn lemma_af_write_masks_low_nibble(r: Register, v: u16, g: Flag)
    ensures
        r.with_af(v).f_masked(),
        r.with_af(v).flag(g) == (lo_byte(v) & g.mask() != 0),
        r.with_af(v).a == hi_byte(v),
{
    lemma_flag_bits(lo_byte(v), g.mask(), g.mask());
}

/// Forcing all four flags makes each read back as forced and keeps the low
/// nibble of F.
pub proof fn lemma_with_flags(r: Register, z: bool, n: bool, h: bool, c: bool)
    ensures
        r.with_flags(z, n, h, c).flag(Flag::Z) == z,
        r.with_flags(z, n, h, c).flag(Flag::N) == n,
        r.with_flags(z, n, h, c).flag(Flag::H) == h,
        r.with_flags(z, n, h, c).flag(Flag::C) == c,
        r.with_flags(z, n, h, c).f & 0x0f == r.f & 0x0f,
{
    let r1 = r.with_flag(Flag::Z, z);
    let r2 = r1.with_flag(Flag::N, n);
    let r3 = r2.with_flag(Flag::H, h);
    lemma_with_flag(r, Flag::Z, z, Flag::Z);
    lemma_with_flag(r1, Flag::N, n, Flag::Z);
    lemma_with_flag(r2, Flag::H, h, Flag::Z);
    lemma_with_flag(r2, Flag::H, h, Flag::N);
    lemma_with_flag(r3, Flag::C, c, Flag::Z);
    lemma_with_flag(r3, Flag::C, c, Flag::N);
    lemma_with_flag(r3, Flag::C, c, Flag::H);
}

} // verus!
