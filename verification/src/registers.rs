//! The eight-bit register file and its sixteen-bit pairs AF, BC, DE and HL.
use vstd::prelude::*;
use crate::flags::{FlagsRegister, flags_to_byte, flags_from_byte};

verus! {

/// The eight-bit registers; F is held as its four flags.
#[derive(Debug, Clone, Copy)]
pub struct Registers {
    pub a: u8,
    pub f: FlagsRegister,
    pub b: u8,
    pub c: u8,
    pub d: u8,
    pub e: u8,
    pub h: u8,
    pub l: u8,
}

/// The sixteen-bit value of a pair whose high byte is `hi` and low byte `lo`.
pub open spec fn pair(hi: u8, lo: u8) -> u16 {
    (hi * 256 + lo) as u16
}

impl Registers {
    /// The value of the pair AF.
    pub open spec fn af(self) -> u16 {
        pair(self.a, flags_to_byte(self.f))
    }

    /// The value of the pair BC.
    pub open spec fn bc(self) -> u16 {
        pair(self.b, self.c)
    }

    /// The value of the pair DE.
    pub open spec fn de(self) -> u16 {
        pair(self.d, self.e)
    }

    /// The value of the pair HL.
    pub open spec fn hl(self) -> u16 {
        pair(self.h, self.l)
    }

    /// These registers with AF set to `v`: the flags come from the high nibble of
    /// its low byte.
    pub open spec fn with_af(self, v: u16) -> Registers {
        Registers { a: (v / 256) as u8, f: flags_from_byte((v % 256) as u8), ..self }
    }

    /// These registers with BC set to `v`.
    pub open spec fn with_bc(self, v: u16) -> Registers {
        Registers { b: (v / 256) as u8, c: (v % 256) as u8, ..self }
    }

    /// These registers with DE set to `v`.
    pub open spec fn with_de(self, v: u16) -> Registers {
        Registers { d: (v / 256) as u8, e: (v % 256) as u8, ..self }
    }

    /// These registers with HL set to `v`.
    pub open spec fn with_hl(self, v: u16) -> Registers {
        Registers { h: (v / 256) as u8, l: (v % 256) as u8, ..self }
    }

    /// HL is H times 256 plus L.
    pub proof fn lemma_hl(self)
        ensures
            self.hl() as int == self.h * 256 + self.l,
            self.bc() as int == self.b * 256 + self.c,
            self.de() as int == self.d * 256 + self.e,
    {
    }

    /// The high byte of a pair is its first register (A, B, D, H) and the low
    /// byte its second (the F byte, C, E, L), both when read and when set.
    pub proof fn lemma_pair_byte_order(self, v: u16)
        ensures
            self.af() as int == self.a * 256 + flags_to_byte(self.f),
            self.with_af(v).a == v / 256,
            self.with_af(v).f == flags_from_byte((v % 256) as u8),
            self.with_bc(v).b == v / 256 && self.with_bc(v).c == v % 256,
            self.with_de(v).d == v / 256 && self.with_de(v).e == v % 256,
            self.with_hl(v).h == v / 256 && self.with_hl(v).l == v % 256,
    {
    }

    /// All registers zero, all flags cleared.
    pub fn new() -> (r: Self)
        ensures
            r.a == 0 && r.b == 0 && r.c == 0 && r.d == 0 && r.e == 0 && r.h == 0 && r.l == 0,
            !r.f.zero && !r.f.subtract && !r.f.half_carry && !r.f.carry,
    {
        Self { a: 0, f: FlagsRegister::new(), b: 0, c: 0, d: 0, e: 0, h: 0, l: 0 }
    }

    /// AF: A in the high byte, the F byte in the low byte.
    pub fn get_af(&self) -> (v: u16)
        ensures
            v == self.af(),
            v % 16 == 0,
    {
        let f: u8 = u8::from(self.f);
        let v = join(self.a, f);
        proof {
            crate::flags::lemma_flags_byte_low_nibble_clear(self.f);
        }
        v
    }

    /// Sets A from the high byte of `value` and the flags from the high nibble of
    /// its low byte; the low nibble of F is always zero on the hardware.
    pub fn set_af(&mut self, value: u16)
        ensures
            *final(self) == old(self).with_af(value),
    {
        let (hi, lo) = split(value);
        let masked: u8 = lo & 0xF0;
        self.a = hi;
        self.f = FlagsRegister::from(masked);
        proof {
            assert(flags_from_byte(masked) == flags_from_byte(lo)) by {
                assert(masked as int == lo - lo % 16) by {
                    assert(lo & 0xF0 == lo - lo % 16) by (bit_vector);
                }
            }
        }
    }

    /// BC: B in the high byte, C in the low byte.
    pub fn get_bc(&self) -> (v: u16)
        ensures
            v == self.bc(),
    {
        join(self.b, self.c)
    }

    /// Sets B from the high byte of `value` and C from its low byte.
    pub fn set_bc(&mut self, value: u16)
        ensures
            *final(self) == old(self).with_bc(value),
    {
        let (hi, lo) = split(value);
        self.b = hi;
        self.c = lo;
    }

    /// DE: D in the high byte, E in the low byte.
    pub fn get_de(&self) -> (v: u16)
        ensures
            v == self.de(),
    {
        join(self.d, self.e)
    }

    /// Sets D from the high byte of `value` and E from its low byte.
    pub fn set_de(&mut self, value: u16)
        ensures
            *final(self) == old(self).with_de(value),
    {
        let (hi, lo) = split(value);
        self.d = hi;
        self.e = lo;
    }

    /// HL: H in the high byte, L in the low byte.
    pub fn get_hl(&self) -> (v: u16)
        ensures
            v == self.hl(),
    {
        join(self.h, self.l)
    }

    /// Sets H from the high byte of `value` and L from its low byte.
    pub fn set_hl(&mut self, value: u16)
        ensures
            *final(self) == old(self).with_hl(value),
    {
        let (hi, lo) = split(value);
        self.h = hi;
        self.l = lo;
    }
}

/// The word whose high byte is `hi` and low byte `lo`.
pub(crate) fn join(hi: u8, lo: u8) -> (v: u16)
    ensures
        v == pair(hi, lo),
        v == hi * 256 + lo,
{
    let v: u16 = (hi as u16) << 8u16 | lo as u16;
    assert(v == hi * 256 + lo) by (bit_vector)
        requires
            v == (hi as u16) << 8u16 | lo as u16,
    ;
    v
}

/// The high and the low byte of a word.
pub(crate) fn split(value: u16) -> (r: (u8, u8))
    ensures
        r.0 == value / 256,
        r.1 == value % 256,
{
    let hi: u8 = (value >> 8u16) as u8;
    let lo: u8 = value as u8;
    assert(hi == value / 256 && lo == value % 256) by (bit_vector)
        requires
            hi == (value >> 8u16) as u8,
            lo == value as u8,
    ;
    (hi, lo)
}

/// Setting a pair and reading it back gives the value set: exactly for BC, DE
/// and HL, and with the low nibble cleared for AF.
pub proof fn lemma_pair_set_get(r: Registers, v: u16)
    ensures
        r.with_bc(v).bc() == v,
        r.with_de(v).de() == v,
        r.with_hl(v).hl() == v,
        r.with_af(v).af() == v - v % 16,
{
    crate::flags::lemma_byte_flags_roundtrip((v % 256) as u8);
    let lo = (v % 256) as u8;
    assert(lo & 0xF0 == lo - lo % 16) by (bit_vector);
}

/// Setting a pair leaves every register outside it unchanged.
pub proof fn lemma_pair_set_frame(r: Registers, v: u16)
    ensures
        r.with_bc(v).a == r.a && r.with_bc(v).f == r.f && r.with_bc(v).d == r.d
            && r.with_bc(v).e == r.e && r.with_bc(v).h == r.h && r.with_bc(v).l == r.l,
        r.with_de(v).a == r.a && r.with_de(v).f == r.f && r.with_de(v).b == r.b
            && r.with_de(v).c == r.c && r.with_de(v).h == r.h && r.with_de(v).l == r.l,
        r.with_hl(v).a == r.a && r.with_hl(v).f == r.f && r.with_hl(v).b == r.b
            && r.with_hl(v).c == r.c && r.with_hl(v).d == r.d && r.with_hl(v).e == r.e,
        r.with_af(v).b == r.b && r.with_af(v).c == r.c && r.with_af(v).d == r.d
            && r.with_af(v).e == r.e && r.with_af(v).h == r.h && r.with_af(v).l == r.l,
{
}

/// Writing back the value a pair holds leaves the registers unchanged.
pub proof fn lemma_pair_get_set(r: Registers)
    ensures
        r.with_bc(r.bc()) == r,
        r.with_de(r.de()) == r,
        r.with_hl(r.hl()) == r,
        r.with_af(r.af()) == r,
{
    crate::flags::lemma_flags_byte_roundtrip(r.f);
    crate::flags::lemma_flags_byte_low_nibble_clear(r.f);
}

} // verus!
