//! The flag register F: four condition bits kept in the high nibble of a byte.
use vstd::prelude::*;

verus! {

/// The four condition flags of the processor.
#[derive(Debug, Clone, Copy)]
pub struct FlagsRegister {
    pub zero: bool,
    pub subtract: bool,
    pub half_carry: bool,
    pub carry: bool,
}

/// The weight of a flag in the F byte: its bit's value when set, else 0.
pub open spec fn flag_weight(set: bool, weight: int) -> int {
    if set {
        weight
    } else {
        0
    }
}

/// The F byte that holds the given flags: Z in bit 7, N in bit 6, H in bit 5,
/// C in bit 4, the low nibble zero.
pub open spec fn flags_to_byte(f: FlagsRegister) -> u8 {
    (flag_weight(f.zero, 128) + flag_weight(f.subtract, 64) + flag_weight(f.half_carry, 32)
        + flag_weight(f.carry, 16)) as u8
}

/// The flags that an F byte holds; its low nibble is ignored.
pub open spec fn flags_from_byte(byte: u8) -> FlagsRegister {
    FlagsRegister {
        zero: byte >= 128,
        subtract: (byte / 64) % 2 == 1,
        half_carry: (byte / 32) % 2 == 1,
        carry: (byte / 16) % 2 == 1,
    }
}

impl FlagsRegister {
    /// All flags cleared.
    pub(crate) fn new() -> (f: Self)
        ensures
            !f.zero && !f.subtract && !f.half_carry && !f.carry,
    {
        FlagsRegister { zero: false, subtract: false, half_carry: false, carry: false }
    }
}

impl From<FlagsRegister> for u8 {
    fn from(flag: FlagsRegister) -> (byte: u8) {
        let z: u8 = if flag.zero { 1 } else { 0 };
        let n: u8 = if flag.subtract { 1 } else { 0 };
        let h: u8 = if flag.half_carry { 1 } else { 0 };
        let c: u8 = if flag.carry { 1 } else { 0 };
        let byte: u8 = (z << 7u8) | (n << 6u8) | (h << 5u8) | (c << 4u8);
        assert(byte as int == z * 128 + n * 64 + h * 32 + c * 16) by (bit_vector)
            requires
                z <= 1,
                n <= 1,
                h <= 1,
                c <= 1,
                byte == (z << 7u8) | (n << 6u8) | (h << 5u8) | (c << 4u8),
        ;
        byte
    }
}

impl vstd::std_specs::convert::FromSpecImpl<FlagsRegister> for u8 {
    open spec fn obeys_from_spec() -> bool {
        true
    }

    open spec fn from_spec(v: FlagsRegister) -> u8 {
        flags_to_byte(v)
    }
}

impl From<u8> for FlagsRegister {
    fn from(byte: u8) -> (f: Self) {
        let zero = (byte >> 7u8) & 1 != 0;
        let subtract = (byte >> 6u8) & 1 != 0;
        let half_carry = (byte >> 5u8) & 1 != 0;
        let carry = (byte >> 4u8) & 1 != 0;
        assert(zero == (byte >= 128)) by (bit_vector)
            requires zero == ((byte >> 7u8) & 1 != 0);
        assert(subtract == ((byte / 64) % 2 == 1)) by (bit_vector)
            requires subtract == ((byte >> 6u8) & 1 != 0);
        assert(half_carry == ((byte / 32) % 2 == 1)) by (bit_vector)
            requires half_carry == ((byte >> 5u8) & 1 != 0);
        assert(carry == ((byte / 16) % 2 == 1)) by (bit_vector)
            requires carry == ((byte >> 4u8) & 1 != 0);
        FlagsRegister { zero, subtract, half_carry, carry }
    }
}

impl vstd::std_specs::convert::FromSpecImpl<u8> for FlagsRegister {
    open spec fn obeys_from_spec() -> bool {
        true
    }

    open spec fn from_spec(v: u8) -> FlagsRegister {
        flags_from_byte(v)
    }
}

/// Reading back the flags that were packed into a byte gives the same flags.
pub proof fn lemma_flags_byte_roundtrip(f: FlagsRegister)
    ensures
        flags_from_byte(flags_to_byte(f)) == f,
{
}

/// Packing the flags read from a byte gives that byte with its low nibble cleared.
pub proof fn lemma_byte_flags_roundtrip(byte: u8)
    ensures
        flags_to_byte(flags_from_byte(byte)) == byte & 0xF0,
{
    let f = flags_from_byte(byte);
    let b = flags_to_byte(f);
    assert(b as int == byte - byte % 16);
    assert(byte & 0xF0 == byte - byte % 16) by (bit_vector);
}

/// The F byte never has a bit set in its low nibble.
pub proof fn lemma_flags_byte_low_nibble_clear(f: FlagsRegister)
    ensures
        flags_to_byte(f) % 16 == 0,
        flags_to_byte(f) & 0x0F == 0,
{
    let b = flags_to_byte(f);
    assert(b % 16 == 0);
    assert(b % 16 == 0 ==> b & 0x0F == 0) by (bit_vector);
}

/// Each flag has its own bit in the F byte: Z is bit 7, N bit 6, H bit 5 and C
/// bit 4, both when the flags are packed into a byte and when a byte is read
/// as flags.
pub proof fn lemma_flag_bit_positions(f: FlagsRegister, byte: u8)
    ensures
        ((flags_to_byte(f) >> 7u8) & 1 == 1) == f.zero,
        ((flags_to_byte(f) >> 6u8) & 1 == 1) == f.subtract,
        ((flags_to_byte(f) >> 5u8) & 1 == 1) == f.half_carry,
        ((flags_to_byte(f) >> 4u8) & 1 == 1) == f.carry,
        flags_from_byte(byte).zero == ((byte >> 7u8) & 1 == 1),
        flags_from_byte(byte).subtract == ((byte >> 6u8) & 1 == 1),
        flags_from_byte(byte).half_carry == ((byte >> 5u8) & 1 == 1),
        flags_from_byte(byte).carry == ((byte >> 4u8) & 1 == 1),
{
    let z: u8 = if f.zero { 1 } else { 0 };
    let n: u8 = if f.subtract { 1 } else { 0 };
    let h: u8 = if f.half_carry { 1 } else { 0 };
    let c: u8 = if f.carry { 1 } else { 0 };
    let b = flags_to_byte(f);
    assert(b == z * 128 + n * 64 + h * 32 + c * 16);
    assert(((b >> 7u8) & 1 == 1) == (z == 1) && ((b >> 6u8) & 1 == 1) == (n == 1)
        && ((b >> 5u8) & 1 == 1) == (h == 1) && ((b >> 4u8) & 1 == 1) == (c == 1))
        by (bit_vector)
        requires
            z <= 1,
            n <= 1,
            h <= 1,
            c <= 1,
            b == z * 128 + n * 64 + h * 32 + c * 16,
    ;
    assert(((byte >> 7u8) & 1 == 1) == (byte >= 128) && ((byte >> 6u8) & 1 == 1) == ((byte / 64)
        % 2 == 1) && ((byte >> 5u8) & 1 == 1) == ((byte / 32) % 2 == 1) && ((byte >> 4u8) & 1
        == 1) == ((byte / 16) % 2 == 1)) by (bit_vector);
}

} // verus!
