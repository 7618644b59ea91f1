//! What the arithmetic, logic, rotate and bit instructions compute, as
//! functions of their operands, and the laws that relate them.
use vstd::prelude::*;
use crate::flags::FlagsRegister;

verus! {

/// 1 for a set carry, 0 for a clear one.
pub open spec fn carry_value(c: bool) -> int {
    if c {
        1
    } else {
        0
    }
}

/// ADD and ADC: `a + v + carry_in` modulo 256, with the flags of the sum: a
/// carry out of bit 3 sets H, a carry out of bit 7 sets C.
pub open spec fn add_spec(a: u8, v: u8, carry_in: bool) -> (u8, FlagsRegister) {
    let sum = a + v + carry_value(carry_in);
    (
        (sum % 256) as u8,
        FlagsRegister {
            zero: sum % 256 == 0,
            subtract: false,
            half_carry: a % 16 + v % 16 + carry_value(carry_in) > 15,
            carry: sum > 255,
        },
    )
}

/// SUB and SBC: `a - v - carry_in` modulo 256, with the flags of the
/// difference: a borrow from bit 4 sets H, a borrow past bit 7 sets C.
pub open spec fn sub_spec(a: u8, v: u8, carry_in: bool) -> (u8, FlagsRegister) {
    let diff = a - v - carry_value(carry_in);
    (
        (diff % 256) as u8,
        FlagsRegister {
            zero: diff % 256 == 0,
            subtract: true,
            half_carry: a % 16 < v % 16 + carry_value(carry_in),
            carry: a < v + carry_value(carry_in),
        },
    )
}

/// CP: the flags of comparing `a` with `v`.
pub open spec fn cp_flags(a: u8, v: u8) -> FlagsRegister {
    FlagsRegister { zero: a == v, subtract: true, half_carry: a % 16 < v % 16, carry: a < v }
}

/// INC: `v + 1` modulo 256; C is kept from `f`.
pub open spec fn inc_spec(v: u8, f: FlagsRegister) -> (u8, FlagsRegister) {
    let r = ((v + 1) % 256) as u8;
    (r, FlagsRegister { zero: r == 0, subtract: false, half_carry: v % 16 == 15, carry: f.carry })
}

/// DEC: `v - 1` modulo 256; C is kept from `f`.
pub open spec fn dec_spec(v: u8, f: FlagsRegister) -> (u8, FlagsRegister) {
    let r = ((v - 1) % 256) as u8;
    (r, FlagsRegister { zero: r == 0, subtract: true, half_carry: v % 16 == 0, carry: f.carry })
}

/// The flags after AND, OR and XOR: Z from the result, H as given, N and C clear.
pub open spec fn logic_flags(r: u8, half_carry: bool) -> FlagsRegister {
    FlagsRegister { zero: r == 0, subtract: false, half_carry, carry: false }
}

/// The flags after a CB-prefixed rotate or shift: Z from the result, C the bit
/// shifted out, N and H clear.
pub open spec fn shift_flags(r: u8, carry: bool) -> FlagsRegister {
    FlagsRegister { zero: r == 0, subtract: false, half_carry: false, carry }
}

/// The flags after RLCA, RRCA, RLA and RRA: C the bit shifted out, the rest clear.
pub open spec fn accumulator_rotate_flags(carry: bool) -> FlagsRegister {
    FlagsRegister { zero: false, subtract: false, half_carry: false, carry }
}

/// RLC: rotate left; bit 7 goes to bit 0 and to the carry.
pub open spec fn rlc_spec(v: u8) -> (u8, bool) {
    (((v * 2) % 256 + v / 128) as u8, v >= 128)
}

/// RRC: rotate right; bit 0 goes to bit 7 and to the carry.
pub open spec fn rrc_spec(v: u8) -> (u8, bool) {
    ((v / 2 + (v % 2) * 128) as u8, v % 2 == 1)
}

/// RL: rotate left through the carry.
pub open spec fn rl_spec(v: u8, carry_in: bool) -> (u8, bool) {
    (((v * 2) % 256 + carry_value(carry_in)) as u8, v >= 128)
}

/// RR: rotate right through the carry.
pub open spec fn rr_spec(v: u8, carry_in: bool) -> (u8, bool) {
    ((v / 2 + carry_value(carry_in) * 128) as u8, v % 2 == 1)
}

/// SLA: shift left; bit 7 goes to the carry, bit 0 becomes 0.
pub open spec fn sla_spec(v: u8) -> (u8, bool) {
    (((v * 2) % 256) as u8, v >= 128)
}

/// SRA: shift right keeping the sign bit; bit 0 goes to the carry.
pub open spec fn sra_spec(v: u8) -> (u8, bool) {
    ((v / 2 + (v / 128) * 128) as u8, v % 2 == 1)
}

/// SRL: shift right; bit 0 goes to the carry, bit 7 becomes 0.
pub open spec fn srl_spec(v: u8) -> (u8, bool) {
    ((v / 2) as u8, v % 2 == 1)
}

/// SWAP: exchange the two nibbles.
pub open spec fn swap_spec(v: u8) -> u8 {
    ((v % 16) * 16 + v / 16) as u8
}

/// CPL: every bit inverted.
pub open spec fn cpl_spec(v: u8) -> u8 {
    (255 - v) as u8
}

/// Whether bit `n` of `v` is set.
pub open spec fn bit_is_set(v: u8, n: u8) -> bool {
    (v >> n) & 1 == 1
}

/// RES: `v` with bit `n` cleared.
pub open spec fn res_spec(v: u8, n: u8) -> u8 {
    v & !(1u8 << n)
}

/// SET: `v` with bit `n` set.
pub open spec fn set_spec(v: u8, n: u8) -> u8 {
    v | (1u8 << n)
}

/// Rotating right undoes rotating left, and the other way round; the carry
/// holds the bit that went round.
pub proof fn lemma_rotate_inverse(v: u8)
    ensures
        rrc_spec(rlc_spec(v).0).0 == v,
        rlc_spec(rrc_spec(v).0).0 == v,
        rrc_spec(rlc_spec(v).0).1 == rlc_spec(v).1,
{
}

/// Rotating right through the carry undoes rotating left through it, when the
/// carry that the left rotation gave out is fed back, and the other way round.
pub proof fn lemma_rotate_through_carry_inverse(v: u8, c: bool)
    ensures
        rr_spec(rl_spec(v, c).0, rl_spec(v, c).1) == (v, c),
        rl_spec(rr_spec(v, c).0, rr_spec(v, c).1) == (v, c),
{
}

/// Swapping the nibbles twice gives the byte back; so does inverting it twice.
pub proof fn lemma_involutions(v: u8)
    ensures
        swap_spec(swap_spec(v)) == v,
        cpl_spec(cpl_spec(v)) == v,
{
}

/// Subtracting what was added gives the accumulator back, and adding what was
/// subtracted does too.
pub proof fn lemma_add_sub_inverse(a: u8, v: u8)
    ensures
        sub_spec(add_spec(a, v, false).0, v, false).0 == a,
        add_spec(sub_spec(a, v, false).0, v, false).0 == a,
{
}

/// CP sets the flags that SUB would set, without storing the difference.
pub proof fn lemma_cp_is_sub_flags(a: u8, v: u8)
    ensures
        cp_flags(a, v) == sub_spec(a, v, false).1,
        cp_flags(a, v).zero <==> a == v,
{
}

/// The carry of ADD says whether the sum exceeds a byte, and that of SUB whether
/// it borrows.
pub proof fn lemma_carry_is_overflow(a: u8, v: u8, c: bool)
    ensures
        add_spec(a, v, c).0 + (if add_spec(a, v, c).1.carry { 256int } else { 0 }) == a + v
            + carry_value(c),
        sub_spec(a, v, c).0 - (if sub_spec(a, v, c).1.carry { 256int } else { 0 }) == a - v
            - carry_value(c),
{
}

/// Each rotate and shift moves the byte by one bit as a doubling or halving:
/// the bit shifted out is the carry, and the bit shifted in is 0 (SLA, SRL),
/// the old bit 7 (SRA), the bit shifted out (RLC, RRC) or the old carry (RL,
/// RR). SWAP exchanges the two nibbles.
pub proof fn lemma_shift_arithmetic(v: u8, c: bool)
    ensures
        sla_spec(v).0 + 256 * carry_value(sla_spec(v).1) == 2 * v,
        2 * srl_spec(v).0 + carry_value(srl_spec(v).1) == v,
        srl_spec(v).0 < 128,
        2 * sra_spec(v).0 + carry_value(sra_spec(v).1) == v + (if v >= 128 { 256int } else { 0 }),
        (sra_spec(v).0 >= 128) == (v >= 128),
        rlc_spec(v).0 + 256 * carry_value(rlc_spec(v).1) == 2 * v + carry_value(rlc_spec(v).1),
        2 * rrc_spec(v).0 + carry_value(rrc_spec(v).1) == v + 256 * carry_value(rrc_spec(v).1),
        rl_spec(v, c).0 + 256 * carry_value(rl_spec(v, c).1) == 2 * v + carry_value(c),
        2 * rr_spec(v, c).0 + carry_value(rr_spec(v, c).1) == v + 256 * carry_value(c),
        swap_spec(v) % 16 == v / 16,
        swap_spec(v) / 16 == v % 16,
{
}

/// H is the carry into bit 4 (the borrow from it, for SUB and SBC): bit 4 of
/// the result differs from bit 4 of the operands' exclusive or exactly when H
/// is set. Z is set exactly when the result is zero.
pub proof fn lemma_half_carry_is_bit4_carry(a: u8, v: u8, c: bool)
    ensures
        add_spec(a, v, c).1.half_carry == (((a ^ v ^ add_spec(a, v, c).0) >> 4u8) & 1 == 1),
        sub_spec(a, v, c).1.half_carry == (((a ^ v ^ sub_spec(a, v, c).0) >> 4u8) & 1 == 1),
        add_spec(a, v, c).1.zero == (add_spec(a, v, c).0 == 0),
        sub_spec(a, v, c).1.zero == (sub_spec(a, v, c).0 == 0),
{
    let cv: u8 = if c { 1 } else { 0 };
    let r = add_spec(a, v, c).0;
    let d = sub_spec(a, v, c).0;
    assert(r == (a + v + cv) % 256);
    assert(d == (a - v - cv + 512) % 256);
    let s16: u16 = (a as u16 + v as u16 + cv as u16) as u16;
    assert(s16 & 255u16 == s16 % 256) by (bit_vector);
    assert(a & 15u8 == a % 16 && v & 15u8 == v % 16) by (bit_vector);
    assert(((a & 15u8) + (v & 15u8) + cv > 15u8) == (((a ^ v ^ r) >> 4u8) & 1u8 == 1u8)) by (bit_vector)
        requires
            cv <= 1u8,
            s16 == (a as u16) + (v as u16) + (cv as u16),
            r as u16 == s16 & 255u16,
    ;
    let t16: u16 = (a as u16 + 256u16 - v as u16 - cv as u16) as u16;
    assert(t16 & 255u16 == t16 % 256) by (bit_vector);
    assert(d == t16 % 256);
    assert(((a & 15u8) < (v & 15u8) + cv) == (((a ^ v ^ d) >> 4u8) & 1u8 == 1u8)) by (bit_vector)
        requires
            cv <= 1u8,
            t16 == (a as u16) + 256u16 - (v as u16) - (cv as u16),
            d as u16 == t16 & 255u16,
    ;
}

/// INC and DEC set H exactly when bit 4 changes, that is when the low nibble
/// carries into it or borrows from it; Z exactly when the result is zero.
pub proof fn lemma_inc_dec_half_carry(v: u8, f: FlagsRegister)
    ensures
        inc_spec(v, f).1.half_carry == (((v ^ inc_spec(v, f).0) >> 4u8) & 1 == 1),
        dec_spec(v, f).1.half_carry == (((v ^ dec_spec(v, f).0) >> 4u8) & 1 == 1),
        inc_spec(v, f).1.zero == (inc_spec(v, f).0 == 0),
        dec_spec(v, f).1.zero == (dec_spec(v, f).0 == 0),
{
    let r = inc_spec(v, f).0;
    let d = dec_spec(v, f).0;
    assert((v & 15u8 == 15u8) == (((v ^ r) >> 4u8) & 1u8 == 1u8)) by (bit_vector)
        requires
            r == v + 1 || (v == 255u8 && r == 0u8),
    ;
    assert((v & 15u8 == 0u8) == (((v ^ d) >> 4u8) & 1u8 == 1u8)) by (bit_vector)
        requires
            d + 1 == v || (v == 0u8 && d == 255u8),
    ;
    assert(v & 15u8 == v % 16) by (bit_vector);
}

/// SET sets bit `n` and RES clears it; neither changes another bit, and BIT
/// reads back what they stored.
pub proof fn lemma_set_res_bits(v: u8, n: u8, i: u8)
    requires
        n < 8,
        i < 8,
    ensures
        bit_is_set(set_spec(v, n), n),
        !bit_is_set(res_spec(v, n), n),
        i != n ==> bit_is_set(set_spec(v, n), i) == bit_is_set(v, i),
        i != n ==> bit_is_set(res_spec(v, n), i) == bit_is_set(v, i),
{
    assert(((v | (1u8 << n)) >> n) & 1 == 1) by (bit_vector)
        requires n < 8;
    assert(((v & !(1u8 << n)) >> n) & 1 != 1) by (bit_vector)
        requires n < 8;
    assert(i != n ==> ((v | (1u8 << n)) >> i) & 1 == (v >> i) & 1) by (bit_vector)
        requires n < 8, i < 8;
    assert(i != n ==> ((v & !(1u8 << n)) >> i) & 1 == (v >> i) & 1) by (bit_vector)
        requires n < 8, i < 8;
}

} // verus!
