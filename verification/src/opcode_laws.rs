//! Laws that pin the instruction set to the processor's opcode map and to the
//! registers each instruction names. They number the registers independently
//! of the decoder, in the order of the processor's documentation: code 0 to 7
//! names B, C, D, E, H, L, the byte at HL, and A.
use vstd::prelude::*;
use crate::cpu::{CpuState, execute_spec, wrap16};
use crate::instruction::{
    ArithmeticTarget, Indirect, Instruction, JumpTest, LoadByteSource, LoadByteTarget, LoadType,
    LoadWordTarget, PrefixTarget, StackTarget, decode,
};
use crate::alu::{
    carry_value, inc_spec, dec_spec, add_spec, sub_spec, cp_flags, logic_flags, shift_flags,
    rlc_spec, rrc_spec, rl_spec, rr_spec, sla_spec, sra_spec, srl_spec, swap_spec,
};
use crate::flags::{FlagsRegister, flags_to_byte, flags_from_byte};
use crate::memory::MEMORY_SIZE;

verus! {

/// The value of HL, read from H and L.
pub open spec fn hl_of(s: CpuState) -> int {
    s.registers.h * 256 + s.registers.l
}

/// The byte that a three-bit register code reads.
pub open spec fn byte_by_code(s: CpuState, code: int) -> u8 {
    seq![
        s.registers.b,
        s.registers.c,
        s.registers.d,
        s.registers.e,
        s.registers.h,
        s.registers.l,
        s.mem[hl_of(s)],
        s.registers.a,
    ][code]
}

/// Whether `s2` is `s` with `v` stored where a three-bit register code names
/// and every other register and byte of memory as it was.
pub open spec fn stored_by_code(s: CpuState, s2: CpuState, code: int, v: u8) -> bool {
    &&& s2.registers.b == (if code == 0 { v } else { s.registers.b })
    &&& s2.registers.c == (if code == 1 { v } else { s.registers.c })
    &&& s2.registers.d == (if code == 2 { v } else { s.registers.d })
    &&& s2.registers.e == (if code == 3 { v } else { s.registers.e })
    &&& s2.registers.h == (if code == 4 { v } else { s.registers.h })
    &&& s2.registers.l == (if code == 5 { v } else { s.registers.l })
    &&& s2.mem == (if code == 6 { s.mem.update(hl_of(s), v) } else { s.mem })
    &&& s2.registers.a == (if code == 7 { v } else { s.registers.a })
}

/// The three-bit code of an arithmetic operand.
pub open spec fn arithmetic_code(t: ArithmeticTarget) -> int {
    match t {
        ArithmeticTarget::B => 0,
        ArithmeticTarget::C => 1,
        ArithmeticTarget::D => 2,
        ArithmeticTarget::E => 3,
        ArithmeticTarget::H => 4,
        ArithmeticTarget::L => 5,
        ArithmeticTarget::A => 7,
    }
}

/// The three-bit code of a CB-prefixed operand.
pub open spec fn prefix_code(t: PrefixTarget) -> int {
    match t {
        PrefixTarget::B => 0,
        PrefixTarget::C => 1,
        PrefixTarget::D => 2,
        PrefixTarget::E => 3,
        PrefixTarget::H => 4,
        PrefixTarget::L => 5,
        PrefixTarget::HLInd => 6,
        PrefixTarget::A => 7,
    }
}

/// An arithmetic operand reads the register it names, and writing it changes
/// that register alone.
pub proof fn lemma_arithmetic_operand_fields(s: CpuState, t: ArithmeticTarget, v: u8)
    ensures
        s.arithmetic_operand(t) == byte_by_code(s, arithmetic_code(t)),
        stored_by_code(s, s.with_arithmetic_operand(t, v), arithmetic_code(t), v),
        s.with_arithmetic_operand(t, v).registers.f == s.registers.f,
        s.with_arithmetic_operand(t, v).pc == s.pc,
        s.with_arithmetic_operand(t, v).sp == s.sp,
{
}

/// A CB-prefixed operand reads the register or the byte at HL it names, and
/// writing it changes that place alone.
pub proof fn lemma_prefix_operand_fields(s: CpuState, t: PrefixTarget, v: u8)
    ensures
        s.prefix_operand(t) == byte_by_code(s, prefix_code(t)),
        stored_by_code(s, s.with_prefix_operand(t, v), prefix_code(t), v),
        s.with_prefix_operand(t, v).registers.f == s.registers.f,
        s.with_prefix_operand(t, v).pc == s.pc,
        s.with_prefix_operand(t, v).sp == s.sp,
{
    s.registers.lemma_hl();
}

/// INC and DEC write the incremented or decremented operand back to the
/// register they read, change no other register, and keep the carry.
pub proof fn lemma_inc_dec_fields(s: CpuState, t: ArithmeticTarget)
    requires
        !s.halted,
    ensures
        ({
            let v = byte_by_code(s, arithmetic_code(t));
            let s2 = execute_spec(s, Instruction::INC(t));
            &&& stored_by_code(s, s2, arithmetic_code(t), ((v + 1) % 256) as u8)
            &&& s2.registers.f.carry == s.registers.f.carry
            &&& s2.registers.f.zero == (v == 255)
            &&& s2.pc == s.pc && s2.sp == s.sp
        }),
        ({
            let v = byte_by_code(s, arithmetic_code(t));
            let s2 = execute_spec(s, Instruction::DEC(t));
            &&& stored_by_code(s, s2, arithmetic_code(t), ((v + 255) % 256) as u8)
            &&& s2.registers.f.carry == s.registers.f.carry
            &&& s2.registers.f.zero == (v == 1)
            &&& s2.pc == s.pc && s2.sp == s.sp
        }),
{
    let v = s.arithmetic_operand(t);
    lemma_arithmetic_operand_fields(s, t, inc_spec(v, s.registers.f).0);
    lemma_arithmetic_operand_fields(
        s.with_flags(inc_spec(v, s.registers.f).1),
        t,
        inc_spec(v, s.registers.f).0,
    );
    lemma_arithmetic_operand_fields(
        s.with_flags(dec_spec(v, s.registers.f).1),
        t,
        dec_spec(v, s.registers.f).0,
    );
}

/// The three-bit code of the place an eight-bit load stores to.
pub open spec fn load_target_code(t: LoadByteTarget) -> int {
    match t {
        LoadByteTarget::B => 0,
        LoadByteTarget::C => 1,
        LoadByteTarget::D => 2,
        LoadByteTarget::E => 3,
        LoadByteTarget::H => 4,
        LoadByteTarget::L => 5,
        LoadByteTarget::HLI => 6,
        LoadByteTarget::A => 7,
    }
}

/// The byte an eight-bit load reads: the register or the byte at HL it names,
/// or the byte after the opcode.
pub open spec fn load_source_byte(s: CpuState, src: LoadByteSource) -> u8 {
    match src {
        LoadByteSource::B => byte_by_code(s, 0),
        LoadByteSource::C => byte_by_code(s, 1),
        LoadByteSource::D => byte_by_code(s, 2),
        LoadByteSource::E => byte_by_code(s, 3),
        LoadByteSource::H => byte_by_code(s, 4),
        LoadByteSource::L => byte_by_code(s, 5),
        LoadByteSource::HLI => byte_by_code(s, 6),
        LoadByteSource::A => byte_by_code(s, 7),
        LoadByteSource::D8 => s.mem[s.pc as int],
    }
}

/// An eight-bit load stores the byte it reads into the place it names and
/// changes nothing else; only an immediate operand moves PC, past itself.
pub proof fn lemma_load_byte_fields(s: CpuState, target: LoadByteTarget, src: LoadByteSource)
    requires
        !s.halted,
    ensures
        ({
            let s2 = execute_spec(s, Instruction::LD(LoadType::Byte(target, src)));
            &&& stored_by_code(s, s2, load_target_code(target), load_source_byte(s, src))
            &&& s2.registers.f == s.registers.f
            &&& s2.sp == s.sp
            &&& s2.pc == (if src is D8 { wrap16(s.pc + 1) } else { s.pc })
        }),
{
    s.registers.lemma_hl();
}

/// Opcodes 01xxxyyy other than 76 (HALT) copy the byte that code yyy names to
/// the place that code xxx names, and change nothing else.
pub proof fn lemma_register_load_opcodes(s: CpuState, op: u8)
    requires
        !s.halted,
        0x40 <= op < 0x80,
        op != 0x76,
    ensures
        decode(op, false) is Some,
        ({
            let s2 = execute_spec(s, decode(op, false)->0);
            &&& stored_by_code(s, s2, (op as int / 8) % 8, byte_by_code(s, op as int % 8))
            &&& s2.registers.f == s.registers.f
            &&& s2.pc == s.pc && s2.sp == s.sp
        }),
{
    let i = decode(op, false)->0;
    match i {
        Instruction::LD(LoadType::Byte(t, src)) => {
            lemma_load_byte_fields(s, t, src);
        },
        _ => {},
    }
}

/// Opcodes 00pp0010 store A at BC, DE, HL (then HL + 1) and HL (then HL - 1)
/// for pp = 0 to 3; opcodes 00pp1010 load A from the same addresses, stepping
/// HL the same way. Nothing else changes.
pub proof fn lemma_indirect_opcodes(s: CpuState, op: u8)
    requires
        !s.halted,
        op < 0x40,
        op % 8 == 2,
    ensures
        decode(op, false) is Some,
        ({
            let s2 = execute_spec(s, decode(op, false)->0);
            let r = s.registers;
            let pp = op / 16;
            let addr = if pp == 0 {
                r.b * 256 + r.c
            } else if pp == 1 {
                r.d * 256 + r.e
            } else {
                hl_of(s)
            };
            let hl2 = if pp == 2 {
                (hl_of(s) + 1) % 65536
            } else if pp == 3 {
                (hl_of(s) + 65535) % 65536
            } else {
                hl_of(s)
            };
            &&& hl_of(s2) == hl2
            &&& s2.registers.b == r.b && s2.registers.c == r.c
            &&& s2.registers.d == r.d && s2.registers.e == r.e
            &&& s2.registers.f == r.f
            &&& s2.pc == s.pc && s2.sp == s.sp
            &&& if (op / 8) % 2 == 0 {
                s2.mem == s.mem.update(addr, r.a) && s2.registers.a == r.a
            } else {
                s2.mem == s.mem && s2.registers.a == s.mem[addr]
            }
        }),
{
    s.registers.lemma_hl();
    let hl = s.registers.hl();
    if op / 16 == 2 {
        crate::registers::lemma_pair_set_get(s.registers, wrap16(hl + 1));
    } else if op / 16 == 3 {
        crate::registers::lemma_pair_set_get(s.registers, wrap16(hl - 1));
    }
    if op == 0x02 {
    } else if op == 0x12 {
    } else if op == 0x22 {
    } else if op == 0x32 {
    } else if op == 0x0A {
    } else if op == 0x1A {
    } else if op == 0x2A {
    } else {
        assert(op == 0x3A);
    }
}

/// Opcodes 10yyyzzz with zzz other than 6 apply ADD, ADC, SUB, SBC, AND, XOR,
/// OR or CP (yyy = 0 to 7) to A and the register that zzz names; only A and
/// the flags change. With zzz = 6 the opcode is not supported.
pub proof fn lemma_alu_opcodes(s: CpuState, op: u8)
    requires
        !s.halted,
        0x80 <= op < 0xC0,
    ensures
        op % 8 == 6 ==> decode(op, false) is None,
        op % 8 != 6 ==> decode(op, false) is Some,
        op % 8 != 6 ==> ({
            let s2 = execute_spec(s, decode(op, false)->0);
            let a = s.registers.a;
            let v = byte_by_code(s, op as int % 8);
            let c = s.registers.f.carry;
            let y = (op as int / 8) % 8;
            &&& s2.registers.a == seq![
                add_spec(a, v, false).0,
                add_spec(a, v, c).0,
                sub_spec(a, v, false).0,
                sub_spec(a, v, c).0,
                a & v,
                a ^ v,
                a | v,
                a,
            ][y]
            &&& s2.registers.f == seq![
                add_spec(a, v, false).1,
                add_spec(a, v, c).1,
                sub_spec(a, v, false).1,
                sub_spec(a, v, c).1,
                logic_flags(a & v, true),
                logic_flags(a ^ v, false),
                logic_flags(a | v, false),
                cp_flags(a, v),
            ][y]
            &&& stored_by_code(s, s2, 7, s2.registers.a)
            &&& s2.pc == s.pc && s2.sp == s.sp
        }),
{
}

/// After a CB prefix, opcode xxyyyzzz works on the place that zzz names: with
/// xx = 0 it rotates or shifts it by RLC, RRC, RL, RR, SLA, SRA, SWAP or SRL
/// (yyy = 0 to 7); with xx = 1 it tests bit yyy (Z set when the bit is clear);
/// with xx = 2 it clears bit yyy and with xx = 3 it sets it. Nothing else
/// changes.
pub proof fn lemma_prefixed_opcodes(s: CpuState, op: u8)
    requires
        !s.halted,
        s.mem.len() == MEMORY_SIZE,
    ensures
        decode(op, true) is Some,
        ({
            let s2 = execute_spec(s, decode(op, true)->0);
            let z = op as int % 8;
            let y = (op as int / 8) % 8;
            let x = op as int / 64;
            let v = byte_by_code(s, z);
            let c = s.registers.f.carry;
            let f = s.registers.f;
            let shift = seq![
                rlc_spec(v),
                rrc_spec(v),
                rl_spec(v, c),
                rr_spec(v, c),
                sla_spec(v),
                sra_spec(v),
                (swap_spec(v), false),
                srl_spec(v),
            ][y];
            &&& x == 0 ==> stored_by_code(s, s2, z, shift.0) && s2.registers.f == shift_flags(
                shift.0,
                shift.1,
            )
            &&& x == 1 ==> stored_by_code(s, s2, z, v) && s2.registers.f == FlagsRegister {
                zero: (v >> (y as u8)) & 1 == 0,
                subtract: false,
                half_carry: true,
                carry: c,
            }
            &&& x == 2 ==> stored_by_code(s, s2, z, v & !(1u8 << (y as u8))) && s2.registers.f == f
            &&& x == 3 ==> stored_by_code(s, s2, z, v | (1u8 << (y as u8))) && s2.registers.f == f
            &&& s2.pc == s.pc && s2.sp == s.sp
        }),
{
    let z = op as int % 8;
    let y = (op as int / 8) % 8;
    let x = op as int / 64;
    let t = crate::instruction::prefix_target_of(z);
    let v = byte_by_code(s, z);
    let c = s.registers.f.carry;
    let f = s.registers.f;
    let i = decode(op, true)->0;
    lemma_prefix_operand_fields(s, t, 0);
    assert(prefix_code(t) == z);
    assert(s.prefix_operand(t) == v);
    if x == 0 {
        let shift = seq![
            rlc_spec(v),
            rrc_spec(v),
            rl_spec(v, c),
            rr_spec(v, c),
            sla_spec(v),
            sra_spec(v),
            (swap_spec(v), false),
            srl_spec(v),
        ][y];
        assert(execute_spec(s, i) == crate::cpu::shifted(s, t, shift));
        lemma_flags_then_store(s, t, shift_flags(shift.0, shift.1), shift.0);
    } else if x == 1 {
        assert(0 <= hl_of(s) < MEMORY_SIZE);
        if z == 6 {
            assert(s.mem.update(hl_of(s), v) =~= s.mem);
        }
        let n = y as u8;
        assert(((v >> n) & 1 == 0) == !((v >> n) & 1 == 1)) by (bit_vector);
    } else if x == 2 {
        lemma_prefix_operand_fields(s, t, v & !(1u8 << (y as u8)));
    } else {
        lemma_prefix_operand_fields(s, t, v | (1u8 << (y as u8)));
    }
}

/// Whether a control opcode is taken: the unconditional ones (C3, C9, CD)
/// always, the others 110cc000, 110cc010, 110cc100 when NZ, Z, NC or C holds
/// for cc = 0 to 3.
pub open spec fn control_taken(s: CpuState, op: u8) -> bool {
    if op == 0xC3 || op == 0xC9 || op == 0xCD {
        true
    } else {
        seq![
            !s.registers.f.zero,
            s.registers.f.zero,
            !s.registers.f.carry,
            s.registers.f.carry,
        ][(op as int / 8) % 4]
    }
}

/// JP (C3, and 110cc010) jumps to the word after the opcode when taken and
/// skips it otherwise. CALL (CD, and 110cc100), when taken, pushes the address
/// after the word, high byte first, and jumps to the word; otherwise it skips
/// it. RET (C9, and 110cc000), when taken, pops PC, low byte first. None of
/// them changes a register.
pub proof fn lemma_control_opcodes(s: CpuState, op: u8)
    requires
        !s.halted,
        s.mem.len() == MEMORY_SIZE,
        s.pc < 0xFFFF,
        0xC0 <= op < 0xE0,
        op % 8 == 0 || op % 8 == 2 || op % 8 == 4 || op == 0xC3 || op == 0xC9 || op == 0xCD,
    ensures
        decode(op, false) is Some,
        ({
            let s2 = execute_spec(s, decode(op, false)->0);
            let taken = control_taken(s, op);
            let pc = s.pc as int;
            let sp = s.sp as int;
            let next = (pc + 2) % 65536;
            &&& s2.registers == s.registers
            &&& (op % 8 == 2 || op == 0xC3) ==> s2.mem == s.mem && s2.sp == s.sp && s2.pc == (
            if taken {
                s.mem[pc] + s.mem[pc + 1] * 256
            } else {
                next
            })
            &&& (op % 8 == 4 || op == 0xCD) ==> if taken {
                &&& s2.sp == (sp + 65534) % 65536
                &&& s2.mem == s.mem.update((sp + 65535) % 65536, (next / 256) as u8).update(
                    (sp + 65534) % 65536,
                    (next % 256) as u8,
                )
                &&& s2.pc == s2.mem[pc] + s2.mem[pc + 1] * 256
            } else {
                s2.mem == s.mem && s2.sp == s.sp && s2.pc == next
            }
            &&& (op % 8 == 0 || op == 0xC9) ==> s2.mem == s.mem && if taken {
                s2.pc == s.mem[(sp + 1) % 65536] * 256 + s.mem[sp] && s2.sp == (sp + 2) % 65536
            } else {
                s2.pc == s.pc && s2.sp == s.sp
            }
        }),
{
    if op == 0xC3 || op == 0xC9 || op == 0xCD {
    } else if op % 8 == 0 {
    } else if op % 8 == 2 {
    } else {
    }
}

/// PUSH (11pp0101) stores BC, DE, HL or AF (pp = 0 to 3) below SP, high byte
/// first, and moves SP down by two; it changes no register.
pub proof fn lemma_push_opcodes(s: CpuState, op: u8)
    requires
        !s.halted,
        0xC0 <= op,
        op % 16 == 5,
    ensures
        decode(op, false) is Some,
        ({
            let s2 = execute_spec(s, decode(op, false)->0);
            let r = s.registers;
            let pp = op as int / 16 - 12;
            let sp = s.sp as int;
            let v = seq![
                r.b * 256 + r.c,
                r.d * 256 + r.e,
                r.h * 256 + r.l,
                r.a * 256 + flags_to_byte(r.f),
            ][pp];
            &&& s2.pc == s.pc
            &&& s2.registers == r
            &&& s2.sp == (sp + 65534) % 65536
            &&& s2.mem == s.mem.update((sp + 65535) % 65536, (v / 256) as u8).update(
                (sp + 65534) % 65536,
                (v % 256) as u8,
            )
        }),
{
    s.registers.lemma_hl();
    if op == 0xC5 {
    } else if op == 0xD5 {
    } else if op == 0xE5 {
    } else {
        assert(op == 0xF5);
    }
}

/// POP (11pp0001) loads BC, DE, HL or AF (pp = 0 to 3) from SP, low byte
/// first (F from the high nibble of its byte), and moves SP up by two; no other
/// register changes.
pub proof fn lemma_pop_opcodes(s: CpuState, op: u8)
    requires
        !s.halted,
        0xC0 <= op,
        op % 16 == 1,
    ensures
        decode(op, false) is Some,
        ({
            let s2 = execute_spec(s, decode(op, false)->0);
            let r = s.registers;
            let pp = op as int / 16 - 12;
            let sp = s.sp as int;
            let lo = s.mem[sp];
            let hi = s.mem[(sp + 1) % 65536];
            &&& s2.pc == s.pc
            &&& s2.mem == s.mem
            &&& s2.sp == (sp + 2) % 65536
            &&& s2.registers.b == (if pp == 0 { hi } else { r.b })
            &&& s2.registers.c == (if pp == 0 { lo } else { r.c })
            &&& s2.registers.d == (if pp == 1 { hi } else { r.d })
            &&& s2.registers.e == (if pp == 1 { lo } else { r.e })
            &&& s2.registers.h == (if pp == 2 { hi } else { r.h })
            &&& s2.registers.l == (if pp == 2 { lo } else { r.l })
            &&& s2.registers.a == (if pp == 3 { hi } else { r.a })
            &&& s2.registers.f == (if pp == 3 { flags_from_byte(lo) } else { r.f })
        }),
{
    let lo = s.mem[s.sp as int];
    let hi = s.mem[(s.sp + 1) % 65536];
    let w = (hi * 256 + lo) as u16;
    assert(w / 256 == hi && w % 256 == lo);
    if op == 0xC1 {
    } else if op == 0xD1 {
    } else if op == 0xE1 {
    } else {
        assert(op == 0xF1);
    }
}

/// LD rr, d16 (00pp0001) loads BC, DE, HL or SP (pp = 0 to 3) from the two
/// bytes after the opcode, low byte first, and moves PC past them.
pub proof fn lemma_word_load_opcodes(s: CpuState, op: u8)
    requires
        !s.halted,
        s.pc < 0xFFFF,
        op < 0x40,
        op % 16 == 1,
    ensures
        decode(op, false) is Some,
        ({
            let s2 = execute_spec(s, decode(op, false)->0);
            let r = s.registers;
            let pp = op as int / 16;
            let lo = s.mem[s.pc as int];
            let hi = s.mem[s.pc + 1];
            &&& s2.pc == (s.pc + 2) % 65536
            &&& s2.mem == s.mem
            &&& s2.registers.b == (if pp == 0 { hi } else { r.b })
            &&& s2.registers.c == (if pp == 0 { lo } else { r.c })
            &&& s2.registers.d == (if pp == 1 { hi } else { r.d })
            &&& s2.registers.e == (if pp == 1 { lo } else { r.e })
            &&& s2.registers.h == (if pp == 2 { hi } else { r.h })
            &&& s2.registers.l == (if pp == 2 { lo } else { r.l })
            &&& s2.registers.a == r.a && s2.registers.f == r.f
            &&& s2.sp == (if pp == 3 { hi * 256 + lo } else { s.sp as int })
        }),
{
    let lo = s.mem[s.pc as int];
    let hi = s.mem[s.pc + 1];
    let w = crate::memory::word_at(s.mem, s.pc as int);
    assert(w == lo + hi * 256);
    assert(w / 256 == hi && w % 256 == lo);
    if op == 0x01 {
    } else if op == 0x11 {
    } else if op == 0x21 {
    } else {
        assert(op == 0x31);
    }
}

/// Opcodes 00yyy111 act on A and the flags: RLCA, RRCA, RLA, RRA (yyy = 0 to
/// 3; Z cleared), CPL (5; A inverted), SCF (6; carry set) and CCF (7; carry
/// inverted). Opcode 27 (DAA) is not supported.
pub proof fn lemma_accumulator_opcodes(s: CpuState, op: u8)
    requires
        !s.halted,
        op < 0x40,
        op % 8 == 7,
    ensures
        op == 0x27 ==> decode(op, false) is None,
        op != 0x27 ==> decode(op, false) is Some,
        op != 0x27 ==> ({
            let s2 = execute_spec(s, decode(op, false)->0);
            let a = s.registers.a;
            let c = s.registers.f.carry;
            let y = op as int / 8;
            &&& s2.registers.a == seq![
                rlc_spec(a).0,
                rrc_spec(a).0,
                rl_spec(a, c).0,
                rr_spec(a, c).0,
                a,
                (255 - a) as u8,
                a,
                a,
            ][y]
            &&& s2.registers.f.carry == seq![
                rlc_spec(a).1,
                rrc_spec(a).1,
                rl_spec(a, c).1,
                rr_spec(a, c).1,
                c,
                c,
                true,
                !c,
            ][y]
            &&& s2.registers.f.zero == (if y < 4 { false } else { s.registers.f.zero })
            &&& stored_by_code(s, s2, 7, s2.registers.a)
            &&& s2.pc == s.pc && s2.sp == s.sp
        }),
{
}

/// NOP changes nothing and HALT only halts. LDH (E0, F0) stores A at,
/// or loads A from, FF00 plus the byte after the opcode; LD (nn), A and
/// LD A, (nn) (EA, FA) do so at the word after the opcode. Each moves PC past
/// its operand.
pub proof fn lemma_other_opcodes(s: CpuState, op: u8)
    requires
        !s.halted,
        s.pc < 0xFFFF,
        op == 0x00 || op == 0x76 || op == 0xE0 || op == 0xF0 || op == 0xEA || op == 0xFA,
    ensures
        decode(op, false) is Some,
        ({
            let s2 = execute_spec(s, decode(op, false)->0);
            let r = s.registers;
            let n = s.mem[s.pc as int];
            let nn = s.mem[s.pc as int] + s.mem[s.pc + 1] * 256;
            &&& op == 0x00 ==> s2 == s
            &&& op == 0x76 ==> s2 == CpuState { halted: true, ..s }
            &&& op == 0xE0 ==> s2 == CpuState {
                pc: wrap16(s.pc + 1),
                mem: s.mem.update(0xFF00 + n, r.a),
                ..s
            }
            &&& op == 0xF0 ==> s2 == CpuState {
                pc: wrap16(s.pc + 1),
                registers: crate::registers::Registers { a: s.mem[0xFF00 + n], ..r },
                ..s
            }
            &&& op == 0xEA ==> s2 == CpuState { pc: wrap16(s.pc + 2), mem: s.mem.update(nn, r.a), ..s }
            &&& op == 0xFA ==> s2 == CpuState {
                pc: wrap16(s.pc + 2),
                registers: crate::registers::Registers { a: s.mem[nn], ..r },
                ..s
            }
        }),
{
    if op == 0xEA || op == 0xFA {
        assert(crate::memory::word_at(s.mem, s.pc as int) as int == s.mem[s.pc as int] + s.mem[s.pc
            + 1] * 256);
    }
}

/// LD r, d8 (00yyy110, yyy not 6) stores the byte after the opcode where yyy
/// names, moves PC past it, and changes nothing else. Opcode 36 is not
/// supported.
pub proof fn lemma_immediate_load_opcodes(s: CpuState, op: u8)
    requires
        !s.halted,
        op < 0x40,
        op % 8 == 6,
    ensures
        op == 0x36 ==> decode(op, false) is None,
        op != 0x36 ==> decode(op, false) is Some,
        op != 0x36 ==> ({
            let s2 = execute_spec(s, decode(op, false)->0);
            &&& stored_by_code(s, s2, op as int / 8, s.mem[s.pc as int])
            &&& s2.registers.f == s.registers.f
            &&& s2.pc == (s.pc + 1) % 65536
            &&& s2.sp == s.sp
        }),
{
    if op != 0x36 {
        let i = decode(op, false)->0;
        match i {
            Instruction::LD(LoadType::Byte(t, src)) => {
                lemma_load_byte_fields(s, t, src);
            },
            _ => {},
        }
    }
}

/// Each arithmetic and logic instruction computes its operation of A and the
/// register it names: ADD and SUB without the carry, ADC and SBC with it, AND
/// with H set, CP leaving A alone. Only A and the flags change.
pub proof fn lemma_alu_instructions(s: CpuState, t: ArithmeticTarget)
    requires
        !s.halted,
    ensures
        ({
            let a = s.registers.a;
            let v = byte_by_code(s, arithmetic_code(t));
            let c = s.registers.f.carry;
            let add = execute_spec(s, Instruction::ADD(t));
            let adc = execute_spec(s, Instruction::ADC(t));
            let sub = execute_spec(s, Instruction::SUB(t));
            let sbc = execute_spec(s, Instruction::SBC(t));
            let and = execute_spec(s, Instruction::AND(t));
            let or = execute_spec(s, Instruction::OR(t));
            let xor = execute_spec(s, Instruction::XOR(t));
            let cp = execute_spec(s, Instruction::CP(t));
            &&& add.registers.a == add_spec(a, v, false).0 && add.registers.f == add_spec(a, v, false).1
            &&& adc.registers.a == add_spec(a, v, c).0 && adc.registers.f == add_spec(a, v, c).1
            &&& sub.registers.a == sub_spec(a, v, false).0 && sub.registers.f == sub_spec(a, v, false).1
            &&& sbc.registers.a == sub_spec(a, v, c).0 && sbc.registers.f == sub_spec(a, v, c).1
            &&& and.registers.a == a & v && and.registers.f == logic_flags(a & v, true)
            &&& or.registers.a == a | v && or.registers.f == logic_flags(a | v, false)
            &&& xor.registers.a == a ^ v && xor.registers.f == logic_flags(a ^ v, false)
            &&& cp.registers.a == a && cp.registers.f == cp_flags(a, v)
            &&& stored_by_code(s, add, 7, add.registers.a) && stored_by_code(s, adc, 7, adc.registers.a)
            &&& stored_by_code(s, sub, 7, sub.registers.a) && stored_by_code(s, sbc, 7, sbc.registers.a)
            &&& stored_by_code(s, and, 7, and.registers.a) && stored_by_code(s, or, 7, or.registers.a)
            &&& stored_by_code(s, xor, 7, xor.registers.a) && stored_by_code(s, cp, 7, a)
        }),
{
    lemma_arithmetic_operand_fields(s, t, 0);
}

/// Whether `s2` is `s` with a rotate or shift result `r` stored where the code
/// names, Z from the result, C the bit shifted out, N and H clear, and nothing
/// else changed.
pub open spec fn shift_stored(s: CpuState, s2: CpuState, code: int, r: (u8, bool)) -> bool {
    &&& stored_by_code(s, s2, code, r.0)
    &&& s2.registers.f == FlagsRegister {
        zero: r.0 == 0,
        subtract: false,
        half_carry: false,
        carry: r.1,
    }
    &&& s2.pc == s.pc
    &&& s2.sp == s.sp
}

/// Each CB-prefixed rotate and shift stores its result of the byte its operand
/// names back there, with Z from the result and C the bit shifted out.
pub proof fn lemma_shift_instructions(s: CpuState, t: PrefixTarget)
    requires
        !s.halted,
    ensures
        shift_stored(
            s,
            execute_spec(s, Instruction::RLC(t)),
            prefix_code(t),
            rlc_spec(byte_by_code(s, prefix_code(t))),
        ),
        shift_stored(
            s,
            execute_spec(s, Instruction::RRC(t)),
            prefix_code(t),
            rrc_spec(byte_by_code(s, prefix_code(t))),
        ),
        shift_stored(
            s,
            execute_spec(s, Instruction::RL(t)),
            prefix_code(t),
            rl_spec(byte_by_code(s, prefix_code(t)), s.registers.f.carry),
        ),
        shift_stored(
            s,
            execute_spec(s, Instruction::RR(t)),
            prefix_code(t),
            rr_spec(byte_by_code(s, prefix_code(t)), s.registers.f.carry),
        ),
        shift_stored(
            s,
            execute_spec(s, Instruction::SLA(t)),
            prefix_code(t),
            sla_spec(byte_by_code(s, prefix_code(t))),
        ),
        shift_stored(
            s,
            execute_spec(s, Instruction::SRA(t)),
            prefix_code(t),
            sra_spec(byte_by_code(s, prefix_code(t))),
        ),
        shift_stored(
            s,
            execute_spec(s, Instruction::SWAP(t)),
            prefix_code(t),
            (swap_spec(byte_by_code(s, prefix_code(t))), false),
        ),
        shift_stored(
            s,
            execute_spec(s, Instruction::SRL(t)),
            prefix_code(t),
            srl_spec(byte_by_code(s, prefix_code(t))),
        ),
{
    let v = byte_by_code(s, prefix_code(t));
    let c = s.registers.f.carry;
    lemma_prefix_operand_fields(s, t, 0);
    assert(execute_spec(s, Instruction::RLC(t)) == crate::cpu::shifted(s, t, rlc_spec(v)));
    lemma_flags_then_store(s, t, shift_flags((rlc_spec(v)).0, (rlc_spec(v)).1), (rlc_spec(v)).0);
    assert(execute_spec(s, Instruction::RRC(t)) == crate::cpu::shifted(s, t, rrc_spec(v)));
    lemma_flags_then_store(s, t, shift_flags((rrc_spec(v)).0, (rrc_spec(v)).1), (rrc_spec(v)).0);
    assert(execute_spec(s, Instruction::RL(t)) == crate::cpu::shifted(s, t, rl_spec(v, c)));
    lemma_flags_then_store(s, t, shift_flags((rl_spec(v, c)).0, (rl_spec(v, c)).1), (rl_spec(v, c)).0);
    assert(execute_spec(s, Instruction::RR(t)) == crate::cpu::shifted(s, t, rr_spec(v, c)));
    lemma_flags_then_store(s, t, shift_flags((rr_spec(v, c)).0, (rr_spec(v, c)).1), (rr_spec(v, c)).0);
    assert(execute_spec(s, Instruction::SLA(t)) == crate::cpu::shifted(s, t, sla_spec(v)));
    lemma_flags_then_store(s, t, shift_flags((sla_spec(v)).0, (sla_spec(v)).1), (sla_spec(v)).0);
    assert(execute_spec(s, Instruction::SRA(t)) == crate::cpu::shifted(s, t, sra_spec(v)));
    lemma_flags_then_store(s, t, shift_flags((sra_spec(v)).0, (sra_spec(v)).1), (sra_spec(v)).0);
    assert(execute_spec(s, Instruction::SWAP(t)) == crate::cpu::shifted(s, t, (swap_spec(v), false)));
    lemma_flags_then_store(s, t, shift_flags(((swap_spec(v), false)).0, ((swap_spec(v), false)).1), ((swap_spec(v), false)).0);
    assert(execute_spec(s, Instruction::SRL(t)) == crate::cpu::shifted(s, t, srl_spec(v)));
    lemma_flags_then_store(s, t, shift_flags((srl_spec(v)).0, (srl_spec(v)).1), (srl_spec(v)).0);
}

/// BIT n sets Z when bit n of the byte its operand names is clear, sets H,
/// clears N and keeps C; RES n and SET n store that byte with bit n cleared or
/// set. Nothing else changes.
pub proof fn lemma_bit_instructions(s: CpuState, n: u8, t: PrefixTarget)
    requires
        !s.halted,
        n < 8,
        s.mem.len() == MEMORY_SIZE,
    ensures
        ({
            let v = byte_by_code(s, prefix_code(t));
            let z = prefix_code(t);
            let f = s.registers.f;
            let bit = execute_spec(s, Instruction::BIT(n, t));
            let res = execute_spec(s, Instruction::RES(n, t));
            let set = execute_spec(s, Instruction::SET(n, t));
            &&& stored_by_code(s, bit, z, v)
            &&& bit.registers.f == FlagsRegister {
                zero: (v >> n) & 1 == 0,
                subtract: false,
                half_carry: true,
                carry: f.carry,
            }
            &&& stored_by_code(s, res, z, v & !(1u8 << n)) && res.registers.f == f
            &&& stored_by_code(s, set, z, v | (1u8 << n)) && set.registers.f == f
        }),
{
    let v = byte_by_code(s, prefix_code(t));
    lemma_prefix_operand_fields(s, t, v & !(1u8 << n));
    lemma_prefix_operand_fields(s, t, v | (1u8 << n));
    s.registers.lemma_hl();
    assert(0 <= hl_of(s) < MEMORY_SIZE);
    if t is HLInd {
        assert(s.mem.update(hl_of(s), v) =~= s.mem);
    }
    assert(((v >> n) & 1 == 0) == !((v >> n) & 1 == 1)) by (bit_vector);
}

/// JP jumps when its condition holds: NotZero when Z is clear, Zero when it is
/// set, NotCarry when C is clear, Carry when it is set, Always always.
pub proof fn lemma_jump_conditions(s: CpuState, test: JumpTest)
    requires
        !s.halted,
    ensures
        ({
            let f = s.registers.f;
            let taken = match test {
                JumpTest::NotZero => !f.zero,
                JumpTest::Zero => f.zero,
                JumpTest::NotCarry => !f.carry,
                JumpTest::Carry => f.carry,
                JumpTest::Always => true,
            };
            let s2 = execute_spec(s, Instruction::JP(test));
            &&& s2.pc == (if taken {
                s.mem[s.pc as int] + s.mem[s.pc + 1] * 256
            } else {
                (s.pc + 2) % 65536
            })
            &&& s2.registers == s.registers && s2.mem == s.mem && s2.sp == s.sp
        }),
{
}

/// PUSH stores the pair it names: AF is A and the F byte, BC is B and C, DE is
/// D and E, HL is H and L, each high byte at SP - 1 and low byte at SP - 2.
pub proof fn lemma_push_targets(s: CpuState, t: StackTarget)
    requires
        !s.halted,
    ensures
        ({
            let r = s.registers;
            let (hi, lo) = match t {
                StackTarget::AF => (r.a, flags_to_byte(r.f)),
                StackTarget::BC => (r.b, r.c),
                StackTarget::DE => (r.d, r.e),
                StackTarget::HL => (r.h, r.l),
            };
            let sp = s.sp as int;
            let s2 = execute_spec(s, Instruction::PUSH(t));
            &&& s2.mem == s.mem.update((sp + 65535) % 65536, hi).update((sp + 65534) % 65536, lo)
            &&& s2.sp == (sp + 65534) % 65536
            &&& s2.registers == r && s2.pc == s.pc
        }),
{
    s.registers.lemma_hl();
    crate::flags::lemma_flags_byte_low_nibble_clear(s.registers.f);
}

/// LD rr, d16 loads the pair it names, or SP, with the word after the opcode:
/// the high register takes the second byte, the low one the first.
pub proof fn lemma_word_load_targets(s: CpuState, t: LoadWordTarget)
    requires
        !s.halted,
    ensures
        ({
            let r = s.registers;
            let lo = s.mem[s.pc as int];
            let hi = s.mem[s.pc + 1];
            let s2 = execute_spec(s, Instruction::LD(LoadType::Word(t)));
            &&& s2.registers.b == (if t is BC { hi } else { r.b })
            &&& s2.registers.c == (if t is BC { lo } else { r.c })
            &&& s2.registers.d == (if t is DE { hi } else { r.d })
            &&& s2.registers.e == (if t is DE { lo } else { r.e })
            &&& s2.registers.h == (if t is HL { hi } else { r.h })
            &&& s2.registers.l == (if t is HL { lo } else { r.l })
            &&& s2.registers.a == r.a && s2.registers.f == r.f
            &&& s2.sp == (if t is SP { hi * 256 + lo } else { s.sp as int })
            &&& s2.pc == (s.pc + 2) % 65536 && s2.mem == s.mem
        }),
{
    let w = crate::memory::word_at(s.mem, s.pc as int);
    assert(w == s.mem[s.pc as int] + s.mem[s.pc + 1] * 256);
    assert(w / 256 == s.mem[s.pc + 1] && w % 256 == s.mem[s.pc as int]);
}

/// The address of an indirect load or store is BC, DE or HL as named, or the
/// word after the opcode; HL+ and HL- step HL after using it.
pub proof fn lemma_indirect_targets(s: CpuState, ind: Indirect)
    requires
        !s.halted,
    ensures
        ({
            let r = s.registers;
            let addr = match ind {
                Indirect::BCIndirect => r.b * 256 + r.c,
                Indirect::DEIndirect => r.d * 256 + r.e,
                Indirect::HLIndirectPlus => hl_of(s),
                Indirect::HLIndirectMinus => hl_of(s),
                Indirect::WordIndirect => s.mem[s.pc as int] + s.mem[s.pc + 1] * 256,
            };
            let hl2 = match ind {
                Indirect::HLIndirectPlus => (hl_of(s) + 1) % 65536,
                Indirect::HLIndirectMinus => (hl_of(s) + 65535) % 65536,
                _ => hl_of(s),
            };
            let pc2 = if ind is WordIndirect { (s.pc + 2) % 65536 } else { s.pc as int };
            let load = execute_spec(s, Instruction::LD(LoadType::AFromIndirect(ind)));
            let store = execute_spec(s, Instruction::LD(LoadType::IndirectFromA(ind)));
            &&& load.registers.a == s.mem[addr] && load.mem == s.mem
            &&& store.mem == s.mem.update(addr, r.a) && store.registers.a == r.a
            &&& hl_of(load) == hl2 && hl_of(store) == hl2
            &&& load.pc == pc2 && store.pc == pc2
            &&& load.registers.b == r.b && load.registers.c == r.c && load.registers.d == r.d
                && load.registers.e == r.e && load.registers.f == r.f
            &&& store.registers.b == r.b && store.registers.c == r.c && store.registers.d == r.d
                && store.registers.e == r.e && store.registers.f == r.f
            &&& load.sp == s.sp && store.sp == s.sp
        }),
{
    s.registers.lemma_hl();
    let hl = s.registers.hl();
    crate::registers::lemma_pair_set_get(s.registers, wrap16(hl + 1));
    crate::registers::lemma_pair_set_get(s.registers, wrap16(hl - 1));
    assert(crate::memory::word_at(s.mem, s.pc as int) as int == s.mem[s.pc as int] + s.mem[s.pc
        + 1] * 256);
}

/// The opcodes without a prefix that are supported: NOP, HALT, the loads
/// 00pp0001, 00pp0010, 00pp1010 and 00yyy110 (not 36), the accumulator
/// operations 00yyy111 (not 27), LD r, r' (40 to 7F), the arithmetic
/// 10yyyzzz (zzz not 6), the conditional RET, JP and CALL 110cc000, 110cc010,
/// 110cc100, the unconditional C3, C9 and CD, PUSH and POP 11pp0101 and
/// 11pp0001, and E0, F0, EA and FA. Every other opcode decodes to nothing.
pub proof fn lemma_supported_opcodes(op: u8)
    ensures
        decode(op, false) is Some <==> {
            ||| op == 0x00
            ||| op < 0x40 && op % 16 == 1
            ||| op < 0x40 && op % 8 == 2
            ||| op < 0x40 && op % 8 == 6 && op != 0x36
            ||| op < 0x40 && op % 8 == 7 && op != 0x27
            ||| 0x40 <= op < 0x80
            ||| 0x80 <= op < 0xC0 && op % 8 != 6
            ||| 0xC0 <= op < 0xE0 && (op % 8 == 0 || op % 8 == 2 || op % 8 == 4)
            ||| op == 0xC3 || op == 0xC9 || op == 0xCD
            ||| 0xC0 <= op && (op % 16 == 1 || op % 16 == 5)
            ||| op == 0xE0 || op == 0xF0 || op == 0xEA || op == 0xFA
        },
{
}

/// Setting the flags and then storing to a CB-prefixed operand changes the
/// flags and that place alone.
proof fn lemma_flags_then_store(s: CpuState, t: PrefixTarget, f: FlagsRegister, w: u8)
    ensures
        stored_by_code(s, s.with_flags(f).with_prefix_operand(t, w), prefix_code(t), w),
        s.with_flags(f).with_prefix_operand(t, w).registers.f == f,
        s.with_flags(f).with_prefix_operand(t, w).pc == s.pc,
        s.with_flags(f).with_prefix_operand(t, w).sp == s.sp,
{
    lemma_prefix_operand_fields(s.with_flags(f), t, w);
}

} // verus!
