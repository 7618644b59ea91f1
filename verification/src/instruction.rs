//! Instructions, and how opcode bytes decode into them.
use vstd::prelude::*;

verus! {

/// An eight-bit register operand of the arithmetic and logic instructions.
#[derive(Clone, Copy)]
pub enum ArithmeticTarget {
    A,
    B,
    C,
    D,
    E,
    H,
    L,
}

/// The operand of a CB-prefixed instruction: a register, or the byte at HL.
#[derive(Clone, Copy)]
pub enum PrefixTarget {
    B,
    C,
    D,
    E,
    H,
    L,
    A,
    HLInd,
}

/// The condition of a jump, call or return.
#[derive(Clone, Copy)]
pub enum JumpTest {
    NotZero,
    Zero,
    NotCarry,
    Carry,
    Always,
}

/// A register pair that can be pushed and popped.
#[derive(Clone, Copy)]
pub enum StackTarget {
    AF,
    BC,
    DE,
    HL,
}

/// Where an eight-bit load stores.
#[derive(Clone, Copy)]
pub enum LoadByteTarget {
    A,
    B,
    C,
    D,
    E,
    H,
    L,
    HLI,
}

/// Where an eight-bit load reads.
#[derive(Clone, Copy)]
pub enum LoadByteSource {
    A,
    B,
    C,
    D,
    E,
    H,
    L,
    D8,
    HLI,
}

/// How the address of an indirect load or store is found.
#[derive(Clone, Copy)]
pub enum Indirect {
    BCIndirect,
    DEIndirect,
    HLIndirectMinus,  // HL-, decrement HL after access
    HLIndirectPlus,  // HL+, increment HL after access
    WordIndirect,  // address given as next 2 bytes
}

/// A register pair loaded with a sixteen-bit immediate.
#[derive(Clone, Copy)]
pub enum LoadWordTarget {
    BC,
    DE,
    HL,
    SP,
}

/// The forms of the load instruction.
pub enum LoadType {
    /// 8-bit register / immediate / (HL) loads
    Byte(LoadByteTarget, LoadByteSource),
    /// 16-bit immediate loads:  LD rr, d16
    Word(LoadWordTarget),
    /// LD A, (rr)
    AFromIndirect(Indirect),
    /// LD (rr), A
    IndirectFromA(Indirect),
    /// LD A, (0xFF00 + n)  — n is the next byte
    AFromByteAddress,
    /// LD (0xFF00 + n), A  — n is the next byte
    ByteAddressFromA,
}

/// The instructions that the processor executes.
pub enum Instruction {
    // 8-bit arithmetic
    ADD(ArithmeticTarget),
    ADC(ArithmeticTarget),
    SUB(ArithmeticTarget),
    SBC(ArithmeticTarget),
    AND(ArithmeticTarget),
    OR(ArithmeticTarget),
    XOR(ArithmeticTarget),
    CP(ArithmeticTarget),
    INC(ArithmeticTarget),
    DEC(ArithmeticTarget),
    // Misc / flag ops
    CCF,
    SCF,
    RRA,
    RLA,
    RRCA,
    RLCA,
    CPL,
    // CB-prefixed bit ops
    BIT(u8, PrefixTarget),
    RES(u8, PrefixTarget),
    SET(u8, PrefixTarget),
    SRL(PrefixTarget),
    RR(PrefixTarget),
    RL(PrefixTarget),
    RRC(PrefixTarget),
    RLC(PrefixTarget),
    SRA(PrefixTarget),
    SLA(PrefixTarget),
    SWAP(PrefixTarget),
    // Control flow
    JP(JumpTest),
    CALL(JumpTest),
    RET(JumpTest),
    // Load / store
    LD(LoadType),
    // Stack
    PUSH(StackTarget),
    POP(StackTarget),
    // Misc
    NOP,
    HALT,
}

impl Instruction {
    /// The bit number of BIT, RES and SET names one of the eight bits of a byte.
    pub open spec fn wf(&self) -> bool {
        match *self {
            Instruction::BIT(bit, _) => bit < 8,
            Instruction::RES(bit, _) => bit < 8,
            Instruction::SET(bit, _) => bit < 8,
            _ => true,
        }
    }
}

// The operand fields of an opcode byte, numbered as in the processor's
// documentation: the byte is read as the bits xx yyy zzz, and yyy as pp q.

/// Bits 7 and 6 of an opcode.
pub open spec fn op_x(b: u8) -> int {
    b as int / 64
}

/// Bits 5 to 3 of an opcode.
pub open spec fn op_y(b: u8) -> int {
    (b as int / 8) % 8
}

/// Bits 2 to 0 of an opcode.
pub open spec fn op_z(b: u8) -> int {
    b as int % 8
}

/// Bits 5 and 4 of an opcode.
pub open spec fn op_p(b: u8) -> int {
    op_y(b) / 2
}

/// Bit 3 of an opcode.
pub open spec fn op_q(b: u8) -> int {
    op_y(b) % 2
}

/// The eight-bit register that a three-bit field names when it is stored to;
/// 6 names the byte at HL.
pub open spec fn load_target_of(code: int) -> LoadByteTarget {
    if code == 0 {
        LoadByteTarget::B
    } else if code == 1 {
        LoadByteTarget::C
    } else if code == 2 {
        LoadByteTarget::D
    } else if code == 3 {
        LoadByteTarget::E
    } else if code == 4 {
        LoadByteTarget::H
    } else if code == 5 {
        LoadByteTarget::L
    } else if code == 6 {
        LoadByteTarget::HLI
    } else {
        LoadByteTarget::A
    }
}

/// The eight-bit register that a three-bit field names when it is read;
/// 6 names the byte at HL.
pub open spec fn load_source_of(code: int) -> LoadByteSource {
    if code == 0 {
        LoadByteSource::B
    } else if code == 1 {
        LoadByteSource::C
    } else if code == 2 {
        LoadByteSource::D
    } else if code == 3 {
        LoadByteSource::E
    } else if code == 4 {
        LoadByteSource::H
    } else if code == 5 {
        LoadByteSource::L
    } else if code == 6 {
        LoadByteSource::HLI
    } else {
        LoadByteSource::A
    }
}

/// The register operand of an arithmetic instruction (the field is not 6).
pub open spec fn arithmetic_target_of(code: int) -> ArithmeticTarget {
    if code == 0 {
        ArithmeticTarget::B
    } else if code == 1 {
        ArithmeticTarget::C
    } else if code == 2 {
        ArithmeticTarget::D
    } else if code == 3 {
        ArithmeticTarget::E
    } else if code == 4 {
        ArithmeticTarget::H
    } else if code == 5 {
        ArithmeticTarget::L
    } else {
        ArithmeticTarget::A
    }
}

/// The operand of a CB-prefixed instruction; 6 names the byte at HL.
pub open spec fn prefix_target_of(code: int) -> PrefixTarget {
    if code == 0 {
        PrefixTarget::B
    } else if code == 1 {
        PrefixTarget::C
    } else if code == 2 {
        PrefixTarget::D
    } else if code == 3 {
        PrefixTarget::E
    } else if code == 4 {
        PrefixTarget::H
    } else if code == 5 {
        PrefixTarget::L
    } else if code == 6 {
        PrefixTarget::HLInd
    } else {
        PrefixTarget::A
    }
}

/// The pair that a two-bit field names in LD rr, d16.
pub open spec fn word_target_of(code: int) -> LoadWordTarget {
    if code == 0 {
        LoadWordTarget::BC
    } else if code == 1 {
        LoadWordTarget::DE
    } else if code == 2 {
        LoadWordTarget::HL
    } else {
        LoadWordTarget::SP
    }
}

/// The address that a two-bit field names in LD (rr), A and LD A, (rr).
pub open spec fn indirect_of(code: int) -> Indirect {
    if code == 0 {
        Indirect::BCIndirect
    } else if code == 1 {
        Indirect::DEIndirect
    } else if code == 2 {
        Indirect::HLIndirectPlus
    } else {
        Indirect::HLIndirectMinus
    }
}

/// The pair that a two-bit field names in PUSH and POP.
pub open spec fn stack_target_of(code: int) -> StackTarget {
    if code == 0 {
        StackTarget::BC
    } else if code == 1 {
        StackTarget::DE
    } else if code == 2 {
        StackTarget::HL
    } else {
        StackTarget::AF
    }
}

/// The condition that a two-bit field names in a conditional jump, call or return.
pub open spec fn condition_of(code: int) -> JumpTest {
    if code == 0 {
        JumpTest::NotZero
    } else if code == 1 {
        JumpTest::Zero
    } else if code == 2 {
        JumpTest::NotCarry
    } else {
        JumpTest::Carry
    }
}

/// The arithmetic or logic operation that a three-bit field names.
pub open spec fn alu_of(op: int, t: ArithmeticTarget) -> Instruction {
    if op == 0 {
        Instruction::ADD(t)
    } else if op == 1 {
        Instruction::ADC(t)
    } else if op == 2 {
        Instruction::SUB(t)
    } else if op == 3 {
        Instruction::SBC(t)
    } else if op == 4 {
        Instruction::AND(t)
    } else if op == 5 {
        Instruction::XOR(t)
    } else if op == 6 {
        Instruction::OR(t)
    } else {
        Instruction::CP(t)
    }
}

/// The accumulator and flag operation of an opcode 00yyy111; yyy = 4 (DAA) is
/// not supported.
pub open spec fn accumulator_op_of(y: int) -> Option<Instruction> {
    if y == 0 {
        Some(Instruction::RLCA)
    } else if y == 1 {
        Some(Instruction::RRCA)
    } else if y == 2 {
        Some(Instruction::RLA)
    } else if y == 3 {
        Some(Instruction::RRA)
    } else if y == 5 {
        Some(Instruction::CPL)
    } else if y == 6 {
        Some(Instruction::SCF)
    } else if y == 7 {
        Some(Instruction::CCF)
    } else {
        None
    }
}

/// The rotate or shift that a three-bit field names in a CB-prefixed opcode.
pub open spec fn shift_of(op: int, t: PrefixTarget) -> Instruction {
    if op == 0 {
        Instruction::RLC(t)
    } else if op == 1 {
        Instruction::RRC(t)
    } else if op == 2 {
        Instruction::RL(t)
    } else if op == 3 {
        Instruction::RR(t)
    } else if op == 4 {
        Instruction::SLA(t)
    } else if op == 5 {
        Instruction::SRA(t)
    } else if op == 6 {
        Instruction::SWAP(t)
    } else {
        Instruction::SRL(t)
    }
}

/// The instruction of an opcode without the CB prefix, or `None` where the
/// opcode is not supported.
pub open spec fn decode_unprefixed(b: u8) -> Option<Instruction> {
    let x = op_x(b);
    let y = op_y(b);
    let z = op_z(b);
    let p = op_p(b);
    let q = op_q(b);
    if b == 0x00 {
        Some(Instruction::NOP)
    } else if b == 0x76 {
        Some(Instruction::HALT)
    } else if x == 0 {
        if z == 1 && q == 0 {
            Some(Instruction::LD(LoadType::Word(word_target_of(p))))
        } else if z == 2 && q == 0 {
            Some(Instruction::LD(LoadType::IndirectFromA(indirect_of(p))))
        } else if z == 2 && q == 1 {
            Some(Instruction::LD(LoadType::AFromIndirect(indirect_of(p))))
        } else if z == 6 && y != 6 {
            Some(Instruction::LD(LoadType::Byte(load_target_of(y), LoadByteSource::D8)))
        } else if z == 7 {
            accumulator_op_of(y)
        } else {
            None
        }
    } else if x == 1 {
        Some(Instruction::LD(LoadType::Byte(load_target_of(y), load_source_of(z))))
    } else if x == 2 {
        if z == 6 {
            None
        } else {
            Some(alu_of(y, arithmetic_target_of(z)))
        }
    } else if b == 0xC3 {
        Some(Instruction::JP(JumpTest::Always))
    } else if b == 0xC9 {
        Some(Instruction::RET(JumpTest::Always))
    } else if b == 0xCD {
        Some(Instruction::CALL(JumpTest::Always))
    } else if b == 0xE0 {
        Some(Instruction::LD(LoadType::ByteAddressFromA))
    } else if b == 0xF0 {
        Some(Instruction::LD(LoadType::AFromByteAddress))
    } else if b == 0xEA {
        Some(Instruction::LD(LoadType::IndirectFromA(Indirect::WordIndirect)))
    } else if b == 0xFA {
        Some(Instruction::LD(LoadType::AFromIndirect(Indirect::WordIndirect)))
    } else if y < 4 && z == 0 {
        Some(Instruction::RET(condition_of(y)))
    } else if y < 4 && z == 2 {
        Some(Instruction::JP(condition_of(y)))
    } else if y < 4 && z == 4 {
        Some(Instruction::CALL(condition_of(y)))
    } else if z == 1 && q == 0 {
        Some(Instruction::POP(stack_target_of(p)))
    } else if z == 5 && q == 0 {
        Some(Instruction::PUSH(stack_target_of(p)))
    } else {
        None
    }
}

/// The instruction of the opcode that follows a CB prefix: every such opcode is
/// supported.
pub open spec fn decode_prefixed(b: u8) -> Instruction {
    let x = op_x(b);
    let y = op_y(b);
    let t = prefix_target_of(op_z(b));
    if x == 0 {
        shift_of(y, t)
    } else if x == 1 {
        Instruction::BIT(y as u8, t)
    } else if x == 2 {
        Instruction::RES(y as u8, t)
    } else {
        Instruction::SET(y as u8, t)
    }
}

/// The instruction of an opcode, after a CB prefix where `prefixed` holds.
pub open spec fn decode(byte: u8, prefixed: bool) -> Option<Instruction> {
    if prefixed {
        Some(decode_prefixed(byte))
    } else {
        decode_unprefixed(byte)
    }
}

impl Instruction {
    /// Decodes an opcode byte; `prefixed` says that it followed the CB prefix.
    /// Returns `None` for an opcode that is not supported.
    pub fn from_byte(byte: u8, prefixed: bool) -> (r: Option<Self>)
        ensures
            r == decode(byte, prefixed),
    {
        if prefixed {
            Self::from_byte_prefixed(byte)
        } else {
            Self::from_byte_non_prefixed(byte)
        }
    }

    #[verifier::rlimit(50)]
    fn from_byte_non_prefixed(byte: u8) -> (r: Option<Self>)
        ensures
            r == decode_unprefixed(byte),
    {
        match byte {
            // Misc
            0x00 => Some(Instruction::NOP),
            0x76 => Some(Instruction::HALT),

            // LD r, d8  (load immediate into register)
            0x06 => Some(Instruction::LD(LoadType::Byte(LoadByteTarget::B, LoadByteSource::D8))),
            0x0E => Some(Instruction::LD(LoadType::Byte(LoadByteTarget::C, LoadByteSource::D8))),
            0x16 => Some(Instruction::LD(LoadType::Byte(LoadByteTarget::D, LoadByteSource::D8))),
            0x1E => Some(Instruction::LD(LoadType::Byte(LoadByteTarget::E, LoadByteSource::D8))),
            0x26 => Some(Instruction::LD(LoadType::Byte(LoadByteTarget::H, LoadByteSource::D8))),
            0x2E => Some(Instruction::LD(LoadType::Byte(LoadByteTarget::L, LoadByteSource::D8))),
            0x3E => Some(Instruction::LD(LoadType::Byte(LoadByteTarget::A, LoadByteSource::D8))),

            // LD rr, d16
            0x01 => Some(Instruction::LD(LoadType::Word(LoadWordTarget::BC))),
            0x11 => Some(Instruction::LD(LoadType::Word(LoadWordTarget::DE))),
            0x21 => Some(Instruction::LD(LoadType::Word(LoadWordTarget::HL))),
            0x31 => Some(Instruction::LD(LoadType::Word(LoadWordTarget::SP))),

            // LD (rr), A
            0x02 => Some(Instruction::LD(LoadType::IndirectFromA(Indirect::BCIndirect))),
            0x12 => Some(Instruction::LD(LoadType::IndirectFromA(Indirect::DEIndirect))),
            0x22 => Some(Instruction::LD(LoadType::IndirectFromA(Indirect::HLIndirectPlus))),
            0x32 => Some(Instruction::LD(LoadType::IndirectFromA(Indirect::HLIndirectMinus))),

            // LD A, (rr)
            0x0A => Some(Instruction::LD(LoadType::AFromIndirect(Indirect::BCIndirect))),
            0x1A => Some(Instruction::LD(LoadType::AFromIndirect(Indirect::DEIndirect))),
            0x2A => Some(Instruction::LD(LoadType::AFromIndirect(Indirect::HLIndirectPlus))),
            0x3A => Some(Instruction::LD(LoadType::AFromIndirect(Indirect::HLIndirectMinus))),

            // LD (0xFF00+n), A  /  LD A, (0xFF00+n)
            0xE0 => Some(Instruction::LD(LoadType::ByteAddressFromA)),
            0xF0 => Some(Instruction::LD(LoadType::AFromByteAddress)),

            // LD (nn), A  /  LD A, (nn)
            0xEA => Some(Instruction::LD(LoadType::IndirectFromA(Indirect::WordIndirect))),
            0xFA => Some(Instruction::LD(LoadType::AFromIndirect(Indirect::WordIndirect))),

            // LD r, r  (register-to-register, rows 0x40–0x7F minus HALT)
            // B row
            0x40 => Some(Instruction::LD(LoadType::Byte(LoadByteTarget::B, LoadByteSource::B))),
            0x41 => Some(Instruction::LD(LoadType::Byte(LoadByteTarget::B, LoadByteSource::C))),
            0x42 => Some(Instruction::LD(LoadType::Byte(LoadByteTarget::B, LoadByteSource::D))),
            0x43 => Some(Instruction::LD(LoadType::Byte(LoadByteTarget::B, LoadByteSource::E))),
            0x44 => Some(Instruction::LD(LoadType::Byte(LoadByteTarget::B, LoadByteSource::H))),
            0x45 => Some(Instruction::LD(LoadType::Byte(LoadByteTarget::B, LoadByteSource::L))),
            0x46 => Some(Instruction::LD(LoadType::Byte(LoadByteTarget::B, LoadByteSource::HLI))),
            0x47 => Some(Instruction::LD(LoadType::Byte(LoadByteTarget::B, LoadByteSource::A))),
            // C row
            0x48 => Some(Instruction::LD(LoadType::Byte(LoadByteTarget::C, LoadByteSource::B))),
            0x49 => Some(Instruction::LD(LoadType::Byte(LoadByteTarget::C, LoadByteSource::C))),
            0x4A => Some(Instruction::LD(LoadType::Byte(LoadByteTarget::C, LoadByteSource::D))),
            0x4B => Some(Instruction::LD(LoadType::Byte(LoadByteTarget::C, LoadByteSource::E))),
            0x4C => Some(Instruction::LD(LoadType::Byte(LoadByteTarget::C, LoadByteSource::H))),
            0x4D => Some(Instruction::LD(LoadType::Byte(LoadByteTarget::C, LoadByteSource::L))),
            0x4E => Some(Instruction::LD(LoadType::Byte(LoadByteTarget::C, LoadByteSource::HLI))),
            0x4F => Some(Instruction::LD(LoadType::Byte(LoadByteTarget::C, LoadByteSource::A))),
            // D row
            0x50 => Some(Instruction::LD(LoadType::Byte(LoadByteTarget::D, LoadByteSource::B))),
            0x51 => Some(Instruction::LD(LoadType::Byte(LoadByteTarget::D, LoadByteSource::C))),
            0x52 => Some(Instruction::LD(LoadType::Byte(LoadByteTarget::D, LoadByteSource::D))),
            0x53 => Some(Instruction::LD(LoadType::Byte(LoadByteTarget::D, LoadByteSource::E))),
            0x54 => Some(Instruction::LD(LoadType::Byte(LoadByteTarget::D, LoadByteSource::H))),
            0x55 => Some(Instruction::LD(LoadType::Byte(LoadByteTarget::D, LoadByteSource::L))),
            0x56 => Some(Instruction::LD(LoadType::Byte(LoadByteTarget::D, LoadByteSource::HLI))),
            0x57 => Some(Instruction::LD(LoadType::Byte(LoadByteTarget::D, LoadByteSource::A))),
            // E row
            0x58 => Some(Instruction::LD(LoadType::Byte(LoadByteTarget::E, LoadByteSource::B))),
            0x59 => Some(Instruction::LD(LoadType::Byte(LoadByteTarget::E, LoadByteSource::C))),
            0x5A => Some(Instruction::LD(LoadType::Byte(LoadByteTarget::E, LoadByteSource::D))),
            0x5B => Some(Instruction::LD(LoadType::Byte(LoadByteTarget::E, LoadByteSource::E))),
            0x5C => Some(Instruction::LD(LoadType::Byte(LoadByteTarget::E, LoadByteSource::H))),
            0x5D => Some(Instruction::LD(LoadType::Byte(LoadByteTarget::E, LoadByteSource::L))),
            0x5E => Some(Instruction::LD(LoadType::Byte(LoadByteTarget::E, LoadByteSource::HLI))),
            0x5F => Some(Instruction::LD(LoadType::Byte(LoadByteTarget::E, LoadByteSource::A))),
            // H row
            0x60 => Some(Instruction::LD(LoadType::Byte(LoadByteTarget::H, LoadByteSource::B))),
            0x61 => Some(Instruction::LD(LoadType::Byte(LoadByteTarget::H, LoadByteSource::C))),
            0x62 => Some(Instruction::LD(LoadType::Byte(LoadByteTarget::H, LoadByteSource::D))),
            0x63 => Some(Instruction::LD(LoadType::Byte(LoadByteTarget::H, LoadByteSource::E))),
            0x64 => Some(Instruction::LD(LoadType::Byte(LoadByteTarget::H, LoadByteSource::H))),
            0x65 => Some(Instruction::LD(LoadType::Byte(LoadByteTarget::H, LoadByteSource::L))),
            0x66 => Some(Instruction::LD(LoadType::Byte(LoadByteTarget::H, LoadByteSource::HLI))),
            0x67 => Some(Instruction::LD(LoadType::Byte(LoadByteTarget::H, LoadByteSource::A))),
            // L row
            0x68 => Some(Instruction::LD(LoadType::Byte(LoadByteTarget::L, LoadByteSource::B))),
            0x69 => Some(Instruction::LD(LoadType::Byte(LoadByteTarget::L, LoadByteSource::C))),
            0x6A => Some(Instruction::LD(LoadType::Byte(LoadByteTarget::L, LoadByteSource::D))),
            0x6B => Some(Instruction::LD(LoadType::Byte(LoadByteTarget::L, LoadByteSource::E))),
            0x6C => Some(Instruction::LD(LoadType::Byte(LoadByteTarget::L, LoadByteSource::H))),
            0x6D => Some(Instruction::LD(LoadType::Byte(LoadByteTarget::L, LoadByteSource::L))),
            0x6E => Some(Instruction::LD(LoadType::Byte(LoadByteTarget::L, LoadByteSource::HLI))),
            0x6F => Some(Instruction::LD(LoadType::Byte(LoadByteTarget::L, LoadByteSource::A))),
            // (HL) row
            0x70 => Some(Instruction::LD(LoadType::Byte(LoadByteTarget::HLI, LoadByteSource::B))),
            0x71 => Some(Instruction::LD(LoadType::Byte(LoadByteTarget::HLI, LoadByteSource::C))),
            0x72 => Some(Instruction::LD(LoadType::Byte(LoadByteTarget::HLI, LoadByteSource::D))),
            0x73 => Some(Instruction::LD(LoadType::Byte(LoadByteTarget::HLI, LoadByteSource::E))),
            0x74 => Some(Instruction::LD(LoadType::Byte(LoadByteTarget::HLI, LoadByteSource::H))),
            0x75 => Some(Instruction::LD(LoadType::Byte(LoadByteTarget::HLI, LoadByteSource::L))),
            // 0x76 = HALT (handled above)
            0x77 => Some(Instruction::LD(LoadType::Byte(LoadByteTarget::HLI, LoadByteSource::A))),
            // A row
            0x78 => Some(Instruction::LD(LoadType::Byte(LoadByteTarget::A, LoadByteSource::B))),
            0x79 => Some(Instruction::LD(LoadType::Byte(LoadByteTarget::A, LoadByteSource::C))),
            0x7A => Some(Instruction::LD(LoadType::Byte(LoadByteTarget::A, LoadByteSource::D))),
            0x7B => Some(Instruction::LD(LoadType::Byte(LoadByteTarget::A, LoadByteSource::E))),
            0x7C => Some(Instruction::LD(LoadType::Byte(LoadByteTarget::A, LoadByteSource::H))),
            0x7D => Some(Instruction::LD(LoadType::Byte(LoadByteTarget::A, LoadByteSource::L))),
            0x7E => Some(Instruction::LD(LoadType::Byte(LoadByteTarget::A, LoadByteSource::HLI))),
            0x7F => Some(Instruction::LD(LoadType::Byte(LoadByteTarget::A, LoadByteSource::A))),

            // ADD A, r
            0x80 => Some(Instruction::ADD(ArithmeticTarget::B)),
            0x81 => Some(Instruction::ADD(ArithmeticTarget::C)),
            0x82 => Some(Instruction::ADD(ArithmeticTarget::D)),
            0x83 => Some(Instruction::ADD(ArithmeticTarget::E)),
            0x84 => Some(Instruction::ADD(ArithmeticTarget::H)),
            0x85 => Some(Instruction::ADD(ArithmeticTarget::L)),
            0x87 => Some(Instruction::ADD(ArithmeticTarget::A)),

            // ADC A, r
            0x88 => Some(Instruction::ADC(ArithmeticTarget::B)),
            0x89 => Some(Instruction::ADC(ArithmeticTarget::C)),
            0x8A => Some(Instruction::ADC(ArithmeticTarget::D)),
            0x8B => Some(Instruction::ADC(ArithmeticTarget::E)),
            0x8C => Some(Instruction::ADC(ArithmeticTarget::H)),
            0x8D => Some(Instruction::ADC(ArithmeticTarget::L)),
            0x8F => Some(Instruction::ADC(ArithmeticTarget::A)),

            // SUB r
            0x90 => Some(Instruction::SUB(ArithmeticTarget::B)),
            0x91 => Some(Instruction::SUB(ArithmeticTarget::C)),
            0x92 => Some(Instruction::SUB(ArithmeticTarget::D)),
            0x93 => Some(Instruction::SUB(ArithmeticTarget::E)),
            0x94 => Some(Instruction::SUB(ArithmeticTarget::H)),
            0x95 => Some(Instruction::SUB(ArithmeticTarget::L)),
            0x97 => Some(Instruction::SUB(ArithmeticTarget::A)),

            // SBC A, r
            0x98 => Some(Instruction::SBC(ArithmeticTarget::B)),
            0x99 => Some(Instruction::SBC(ArithmeticTarget::C)),
            0x9A => Some(Instruction::SBC(ArithmeticTarget::D)),
            0x9B => Some(Instruction::SBC(ArithmeticTarget::E)),
            0x9C => Some(Instruction::SBC(ArithmeticTarget::H)),
            0x9D => Some(Instruction::SBC(ArithmeticTarget::L)),
            0x9F => Some(Instruction::SBC(ArithmeticTarget::A)),

            // AND r
            0xA0 => Some(Instruction::AND(ArithmeticTarget::B)),
            0xA1 => Some(Instruction::AND(ArithmeticTarget::C)),
            0xA2 => Some(Instruction::AND(ArithmeticTarget::D)),
            0xA3 => Some(Instruction::AND(ArithmeticTarget::E)),
            0xA4 => Some(Instruction::AND(ArithmeticTarget::H)),
            0xA5 => Some(Instruction::AND(ArithmeticTarget::L)),
            0xA7 => Some(Instruction::AND(ArithmeticTarget::A)),

            // XOR r
            0xA8 => Some(Instruction::XOR(ArithmeticTarget::B)),
            0xA9 => Some(Instruction::XOR(ArithmeticTarget::C)),
            0xAA => Some(Instruction::XOR(ArithmeticTarget::D)),
            0xAB => Some(Instruction::XOR(ArithmeticTarget::E)),
            0xAC => Some(Instruction::XOR(ArithmeticTarget::H)),
            0xAD => Some(Instruction::XOR(ArithmeticTarget::L)),
            0xAF => Some(Instruction::XOR(ArithmeticTarget::A)),

            // OR r
            0xB0 => Some(Instruction::OR(ArithmeticTarget::B)),
            0xB1 => Some(Instruction::OR(ArithmeticTarget::C)),
            0xB2 => Some(Instruction::OR(ArithmeticTarget::D)),
            0xB3 => Some(Instruction::OR(ArithmeticTarget::E)),
            0xB4 => Some(Instruction::OR(ArithmeticTarget::H)),
            0xB5 => Some(Instruction::OR(ArithmeticTarget::L)),
            0xB7 => Some(Instruction::OR(ArithmeticTarget::A)),

            // CP r
            0xB8 => Some(Instruction::CP(ArithmeticTarget::B)),
            0xB9 => Some(Instruction::CP(ArithmeticTarget::C)),
            0xBA => Some(Instruction::CP(ArithmeticTarget::D)),
            0xBB => Some(Instruction::CP(ArithmeticTarget::E)),
            0xBC => Some(Instruction::CP(ArithmeticTarget::H)),
            0xBD => Some(Instruction::CP(ArithmeticTarget::L)),
            0xBF => Some(Instruction::CP(ArithmeticTarget::A)),

            // RET conditional / unconditional
            0xC0 => Some(Instruction::RET(JumpTest::NotZero)),
            0xC8 => Some(Instruction::RET(JumpTest::Zero)),
            0xC9 => Some(Instruction::RET(JumpTest::Always)),
            0xD0 => Some(Instruction::RET(JumpTest::NotCarry)),
            0xD8 => Some(Instruction::RET(JumpTest::Carry)),

            // POP rr
            0xC1 => Some(Instruction::POP(StackTarget::BC)),
            0xD1 => Some(Instruction::POP(StackTarget::DE)),
            0xE1 => Some(Instruction::POP(StackTarget::HL)),
            0xF1 => Some(Instruction::POP(StackTarget::AF)),

            // JP conditional / unconditional
            0xC2 => Some(Instruction::JP(JumpTest::NotZero)),
            0xC3 => Some(Instruction::JP(JumpTest::Always)),
            0xCA => Some(Instruction::JP(JumpTest::Zero)),
            0xD2 => Some(Instruction::JP(JumpTest::NotCarry)),
            0xDA => Some(Instruction::JP(JumpTest::Carry)),

            // CALL conditional / unconditional
            0xC4 => Some(Instruction::CALL(JumpTest::NotZero)),
            0xCC => Some(Instruction::CALL(JumpTest::Zero)),
            0xCD => Some(Instruction::CALL(JumpTest::Always)),
            0xD4 => Some(Instruction::CALL(JumpTest::NotCarry)),
            0xDC => Some(Instruction::CALL(JumpTest::Carry)),

            // PUSH rr
            0xC5 => Some(Instruction::PUSH(StackTarget::BC)),
            0xD5 => Some(Instruction::PUSH(StackTarget::DE)),
            0xE5 => Some(Instruction::PUSH(StackTarget::HL)),
            0xF5 => Some(Instruction::PUSH(StackTarget::AF)),

            // Misc flag / rotate ops
            0x07 => Some(Instruction::RLCA),
            0x0F => Some(Instruction::RRCA),
            0x17 => Some(Instruction::RLA),
            0x1F => Some(Instruction::RRA),
            0x2F => Some(Instruction::CPL),
            0x37 => Some(Instruction::SCF),
            0x3F => Some(Instruction::CCF),

            _ => None,
        }
    }

    fn from_byte_prefixed(byte: u8) -> (r: Option<Self>)
        ensures
            r == Some(decode_prefixed(byte)),
    {
        let low: u8 = byte & 0b00000111;
        let bit: u8 = (byte >> 3u8) & 0b111;
        assert(low == byte % 8 && bit == (byte / 8) % 8 && bit < 8) by (bit_vector)
            requires
                low == byte & 0b00000111,
                bit == (byte >> 3u8) & 0b111,
        ;
        let reg = match low {
            0 => PrefixTarget::B,
            1 => PrefixTarget::C,
            2 => PrefixTarget::D,
            3 => PrefixTarget::E,
            4 => PrefixTarget::H,
            5 => PrefixTarget::L,
            6 => PrefixTarget::HLInd,
            _ => PrefixTarget::A,
        };
        match byte {
            0x00..=0x07 => Some(Instruction::RLC(reg)),
            0x08..=0x0F => Some(Instruction::RRC(reg)),
            0x10..=0x17 => Some(Instruction::RL(reg)),
            0x18..=0x1F => Some(Instruction::RR(reg)),
            0x20..=0x27 => Some(Instruction::SLA(reg)),
            0x28..=0x2F => Some(Instruction::SRA(reg)),
            0x30..=0x37 => Some(Instruction::SWAP(reg)),
            0x38..=0x3F => Some(Instruction::SRL(reg)),
            0x40..=0x7F => Some(Instruction::BIT(bit, reg)),
            0x80..=0xBF => Some(Instruction::RES(bit, reg)),
            0xC0..=0xFF => Some(Instruction::SET(bit, reg)),
        }
    }
}

/// Every opcode after a CB prefix decodes, and every decoded instruction names
/// one of the eight bits of a byte where it names a bit.
pub proof fn lemma_decode_total_and_wf(byte: u8, prefixed: bool)
    ensures
        prefixed ==> decode(byte, prefixed) is Some,
        decode(byte, prefixed) matches Some(i) ==> i.wf(),
{
}

} // verus!
