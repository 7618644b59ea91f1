use lib::{
    ArithmeticTarget, Indirect, Instruction, JumpTest, LoadByteSource, LoadByteTarget, LoadType,
    LoadWordTarget, PrefixTarget, StackTarget,
};

#[test]
fn decodes_misc_and_loads() {
    assert!(matches!(Instruction::from_byte(0x00, false), Some(Instruction::NOP)));
    assert!(matches!(Instruction::from_byte(0x76, false), Some(Instruction::HALT)));
    assert!(matches!(
        Instruction::from_byte(0x3E, false),
        Some(Instruction::LD(LoadType::Byte(LoadByteTarget::A, LoadByteSource::D8)))
    ));
    assert!(matches!(
        Instruction::from_byte(0x31, false),
        Some(Instruction::LD(LoadType::Word(LoadWordTarget::SP)))
    ));
    assert!(matches!(
        Instruction::from_byte(0x22, false),
        Some(Instruction::LD(LoadType::IndirectFromA(Indirect::HLIndirectPlus)))
    ));
    assert!(matches!(
        Instruction::from_byte(0x3A, false),
        Some(Instruction::LD(LoadType::AFromIndirect(Indirect::HLIndirectMinus)))
    ));
    assert!(matches!(
        Instruction::from_byte(0x46, false),
        Some(Instruction::LD(LoadType::Byte(LoadByteTarget::B, LoadByteSource::HLI)))
    ));
    assert!(matches!(
        Instruction::from_byte(0x77, false),
        Some(Instruction::LD(LoadType::Byte(LoadByteTarget::HLI, LoadByteSource::A)))
    ));
    assert!(matches!(
        Instruction::from_byte(0xE0, false),
        Some(Instruction::LD(LoadType::ByteAddressFromA))
    ));
    assert!(matches!(
        Instruction::from_byte(0xFA, false),
        Some(Instruction::LD(LoadType::AFromIndirect(Indirect::WordIndirect)))
    ));
}

#[test]
fn decodes_arithmetic_and_control() {
    assert!(matches!(Instruction::from_byte(0x80, false), Some(Instruction::ADD(ArithmeticTarget::B))));
    assert!(matches!(Instruction::from_byte(0x8F, false), Some(Instruction::ADC(ArithmeticTarget::A))));
    assert!(matches!(Instruction::from_byte(0x95, false), Some(Instruction::SUB(ArithmeticTarget::L))));
    assert!(matches!(Instruction::from_byte(0xAF, false), Some(Instruction::XOR(ArithmeticTarget::A))));
    assert!(matches!(Instruction::from_byte(0xB1, false), Some(Instruction::OR(ArithmeticTarget::C))));
    assert!(matches!(Instruction::from_byte(0xBB, false), Some(Instruction::CP(ArithmeticTarget::E))));
    assert!(matches!(Instruction::from_byte(0xC9, false), Some(Instruction::RET(JumpTest::Always))));
    assert!(matches!(Instruction::from_byte(0xDA, false), Some(Instruction::JP(JumpTest::Carry))));
    assert!(matches!(Instruction::from_byte(0xC4, false), Some(Instruction::CALL(JumpTest::NotZero))));
    assert!(matches!(Instruction::from_byte(0xF5, false), Some(Instruction::PUSH(StackTarget::AF))));
    assert!(matches!(Instruction::from_byte(0xD1, false), Some(Instruction::POP(StackTarget::DE))));
    assert!(matches!(Instruction::from_byte(0x17, false), Some(Instruction::RLA)));
    assert!(matches!(Instruction::from_byte(0x3F, false), Some(Instruction::CCF)));
}

#[test]
fn unsupported_opcodes_decode_to_none() {
    for b in [0x03u8, 0x04, 0x27, 0x36, 0x86, 0x8E, 0xBE, 0xCB, 0xD3, 0xF3, 0xFB, 0xFF] {
        assert!(Instruction::from_byte(b, false).is_none(), "opcode {:#04x}", b);
    }
}

#[test]
fn every_prefixed_opcode_decodes() {
    for b in 0..=255u8 {
        assert!(Instruction::from_byte(b, true).is_some());
    }
}

#[test]
fn decodes_prefixed() {
    assert!(matches!(Instruction::from_byte(0x00, true), Some(Instruction::RLC(PrefixTarget::B))));
    assert!(matches!(Instruction::from_byte(0x1E, true), Some(Instruction::RR(PrefixTarget::HLInd))));
    assert!(matches!(Instruction::from_byte(0x37, true), Some(Instruction::SWAP(PrefixTarget::A))));
    assert!(matches!(Instruction::from_byte(0x7C, true), Some(Instruction::BIT(7, PrefixTarget::H))));
    assert!(matches!(Instruction::from_byte(0x87, true), Some(Instruction::RES(0, PrefixTarget::A))));
    assert!(matches!(Instruction::from_byte(0xFF, true), Some(Instruction::SET(7, PrefixTarget::A))));
    assert!(matches!(Instruction::from_byte(0xD1, true), Some(Instruction::SET(2, PrefixTarget::C))));
}
