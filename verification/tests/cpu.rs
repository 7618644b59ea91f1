use lib::{
    ArithmeticTarget, Indirect, Instruction, JumpTest, LoadByteSource, LoadByteTarget, LoadType,
    LoadWordTarget, PrefixTarget, StackTarget, CPU,
};

fn flags(cpu: &CPU) -> (bool, bool, bool, bool) {
    let f = cpu.registers.f;
    (f.zero, f.subtract, f.half_carry, f.carry)
}

#[test]
fn add_five_and_three() {
    let mut cpu = CPU::new();
    cpu.registers.a = 5;
    cpu.registers.b = 3;
    cpu.execute(Instruction::ADD(ArithmeticTarget::B));
    assert_eq!(cpu.registers.a, 8);
    assert_eq!(flags(&cpu), (false, false, false, false));
}

#[test]
fn add_sets_half_carry_and_carry() {
    let mut cpu = CPU::new();
    cpu.registers.a = 0x0F;
    cpu.registers.b = 0x01;
    cpu.execute(Instruction::ADD(ArithmeticTarget::B));
    assert_eq!(cpu.registers.a, 0x10);
    assert_eq!(flags(&cpu), (false, false, true, false));
    cpu.registers.a = 0xFF;
    cpu.execute(Instruction::ADD(ArithmeticTarget::B));
    assert_eq!(cpu.registers.a, 0x00);
    assert_eq!(flags(&cpu), (true, false, true, true));
}

#[test]
fn adc_adds_the_carry() {
    let mut cpu = CPU::new();
    cpu.registers.a = 0xFE;
    cpu.registers.c = 0x01;
    cpu.registers.f.carry = true;
    cpu.execute(Instruction::ADC(ArithmeticTarget::C));
    assert_eq!(cpu.registers.a, 0x00);
    assert_eq!(flags(&cpu), (true, false, true, true));
}

#[test]
fn sub_and_sbc() {
    let mut cpu = CPU::new();
    cpu.registers.a = 0x10;
    cpu.registers.b = 0x01;
    cpu.execute(Instruction::SUB(ArithmeticTarget::B));
    assert_eq!(cpu.registers.a, 0x0F);
    assert_eq!(flags(&cpu), (false, true, true, false));
    cpu.registers.a = 0x00;
    cpu.execute(Instruction::SUB(ArithmeticTarget::B));
    assert_eq!(cpu.registers.a, 0xFF);
    assert_eq!(flags(&cpu), (false, true, true, true));
    cpu.registers.a = 0x05;
    cpu.registers.d = 0x05;
    cpu.registers.f.carry = true;
    cpu.execute(Instruction::SBC(ArithmeticTarget::D));
    assert_eq!(cpu.registers.a, 0xFF);
    assert_eq!(flags(&cpu), (false, true, true, true));
    cpu.registers.a = 0x05;
    cpu.execute(Instruction::SUB(ArithmeticTarget::A));
    assert_eq!(cpu.registers.a, 0);
    assert_eq!(flags(&cpu), (true, true, false, false));
}

#[test]
fn cp_compares_without_storing() {
    let mut cpu = CPU::new();
    cpu.registers.a = 0x42;
    cpu.registers.e = 0x42;
    cpu.execute(Instruction::CP(ArithmeticTarget::E));
    assert_eq!(cpu.registers.a, 0x42);
    assert_eq!(flags(&cpu), (true, true, false, false));
    cpu.registers.e = 0x50;
    cpu.execute(Instruction::CP(ArithmeticTarget::E));
    assert_eq!(cpu.registers.a, 0x42);
    assert_eq!(flags(&cpu), (false, true, false, true));
    cpu.registers.e = 0x03;
    cpu.execute(Instruction::CP(ArithmeticTarget::E));
    assert_eq!(flags(&cpu), (false, true, true, false));
}

#[test]
fn logic_operations() {
    let mut cpu = CPU::new();
    cpu.registers.a = 0b1100;
    cpu.registers.b = 0b1010;
    cpu.registers.f.carry = true;
    cpu.execute(Instruction::AND(ArithmeticTarget::B));
    assert_eq!(cpu.registers.a, 0b1000);
    assert_eq!(flags(&cpu), (false, false, true, false));
    cpu.execute(Instruction::OR(ArithmeticTarget::B));
    assert_eq!(cpu.registers.a, 0b1010);
    assert_eq!(flags(&cpu), (false, false, false, false));
    cpu.execute(Instruction::XOR(ArithmeticTarget::A));
    assert_eq!(cpu.registers.a, 0);
    assert_eq!(flags(&cpu), (true, false, false, false));
}

#[test]
fn inc_and_dec_keep_carry() {
    let mut cpu = CPU::new();
    cpu.registers.b = 0xFF;
    cpu.registers.f.carry = true;
    cpu.execute(Instruction::INC(ArithmeticTarget::B));
    assert_eq!(cpu.registers.b, 0);
    assert_eq!(flags(&cpu), (true, false, true, true));
    cpu.registers.h = 0x10;
    cpu.execute(Instruction::DEC(ArithmeticTarget::H));
    assert_eq!(cpu.registers.h, 0x0F);
    assert_eq!(flags(&cpu), (false, true, true, true));
    cpu.registers.l = 0x01;
    cpu.registers.f.carry = false;
    cpu.execute(Instruction::DEC(ArithmeticTarget::L));
    assert_eq!(cpu.registers.l, 0);
    assert_eq!(flags(&cpu), (true, true, false, false));
}

#[test]
fn flag_instructions() {
    let mut cpu = CPU::new();
    cpu.registers.f.zero = true;
    cpu.registers.f.subtract = true;
    cpu.registers.f.half_carry = true;
    cpu.execute(Instruction::SCF);
    assert_eq!(flags(&cpu), (true, false, false, true));
    cpu.execute(Instruction::CCF);
    assert_eq!(flags(&cpu), (true, false, false, false));
    cpu.registers.a = 0x35;
    cpu.execute(Instruction::CPL);
    assert_eq!(cpu.registers.a, 0xCA);
    assert_eq!(flags(&cpu), (true, true, true, false));
    cpu.execute(Instruction::CPL);
    assert_eq!(cpu.registers.a, 0x35);
}

#[test]
fn accumulator_rotates() {
    let mut cpu = CPU::new();
    cpu.registers.a = 0x85;
    cpu.execute(Instruction::RLCA);
    assert_eq!(cpu.registers.a, 0x0B);
    assert_eq!(flags(&cpu), (false, false, false, true));
    cpu.execute(Instruction::RRCA);
    assert_eq!(cpu.registers.a, 0x85);
    assert_eq!(flags(&cpu), (false, false, false, true));
    cpu.registers.a = 0x01;
    cpu.registers.f.carry = false;
    cpu.execute(Instruction::RRA);
    assert_eq!(cpu.registers.a, 0x00);
    assert_eq!(flags(&cpu), (false, false, false, true));
    cpu.execute(Instruction::RLA);
    assert_eq!(cpu.registers.a, 0x01);
    assert_eq!(flags(&cpu), (false, false, false, false));
}

#[test]
fn prefixed_rotates_and_shifts() {
    let mut cpu = CPU::new();
    cpu.registers.b = 0x80;
    cpu.execute(Instruction::RLC(PrefixTarget::B));
    assert_eq!(cpu.registers.b, 0x01);
    assert_eq!(flags(&cpu), (false, false, false, true));
    cpu.execute(Instruction::RRC(PrefixTarget::B));
    assert_eq!(cpu.registers.b, 0x80);
    assert_eq!(flags(&cpu), (false, false, false, true));
    cpu.registers.c = 0x80;
    cpu.registers.f.carry = false;
    cpu.execute(Instruction::RL(PrefixTarget::C));
    assert_eq!(cpu.registers.c, 0x00);
    assert_eq!(flags(&cpu), (true, false, false, true));
    cpu.execute(Instruction::RR(PrefixTarget::C));
    assert_eq!(cpu.registers.c, 0x80);
    assert_eq!(flags(&cpu), (false, false, false, false));
    cpu.registers.d = 0x81;
    cpu.execute(Instruction::SRA(PrefixTarget::D));
    assert_eq!(cpu.registers.d, 0xC0);
    assert_eq!(flags(&cpu), (false, false, false, true));
    cpu.registers.e = 0x80;
    cpu.execute(Instruction::SLA(PrefixTarget::E));
    assert_eq!(cpu.registers.e, 0x00);
    assert_eq!(flags(&cpu), (true, false, false, true));
    cpu.registers.l = 0x01;
    cpu.execute(Instruction::SRL(PrefixTarget::L));
    assert_eq!(cpu.registers.l, 0x00);
    assert_eq!(flags(&cpu), (true, false, false, true));
    cpu.registers.a = 0xAB;
    cpu.execute(Instruction::SWAP(PrefixTarget::A));
    assert_eq!(cpu.registers.a, 0xBA);
    assert_eq!(flags(&cpu), (false, false, false, false));
}

#[test]
fn bit_res_set() {
    let mut cpu = CPU::new();
    cpu.registers.h = 0x80;
    cpu.registers.f.carry = true;
    cpu.execute(Instruction::BIT(7, PrefixTarget::H));
    assert_eq!(flags(&cpu), (false, false, true, true));
    cpu.execute(Instruction::BIT(0, PrefixTarget::H));
    assert_eq!(flags(&cpu), (true, false, true, true));
    cpu.registers.a = 0;
    cpu.execute(Instruction::SET(7, PrefixTarget::A));
    cpu.execute(Instruction::SET(0, PrefixTarget::A));
    assert_eq!(cpu.registers.a, 0x81);
    cpu.execute(Instruction::RES(7, PrefixTarget::A));
    assert_eq!(cpu.registers.a, 0x01);
}

#[test]
fn prefixed_operations_on_memory_at_hl() {
    let mut cpu = CPU::new();
    cpu.registers.set_hl(0xC000);
    cpu.bus.write_byte(0xC000, 0xFF);
    cpu.execute(Instruction::RES(0, PrefixTarget::HLInd));
    assert_eq!(cpu.bus.read_byte(0xC000), 0xFE);
    cpu.execute(Instruction::SWAP(PrefixTarget::HLInd));
    assert_eq!(cpu.bus.read_byte(0xC000), 0xEF);
    cpu.execute(Instruction::BIT(4, PrefixTarget::HLInd));
    assert!(cpu.registers.f.zero);
    assert_eq!(cpu.registers.h, 0xC0);
}

#[test]
fn jumps() {
    let mut cpu = CPU::new();
    cpu.pc = 0x0100;
    cpu.bus.write_byte(0x0100, 0x34);
    cpu.bus.write_byte(0x0101, 0x12);
    cpu.execute(Instruction::JP(JumpTest::Zero));
    assert_eq!(cpu.pc, 0x0102);
    cpu.pc = 0x0100;
    cpu.execute(Instruction::JP(JumpTest::NotZero));
    assert_eq!(cpu.pc, 0x1234);
    cpu.pc = 0xFFFF;
    cpu.execute(Instruction::JP(JumpTest::Carry));
    assert_eq!(cpu.pc, 0x0001);
}

#[test]
fn call_then_ret() {
    let mut cpu = CPU::new();
    cpu.sp = 0xFFFE;
    cpu.pc = 0x0101;
    cpu.bus.write_byte(0x0101, 0x00);
    cpu.bus.write_byte(0x0102, 0x20);
    cpu.execute(Instruction::CALL(JumpTest::Always));
    assert_eq!(cpu.pc, 0x2000);
    assert_eq!(cpu.sp, 0xFFFC);
    assert_eq!(cpu.bus.read_byte(0xFFFD), 0x01);
    assert_eq!(cpu.bus.read_byte(0xFFFC), 0x03);
    cpu.execute(Instruction::RET(JumpTest::Carry));
    assert_eq!(cpu.pc, 0x2000);
    cpu.execute(Instruction::RET(JumpTest::Always));
    assert_eq!(cpu.pc, 0x0103);
    assert_eq!(cpu.sp, 0xFFFE);
}

#[test]
fn call_not_taken_skips_operand() {
    let mut cpu = CPU::new();
    cpu.pc = 0x0101;
    cpu.sp = 0xFFFE;
    cpu.registers.f.zero = true;
    cpu.execute(Instruction::CALL(JumpTest::NotZero));
    assert_eq!(cpu.pc, 0x0103);
    assert_eq!(cpu.sp, 0xFFFE);
}

#[test]
fn push_then_pop() {
    let mut cpu = CPU::new();
    cpu.sp = 0xD000;
    cpu.registers.set_bc(0x1234);
    cpu.execute(Instruction::PUSH(StackTarget::BC));
    assert_eq!(cpu.sp, 0xCFFE);
    assert_eq!(cpu.bus.read_byte(0xCFFF), 0x12);
    assert_eq!(cpu.bus.read_byte(0xCFFE), 0x34);
    cpu.execute(Instruction::POP(StackTarget::DE));
    assert_eq!(cpu.registers.get_de(), 0x1234);
    assert_eq!(cpu.sp, 0xD000);
    cpu.registers.set_hl(0x12FF);
    cpu.execute(Instruction::PUSH(StackTarget::HL));
    cpu.execute(Instruction::POP(StackTarget::AF));
    assert_eq!(cpu.registers.a, 0x12);
    assert_eq!(cpu.registers.get_af(), 0x12F0);
}

#[test]
fn stack_pointer_wraps() {
    let mut cpu = CPU::new();
    cpu.registers.set_de(0xBEEF);
    cpu.execute(Instruction::PUSH(StackTarget::DE));
    assert_eq!(cpu.sp, 0xFFFE);
    assert_eq!(cpu.bus.read_byte(0xFFFF), 0xBE);
    assert_eq!(cpu.bus.read_byte(0xFFFE), 0xEF);
    cpu.execute(Instruction::POP(StackTarget::HL));
    assert_eq!(cpu.sp, 0x0000);
    assert_eq!(cpu.registers.get_hl(), 0xBEEF);
}

#[test]
fn byte_loads() {
    let mut cpu = CPU::new();
    cpu.pc = 0x0200;
    cpu.bus.write_byte(0x0200, 0x42);
    cpu.execute(Instruction::LD(LoadType::Byte(LoadByteTarget::B, LoadByteSource::D8)));
    assert_eq!(cpu.registers.b, 0x42);
    assert_eq!(cpu.pc, 0x0201);
    cpu.execute(Instruction::LD(LoadType::Byte(LoadByteTarget::E, LoadByteSource::B)));
    assert_eq!(cpu.registers.e, 0x42);
    cpu.registers.set_hl(0xC010);
    cpu.execute(Instruction::LD(LoadType::Byte(LoadByteTarget::HLI, LoadByteSource::E)));
    assert_eq!(cpu.bus.read_byte(0xC010), 0x42);
    cpu.execute(Instruction::LD(LoadType::Byte(LoadByteTarget::A, LoadByteSource::HLI)));
    assert_eq!(cpu.registers.a, 0x42);
}

#[test]
fn word_loads() {
    let mut cpu = CPU::new();
    cpu.pc = 0x0300;
    cpu.bus.write_byte(0x0300, 0xFE);
    cpu.bus.write_byte(0x0301, 0xFF);
    cpu.execute(Instruction::LD(LoadType::Word(LoadWordTarget::SP)));
    assert_eq!(cpu.sp, 0xFFFE);
    assert_eq!(cpu.pc, 0x0302);
    cpu.bus.write_byte(0x0302, 0x00);
    cpu.bus.write_byte(0x0303, 0xC0);
    cpu.execute(Instruction::LD(LoadType::Word(LoadWordTarget::HL)));
    assert_eq!(cpu.registers.get_hl(), 0xC000);
    assert_eq!(cpu.pc, 0x0304);
}

#[test]
fn indirect_loads() {
    let mut cpu = CPU::new();
    cpu.registers.a = 0x99;
    cpu.registers.set_hl(0xC000);
    cpu.execute(Instruction::LD(LoadType::IndirectFromA(Indirect::HLIndirectPlus)));
    assert_eq!(cpu.bus.read_byte(0xC000), 0x99);
    assert_eq!(cpu.registers.get_hl(), 0xC001);
    cpu.registers.a = 0x11;
    cpu.execute(Instruction::LD(LoadType::IndirectFromA(Indirect::HLIndirectMinus)));
    assert_eq!(cpu.bus.read_byte(0xC001), 0x11);
    assert_eq!(cpu.registers.get_hl(), 0xC000);
    cpu.execute(Instruction::LD(LoadType::AFromIndirect(Indirect::HLIndirectPlus)));
    assert_eq!(cpu.registers.a, 0x99);
    assert_eq!(cpu.registers.get_hl(), 0xC001);
    cpu.registers.set_bc(0xC001);
    cpu.registers.a = 0;
    cpu.execute(Instruction::LD(LoadType::AFromIndirect(Indirect::BCIndirect)));
    assert_eq!(cpu.registers.a, 0x11);
    cpu.registers.set_de(0xD000);
    cpu.execute(Instruction::LD(LoadType::IndirectFromA(Indirect::DEIndirect)));
    assert_eq!(cpu.bus.read_byte(0xD000), 0x11);
    cpu.registers.set_hl(0x0000);
    cpu.execute(Instruction::LD(LoadType::AFromIndirect(Indirect::HLIndirectMinus)));
    assert_eq!(cpu.registers.get_hl(), 0xFFFF);
}

#[test]
fn address_operand_loads() {
    let mut cpu = CPU::new();
    cpu.pc = 0x0400;
    cpu.bus.write_byte(0x0400, 0x80);
    cpu.registers.a = 0x5A;
    cpu.execute(Instruction::LD(LoadType::ByteAddressFromA));
    assert_eq!(cpu.bus.read_byte(0xFF80), 0x5A);
    assert_eq!(cpu.pc, 0x0401);
    cpu.registers.a = 0;
    cpu.pc = 0x0400;
    cpu.execute(Instruction::LD(LoadType::AFromByteAddress));
    assert_eq!(cpu.registers.a, 0x5A);
    cpu.bus.write_byte(0x0401, 0x10);
    cpu.bus.write_byte(0x0402, 0xC0);
    cpu.execute(Instruction::LD(LoadType::IndirectFromA(Indirect::WordIndirect)));
    assert_eq!(cpu.bus.read_byte(0xC010), 0x5A);
    assert_eq!(cpu.pc, 0x0403);
    cpu.bus.write_byte(0x0403, 0x10);
    cpu.bus.write_byte(0x0404, 0xC0);
    cpu.registers.a = 0;
    cpu.execute(Instruction::LD(LoadType::AFromIndirect(Indirect::WordIndirect)));
    assert_eq!(cpu.registers.a, 0x5A);
    assert_eq!(cpu.pc, 0x0405);
}

#[test]
fn halt_stops_execution() {
    let mut cpu = CPU::new();
    cpu.registers.a = 1;
    cpu.registers.b = 1;
    cpu.execute(Instruction::HALT);
    assert!(cpu.is_halted);
    cpu.execute(Instruction::ADD(ArithmeticTarget::B));
    assert_eq!(cpu.registers.a, 1);
    cpu.step();
    assert_eq!(cpu.pc, 0);
    assert!(cpu.is_halted);
}

#[test]
fn nop_does_nothing() {
    let mut cpu = CPU::new();
    cpu.registers.a = 7;
    cpu.execute(Instruction::NOP);
    assert_eq!(cpu.registers.a, 7);
    assert_eq!(cpu.pc, 0);
    cpu.step();
    assert_eq!(cpu.pc, 1);
}

#[test]
fn step_runs_a_program() {
    let mut cpu = CPU::new();
    let program = [0x3Eu8, 0x05, 0x06, 0x03, 0x80, 0xCB, 0x37, 0x76];
    for (i, b) in program.iter().enumerate() {
        cpu.bus.write_byte(i as u16, *b);
    }
    cpu.step();
    assert_eq!(cpu.registers.a, 5);
    assert_eq!(cpu.pc, 2);
    cpu.step();
    assert_eq!(cpu.registers.b, 3);
    cpu.step();
    assert_eq!(cpu.registers.a, 8);
    assert_eq!(cpu.pc, 5);
    cpu.step();
    assert_eq!(cpu.registers.a, 0x80);
    assert_eq!(cpu.pc, 7);
    cpu.step();
    assert!(cpu.is_halted);
    assert_eq!(cpu.pc, 8);
    cpu.step();
    assert_eq!(cpu.pc, 8);
}

#[test]
fn swap_twice_restores() {
    let mut cpu = CPU::new();
    for v in [0x00u8, 0x12, 0xF0, 0xAB, 0xFF] {
        cpu.registers.d = v;
        cpu.execute(Instruction::SWAP(PrefixTarget::D));
        cpu.execute(Instruction::SWAP(PrefixTarget::D));
        assert_eq!(cpu.registers.d, v);
    }
}

#[test]
fn rotations_undo_each_other() {
    let mut cpu = CPU::new();
    for v in [0x01u8, 0x80, 0x5A, 0xFF] {
        cpu.registers.e = v;
        cpu.execute(Instruction::RLC(PrefixTarget::E));
        cpu.execute(Instruction::RRC(PrefixTarget::E));
        assert_eq!(cpu.registers.e, v);
        cpu.registers.f.carry = true;
        cpu.execute(Instruction::RL(PrefixTarget::E));
        cpu.execute(Instruction::RR(PrefixTarget::E));
        assert_eq!(cpu.registers.e, v);
        assert!(cpu.registers.f.carry);
    }
}

#[test]
fn sub_undoes_add() {
    let mut cpu = CPU::new();
    for (a, v) in [(0x00u8, 0xFFu8), (0x7F, 0x01), (0xC8, 0x64)] {
        cpu.registers.a = a;
        cpu.registers.c = v;
        cpu.execute(Instruction::ADD(ArithmeticTarget::C));
        cpu.execute(Instruction::SUB(ArithmeticTarget::C));
        assert_eq!(cpu.registers.a, a);
    }
}

#[test]
fn cp_sets_the_flags_of_sub() {
    for (a, v) in [(0x42u8, 0x42u8), (0x10, 0x01), (0x01, 0x10), (0x00, 0xFF)] {
        let mut compared = CPU::new();
        compared.registers.a = a;
        compared.registers.b = v;
        compared.execute(Instruction::CP(ArithmeticTarget::B));
        let mut subtracted = CPU::new();
        subtracted.registers.a = a;
        subtracted.registers.b = v;
        subtracted.execute(Instruction::SUB(ArithmeticTarget::B));
        assert_eq!(flags(&compared), flags(&subtracted));
        assert_eq!(compared.registers.a, a);
    }
}

#[test]
fn store_then_load_gives_the_byte_back() {
    let mut cpu = CPU::new();
    cpu.registers.set_de(0x8123);
    cpu.registers.a = 0x3C;
    cpu.execute(Instruction::LD(LoadType::IndirectFromA(Indirect::DEIndirect)));
    cpu.registers.a = 0;
    cpu.execute(Instruction::LD(LoadType::AFromIndirect(Indirect::DEIndirect)));
    assert_eq!(cpu.registers.a, 0x3C);
}
