//! The processor: its state, what each instruction does to it, and the
//! fetch-decode-execute step.
use vstd::prelude::*;
use crate::flags::FlagsRegister;
use crate::registers::Registers;
use crate::memory::{MemoryBus, word_at};
use crate::instruction::{
    ArithmeticTarget, Indirect, Instruction, JumpTest, LoadByteSource, LoadByteTarget, LoadType,
    LoadWordTarget, PrefixTarget, StackTarget, decode,
};
use crate::alu::{
    add_spec, sub_spec, cp_flags, inc_spec, dec_spec, logic_flags, shift_flags,
    accumulator_rotate_flags, rlc_spec, rrc_spec, rl_spec, rr_spec, sla_spec, sra_spec, srl_spec,
    swap_spec, cpl_spec, bit_is_set, res_spec, set_spec,
};

verus! {

/// The processor with its memory.
#[derive(Debug)]
pub struct CPU {
    pub registers: Registers,
    pub pc: u16,
    pub sp: u16,
    pub bus: MemoryBus,
    pub is_halted: bool,
}

/// The state of the processor as a value: registers, program counter, stack
/// pointer, the bytes of memory and whether it has halted.
#[verifier::ext_equal]
pub struct CpuState {
    pub registers: Registers,
    pub pc: u16,
    pub sp: u16,
    pub mem: Seq<u8>,
    pub halted: bool,
}

impl View for CPU {
    type V = CpuState;

    open spec fn view(&self) -> CpuState {
        CpuState {
            registers: self.registers,
            pc: self.pc,
            sp: self.sp,
            mem: self.bus@,
            halted: self.is_halted,
        }
    }
}

/// `x` modulo 2^16: sixteen-bit address arithmetic wraps around.
pub open spec fn wrap16(x: int) -> u16 {
    (x % 65536) as u16
}

impl CpuState {
    pub open spec fn with_registers(self, r: Registers) -> CpuState {
        CpuState { registers: r, ..self }
    }

    pub open spec fn with_flags(self, f: FlagsRegister) -> CpuState {
        self.with_registers(Registers { f, ..self.registers })
    }

    pub open spec fn with_a(self, a: u8) -> CpuState {
        self.with_registers(Registers { a, ..self.registers })
    }

    pub open spec fn with_pc(self, pc: u16) -> CpuState {
        CpuState { pc, ..self }
    }

    pub open spec fn with_sp(self, sp: u16) -> CpuState {
        CpuState { sp, ..self }
    }

    /// The byte at `addr`.
    pub open spec fn byte_at(self, addr: int) -> u8 {
        self.mem[addr]
    }

    /// The state with `v` stored at `addr`.
    pub open spec fn with_byte(self, addr: int, v: u8) -> CpuState {
        CpuState { mem: self.mem.update(addr, v), ..self }
    }

    /// The register that an arithmetic operand names.
    pub open spec fn arithmetic_operand(self, t: ArithmeticTarget) -> u8 {
        match t {
            ArithmeticTarget::A => self.registers.a,
            ArithmeticTarget::B => self.registers.b,
            ArithmeticTarget::C => self.registers.c,
            ArithmeticTarget::D => self.registers.d,
            ArithmeticTarget::E => self.registers.e,
            ArithmeticTarget::H => self.registers.h,
            ArithmeticTarget::L => self.registers.l,
        }
    }

    /// The state with `v` in the register that an arithmetic operand names.
    pub open spec fn with_arithmetic_operand(self, t: ArithmeticTarget, v: u8) -> CpuState {
        let r = self.registers;
        self.with_registers(
            match t {
                ArithmeticTarget::A => Registers { a: v, ..r },
                ArithmeticTarget::B => Registers { b: v, ..r },
                ArithmeticTarget::C => Registers { c: v, ..r },
                ArithmeticTarget::D => Registers { d: v, ..r },
                ArithmeticTarget::E => Registers { e: v, ..r },
                ArithmeticTarget::H => Registers { h: v, ..r },
                ArithmeticTarget::L => Registers { l: v, ..r },
            },
        )
    }

    /// The byte that a CB-prefixed operand names: a register or the byte at HL.
    pub open spec fn prefix_operand(self, t: PrefixTarget) -> u8 {
        match t {
            PrefixTarget::A => self.registers.a,
            PrefixTarget::B => self.registers.b,
            PrefixTarget::C => self.registers.c,
            PrefixTarget::D => self.registers.d,
            PrefixTarget::E => self.registers.e,
            PrefixTarget::H => self.registers.h,
            PrefixTarget::L => self.registers.l,
            PrefixTarget::HLInd => self.byte_at(self.registers.hl() as int),
        }
    }

    /// The state with `v` stored where a CB-prefixed operand names.
    pub open spec fn with_prefix_operand(self, t: PrefixTarget, v: u8) -> CpuState {
        let r = self.registers;
        match t {
            PrefixTarget::A => self.with_registers(Registers { a: v, ..r }),
            PrefixTarget::B => self.with_registers(Registers { b: v, ..r }),
            PrefixTarget::C => self.with_registers(Registers { c: v, ..r }),
            PrefixTarget::D => self.with_registers(Registers { d: v, ..r }),
            PrefixTarget::E => self.with_registers(Registers { e: v, ..r }),
            PrefixTarget::H => self.with_registers(Registers { h: v, ..r }),
            PrefixTarget::L => self.with_registers(Registers { l: v, ..r }),
            PrefixTarget::HLInd => self.with_byte(r.hl() as int, v),
        }
    }

    /// Whether a jump condition holds.
    pub open spec fn condition(self, test: JumpTest) -> bool {
        match test {
            JumpTest::NotZero => !self.registers.f.zero,
            JumpTest::Zero => self.registers.f.zero,
            JumpTest::NotCarry => !self.registers.f.carry,
            JumpTest::Carry => self.registers.f.carry,
            JumpTest::Always => true,
        }
    }

    /// The state after pushing `v`: the high byte goes to SP - 1, the low byte to
    /// SP - 2, and SP moves down by two.
    pub open spec fn pushed(self, v: u16) -> CpuState {
        let sp1 = wrap16(self.sp - 1);
        let sp2 = wrap16(self.sp - 2);
        CpuState {
            sp: sp2,
            mem: self.mem.update(sp1 as int, (v / 256) as u8).update(sp2 as int, (v % 256) as u8),
            ..self
        }
    }

    /// The word popped, low byte from SP and high byte from SP + 1, and the state
    /// with SP moved up by two.
    pub open spec fn popped(self) -> (CpuState, u16) {
        let lo = self.byte_at(self.sp as int);
        let hi = self.byte_at(wrap16(self.sp + 1) as int);
        (self.with_sp(wrap16(self.sp + 2)), (hi * 256 + lo) as u16)
    }

    /// The value of a pair that can be pushed.
    pub open spec fn stack_pair(self, t: StackTarget) -> u16 {
        match t {
            StackTarget::AF => self.registers.af(),
            StackTarget::BC => self.registers.bc(),
            StackTarget::DE => self.registers.de(),
            StackTarget::HL => self.registers.hl(),
        }
    }

    /// The state with a pair that can be popped set to `v`.
    pub open spec fn with_stack_pair(self, t: StackTarget, v: u16) -> CpuState {
        self.with_registers(
            match t {
                StackTarget::AF => self.registers.with_af(v),
                StackTarget::BC => self.registers.with_bc(v),
                StackTarget::DE => self.registers.with_de(v),
                StackTarget::HL => self.registers.with_hl(v),
            },
        )
    }

    /// The byte after the opcode, and the state with PC past it.
    pub open spec fn next_byte(self) -> (CpuState, u8) {
        (self.with_pc(wrap16(self.pc + 1)), self.byte_at(self.pc as int))
    }

    /// The little-endian word after the opcode, and the state with PC past it.
    pub open spec fn next_word(self) -> (CpuState, u16) {
        (self.with_pc(wrap16(self.pc + 2)), word_at(self.mem, self.pc as int))
    }

    /// The byte that a load reads, and the state after reading it (an immediate
    /// operand moves PC past it).
    pub open spec fn load_source(self, source: LoadByteSource) -> (CpuState, u8) {
        match source {
            LoadByteSource::A => (self, self.registers.a),
            LoadByteSource::B => (self, self.registers.b),
            LoadByteSource::C => (self, self.registers.c),
            LoadByteSource::D => (self, self.registers.d),
            LoadByteSource::E => (self, self.registers.e),
            LoadByteSource::H => (self, self.registers.h),
            LoadByteSource::L => (self, self.registers.l),
            LoadByteSource::D8 => self.next_byte(),
            LoadByteSource::HLI => (self, self.byte_at(self.registers.hl() as int)),
        }
    }

    /// The state after a load stores `v`.
    pub open spec fn with_load_target(self, target: LoadByteTarget, v: u8) -> CpuState {
        let r = self.registers;
        match target {
            LoadByteTarget::A => self.with_registers(Registers { a: v, ..r }),
            LoadByteTarget::B => self.with_registers(Registers { b: v, ..r }),
            LoadByteTarget::C => self.with_registers(Registers { c: v, ..r }),
            LoadByteTarget::D => self.with_registers(Registers { d: v, ..r }),
            LoadByteTarget::E => self.with_registers(Registers { e: v, ..r }),
            LoadByteTarget::H => self.with_registers(Registers { h: v, ..r }),
            LoadByteTarget::L => self.with_registers(Registers { l: v, ..r }),
            LoadByteTarget::HLI => self.with_byte(r.hl() as int, v),
        }
    }

    /// The address of an indirect load or store, and the state after finding it:
    /// HL+ and HL- step HL, an address operand moves PC past it.
    pub open spec fn indirect_address(self, ind: Indirect) -> (CpuState, u16) {
        let r = self.registers;
        match ind {
            Indirect::BCIndirect => (self, r.bc()),
            Indirect::DEIndirect => (self, r.de()),
            Indirect::HLIndirectPlus => (
                self.with_registers(r.with_hl(wrap16(r.hl() + 1))),
                r.hl(),
            ),
            Indirect::HLIndirectMinus => (
                self.with_registers(r.with_hl(wrap16(r.hl() - 1))),
                r.hl(),
            ),
            Indirect::WordIndirect => self.next_word(),
        }
    }
}

/// Whether `i` is an arithmetic, logic, rotate or flag instruction without the
/// CB prefix.
pub open spec fn is_unprefixed_alu_op(i: Instruction) -> bool {
    match i {
        Instruction::ADD(_) | Instruction::ADC(_) | Instruction::SUB(_) | Instruction::SBC(_)
        | Instruction::AND(_) | Instruction::OR(_) | Instruction::XOR(_) | Instruction::CP(_)
        | Instruction::INC(_) | Instruction::DEC(_) | Instruction::CCF | Instruction::SCF
        | Instruction::RRA | Instruction::RLA | Instruction::RRCA | Instruction::RLCA
        | Instruction::CPL => true,
        _ => false,
    }
}

/// The state after a CB-prefixed rotate or shift of the operand `t`, given what
/// the operation computes of it.
pub open spec fn shifted(s: CpuState, t: PrefixTarget, r: (u8, bool)) -> CpuState {
    s.with_flags(shift_flags(r.0, r.1)).with_prefix_operand(t, r.0)
}

/// The state after a load instruction.
pub open spec fn load_spec(s: CpuState, lt: LoadType) -> CpuState {
    match lt {
        LoadType::Byte(target, source) => {
            let (s1, v) = s.load_source(source);
            s1.with_load_target(target, v)
        },
        LoadType::Word(target) => {
            let (s1, v) = s.next_word();
            match target {
                LoadWordTarget::BC => s1.with_registers(s1.registers.with_bc(v)),
                LoadWordTarget::DE => s1.with_registers(s1.registers.with_de(v)),
                LoadWordTarget::HL => s1.with_registers(s1.registers.with_hl(v)),
                LoadWordTarget::SP => s1.with_sp(v),
            }
        },
        LoadType::AFromIndirect(ind) => {
            let (s1, addr) = s.indirect_address(ind);
            s1.with_a(s1.byte_at(addr as int))
        },
        LoadType::IndirectFromA(ind) => {
            let (s1, addr) = s.indirect_address(ind);
            s1.with_byte(addr as int, s.registers.a)
        },
        LoadType::AFromByteAddress => {
            let (s1, n) = s.next_byte();
            s1.with_a(s1.byte_at(0xFF00 + n))
        },
        LoadType::ByteAddressFromA => {
            let (s1, n) = s.next_byte();
            s1.with_byte(0xFF00 + n, s.registers.a)
        },
    }
}

/// The state after an arithmetic, logic, rotate, flag or bit instruction.
pub open spec fn alu_spec(s: CpuState, i: Instruction) -> CpuState {
    if is_unprefixed_alu_op(i) {
        unprefixed_alu_spec(s, i)
    } else {
        prefixed_spec(s, i)
    }
}

/// The state after an arithmetic, logic, rotate or flag instruction without the
/// CB prefix.
pub open spec fn unprefixed_alu_spec(s: CpuState, i: Instruction) -> CpuState {
    let a = s.registers.a;
    let f = s.registers.f;
    match i {
        Instruction::ADD(t) => {
            let r = add_spec(a, s.arithmetic_operand(t), false);
            s.with_a(r.0).with_flags(r.1)
        },
        Instruction::ADC(t) => {
            let r = add_spec(a, s.arithmetic_operand(t), f.carry);
            s.with_a(r.0).with_flags(r.1)
        },
        Instruction::SUB(t) => {
            let r = sub_spec(a, s.arithmetic_operand(t), false);
            s.with_a(r.0).with_flags(r.1)
        },
        Instruction::SBC(t) => {
            let r = sub_spec(a, s.arithmetic_operand(t), f.carry);
            s.with_a(r.0).with_flags(r.1)
        },
        Instruction::AND(t) => {
            let r = a & s.arithmetic_operand(t);
            s.with_a(r).with_flags(logic_flags(r, true))
        },
        Instruction::OR(t) => {
            let r = a | s.arithmetic_operand(t);
            s.with_a(r).with_flags(logic_flags(r, false))
        },
        Instruction::XOR(t) => {
            let r = a ^ s.arithmetic_operand(t);
            s.with_a(r).with_flags(logic_flags(r, false))
        },
        Instruction::CP(t) => s.with_flags(cp_flags(a, s.arithmetic_operand(t))),
        Instruction::INC(t) => {
            let r = inc_spec(s.arithmetic_operand(t), f);
            s.with_flags(r.1).with_arithmetic_operand(t, r.0)
        },
        Instruction::DEC(t) => {
            let r = dec_spec(s.arithmetic_operand(t), f);
            s.with_flags(r.1).with_arithmetic_operand(t, r.0)
        },
        Instruction::CCF => s.with_flags(
            FlagsRegister { carry: !f.carry, subtract: false, half_carry: false, ..f },
        ),
        Instruction::SCF => s.with_flags(
            FlagsRegister { carry: true, subtract: false, half_carry: false, ..f },
        ),
        Instruction::RRA => {
            let r = rr_spec(a, f.carry);
            s.with_a(r.0).with_flags(accumulator_rotate_flags(r.1))
        },
        Instruction::RLA => {
            let r = rl_spec(a, f.carry);
            s.with_a(r.0).with_flags(accumulator_rotate_flags(r.1))
        },
        Instruction::RRCA => {
            let r = rrc_spec(a);
            s.with_a(r.0).with_flags(accumulator_rotate_flags(r.1))
        },
        Instruction::RLCA => {
            let r = rlc_spec(a);
            s.with_a(r.0).with_flags(accumulator_rotate_flags(r.1))
        },
        Instruction::CPL => s.with_a(cpl_spec(a)).with_flags(
            FlagsRegister { subtract: true, half_carry: true, ..f },
        ),
        _ => s,
    }
}

/// The state after a CB-prefixed instruction.
pub open spec fn prefixed_spec(s: CpuState, i: Instruction) -> CpuState {
    let f = s.registers.f;
    match i {
        Instruction::BIT(n, t) => s.with_flags(
            FlagsRegister {
                zero: !bit_is_set(s.prefix_operand(t), n),
                subtract: false,
                half_carry: true,
                ..f
            },
        ),
        Instruction::RES(n, t) => s.with_prefix_operand(t, res_spec(s.prefix_operand(t), n)),
        Instruction::SET(n, t) => s.with_prefix_operand(t, set_spec(s.prefix_operand(t), n)),
        Instruction::SRL(t) => shifted(s, t, srl_spec(s.prefix_operand(t))),
        Instruction::RR(t) => shifted(s, t, rr_spec(s.prefix_operand(t), f.carry)),
        Instruction::RL(t) => shifted(s, t, rl_spec(s.prefix_operand(t), f.carry)),
        Instruction::RRC(t) => shifted(s, t, rrc_spec(s.prefix_operand(t))),
        Instruction::RLC(t) => shifted(s, t, rlc_spec(s.prefix_operand(t))),
        Instruction::SRA(t) => shifted(s, t, sra_spec(s.prefix_operand(t))),
        Instruction::SLA(t) => shifted(s, t, sla_spec(s.prefix_operand(t))),
        Instruction::SWAP(t) => shifted(s, t, (swap_spec(s.prefix_operand(t)), false)),
        _ => s,
    }
}

/// The state after CALL when `jump` holds: the address after the operand is
/// pushed and PC takes the operand, read after the push.
pub open spec fn call_spec(s: CpuState, jump: bool) -> CpuState {
    let next_pc = wrap16(s.pc + 2);
    if jump {
        let p = s.pushed(next_pc);
        p.with_pc(word_at(p.mem, s.pc as int))
    } else {
        s.with_pc(next_pc)
    }
}

/// The state after executing `i`. A halted processor does nothing.
pub open spec fn execute_spec(s: CpuState, i: Instruction) -> CpuState {
    if s.halted {
        s
    } else {
        match i {
            Instruction::NOP => s,
            Instruction::HALT => CpuState { halted: true, ..s },
            Instruction::JP(test) => if s.condition(test) {
                s.with_pc(word_at(s.mem, s.pc as int))
            } else {
                s.with_pc(wrap16(s.pc + 2))
            },
            Instruction::CALL(test) => call_spec(s, s.condition(test)),
            Instruction::RET(test) => if s.condition(test) {
                let (p, v) = s.popped();
                p.with_pc(v)
            } else {
                s
            },
            Instruction::PUSH(t) => s.pushed(s.stack_pair(t)),
            Instruction::POP(t) => {
                let (p, v) = s.popped();
                p.with_stack_pair(t, v)
            },
            Instruction::LD(lt) => load_spec(s, lt),
            _ => alu_spec(s, i),
        }
    }
}

/// Whether executing `i` reads a word operand after the opcode.
pub open spec fn reads_word_operand(s: CpuState, i: Instruction) -> bool {
    match i {
        Instruction::JP(test) => s.condition(test),
        Instruction::CALL(test) => s.condition(test),
        Instruction::LD(LoadType::Word(_)) => true,
        Instruction::LD(LoadType::AFromIndirect(Indirect::WordIndirect)) => true,
        Instruction::LD(LoadType::IndirectFromA(Indirect::WordIndirect)) => true,
        _ => false,
    }
}

/// Whether executing `i` is defined: the bit it names is one of the eight, and a
/// word operand does not run past the last address.
pub open spec fn can_execute(s: CpuState, i: Instruction) -> bool {
    s.halted || (i.wf() && (reads_word_operand(s, i) ==> s.pc < 0xFFFF))
}

/// The state after fetching an opcode (and the opcode after a CB prefix), and
/// the instruction it decodes to.
pub open spec fn fetch(s: CpuState) -> (CpuState, Option<Instruction>) {
    let (s1, op) = s.next_byte();
    if op == 0xCB {
        let (s2, cb) = s1.next_byte();
        (s2, decode(cb, true))
    } else {
        (s1, decode(op, false))
    }
}

/// Whether a step is defined: the opcode at PC is supported and executing it is
/// defined.
pub open spec fn can_step(s: CpuState) -> bool {
    s.halted || match fetch(s).1 {
        Some(i) => can_execute(fetch(s).0, i),
        None => false,
    }
}

/// The state after one step: a halted processor does nothing; otherwise the
/// instruction at PC is fetched and executed.
pub open spec fn step_spec(s: CpuState) -> CpuState {
    if s.halted {
        s
    } else {
        match fetch(s).1 {
            Some(i) => execute_spec(fetch(s).0, i),
            None => s,
        }
    }
}

impl CPU {
    /// A processor with all registers zero, PC and SP at 0, zeroed memory, not
    /// halted.
    pub fn new() -> (cpu: Self)
        ensures
            cpu.registers.a == 0 && cpu.registers.b == 0 && cpu.registers.c == 0
                && cpu.registers.d == 0 && cpu.registers.e == 0 && cpu.registers.h == 0
                && cpu.registers.l == 0,
            !cpu.registers.f.zero && !cpu.registers.f.subtract && !cpu.registers.f.half_carry
                && !cpu.registers.f.carry,
            cpu.pc == 0,
            cpu.sp == 0,
            cpu.bus@ == Seq::new(crate::memory::MEMORY_SIZE as nat, |i: int| 0u8),
            !cpu.is_halted,
    {
        Self {
            registers: Registers::new(),
            pc: 0,
            sp: 0,
            bus: MemoryBus::new(),
            is_halted: false,
        }
    }

    /// Fetches, decodes and executes the instruction at PC; a halted processor
    /// does nothing. The opcode at PC must be supported.
    pub fn step(&mut self)
        requires
            can_step(old(self)@),
        ensures
            final(self)@ == step_spec(old(self)@),
    {
        if self.is_halted {
            return ;
        }
        let opcode = self.read_next_byte();
        let prefixed = opcode == 0xCB;

        let instruction = if prefixed {
            let cb_opcode = self.read_next_byte();
            Instruction::from_byte(cb_opcode, true)
        } else {
            Instruction::from_byte(opcode, false)
        };

        match instruction {
            Some(i) => self.execute(i),
            None => {},
        }
    }

    fn read_next_byte(&mut self) -> (byte: u8)
        ensures
            (final(self)@, byte) == old(self)@.next_byte(),
    {
        let byte = self.bus.read_byte(self.pc);
        self.pc = self.pc.wrapping_add(1);
        byte
    }

    fn read_next_word(&mut self) -> (word: u16)
        requires
            old(self).pc < 0xFFFF,
        ensures
            (final(self)@, word) == old(self)@.next_word(),
    {
        let word = self.bus.read_word(self.pc);
        self.pc = self.pc.wrapping_add(2);
        word
    }

    fn push(&mut self, value: u16)
        ensures
            final(self)@ == old(self)@.pushed(value),
    {
        self.sp = self.sp.wrapping_sub(1);
        let hi: u8 = ((value & 0xFF00) >> 8u16) as u8;
        let lo: u8 = (value & 0xFF) as u8;
        assert(hi == value / 256 && lo == value % 256) by (bit_vector)
            requires
                hi == ((value & 0xFF00) >> 8u16) as u8,
                lo == (value & 0xFF) as u8,
        ;
        self.bus.write_byte(self.sp, hi);
        self.sp = self.sp.wrapping_sub(1);
        self.bus.write_byte(self.sp, lo);
    }

    fn pop(&mut self) -> (value: u16)
        ensures
            (final(self)@, value) == old(self)@.popped(),
    {
        let lsb = self.bus.read_byte(self.sp);
        self.sp = self.sp.wrapping_add(1);
        let msb = self.bus.read_byte(self.sp);
        self.sp = self.sp.wrapping_add(1);
        crate::registers::join(msb, lsb)
    }

    fn call(&mut self, should_jump: bool)
        requires
            should_jump ==> old(self).pc < 0xFFFF,
        ensures
            final(self)@ == call_spec(old(self)@, should_jump),
    {
        let next_pc = self.pc.wrapping_add(2);
        if should_jump {
            self.push(next_pc);
            self.pc = self.read_next_word();
        } else {
            self.pc = next_pc;
        }
    }

    fn return_(&mut self, should_jump: bool)
        ensures
            final(self)@ == (if should_jump {
                let (p, v) = old(self)@.popped();
                p.with_pc(v)
            } else {
                old(self)@
            }),
    {
        if should_jump {
            self.pc = self.pop();
        }
        // else: pc already points past the RET opcode (1 byte, already consumed)
    }

    /// Executes one instruction; a halted processor does nothing. A BIT, RES or
    /// SET instruction must name a bit from 0 to 7, and a word operand must not
    /// start at the last address.
    pub fn execute(&mut self, instruction: Instruction)
        requires
            can_execute(old(self)@, instruction),
        ensures
            final(self)@ == execute_spec(old(self)@, instruction),
    {
        if self.is_halted {
            return ;
        }
        match instruction {
            Instruction::NOP => {},
            Instruction::HALT => {
                self.is_halted = true;
            },
            Instruction::JP(test) => {
                let should_jump = self.evaluate_jump_test(test);
                if should_jump {
                    self.pc = self.read_next_word();
                } else {
                    self.pc = self.pc.wrapping_add(2);
                }
            },
            Instruction::CALL(test) => {
                let should_jump = self.evaluate_jump_test(test);
                self.call(should_jump);
            },
            Instruction::RET(test) => {
                let should_jump = self.evaluate_jump_test(test);
                self.return_(should_jump);
            },
            Instruction::PUSH(target) => {
                let value = match target {
                    StackTarget::AF => self.registers.get_af(),
                    StackTarget::BC => self.registers.get_bc(),
                    StackTarget::DE => self.registers.get_de(),
                    StackTarget::HL => self.registers.get_hl(),
                };
                self.push(value);
            },
            Instruction::POP(target) => {
                let value = self.pop();
                match target {
                    StackTarget::AF => self.registers.set_af(value),
                    StackTarget::BC => self.registers.set_bc(value),
                    StackTarget::DE => self.registers.set_de(value),
                    StackTarget::HL => self.registers.set_hl(value),
                }
            },
            Instruction::LD(load_type) => self.execute_load(load_type),
            Instruction::ADD(_) | Instruction::ADC(_) | Instruction::SUB(_) | Instruction::SBC(_)
            | Instruction::AND(_) | Instruction::OR(_) | Instruction::XOR(_) | Instruction::CP(_)
            | Instruction::INC(_) | Instruction::DEC(_) | Instruction::CCF | Instruction::SCF
            | Instruction::RRA | Instruction::RLA | Instruction::RRCA | Instruction::RLCA
            | Instruction::CPL => self.execute_alu(instruction),
            _ => self.execute_prefixed(instruction),
        }
    }

    fn execute_load(&mut self, load_type: LoadType)
        requires
            can_execute(old(self)@, Instruction::LD(load_type)),
            !old(self).is_halted,
        ensures
            final(self)@ == load_spec(old(self)@, load_type),
    {
        match load_type {
            LoadType::Byte(target, source) => self.load_byte(target, source),
            LoadType::Word(target) => {
                let value = self.read_next_word();
                match target {
                    LoadWordTarget::BC => self.registers.set_bc(value),
                    LoadWordTarget::DE => self.registers.set_de(value),
                    LoadWordTarget::HL => self.registers.set_hl(value),
                    LoadWordTarget::SP => self.sp = value,
                }
            },
            // LD A, (rr)
            LoadType::AFromIndirect(indirect) => {
                let addr = self.indirect_address(indirect);
                self.registers.a = self.bus.read_byte(addr);
            },
            // LD (rr), A
            LoadType::IndirectFromA(indirect) => {
                let a = self.registers.a;
                let addr = self.indirect_address(indirect);
                self.bus.write_byte(addr, a);
            },
            // LD A, (0xFF00 + n)
            LoadType::AFromByteAddress => {
                let offset = self.read_next_byte() as u16;
                self.registers.a = self.bus.read_byte(0xFF00 + offset);
            },
            // LD (0xFF00 + n), A
            LoadType::ByteAddressFromA => {
                let offset = self.read_next_byte() as u16;
                let a = self.registers.a;
                self.bus.write_byte(0xFF00 + offset, a);
            },
        }
    }

    fn load_byte(&mut self, target: LoadByteTarget, source: LoadByteSource)
        ensures
            final(self)@ == load_spec(old(self)@, LoadType::Byte(target, source)),
    {
        let source_value = match source {
            LoadByteSource::A => self.registers.a,
            LoadByteSource::B => self.registers.b,
            LoadByteSource::C => self.registers.c,
            LoadByteSource::D => self.registers.d,
            LoadByteSource::E => self.registers.e,
            LoadByteSource::H => self.registers.h,
            LoadByteSource::L => self.registers.l,
            LoadByteSource::D8 => self.read_next_byte(),
            LoadByteSource::HLI => self.bus.read_byte(self.registers.get_hl()),
        };
        match target {
            LoadByteTarget::A => self.registers.a = source_value,
            LoadByteTarget::B => self.registers.b = source_value,
            LoadByteTarget::C => self.registers.c = source_value,
            LoadByteTarget::D => self.registers.d = source_value,
            LoadByteTarget::E => self.registers.e = source_value,
            LoadByteTarget::H => self.registers.h = source_value,
            LoadByteTarget::L => self.registers.l = source_value,
            LoadByteTarget::HLI => {
                let addr = self.registers.get_hl();
                self.bus.write_byte(addr, source_value)
            },
        }
        // NOTE: pc was already advanced by read_next_byte() for
        // D8 source, so we don't need to add anything extra here.
    }

    /// The address of an indirect load or store; HL+ and HL- step HL after
    /// reading it, and an address operand moves PC past it.
    fn indirect_address(&mut self, indirect: Indirect) -> (addr: u16)
        requires
            indirect is WordIndirect ==> old(self).pc < 0xFFFF,
        ensures
            (final(self)@, addr) == old(self)@.indirect_address(indirect),
    {
        match indirect {
            Indirect::BCIndirect => self.registers.get_bc(),
            Indirect::DEIndirect => self.registers.get_de(),
            Indirect::HLIndirectPlus => {
                let addr = self.registers.get_hl();
                self.registers.set_hl(addr.wrapping_add(1));
                addr
            },
            Indirect::HLIndirectMinus => {
                let addr = self.registers.get_hl();
                self.registers.set_hl(addr.wrapping_sub(1));
                addr
            },
            Indirect::WordIndirect => self.read_next_word(),
        }
    }

    fn execute_alu(&mut self, instruction: Instruction)
        requires
            is_unprefixed_alu_op(instruction),
        ensures
            final(self)@ == unprefixed_alu_spec(old(self)@, instruction),
    {
        match instruction {
            Instruction::ADD(target) => {
                let value = self.read_arithmetic_target(target);
                self.registers.a = self.add(value, false);
            },
            Instruction::ADC(target) => {
                let value = self.read_arithmetic_target(target);
                let carry = self.registers.f.carry;
                self.registers.a = self.add(value, carry);
            },
            Instruction::SUB(target) => {
                let value = self.read_arithmetic_target(target);
                self.registers.a = self.sub(value, false);
            },
            Instruction::SBC(target) => {
                let value = self.read_arithmetic_target(target);
                let carry = self.registers.f.carry;
                self.registers.a = self.sub(value, carry);
            },
            Instruction::AND(target) => {
                let value = self.read_arithmetic_target(target);
                let result = self.registers.a & value;
                self.set_logic_result(result, true);
            },
            Instruction::OR(target) => {
                let value = self.read_arithmetic_target(target);
                let result = self.registers.a | value;
                self.set_logic_result(result, false);
            },
            Instruction::XOR(target) => {
                let value = self.read_arithmetic_target(target);
                let result = self.registers.a ^ value;
                self.set_logic_result(result, false);
            },
            Instruction::CP(target) => {
                let value = self.read_arithmetic_target(target);
                self.cp(value);
            },
            Instruction::INC(target) => {
                let value = self.read_arithmetic_target(target);
                let result = self.inc(value);
                self.write_arithmetic_target(target, result);
            },
            Instruction::DEC(target) => {
                let value = self.read_arithmetic_target(target);
                let result = self.dec(value);
                self.write_arithmetic_target(target, result);
            },
            Instruction::CCF => {
                self.registers.f.carry = !self.registers.f.carry;
                self.registers.f.subtract = false;
                self.registers.f.half_carry = false;
            },
            Instruction::SCF => {
                self.registers.f.carry = true;
                self.registers.f.subtract = false;
                self.registers.f.half_carry = false;
            },
            Instruction::RRA => self.rra(),
            Instruction::RLA => self.rla(),
            Instruction::RRCA => self.rrca(),
            Instruction::RLCA => self.rlca(),
            Instruction::CPL => {
                let a = self.registers.a;
                self.registers.a = !a;
                assert(!a == 255 - a) by (bit_vector);
                self.registers.f.subtract = true;
                self.registers.f.half_carry = true;
            },
            _ => {},
        }
    }

    fn execute_prefixed(&mut self, instruction: Instruction)
        requires
            instruction.wf(),
        ensures
            final(self)@ == prefixed_spec(old(self)@, instruction),
    {
        match instruction {
            Instruction::BIT(bit, target) => self.test_bit(bit, target),
            Instruction::RES(bit, target) => {
                let value = self.read_prefix_target(target);
                self.write_prefix_target(target, value & !(1u8 << bit));
            },
            Instruction::SET(bit, target) => {
                let value = self.read_prefix_target(target);
                self.write_prefix_target(target, value | (1u8 << bit));
            },
            Instruction::SRL(target) => {
                let value = self.read_prefix_target(target);
                let result = self.srl(value);
                self.write_prefix_target(target, result);
            },
            Instruction::RR(target) => {
                let value = self.read_prefix_target(target);
                let result = self.rr(value);
                self.write_prefix_target(target, result);
            },
            Instruction::RL(target) => {
                let value = self.read_prefix_target(target);
                let result = self.rl(value);
                self.write_prefix_target(target, result);
            },
            Instruction::RRC(target) => {
                let value = self.read_prefix_target(target);
                let result = self.rrc(value);
                self.write_prefix_target(target, result);
            },
            Instruction::RLC(target) => {
                let value = self.read_prefix_target(target);
                let result = self.rlc(value);
                self.write_prefix_target(target, result);
            },
            Instruction::SRA(target) => {
                let value = self.read_prefix_target(target);
                let result = self.sra(value);
                self.write_prefix_target(target, result);
            },
            Instruction::SLA(target) => {
                let value = self.read_prefix_target(target);
                let result = self.sla(value);
                self.write_prefix_target(target, result);
            },
            Instruction::SWAP(target) => {
                let value = self.read_prefix_target(target);
                let result = self.swap(value);
                self.write_prefix_target(target, result);
            },
            _ => {},
        }
    }

    fn test_bit(&mut self, bit: u8, target: PrefixTarget)
        requires
            bit < 8,
        ensures
            final(self)@ == prefixed_spec(old(self)@, Instruction::BIT(bit, target)),
    {
        let value = self.read_prefix_target(target);
        let zero = (value & (1u8 << bit)) == 0;
        assert(zero == !((value >> bit) & 1 == 1)) by (bit_vector)
            requires
                bit < 8,
                zero == ((value & (1u8 << bit)) == 0),
        ;
        self.registers.f.zero = zero;
        self.registers.f.subtract = false;
        self.registers.f.half_carry = true;
    }

    fn evaluate_jump_test(&self, test: JumpTest) -> (r: bool)
        ensures
            r == self@.condition(test),
    {
        match test {
            JumpTest::NotZero => !self.registers.f.zero,
            JumpTest::Zero => self.registers.f.zero,
            JumpTest::NotCarry => !self.registers.f.carry,
            JumpTest::Carry => self.registers.f.carry,
            JumpTest::Always => true,
        }
    }

    fn read_arithmetic_target(&self, target: ArithmeticTarget) -> (v: u8)
        ensures
            v == self@.arithmetic_operand(target),
    {
        match target {
            ArithmeticTarget::A => self.registers.a,
            ArithmeticTarget::B => self.registers.b,
            ArithmeticTarget::C => self.registers.c,
            ArithmeticTarget::D => self.registers.d,
            ArithmeticTarget::E => self.registers.e,
            ArithmeticTarget::H => self.registers.h,
            ArithmeticTarget::L => self.registers.l,
        }
    }

    fn write_arithmetic_target(&mut self, target: ArithmeticTarget, value: u8)
        ensures
            final(self)@ == old(self)@.with_arithmetic_operand(target, value),
    {
        match target {
            ArithmeticTarget::A => self.registers.a = value,
            ArithmeticTarget::B => self.registers.b = value,
            ArithmeticTarget::C => self.registers.c = value,
            ArithmeticTarget::D => self.registers.d = value,
            ArithmeticTarget::E => self.registers.e = value,
            ArithmeticTarget::H => self.registers.h = value,
            ArithmeticTarget::L => self.registers.l = value,
        }
    }

    fn read_prefix_target(&self, target: PrefixTarget) -> (v: u8)
        ensures
            v == self@.prefix_operand(target),
    {
        match target {
            PrefixTarget::A => self.registers.a,
            PrefixTarget::B => self.registers.b,
            PrefixTarget::C => self.registers.c,
            PrefixTarget::D => self.registers.d,
            PrefixTarget::E => self.registers.e,
            PrefixTarget::H => self.registers.h,
            PrefixTarget::L => self.registers.l,
            PrefixTarget::HLInd => self.bus.read_byte(self.registers.get_hl()),
        }
    }

    fn write_prefix_target(&mut self, target: PrefixTarget, value: u8)
        ensures
            final(self)@ == old(self)@.with_prefix_operand(target, value),
    {
        match target {
            PrefixTarget::A => self.registers.a = value,
            PrefixTarget::B => self.registers.b = value,
            PrefixTarget::C => self.registers.c = value,
            PrefixTarget::D => self.registers.d = value,
            PrefixTarget::E => self.registers.e = value,
            PrefixTarget::H => self.registers.h = value,
            PrefixTarget::L => self.registers.l = value,
            PrefixTarget::HLInd => {
                let addr = self.registers.get_hl();
                self.bus.write_byte(addr, value)
            },
        }
    }

    fn add(&mut self, value: u8, with_carry: bool) -> (result: u8)
        ensures
            (result, final(self).registers.f) == add_spec(old(self).registers.a, value, with_carry),
            final(self)@ == old(self)@.with_flags(final(self).registers.f),
    {
        let carry: u8 = if with_carry { 1 } else { 0 };
        let a = self.registers.a;
        let result = a.wrapping_add(value).wrapping_add(carry);
        assert(a & 0xF == a % 16 && value & 0xF == value % 16) by (bit_vector);
        self.registers.f.zero = result == 0;
        self.registers.f.subtract = false;
        self.registers.f.half_carry = (a & 0xF) + (value & 0xF) + carry > 0xF;
        self.registers.f.carry = (a as u16) + (value as u16) + (carry as u16) > 0xFF;
        result
    }

    fn sub(&mut self, value: u8, with_carry: bool) -> (result: u8)
        ensures
            (result, final(self).registers.f) == sub_spec(old(self).registers.a, value, with_carry),
            final(self)@ == old(self)@.with_flags(final(self).registers.f),
    {
        let carry: u8 = if with_carry { 1 } else { 0 };
        let a = self.registers.a;
        let result = a.wrapping_sub(value).wrapping_sub(carry);
        assert(a & 0xF == a % 16 && value & 0xF == value % 16) by (bit_vector);
        self.registers.f.zero = result == 0;
        self.registers.f.subtract = true;
        self.registers.f.half_carry = (a & 0xF) < (value & 0xF) + carry;
        self.registers.f.carry = (a as u16) < (value as u16) + (carry as u16);
        result
    }

    fn cp(&mut self, value: u8)
        ensures
            final(self)@ == old(self)@.with_flags(cp_flags(old(self).registers.a, value)),
    {
        let a = self.registers.a;
        assert(a & 0xF == a % 16 && value & 0xF == value % 16) by (bit_vector);
        self.registers.f.zero = a == value;
        self.registers.f.subtract = true;
        self.registers.f.half_carry = (a & 0xF) < (value & 0xF);
        self.registers.f.carry = a < value;
    }

    fn inc(&mut self, value: u8) -> (result: u8)
        ensures
            (result, final(self).registers.f) == inc_spec(value, old(self).registers.f),
            final(self)@ == old(self)@.with_flags(final(self).registers.f),
    {
        let result = value.wrapping_add(1);
        assert(value & 0xF == value % 16) by (bit_vector);
        self.registers.f.zero = result == 0;
        self.registers.f.subtract = false;
        self.registers.f.half_carry = (value & 0xF) + 1 > 0xF;
        result
    }

    fn dec(&mut self, value: u8) -> (result: u8)
        ensures
            (result, final(self).registers.f) == dec_spec(value, old(self).registers.f),
            final(self)@ == old(self)@.with_flags(final(self).registers.f),
    {
        let result = value.wrapping_sub(1);
        assert(value & 0xF == value % 16) by (bit_vector);
        self.registers.f.zero = result == 0;
        self.registers.f.subtract = true;
        self.registers.f.half_carry = value & 0xF == 0;
        result
    }

    fn rra(&mut self)
        ensures
            final(self)@ == unprefixed_alu_spec(old(self)@, Instruction::RRA),
    {
        let carry: u8 = if self.registers.f.carry { 1 } else { 0 };
        let a = self.registers.a;
        let new_carry = a & 1;
        let result = (a >> 1u8) | (carry << 7u8);
        assert(result == a / 2 + carry * 128 && (new_carry != 0) == (a % 2 == 1)) by (bit_vector)
            requires
                carry <= 1,
                new_carry == a & 1,
                result == (a >> 1u8) | (carry << 7u8),
        ;
        self.registers.a = result;
        self.registers.f.zero = false;
        self.registers.f.subtract = false;
        self.registers.f.half_carry = false;
        self.registers.f.carry = new_carry != 0;
    }

    fn rla(&mut self)
        ensures
            final(self)@ == unprefixed_alu_spec(old(self)@, Instruction::RLA),
    {
        let carry: u8 = if self.registers.f.carry { 1 } else { 0 };
        let a = self.registers.a;
        let new_carry = (a >> 7u8) & 1;
        let result = (a << 1u8) | carry;
        assert(result == (a * 2) % 256 + carry && (new_carry != 0) == (a >= 128)) by (bit_vector)
            requires
                carry <= 1,
                new_carry == (a >> 7u8) & 1,
                result == (a << 1u8) | carry,
        ;
        self.registers.a = result;
        self.registers.f.zero = false;
        self.registers.f.subtract = false;
        self.registers.f.half_carry = false;
        self.registers.f.carry = new_carry != 0;
    }

    fn rrca(&mut self)
        ensures
            final(self)@ == unprefixed_alu_spec(old(self)@, Instruction::RRCA),
    {
        let a = self.registers.a;
        let bit0 = a & 1;
        let result = (a >> 1u8) | (bit0 << 7u8);
        assert(result == a / 2 + (a % 2) * 128 && (bit0 != 0) == (a % 2 == 1)) by (bit_vector)
            requires
                bit0 == a & 1,
                result == (a >> 1u8) | (bit0 << 7u8),
        ;
        self.registers.a = result;
        self.registers.f.zero = false;
        self.registers.f.subtract = false;
        self.registers.f.half_carry = false;
        self.registers.f.carry = bit0 != 0;
    }

    fn rlca(&mut self)
        ensures
            final(self)@ == unprefixed_alu_spec(old(self)@, Instruction::RLCA),
    {
        let a = self.registers.a;
        let bit7 = (a >> 7u8) & 1;
        let result = (a << 1u8) | bit7;
        assert(result == (a * 2) % 256 + a / 128 && (bit7 != 0) == (a >= 128)) by (bit_vector)
            requires
                bit7 == (a >> 7u8) & 1,
                result == (a << 1u8) | bit7,
        ;
        self.registers.a = result;
        self.registers.f.zero = false;
        self.registers.f.subtract = false;
        self.registers.f.half_carry = false;
        self.registers.f.carry = bit7 != 0;
    }

    /// Stores the result of AND, OR or XOR in A, with its flags.
    fn set_logic_result(&mut self, result: u8, half_carry: bool)
        ensures
            final(self)@ == old(self)@.with_a(result).with_flags(logic_flags(result, half_carry)),
    {
        self.registers.a = result;
        self.registers.f.zero = result == 0;
        self.registers.f.subtract = false;
        self.registers.f.half_carry = half_carry;
        self.registers.f.carry = false;
    }

    fn set_shift_flags(&mut self, result: u8, carry: bool)
        ensures
            final(self)@ == old(self)@.with_flags(shift_flags(result, carry)),
    {
        self.registers.f.zero = result == 0;
        self.registers.f.subtract = false;
        self.registers.f.half_carry = false;
        self.registers.f.carry = carry;
    }

    fn srl(&mut self, value: u8) -> (result: u8)
        ensures
            result == srl_spec(value).0,
            final(self)@ == old(self)@.with_flags(shift_flags(result, srl_spec(value).1)),
    {
        let carry = value & 1;
        let result = value >> 1u8;
        assert(result == value / 2 && (carry != 0) == (value % 2 == 1)) by (bit_vector)
            requires
                carry == value & 1,
                result == value >> 1u8,
        ;
        self.set_shift_flags(result, carry != 0);
        result
    }

    fn rr(&mut self, value: u8) -> (result: u8)
        ensures
            result == rr_spec(value, old(self).registers.f.carry).0,
            final(self)@ == old(self)@.with_flags(
                shift_flags(result, rr_spec(value, old(self).registers.f.carry).1),
            ),
    {
        let carry_in: u8 = if self.registers.f.carry { 1 } else { 0 };
        let carry_out = value & 1;
        let result = (value >> 1u8) | (carry_in << 7u8);
        assert(result == value / 2 + carry_in * 128 && (carry_out != 0) == (value % 2 == 1))
            by (bit_vector)
            requires
                carry_in <= 1,
                carry_out == value & 1,
                result == (value >> 1u8) | (carry_in << 7u8),
        ;
        self.set_shift_flags(result, carry_out != 0);
        result
    }

    fn rl(&mut self, value: u8) -> (result: u8)
        ensures
            result == rl_spec(value, old(self).registers.f.carry).0,
            final(self)@ == old(self)@.with_flags(
                shift_flags(result, rl_spec(value, old(self).registers.f.carry).1),
            ),
    {
        let carry_in: u8 = if self.registers.f.carry { 1 } else { 0 };
        let carry_out = (value >> 7u8) & 1;
        let result = (value << 1u8) | carry_in;
        assert(result == (value * 2) % 256 + carry_in && (carry_out != 0) == (value >= 128))
            by (bit_vector)
            requires
                carry_in <= 1,
                carry_out == (value >> 7u8) & 1,
                result == (value << 1u8) | carry_in,
        ;
        self.set_shift_flags(result, carry_out != 0);
        result
    }

    fn rrc(&mut self, value: u8) -> (result: u8)
        ensures
            result == rrc_spec(value).0,
            final(self)@ == old(self)@.with_flags(shift_flags(result, rrc_spec(value).1)),
    {
        let carry = value & 1;
        let result = (value >> 1u8) | (carry << 7u8);
        assert(result == value / 2 + (value % 2) * 128 && (carry != 0) == (value % 2 == 1))
            by (bit_vector)
            requires
                carry == value & 1,
                result == (value >> 1u8) | (carry << 7u8),
        ;
        self.set_shift_flags(result, carry != 0);
        result
    }

    fn rlc(&mut self, value: u8) -> (result: u8)
        ensures
            result == rlc_spec(value).0,
            final(self)@ == old(self)@.with_flags(shift_flags(result, rlc_spec(value).1)),
    {
        let carry = (value >> 7u8) & 1;
        let result = (value << 1u8) | carry;
        assert(result == (value * 2) % 256 + value / 128 && (carry != 0) == (value >= 128))
            by (bit_vector)
            requires
                carry == (value >> 7u8) & 1,
                result == (value << 1u8) | carry,
        ;
        self.set_shift_flags(result, carry != 0);
        result
    }

    fn sra(&mut self, value: u8) -> (result: u8)
        ensures
            result == sra_spec(value).0,
            final(self)@ == old(self)@.with_flags(shift_flags(result, sra_spec(value).1)),
    {
        let carry = value & 1;
        let result = (value >> 1u8) | (value & 0x80);  // sign-extend
        assert(result == value / 2 + (value / 128) * 128 && (carry != 0) == (value % 2 == 1))
            by (bit_vector)
            requires
                carry == value & 1,
                result == (value >> 1u8) | (value & 0x80),
        ;
        self.set_shift_flags(result, carry != 0);
        result
    }

    fn sla(&mut self, value: u8) -> (result: u8)
        ensures
            result == sla_spec(value).0,
            final(self)@ == old(self)@.with_flags(shift_flags(result, sla_spec(value).1)),
    {
        let carry = (value >> 7u8) & 1;
        let result = value << 1u8;
        assert(result == (value * 2) % 256 && (carry != 0) == (value >= 128)) by (bit_vector)
            requires
                carry == (value >> 7u8) & 1,
                result == value << 1u8,
        ;
        self.set_shift_flags(result, carry != 0);
        result
    }

    fn swap(&mut self, value: u8) -> (result: u8)
        ensures
            result == swap_spec(value),
            final(self)@ == old(self)@.with_flags(shift_flags(result, false)),
    {
        let result = (value >> 4u8) | (value << 4u8);  // swap nibbles
        assert(result == (value % 16) * 16 + value / 16) by (bit_vector)
            requires
                result == (value >> 4u8) | (value << 4u8),
        ;
        self.set_shift_flags(result, false);
        result
    }
}

} // verus!
