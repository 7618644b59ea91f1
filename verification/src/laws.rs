//! Laws of the processor that relate several instructions or hold of every
//! instruction.
use vstd::prelude::*;
use crate::cpu::{CpuState, execute_spec, step_spec, wrap16};
use crate::instruction::{Indirect, Instruction, JumpTest, LoadType, StackTarget};
use crate::memory::MEMORY_SIZE;

verus! {

/// A halted processor stays as it is, whatever it executes and however often it
/// steps.
pub proof fn lemma_halted_is_absorbing(s: CpuState, i: Instruction)
    requires
        s.halted,
    ensures
        execute_spec(s, i) == s,
        step_spec(s) == s,
{
}

/// Only HALT halts the processor, and nothing resumes it.
pub proof fn lemma_halted_flag(s: CpuState, i: Instruction)
    ensures
        execute_spec(s, i).halted == (s.halted || i is HALT),
{
}

/// Every instruction keeps the whole address space: memory has as many bytes
/// after it as before.
pub proof fn lemma_memory_size_kept(s: CpuState, i: Instruction)
    requires
        s.mem.len() == MEMORY_SIZE,
    ensures
        execute_spec(s, i).mem.len() == MEMORY_SIZE,
{
    if !s.halted {
        match i {
            Instruction::LD(lt) => match lt {
                LoadType::Byte(t, src) => {},
                LoadType::Word(t) => {},
                LoadType::AFromIndirect(ind) => {},
                LoadType::IndirectFromA(ind) => {},
                _ => {},
            },
            Instruction::PUSH(t) => {},
            Instruction::POP(t) => {},
            Instruction::CALL(t) => {},
            Instruction::RET(t) => {},
            Instruction::JP(t) => {},
            Instruction::NOP => {},
            Instruction::HALT => {},
            _ => {
                assert(execute_spec(s, i) == crate::cpu::alu_spec(s, i));
                if crate::cpu::is_unprefixed_alu_op(i) {
                    assert(execute_spec(s, i).mem == s.mem);
                } else {
                    lemma_prefixed_keeps_size(s, i);
                }
            },
        }
    }
}

proof fn lemma_prefixed_keeps_size(s: CpuState, i: Instruction)
    requires
        s.mem.len() == MEMORY_SIZE,
    ensures
        crate::cpu::prefixed_spec(s, i).mem.len() == MEMORY_SIZE,
{
    match i {
        Instruction::BIT(n, t) => {},
        Instruction::RES(n, t) => {},
        Instruction::SET(n, t) => {},
        Instruction::SRL(t) => {},
        Instruction::RR(t) => {},
        Instruction::RL(t) => {},
        Instruction::RRC(t) => {},
        Instruction::RLC(t) => {},
        Instruction::SRA(t) => {},
        Instruction::SLA(t) => {},
        Instruction::SWAP(t) => {},
        _ => {},
    }
}

/// PUSH of one pair followed by POP into another copies the first pair into the
/// second (AF keeps its flags' nibble only), and leaves SP and PC as they were.
/// Pushing and popping the same pair gives the registers back unchanged.
pub proof fn lemma_push_pop(s: CpuState, from: StackTarget, to: StackTarget)
    requires
        !s.halted,
        s.mem.len() == MEMORY_SIZE,
    ensures
        ({
            let s2 = execute_spec(execute_spec(s, Instruction::PUSH(from)), Instruction::POP(to));
            &&& s2.sp == s.sp
            &&& s2.pc == s.pc
            &&& s2.registers == s.with_stack_pair(to, s.stack_pair(from)).registers
            &&& (from == to ==> s2.registers == s.registers)
        }),
{
    let v = s.stack_pair(from);
    let s1 = execute_spec(s, Instruction::PUSH(from));
    assert(s1 == s.pushed(v));
    let sp1 = wrap16(s.sp - 1);
    let sp2 = wrap16(s.sp - 2);
    assert(sp1 != sp2);
    assert(wrap16(sp2 + 1) == sp1);
    assert(wrap16(sp2 + 2) == s.sp);
    let (p, w) = s1.popped();
    assert(w == v);
    crate::registers::lemma_pair_get_set(s.registers);
}

/// CALL followed by RET comes back to the instruction after the CALL, with SP
/// and the registers as they were.
pub proof fn lemma_call_ret(s: CpuState)
    requires
        !s.halted,
        s.mem.len() == MEMORY_SIZE,
        s.pc < 0xFFFF,
    ensures
        ({
            let s2 = execute_spec(
                execute_spec(s, Instruction::CALL(JumpTest::Always)),
                Instruction::RET(JumpTest::Always),
            );
            &&& s2.pc == wrap16(s.pc + 2)
            &&& s2.sp == s.sp
            &&& s2.registers == s.registers
        }),
{
    let sp1 = wrap16(s.sp - 1);
    let sp2 = wrap16(s.sp - 2);
    assert(sp1 != sp2);
    assert(wrap16(sp2 + 1) == sp1);
    assert(wrap16(sp2 + 2) == s.sp);
}

/// Storing A at the address in BC or DE and loading it back from there leaves
/// the processor as the store left it: the load reads what the store wrote.
pub proof fn lemma_store_then_load(s: CpuState, ind: Indirect)
    requires
        !s.halted,
        s.mem.len() == MEMORY_SIZE,
        ind is BCIndirect || ind is DEIndirect,
    ensures
        ({
            let s1 = execute_spec(s, Instruction::LD(LoadType::IndirectFromA(ind)));
            execute_spec(s1, Instruction::LD(LoadType::AFromIndirect(ind))) == s1
        }),
{
}

/// CPL twice gives A back.
pub proof fn lemma_cpl_twice(s: CpuState)
    requires
        !s.halted,
    ensures
        execute_spec(execute_spec(s, Instruction::CPL), Instruction::CPL).registers.a
            == s.registers.a,
{
}

} // verus!
