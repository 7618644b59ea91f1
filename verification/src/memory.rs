//! The sixteen-bit address space, one byte at each of its 65536 addresses.
use vstd::prelude::*;

verus! {

/// The number of addresses on the bus.
pub const MEMORY_SIZE: usize = 0x10000;

/// The memory that the processor reads and writes.
#[derive(Debug)]
pub struct MemoryBus {
    memory: [u8; 0x10000],
}

impl View for MemoryBus {
    type V = Seq<u8>;

    /// The byte at each address, indexed by address.
    closed spec fn view(&self) -> Seq<u8> {
        self.memory@
    }
}

/// The little-endian word made of the bytes at `addr` and `addr + 1`.
pub open spec fn word_at(mem: Seq<u8>, addr: int) -> u16 {
    (mem[addr] + mem[addr + 1] * 256) as u16
}

impl MemoryBus {
    /// The view covers the whole address space.
    pub broadcast proof fn lemma_len(m: &MemoryBus)
        ensures
            #[trigger] m@.len() == MEMORY_SIZE,
    {
        broadcast use vstd::array::group_array_axioms;
    }

    /// Memory with every byte zero.
    pub fn new() -> (m: Self)
        ensures
            m@ == Seq::new(MEMORY_SIZE as nat, |i: int| 0u8),
    {
        let memory = [0u8; 0x10000];
        let m = Self { memory };
        assert(m@ =~= Seq::new(MEMORY_SIZE as nat, |i: int| 0u8));
        m
    }

    /// The byte at `addr`.
    pub fn read_byte(&self, addr: u16) -> (v: u8)
        ensures
            v == self@[addr as int],
    {
        self.memory[addr as usize]
    }

    /// The little-endian word at `addr`: the low byte at `addr`, the high byte at
    /// `addr + 1`. The address after `addr` must exist in sixteen bits.
    pub fn read_word(&self, addr: u16) -> (v: u16)
        requires
            addr < 0xFFFF,
        ensures
            v == word_at(self@, addr as int),
            v == self@[addr as int] + self@[addr + 1] * 256,
    {
        let lo = self.read_byte(addr);
        let hi = self.read_byte(addr + 1);
        crate::registers::join(hi, lo)
    }

    /// Stores `value` at `addr`; every other address keeps its byte.
    pub fn write_byte(&mut self, addr: u16, value: u8)
        ensures
            final(self)@ == old(self)@.update(addr as int, value),
    {
        self.memory[addr as usize] = value;
    }
}

/// A byte written is the byte read back at that address, and no other
/// address changes.
pub proof fn lemma_write_read(mem: Seq<u8>, addr: u16, value: u8, other: u16)
    requires
        mem.len() == MEMORY_SIZE,
    ensures
        mem.update(addr as int, value)[addr as int] == value,
        other != addr ==> mem.update(addr as int, value)[other as int] == mem[other as int],
        mem.update(addr as int, value).len() == MEMORY_SIZE,
{
}

} // verus!
