//! An interpreter for the Sharp LR35902, the processor of the Game Boy.

pub mod flags;
pub mod registers;
pub mod memory;
pub mod instruction;
pub mod alu;
pub mod cpu;
pub mod laws;
pub mod opcode_laws;

pub use flags::FlagsRegister;
pub use registers::Registers;
pub use memory::MemoryBus;
pub use cpu::CPU;
pub use instruction::{
    ArithmeticTarget, Indirect, Instruction, JumpTest, LoadByteSource, LoadByteTarget, LoadType,
    LoadWordTarget, PrefixTarget, StackTarget,
};
