# lib

An interpreter for the Sharp LR35902, the processor of the Game Boy, verified
with Verus.

- `src/flags.rs`: the flag register F and its byte encoding.
- `src/registers.rs`: the eight-bit registers and the pairs AF, BC, DE, HL.
- `src/memory.rs`: the 64 KiB address space.
- `src/instruction.rs`: the instruction set and the decoding of opcode bytes.
- `src/alu.rs`: what the arithmetic, logic, rotate and bit operations compute.
- `src/cpu.rs`: the processor state, what each instruction does to it, and the
  fetch-decode-execute step.
- `src/laws.rs`: properties that relate several instructions.
- `app/main.rs`: a small program that adds two registers and prints A.
