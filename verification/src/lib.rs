//! A minimal stack-machine simulator: a register file (program counter,
//! stack pointer, accumulator) that executes one-byte opcodes out of a
//! caller-owned memory buffer. Low addresses hold the program image; the
//! stack grows downward from the top of the same buffer.

pub mod cpu;
pub mod laws;
