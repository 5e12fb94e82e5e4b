//! Emulator core for an 8-bit accumulator-based CPU (6502-class).
//!
//! The crate interprets a byte stream as machine instructions and reproduces
//! the processor's observable state transitions (registers, flags, memory,
//! stack, program counter). `cpu` holds the executable machine, `opcode` the
//! instruction table, `model` the mathematical semantics that every contract
//! speaks of, and `laws` the proved properties that relate several
//! instructions.

pub mod cpu;
pub mod laws;
pub mod model;
pub mod opcode;
