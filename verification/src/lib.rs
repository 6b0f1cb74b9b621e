//! A verified interpreter for a reduced MIPS-like 32-bit instruction set.
//!
//! The interpreter loads a flat binary image into a fixed-size byte memory
//! and executes it by repeatedly fetching, decoding, and dispatching 32-bit
//! instruction words against a register file. Every fatal condition
//! (undefined instruction, out-of-bounds memory access) is surfaced as a
//! tagged value rather than a process abort, so the engine is embeddable
//! and testable.

pub mod cpu;
pub mod instruction;
pub mod memory;
pub mod register;
