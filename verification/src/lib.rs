//! Emulator core for a small 16-bit word-addressed teaching architecture:
//! a register file with a bit-packed condition-code register, a flat word
//! memory with a big-endian byte loader, a three-format instruction decoder,
//! an execution engine with signed ("integer") and unsigned ("natural")
//! arithmetic semantics, and a trap/interrupt controller.

pub mod condition_code;
pub mod engine;
pub mod instruction;
pub mod interrupt;
pub mod processor;
pub mod util;
