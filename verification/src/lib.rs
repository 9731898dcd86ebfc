//! A verified interpreter core for the RV32I base integer instruction set.
//!
//! The crate has three parts: [`mmu`] holds a flat, permission-checked byte
//! memory; [`formats`] holds the six instruction-format decoders and the
//! shared sign-extension primitive; [`emulator`] owns the architectural
//! state (register file, program counter, memory) and executes one decoded
//! instruction at a time.

pub mod emulator;
pub mod formats;
pub mod mmu;
