//! Instruction-level model of an 8-bit CPU in the 6502 family: a 64 KiB
//! byte-addressable memory, a register/flag file, and a fetch-decode-execute
//! step for the load, store, transfer and stack instructions.

pub mod cpu;
pub mod laws;
pub mod ram;
