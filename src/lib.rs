//! Instruction-level core of an 8-bit handheld console CPU: register file,
//! memory bus, opcode decoder and fetch/decode/execute engine.
pub mod regs;
pub mod instr;
pub mod cartridge;
pub mod memory;
pub mod alu;
pub mod semantics;
pub mod cpu;
pub mod ops;
pub mod emu;
