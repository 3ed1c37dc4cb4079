//! Instruction-execution core of a Game-Boy-class 8-bit processor: register
//! file, address space, arithmetic/flag unit and the fetch-decode-execute
//! engine, each with a machine-checked contract.

pub mod alu;
pub mod cpu;
pub mod engine;
pub mod helper;
pub mod memory;
pub mod opcode;
pub mod register;
