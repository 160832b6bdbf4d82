//! Instruction executor and memory-management unit of an LR35902-class
//! processor, with every operation stated against a mathematical model.

pub mod alu;
pub mod cpu;
pub mod flags;
pub mod instruction;
pub mod laws;
pub mod machine;
pub mod mmu;
pub mod registers;
