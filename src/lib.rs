//! A cycle-accurate emulator of a small RISC-V-derived computer: a CPU driven
//! by a queue of micro-operations, a shared bus with ownership arbitration, and
//! memory-mapped boot ROM and RAM.
pub mod address;
pub mod bits;
pub mod bus;
pub mod compiler;
pub mod computer;
pub mod cpu;
pub mod decompose;
pub mod instruction;
pub mod micro_op;
pub mod paged_memory;
pub mod program;
pub mod ram;
pub mod registers;
pub mod rom;
