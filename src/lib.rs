//! Instruction-execution core and memory interconnect of an emulated 32-bit
//! MIPS-family console CPU: a BIOS read-only memory, the bus that routes
//! physical addresses to it, the instruction decoder, and the CPU's
//! fetch-decode-execute step.
pub mod bios;
pub mod cpu;
pub mod fault;
pub mod instruction;
pub mod interconnect;
