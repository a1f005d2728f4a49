//! Saved CPU state of tasks and traps, and the register transfer of a
//! cooperative task switch, for two 64-bit instruction sets.
//!
//! The live registers of a core are a value of each backend's `Cpu` type, so
//! that what a switch reads and writes is stated and proved.
pub mod addr;
pub mod aarch64;
pub mod features;
pub mod loongarch64;
pub mod text;
