//! Register blocks and memory map of the Cortex-M4 core peripherals.

pub mod constants;
pub mod core_cm4_regs;
