//! Register blocks and memory map of the STM32F4xx peripherals.

pub mod constants;
pub mod regs;
