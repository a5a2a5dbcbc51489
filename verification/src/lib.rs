//! Register-level hardware abstraction for STM32F4 (Cortex-M4) parts.
//!
//! Every register access goes through one [`bus::Mmio`] value, which records
//! the accesses it was asked for as ghost state. The contracts of this crate
//! are stated over that record: which words are loaded and stored, at which
//! addresses, with which values and in which order. What a load returns is
//! up to the hardware, and every contract holds whatever it returns.
//!
//! - [`volatile_reg32`]: one register, and its read-modify-write operations.
//! - [`stm32f4xx`] and [`core_cm4`]: the memory map, the register blocks and
//!   the bit definitions of the peripherals and of the core.
//! - [`bitfield`]: values in and out of a field of a register.
//! - [`hal`]: clock gates and GPIO pins.
//! - [`poll`], [`clock`] and [`system`]: the start-up after reset, as state
//!   machines that the caller steps.
//! - [`simulated`]: a register space to run all of this against on a host.

pub mod bitfield;
pub mod bus;
pub mod clock;
pub mod core_cm4;
pub mod hal;
pub mod poll;
pub mod simulated;
pub mod stm32f4xx;
pub mod system;
pub mod volatile_reg32;

pub use crate::clock::set_sys_clock;
pub use crate::system::system_init;
