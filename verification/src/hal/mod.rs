//! Conveniences built on the register blocks.

pub mod gpio;
pub mod peripheral_clock;
