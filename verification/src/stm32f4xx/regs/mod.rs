//! One module for each peripheral kind.

pub mod flash;
pub mod gpio;
pub mod pwr;
pub mod rcc;
pub mod spi;
pub mod tim;
