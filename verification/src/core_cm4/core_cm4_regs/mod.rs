//! One module for each core peripheral.

pub mod fpu;
pub mod mpu;
pub mod nvic;
pub mod scb;
pub mod scnscb;
pub mod sys_tick;
