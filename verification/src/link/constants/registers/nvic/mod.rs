//! Interrupt controller and system control block.

pub mod aircr;
pub mod dfsr;
pub mod register;
pub mod shcsr;

