//! Registers, bits and keys of the flash controller.

pub mod cr;
pub mod misc;
pub mod register;

