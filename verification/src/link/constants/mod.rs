//! Constants of the probe protocol and of the Cortex-M debug architecture.

pub mod address;
pub mod commands;
pub mod flags;
pub mod flash;
pub mod misc;
pub mod modes;
pub mod registers;

