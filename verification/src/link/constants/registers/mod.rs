//! Architectural registers of the Cortex-M debug and trace units.

pub mod dcb;
pub mod dwt;
pub mod fp;
pub mod fpcr;
pub mod fpu;
pub mod itm;
pub mod nvic;
pub mod tpiu;

