//! The ports of the chip.

pub mod gpio00;
pub mod gpio01;
