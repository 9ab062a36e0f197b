//! Peripheral drivers.
pub mod gpio;
pub mod pl011;
