//! Early bring-up drivers for the Raspberry Pi: pin multiplexing and pull
//! state on the GPIO controller, and a PL011 UART transmitter for diagnostic
//! text.
//!
//! Every driver operation acts on an injected register file and is specified
//! by the exact sequence of bus accesses it performs, so the same verified
//! code drives real memory-mapped registers and a simulated register image.
pub mod mmio;
pub mod driver;
pub mod simulator;
pub mod boot;
