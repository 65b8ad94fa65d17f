//! A peripheral serial-bus driver layer: a shared SPI bus with independently
//! configured devices attached to it, executing write, read and full-duplex
//! transactions with strict acquire/release discipline.
//!
//! The vendor bus driver is out of scope and is modeled by [`controller::SpiController`],
//! an explicit value describing the observable driver state: whether the
//! controller is initialized, which device holds the bus, how often the bus
//! was acquired and released, and the bytes the peripheral shifts in. Every
//! operation of the layer states exactly how it changes that state.

pub mod controller;
pub mod gpio;
pub mod laws;
pub mod spi;
pub mod status;
