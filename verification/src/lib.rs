//! Drivers for a small board with two displays: a 5x5 LED matrix scanned by a
//! periodic timer, and a JDI LPM013M126A memory-in-pixel SPI panel refreshed
//! line by line.
//!
//! The drivers here are pure state machines: they own the image buffers and
//! decide, for every timer tick or bus-completion event, which outputs to
//! drive and which bytes to put on the bus.  The surrounding firmware owns the
//! pins and the SPI peripheral, applies the decisions, and feeds the
//! completion events back in.

pub mod error;
pub mod led_matrix;
pub mod lpm013m126a;

pub use error::Error;
pub use led_matrix::{Image, LedMatrix};
