//! Hardware adaptation layer for a USB OTG full-speed peripheral on an
//! STM32F4 microcontroller: FIFO byte/word marshalling, per-channel FIFO
//! addressing, the peripheral register bundle, the clock-enable bit update,
//! and the pin capability marker.
//!
//! The FIFO word layout is little-endian: the target core and the FIFO data
//! port share that byte order, and this crate states it explicitly rather
//! than leaving it to the machine's native order.
#![allow(unused_imports)]
use vstd::prelude::*;

pub mod clock;
pub mod delay;
pub mod fifo;
pub mod port;
pub mod regs;
pub mod usb_pins;
pub mod words;

verus! {

/// Type-level capability marker: a pin pairing carrying this trait is valid
/// for USB signaling. It is implemented for exactly one pairing, so every
/// other pairing fails at build time, with no runtime check or fallback.
pub trait UsbPins: Send {

}

} // verus!
