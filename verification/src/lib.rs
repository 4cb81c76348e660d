//! Host side of a page-oriented EEPROM programmer protocol.
//!
//! The crate holds the device catalogue, the wire frames, the page arithmetic
//! and the transfer state machine. It performs no input or output itself: a
//! caller carries each [`serial_io::Exchange`] out on its transport and hands
//! the resulting [`serial_io::Event`] back.

#![allow(unused_imports)]

pub mod config;
pub mod device;
pub mod error;
pub mod page;
pub mod serial_io;
pub mod transfer;
pub mod variant;
