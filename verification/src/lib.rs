//! Protocol engine for a UHF RFID reader attached over USB HID.
//!
//! The crate encodes the reader's vendor-specific command frames, splits them
//! into fixed 64-byte transport chunks, reassembles chunked responses, decodes
//! the per-operation response markers, runs the multi-poll inventory scan and
//! computes the 16-bit memory-lock patterns.  All I/O goes through the narrow
//! [`types::UsbIo`] capability so that a concrete HID backend can be plugged
//! in from outside.

pub mod api;
pub mod errors;
pub mod frames;
pub mod hexstr;
pub mod input;
pub mod interface;
pub mod lock_pattern;
pub mod menu;
pub mod transport;
pub mod types;
