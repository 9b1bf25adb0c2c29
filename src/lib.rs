//! A bridge between one serial device and many network clients: the broadcast
//! hub that fans device data out, the serial reader's decisions, and the
//! per-client session that relays in both directions.

pub mod config;
pub mod error;
pub mod hub;
pub mod reader;
pub mod session;
