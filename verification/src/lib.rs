//! A transparent MAVLink router library: incremental v1/v2 frame parsing,
//! policy-based fan-out routing with backpressure accounting, a system-id
//! directory, and the state kept by the serial-port endpoints and their
//! auto-discovery scanner.

pub mod buf;
pub mod channel;
pub mod config;
pub mod connection;
pub mod crc;
pub mod discovery;
pub mod metrics;
pub mod mavlink;
pub mod router;
pub mod stream;
