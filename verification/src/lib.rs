//! IEC 60870-5-101 / 60870-5-104 protocol library: verified codecs and
//! protocol state machines.

pub mod apci;
pub mod asdu;
pub mod client;
pub mod error;
pub mod ft12;
pub mod info;
pub mod server;
pub mod session;
pub mod transport;
pub mod types;
pub mod wire;
