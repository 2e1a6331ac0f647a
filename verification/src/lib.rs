//! Framing, checksum and relay rules of a tunnel that carries a TCP byte
//! stream inside ICMP echo messages.

pub mod checksum;
pub mod client;
pub mod endian;
pub mod error;
pub mod packet;
pub mod peer;
pub mod queue;
pub mod relay;
pub mod server;
pub mod tunnel;
