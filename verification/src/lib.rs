//! A minimal framed-message protocol: a tagged packet type with a
//! deterministic binary encoding, and the rules by which a connection and a
//! listening server use it.
//!
//! The library computes and decides; it opens no socket and starts no thread.
//! Its caller does, and hands it what arrived.

pub mod connection;
pub mod endian;
pub mod log;
pub mod packet;
pub mod server;
pub mod text;

pub use connection::ConnectionError;
pub use connection::ReadingError;
pub use log::LogLevel;
pub use log::LogStage;
pub use packet::Packet;
pub use packet::PacketDecodeError;
