//! Device pairing and secure messaging over direct device-to-device links:
//! a tagged binary codec, a length-prefixed envelope, a closed registry of
//! protocol and packet kinds, and the pairing handshake.

pub mod buffer;
pub mod content;
pub mod device_id;
pub mod device_manager;
pub mod encryption;
pub mod envelope;
pub mod error;
pub mod packet;
pub mod packets;
pub mod protocol;
pub mod reader;
pub mod transport;
pub mod wire;

pub use error::Error;
