//! The errors of the codec, of the encryption capability and of the
//! transport, as plain values.

use vstd::prelude::*;

verus! {

/// Why a value could not be decoded.
#[derive(Debug, Clone, Copy, PartialEq, Eq, Structural)]
pub enum PacketReadError {
    /// Fewer bytes remain than the leading tag promises.
    Truncated,
    /// The leading byte is no tag of the expected kind.
    BadTag,
    /// The bytes of a string are not UTF-8.
    InvalidUtf8,
}

/// Why a value could not be encoded.
#[derive(Debug, Clone, Copy, PartialEq, Eq, Structural)]
pub enum PacketWriteError {
    /// A string or blob is longer than a length header can state.
    TooLong,
    /// A field holds a value that the format keeps for another meaning.
    ReservedValue,
}

/// Why the encryption capability refused.
#[derive(Debug, Clone, Copy, PartialEq, Eq, Structural)]
pub enum EncryptionError {
    /// The secure-messaging primitive reported a failure.
    ThemisError,
}

/// What a transport reports when a channel fails.
#[derive(Debug, Clone, Copy, PartialEq, Eq, Structural)]
pub enum ChannelError {
    /// The channel closed before a whole envelope had arrived.
    UnexpectedEof,
    /// Any other failure of the channel.
    Other,
}

/// Every failure of sending or receiving a packet.
#[derive(Debug, Clone, Copy, PartialEq, Eq, Structural)]
pub enum Error {
    /// The channel failed.
    IO(ChannelError),
    /// A packet could not be encoded.
    PacketBuild(PacketWriteError),
    /// A packet could not be decoded.
    PacketRead(PacketReadError),
    /// The encryption capability refused.
    Encryption(EncryptionError),
}

impl From<ChannelError> for Error {
    fn from(value: ChannelError) -> (r: Error) {
        Error::IO(value)
    }
}

impl vstd::std_specs::convert::FromSpecImpl<ChannelError> for Error {
    open spec fn obeys_from_spec() -> bool {
        true
    }

    open spec fn from_spec(value: ChannelError) -> Error {
        Error::IO(value)
    }
}

impl From<PacketWriteError> for Error {
    fn from(value: PacketWriteError) -> (r: Error) {
        Error::PacketBuild(value)
    }
}

impl vstd::std_specs::convert::FromSpecImpl<PacketWriteError> for Error {
    open spec fn obeys_from_spec() -> bool {
        true
    }

    open spec fn from_spec(value: PacketWriteError) -> Error {
        Error::PacketBuild(value)
    }
}

impl From<PacketReadError> for Error {
    fn from(value: PacketReadError) -> (r: Error) {
        Error::PacketRead(value)
    }
}

impl vstd::std_specs::convert::FromSpecImpl<PacketReadError> for Error {
    open spec fn obeys_from_spec() -> bool {
        true
    }

    open spec fn from_spec(value: PacketReadError) -> Error {
        Error::PacketRead(value)
    }
}

impl From<EncryptionError> for Error {
    fn from(value: EncryptionError) -> (r: Error) {
        Error::Encryption(value)
    }
}

impl vstd::std_specs::convert::FromSpecImpl<EncryptionError> for Error {
    open spec fn obeys_from_spec() -> bool {
        true
    }

    open spec fn from_spec(value: EncryptionError) -> Error {
        Error::Encryption(value)
    }
}

} // verus!
