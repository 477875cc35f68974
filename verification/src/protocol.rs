//! The trust states of a connection and the paths a connection can take.

use crate::device_id::DeviceId;
use crate::encryption::{PrivateKey, PublicKey};
use vstd::prelude::*;

verus! {

/// Where a connection stands in the pairing handshake.
#[derive(Debug, Clone, PartialEq, Eq)]
pub enum ConnectionStatus {
    /// The connection is established and has neither been paired nor
    /// encrypted.
    Entry,
    /// This device asked to be paired and waits for the peer's key.
    PendingPairRequest {
        /// The test value, if one was agreed on.
        test: Option<Vec<u8>>,
    },
    /// This device approved a pairing, sent its key and waits for the
    /// peer's.
    Pairing {
        /// This device's public key.
        public_key: PublicKey,
        /// This device's private key.
        private_key: PrivateKey,
        /// The peer's public key, once it is known.
        key_b: Option<PublicKey>,
        /// The test value: to be verified if there is one.
        test: Option<Vec<u8>>,
    },
    /// The devices are paired and the keys have not been checked yet.
    PendingEncryption,
    /// A nonce is remembered and the peer's echo of it is awaited.
    CheckingKeys {
        /// The nonce.
        random_bytes: Vec<u8>,
    },
    /// The connection is ready to use.
    Connected,
}

/// The mathematical value of a [`ConnectionStatus`].
pub enum ConnectionStatusView {
    Entry,
    PendingPairRequest { test: Option<Seq<u8>> },
    Pairing {
        public_key: Seq<u8>,
        private_key: Seq<u8>,
        key_b: Option<Seq<u8>>,
        test: Option<Seq<u8>>,
    },
    PendingEncryption,
    CheckingKeys { random_bytes: Seq<u8> },
    Connected,
}

impl View for ConnectionStatus {
    type V = ConnectionStatusView;

    open spec fn view(&self) -> ConnectionStatusView {
        match *self {
            ConnectionStatus::Entry => ConnectionStatusView::Entry,
            ConnectionStatus::PendingPairRequest { test } => {
                ConnectionStatusView::PendingPairRequest { test: test.deep_view() }
            },
            ConnectionStatus::Pairing {
                public_key,
                private_key,
                key_b,
                test,
            } => ConnectionStatusView::Pairing {
                public_key: public_key@,
                private_key: private_key@,
                key_b: key_b.deep_view(),
                test: test.deep_view(),
            },
            ConnectionStatus::PendingEncryption => ConnectionStatusView::PendingEncryption,
            ConnectionStatus::CheckingKeys { random_bytes } => ConnectionStatusView::CheckingKeys {
                random_bytes: random_bytes@,
            },
            ConnectionStatus::Connected => ConnectionStatusView::Connected,
        }
    }
}

/// A path between two devices.
pub trait ConnectionType {

}

/// A connection that runs straight to the peer.
#[derive(Debug, Clone, Copy, PartialEq, Eq, Structural)]
pub struct DirectConnection {
    /// The peer's device id.
    pub device_id: DeviceId,
}

impl ConnectionType for DirectConnection {

}

/// A connection that a realm relays.
#[derive(Debug, Clone, Copy, PartialEq, Eq, Structural)]
pub struct DTDViaRealm {
    /// The peer's device id.
    pub device_id: DeviceId,
}

impl ConnectionType for DTDViaRealm {

}

} // verus!
