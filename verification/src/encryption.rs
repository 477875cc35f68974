//! Keys, key sets and the encryption capabilities that the library
//! consumes. The primitives themselves are supplied from outside.

use crate::buffer::bytes_copy;
use crate::error::EncryptionError;
use vstd::prelude::*;

verus! {

/// A public key, as the bytes it travels in.
#[derive(Debug, Clone, PartialEq, Eq)]
pub struct PublicKey {
    /// The key material.
    pub bytes: Vec<u8>,
}

/// A private key, as the bytes it is stored in.
#[derive(Debug, Clone, PartialEq, Eq)]
pub struct PrivateKey {
    /// The key material.
    pub bytes: Vec<u8>,
}

impl View for PublicKey {
    type V = Seq<u8>;

    open spec fn view(&self) -> Seq<u8> {
        self.bytes@
    }
}

impl DeepView for PublicKey {
    type V = Seq<u8>;

    open spec fn deep_view(&self) -> Seq<u8> {
        self.bytes@
    }
}

impl View for PrivateKey {
    type V = Seq<u8>;

    open spec fn view(&self) -> Seq<u8> {
        self.bytes@
    }
}

impl DeepView for PrivateKey {
    type V = Seq<u8>;

    open spec fn deep_view(&self) -> Seq<u8> {
        self.bytes@
    }
}

impl PublicKey {
    /// A copy of the key.
    pub fn duplicate(&self) -> (r: PublicKey)
        ensures
            r@ == self@,
    {
        PublicKey { bytes: bytes_copy(&self.bytes) }
    }
}

impl PrivateKey {
    /// A copy of the key.
    pub fn duplicate(&self) -> (r: PrivateKey)
        ensures
            r@ == self@,
    {
        PrivateKey { bytes: bytes_copy(&self.bytes) }
    }
}

/// Something that can be turned into the bytes it travels in.
pub trait ToBytes: Sized + View<V = Seq<u8>> {
    /// The bytes of the value.
    fn to_bytes(self) -> (r: Vec<u8>)
        ensures
            r@ == self@,
    ;
}

impl ToBytes for PublicKey {
    fn to_bytes(self) -> (r: Vec<u8>) {
        self.bytes
    }
}

/// The keys that one pairing produced: this device's pair and the peer's
/// public key.
#[derive(Debug, Clone, PartialEq, Eq)]
pub struct EncryptionSet {
    /// This device's public key.
    pub public_key: PublicKey,
    /// This device's private key.
    pub private_key: PrivateKey,
    /// The peer's public key.
    pub key_b: PublicKey,
}

/// The mathematical value of an [`EncryptionSet`].
pub struct EncryptionSetView {
    pub public_key: Seq<u8>,
    pub private_key: Seq<u8>,
    pub key_b: Seq<u8>,
}

impl View for EncryptionSet {
    type V = EncryptionSetView;

    open spec fn view(&self) -> EncryptionSetView {
        EncryptionSetView {
            public_key: self.public_key@,
            private_key: self.private_key@,
            key_b: self.key_b@,
        }
    }
}

/// The key that an import gave, as bytes.
pub open spec fn key_view(r: Option<PublicKey>) -> Option<Seq<u8>> {
    match r {
        Some(key) => Some(key@),
        None => None,
    }
}

/// The secure-messaging primitives: key generation, and encryption and
/// decryption under this device's private key joined with a peer's public
/// key.
///
/// Nothing is assumed of what an implementation returns. Each method has a
/// relation beside it in which an implementation says what it answers; of
/// an answer, callers learn that it is one of these and no more. An
/// implementation that leaves a relation as it is here admits every
/// answer.
pub trait SecureMessaging {
    /// Whether the pair is one that key generation gives.
    open spec fn generates(&self, private_key: Seq<u8>, public_key: Seq<u8>) -> bool {
        true
    }

    /// A fresh key pair.
    fn generate_keypair(&self) -> (r: (PrivateKey, PublicKey))
        ensures
            self.generates(r.0@, r.1@),
    ;

    /// Whether `outcome` is an answer to importing `bytes` as a public key.
    open spec fn imports(&self, bytes: Seq<u8>, outcome: Option<Seq<u8>>) -> bool {
        true
    }

    /// The key that `bytes` hold, if they hold one.
    fn import_public_key(&self, bytes: &[u8]) -> (r: Option<PublicKey>)
        ensures
            self.imports(bytes@, key_view(r)),
    ;

    /// Whether `outcome` is an answer to encrypting `plaintext` under the
    /// joined key. There may be many.
    open spec fn encrypts(
        &self,
        private_key: Seq<u8>,
        peer_public_key: Seq<u8>,
        plaintext: Seq<u8>,
        outcome: Result<Seq<u8>, EncryptionError>,
    ) -> bool {
        true
    }

    /// Encrypts `plaintext` under the joined key.
    fn secure_encrypt(
        &self,
        private_key: &PrivateKey,
        peer_public_key: &PublicKey,
        plaintext: &[u8],
    ) -> (r: Result<Vec<u8>, EncryptionError>)
        ensures
            self.encrypts(private_key@, peer_public_key@, plaintext@, outcome_view(r)),
    ;

    /// Whether `outcome` is an answer to decrypting `ciphertext` under the
    /// joined key.
    open spec fn decrypts(
        &self,
        private_key: Seq<u8>,
        peer_public_key: Seq<u8>,
        ciphertext: Seq<u8>,
        outcome: Result<Seq<u8>, EncryptionError>,
    ) -> bool {
        true
    }

    /// Decrypts `ciphertext` under the joined key.
    fn secure_decrypt(
        &self,
        private_key: &PrivateKey,
        peer_public_key: &PublicKey,
        ciphertext: &[u8],
    ) -> (r: Result<Vec<u8>, EncryptionError>)
        ensures
            self.decrypts(private_key@, peer_public_key@, ciphertext@, outcome_view(r)),
    ;
}

/// The outcome of an operation on bytes, with the bytes as a sequence.
pub open spec fn outcome_view<E>(r: Result<Vec<u8>, E>) -> Result<Seq<u8>, E> {
    match r {
        Ok(bytes) => Ok(bytes@),
        Err(e) => Err(e),
    }
}

/// Encryption for one peer.
pub trait EncryptionManager {
    /// Why an operation was refused.
    type Error;

    /// Whether `outcome` is an answer that this manager gives when it is
    /// asked to decrypt `message`. An implementation says here what it
    /// answers; callers learn of an answer that it is one of these. Left
    /// as it is here, every answer is admitted.
    open spec fn decrypts(&self, message: Seq<u8>, outcome: Result<Seq<u8>, Self::Error>) -> bool {
        true
    }

    /// Decrypts a message from the peer.
    fn decrypt_message(&self, message: Vec<u8>) -> (r: Result<Vec<u8>, Self::Error>)
        ensures
            self.decrypts(message@, outcome_view(r)),
    ;

    /// Whether `outcome` is an answer that this manager gives when it is
    /// asked to encrypt `message`. There may be many: encryption need not
    /// give the same ciphertext twice.
    open spec fn encrypts(&self, message: Seq<u8>, outcome: Result<Seq<u8>, Self::Error>) -> bool {
        true
    }

    /// Encrypts a message for the peer.
    fn encrypt_message(&self, message: Vec<u8>) -> (r: Result<Vec<u8>, Self::Error>)
        ensures
            self.encrypts(message@, outcome_view(r)),
    ;
}

/// The keys of an established pairing, as bytes.
#[derive(Debug, Clone, PartialEq, Eq)]
pub struct ThemisEncryptionManager {
    /// This device's private key.
    pub self_private_key: Vec<u8>,
    /// This device's public key.
    pub self_public_key: Vec<u8>,
    /// The peer's public key.
    pub other_public_key: Vec<u8>,
}

/// The encryption of a connection: none before the handshake is through,
/// the keys of the pairing after it.
#[derive(Debug, Clone, PartialEq, Eq)]
pub enum DynamicEncryptionManager {
    /// Encryption under the keys of a pairing.
    Themis(ThemisEncryptionManager),
    /// No encryption yet: both operations are refused.
    Unencrypted,
}

/// The mathematical value of a [`DynamicEncryptionManager`].
pub enum EncryptionView {
    Themis { self_private_key: Seq<u8>, self_public_key: Seq<u8>, other_public_key: Seq<u8> },
    Unencrypted,
}

impl View for DynamicEncryptionManager {
    type V = EncryptionView;

    open spec fn view(&self) -> EncryptionView {
        match *self {
            DynamicEncryptionManager::Themis(m) => EncryptionView::Themis {
                self_private_key: m.self_private_key@,
                self_public_key: m.self_public_key@,
                other_public_key: m.other_public_key@,
            },
            DynamicEncryptionManager::Unencrypted => EncryptionView::Unencrypted,
        }
    }
}

impl DynamicEncryptionManager {
    /// The encryption under the keys of `set`.
    pub fn from_set(set: &EncryptionSet) -> (r: DynamicEncryptionManager)
        ensures
            r@ == (EncryptionView::Themis {
                self_private_key: set.private_key@,
                self_public_key: set.public_key@,
                other_public_key: set.key_b@,
            }),
    {
        DynamicEncryptionManager::Themis(
            ThemisEncryptionManager {
                self_private_key: bytes_copy(&set.private_key.bytes),
                self_public_key: bytes_copy(&set.public_key.bytes),
                other_public_key: bytes_copy(&set.key_b.bytes),
            },
        )
    }

    /// A copy of the encryption.
    pub fn duplicate(&self) -> (r: DynamicEncryptionManager)
        ensures
            r@ == self@,
    {
        match self {
            DynamicEncryptionManager::Themis(m) => DynamicEncryptionManager::Themis(
                ThemisEncryptionManager {
                    self_private_key: bytes_copy(&m.self_private_key),
                    self_public_key: bytes_copy(&m.self_public_key),
                    other_public_key: bytes_copy(&m.other_public_key),
                },
            ),
            DynamicEncryptionManager::Unencrypted => DynamicEncryptionManager::Unencrypted,
        }
    }

    /// Decrypts a message from the peer with the given primitives. Without
    /// keys the message is refused and the primitives are not asked; with
    /// keys the primitives are asked under this device's private key and
    /// the peer's public key, and their answer is the result.
    pub fn decrypt_message<S: SecureMessaging>(&self, crypto: &S, message: &[u8]) -> (r: Result<
        Vec<u8>,
        EncryptionError,
    >)
        ensures
            manager_decrypts(self@, *crypto, message@, outcome_view(r)),
    {
        match self {
            DynamicEncryptionManager::Themis(m) => {
                let private_key = PrivateKey { bytes: bytes_copy(&m.self_private_key) };
                let peer = PublicKey { bytes: bytes_copy(&m.other_public_key) };
                crypto.secure_decrypt(&private_key, &peer, message)
            },
            DynamicEncryptionManager::Unencrypted => Err(EncryptionError::ThemisError),
        }
    }

    /// Encrypts a message for the peer with the given primitives. Without
    /// keys the message is refused and the primitives are not asked; with
    /// keys the primitives are asked under this device's private key and
    /// the peer's public key, and their answer is the result.
    pub fn encrypt_message<S: SecureMessaging>(&self, crypto: &S, message: &[u8]) -> (r: Result<
        Vec<u8>,
        EncryptionError,
    >)
        ensures
            manager_encrypts(self@, *crypto, message@, outcome_view(r)),
    {
        match self {
            DynamicEncryptionManager::Themis(m) => {
                let private_key = PrivateKey { bytes: bytes_copy(&m.self_private_key) };
                let peer = PublicKey { bytes: bytes_copy(&m.other_public_key) };
                crypto.secure_encrypt(&private_key, &peer, message)
            },
            DynamicEncryptionManager::Unencrypted => Err(EncryptionError::ThemisError),
        }
    }
}

/// Whether `outcome` is an answer of the encryption `manager` to
/// decrypting `message`: a refusal without keys, else an answer of the
/// primitives under the private key and the peer's public key of the
/// pairing.
pub open spec fn manager_decrypts<S: SecureMessaging>(
    manager: EncryptionView,
    crypto: S,
    message: Seq<u8>,
    outcome: Result<Seq<u8>, EncryptionError>,
) -> bool {
    match manager {
        EncryptionView::Unencrypted => outcome == Err::<Seq<u8>, EncryptionError>(
            EncryptionError::ThemisError,
        ),
        EncryptionView::Themis {
            self_private_key,
            self_public_key,
            other_public_key,
        } => crypto.decrypts(self_private_key, other_public_key, message, outcome),
    }
}

/// Whether `outcome` is an answer of the encryption `manager` to
/// encrypting `message`: a refusal without keys, else an answer of the
/// primitives under the private key and the peer's public key of the
/// pairing.
pub open spec fn manager_encrypts<S: SecureMessaging>(
    manager: EncryptionView,
    crypto: S,
    message: Seq<u8>,
    outcome: Result<Seq<u8>, EncryptionError>,
) -> bool {
    match manager {
        EncryptionView::Unencrypted => outcome == Err::<Seq<u8>, EncryptionError>(
            EncryptionError::ThemisError,
        ),
        EncryptionView::Themis {
            self_private_key,
            self_public_key,
            other_public_key,
        } => crypto.encrypts(self_private_key, other_public_key, message, outcome),
    }
}

/// The encryption of one connection together with the primitives that
/// carry it out.
pub struct PeerSession<'a, S: SecureMessaging> {
    /// The encryption of the connection.
    pub manager: &'a DynamicEncryptionManager,
    /// The primitives.
    pub crypto: &'a S,
}

impl<'a, S: SecureMessaging> EncryptionManager for PeerSession<'a, S> {
    type Error = EncryptionError;

    /// The answers of the connection's encryption with these primitives.
    open spec fn decrypts(
        &self,
        message: Seq<u8>,
        outcome: Result<Seq<u8>, EncryptionError>,
    ) -> bool {
        manager_decrypts(self.manager@, *self.crypto, message, outcome)
    }

    /// The answers of the connection's encryption with these primitives.
    open spec fn encrypts(
        &self,
        message: Seq<u8>,
        outcome: Result<Seq<u8>, EncryptionError>,
    ) -> bool {
        manager_encrypts(self.manager@, *self.crypto, message, outcome)
    }

    fn decrypt_message(&self, message: Vec<u8>) -> (r: Result<Vec<u8>, EncryptionError>) {
        self.manager.decrypt_message(self.crypto, message.as_slice())
    }

    fn encrypt_message(&self, message: Vec<u8>) -> (r: Result<Vec<u8>, EncryptionError>) {
        self.manager.encrypt_message(self.crypto, message.as_slice())
    }
}

} // verus!
