//! The pairing handshake of a receiving device: what to answer to a packet
//! and how the connection's state moves, for a direct connection.

use crate::buffer::{bytes_copy, bytes_equal};
use crate::device_id::DeviceId;
use crate::device_manager::{approval_view, found_view, DeviceManager, PairedDevice};
use crate::encryption::{
    manager_decrypts, manager_encrypts, outcome_view, DynamicEncryptionManager, EncryptionSet,
    EncryptionSetView, EncryptionView, PrivateKey, PublicKey, SecureMessaging,
};
use crate::error::EncryptionError;
use crate::packet::Packet;
use crate::packets::dtd::{
    DeviceToDevicePackets, DeviceToDeviceView, DTD_KEY_CHECK, DTD_KEY_CHECK_RESPONSE,
    DTD_PAIR_REQUEST, DTD_SEND_KEY,
};
use crate::packets::realm::RealmPacket;
use crate::packets::{
    ErrorPacket, ErrorPacketView, Protocol, ProtocolView, ERROR_INVALID_STATE,
    PROTOCOL_DEVICE_TO_DEVICE, PROTOCOL_DEVICE_TO_REALM,
};
use crate::protocol::{ConnectionStatus, ConnectionStatusView, DTDViaRealm, DirectConnection};
use rand::Rng;
use vstd::prelude::*;

verus! {

/// The error code of a pair request that was not approved.
pub const ERROR_PAIRING_REJECTED: u8 = 1;

/// The error code of a public key that is none.
pub const ERROR_INVALID_KEY: u8 = 2;

/// The error code of a packet or connection that this handler does not
/// serve.
pub const ERROR_UNSUPPORTED: u8 = 3;

/// The number of random bytes in the nonce of a key check.
pub const NONCE_LEN: usize = 256;

/// The path of a connection.
#[derive(Debug, Clone, Copy, PartialEq, Eq, Structural)]
pub enum ConnectionType {
    /// Relayed by a realm.
    DTDViaRealm(DTDViaRealm),
    /// Straight to the peer.
    DirectConnection(DirectConnection),
}

/// The state of one connection. One handler loop owns it.
#[derive(Debug, Clone, PartialEq, Eq)]
pub struct ConnectionContext {
    /// The encryption of the connection.
    pub encryption: DynamicEncryptionManager,
    /// Where the connection stands in the handshake.
    pub status: ConnectionStatus,
    /// The path of the connection.
    pub connection_type: ConnectionType,
}

/// The mathematical value of a [`ConnectionContext`].
pub struct ConnectionContextView {
    pub encryption: EncryptionView,
    pub status: ConnectionStatusView,
    pub connection_type: ConnectionType,
}

impl View for ConnectionContext {
    type V = ConnectionContextView;

    open spec fn view(&self) -> ConnectionContextView {
        ConnectionContextView {
            encryption: self.encryption@,
            status: self.status@,
            connection_type: self.connection_type,
        }
    }
}

/// What a handler hands back.
#[derive(Debug, Clone, PartialEq, Eq)]
pub enum Response {
    /// The connection has a new context; the message goes to the peer.
    NewContext {
        /// The message for the peer.
        message: Protocol,
        /// The context that replaces the connection's context.
        new_context: ConnectionContext,
    },
    /// The message goes to the peer.
    Message(Protocol),
    /// Nothing goes to the peer.
    Nothing,
}

/// The mathematical value of a [`Response`].
pub enum ResponseView {
    NewContext { message: ProtocolView, new_context: ConnectionContextView },
    Message(ProtocolView),
    Nothing,
}

impl View for Response {
    type V = ResponseView;

    open spec fn view(&self) -> ResponseView {
        match *self {
            Response::NewContext { message, new_context } => ResponseView::NewContext {
                message: message@,
                new_context: new_context@,
            },
            Response::Message(message) => ResponseView::Message(message@),
            Response::Nothing => ResponseView::Nothing,
        }
    }
}

/// Why a handshake step failed. Every one of these ends the handshake.
#[derive(Debug, Clone, PartialEq, Eq)]
pub enum HandshakeError<E> {
    /// The device manager refused.
    DeviceManager(E),
    /// The encryption capability refused.
    Encryption(EncryptionError),
    /// A test value or a key check did not match: the keys may be
    /// compromised and the connection has to be torn down.
    KeyIntegrityFailure,
}

/// The message that carries an error packet between two devices.
pub open spec fn error_message(e: ErrorPacketView) -> ProtocolView {
    ProtocolView::DeviceToDevice(DeviceToDeviceView::Error(e))
}

/// The answer to a packet that the state of the connection does not
/// expect: an error packet that names the packet.
pub open spec fn invalid_state_reply(packet_id: u8) -> ResponseView {
    ResponseView::Message(
        error_message(
            ErrorPacketView::ErrorWithReference {
                reference_protocol: PROTOCOL_DEVICE_TO_DEVICE,
                reference_packet: packet_id,
                error_code: ERROR_INVALID_STATE,
                error_message: Some("Invalid State"@),
            },
        ),
    )
}

/// The answer that names a packet and says why it was not served.
pub open spec fn refusal_reply(protocol_id: u8, packet_id: u8, code: u8, text: Seq<char>)
    -> ResponseView {
    ResponseView::Message(
        error_message(
            ErrorPacketView::ErrorWithReference {
                reference_protocol: protocol_id,
                reference_packet: packet_id,
                error_code: code,
                error_message: Some(text),
            },
        ),
    )
}

/// The context of a direct connection to `peer` in the given state,
/// without encryption.
pub open spec fn plain_context(peer: DeviceId, status: ConnectionStatusView)
    -> ConnectionContextView {
    ConnectionContextView {
        encryption: EncryptionView::Unencrypted,
        status,
        connection_type: ConnectionType::DirectConnection(DirectConnection { device_id: peer }),
    }
}

/// The message that opens the exchange.
pub open spec fn hello_message(self_id: DeviceId, paired: bool) -> ProtocolView {
    ProtocolView::DeviceToDevice(DeviceToDeviceView::Hello { device_id: self_id, paired })
}

/// The answer to a hello. A connection that has a context is told who this
/// device is; one that has none also gets its context: it waits for the key
/// check if the peer is paired already, else for a pair request.
pub open spec fn hello_outcome(self_id: DeviceId, peer: DeviceId, paired: bool, has_context: bool)
    -> ResponseView {
    if has_context {
        ResponseView::Message(hello_message(self_id, paired))
    } else {
        ResponseView::NewContext {
            message: hello_message(self_id, paired),
            new_context: plain_context(
                peer,
                if paired {
                    ConnectionStatusView::PendingEncryption
                } else {
                    ConnectionStatusView::Entry
                },
            ),
        }
    }
}

/// Builds the answer that reports an invalid state for the packet.
pub fn invalid_state_response(packet_id: u8) -> (r: Response)
    ensures
        r@ == invalid_state_reply(packet_id),
{
    Response::Message(
        Protocol::DeviceToDevice(
            DeviceToDevicePackets::Error(
                ErrorPacket::invalid_state(PROTOCOL_DEVICE_TO_DEVICE, packet_id),
            ),
        ),
    )
}

/// Builds the answer that names a packet and says why it was not served.
pub fn refusal_response(protocol_id: u8, packet_id: u8, code: u8, text: &str) -> (r: Response)
    ensures
        r@ == refusal_reply(protocol_id, packet_id, code, text@),
{
    Response::Message(
        Protocol::DeviceToDevice(
            DeviceToDevicePackets::Error(
                ErrorPacket::with_reference(protocol_id, packet_id, code, text),
            ),
        ),
    )
}

/// Builds the answer to a hello from `peer`, given this device's id and
/// whether the peer is paired.
pub fn hello_reply(self_id: DeviceId, peer: DeviceId, paired: bool, has_context: bool) -> (r:
    Response)
    ensures
        r@ == hello_outcome(self_id, peer, paired, has_context),
{
    let message = Protocol::DeviceToDevice(
        DeviceToDevicePackets::Hello { device_id: self_id, paired },
    );
    if has_context {
        Response::Message(message)
    } else {
        let status = if paired {
            ConnectionStatus::PendingEncryption
        } else {
            ConnectionStatus::Entry
        };
        Response::NewContext {
            message,
            new_context: ConnectionContext {
                encryption: DynamicEncryptionManager::Unencrypted,
                status,
                connection_type: ConnectionType::DirectConnection(
                    DirectConnection { device_id: peer },
                ),
            },
        }
    }
}

/// The message that hands over a public key.
pub open spec fn send_key_message(public_key: Seq<u8>, test: Option<Seq<u8>>) -> ProtocolView {
    ProtocolView::DeviceToDevice(DeviceToDeviceView::SendKey { public_key, test })
}

/// The message that carries an encrypted nonce.
pub open spec fn key_check_message(encrypted: Seq<u8>) -> ProtocolView {
    ProtocolView::DeviceToDevice(DeviceToDeviceView::KeyCheck(encrypted))
}

/// The message that says whether a key check succeeded.
pub open spec fn key_check_response_message(ok: bool) -> ProtocolView {
    ProtocolView::DeviceToDevice(DeviceToDeviceView::KeyCheckResponse(ok))
}

/// Whether a connection in the given state expects the packet kind. The
/// kinds that need no state (heartbeat, error, hello) are always expected.
pub open spec fn expects(status: ConnectionStatusView, packet_id: u8) -> bool {
    if packet_id == DTD_PAIR_REQUEST {
        status is Entry || status is PendingPairRequest
    } else if packet_id == DTD_SEND_KEY {
        status is PendingPairRequest || status is Pairing
    } else if packet_id == DTD_KEY_CHECK {
        status is PendingEncryption || status is CheckingKeys
    } else if packet_id == DTD_KEY_CHECK_RESPONSE {
        status is CheckingKeys
    } else {
        true
    }
}

/// Says whether a connection in the given state expects the packet kind.
pub fn status_expects(status: &ConnectionStatus, packet_id: u8) -> (r: bool)
    ensures
        r == expects(status@, packet_id),
{
    if packet_id == DTD_PAIR_REQUEST {
        match status {
            ConnectionStatus::Entry => true,
            ConnectionStatus::PendingPairRequest { .. } => true,
            _ => false,
        }
    } else if packet_id == DTD_SEND_KEY {
        match status {
            ConnectionStatus::PendingPairRequest { .. } => true,
            ConnectionStatus::Pairing { .. } => true,
            _ => false,
        }
    } else if packet_id == DTD_KEY_CHECK {
        match status {
            ConnectionStatus::PendingEncryption => true,
            ConnectionStatus::CheckingKeys { .. } => true,
            _ => false,
        }
    } else if packet_id == DTD_KEY_CHECK_RESPONSE {
        match status {
            ConnectionStatus::CheckingKeys { .. } => true,
            _ => false,
        }
    } else {
        true
    }
}

/// The context with another status.
pub open spec fn with_status(ctx: ConnectionContextView, status: ConnectionStatusView)
    -> ConnectionContextView {
    ConnectionContextView { status, ..ctx }
}

/// Starts a pairing that was approved: the connection remembers the fresh
/// key pair and the test value, and the public key goes to the peer with
/// the encrypted test value, if there is one.
pub fn begin_pairing(
    ctx: &mut ConnectionContext,
    private_key: PrivateKey,
    public_key: PublicKey,
    test: Option<Vec<u8>>,
    encrypted_test: Option<Vec<u8>>,
) -> (r: Response)
    ensures
        final(ctx)@ == with_status(
            old(ctx)@,
            ConnectionStatusView::Pairing {
                public_key: public_key@,
                private_key: private_key@,
                key_b: None,
                test: test.deep_view(),
            },
        ),
        r@ == ResponseView::Message(send_key_message(public_key@, encrypted_test.deep_view())),
{
    let sent = bytes_copy(&public_key.bytes);
    proof {
        lemma_optional_bytes(&encrypted_test);
        crate::content::lemma_bytes_deep_view(&sent);
    }
    ctx.status = ConnectionStatus::Pairing { public_key, private_key, key_b: None, test };
    Response::Message(
        Protocol::DeviceToDevice(
            DeviceToDevicePackets::SendKey { public_key: sent, test: encrypted_test },
        ),
    )
}

/// The model of optional bytes is the optional sequence of the bytes.
pub proof fn lemma_optional_bytes(v: &Option<Vec<u8>>)
    ensures
        v.deep_view() == match *v {
            Some(b) => Some(b@),
            None => None,
        },
{
    if let Some(b) = *v {
        crate::content::lemma_bytes_deep_view(&b);
    }
}

/// Holds the test value that the peer sent against the one this device
/// computed with the joined key: any difference is a key-integrity
/// failure.
pub fn check_test_value<E>(received: &Vec<u8>, expected: &Vec<u8>) -> (r: Result<
    (),
    HandshakeError<E>,
>)
    ensures
        r is Ok <==> received@ == expected@,
        r is Err ==> r->Err_0 is KeyIntegrityFailure,
{
    if bytes_equal(received, expected) {
        Ok(())
    } else {
        Err(HandshakeError::KeyIntegrityFailure)
    }
}

/// What the side that asked to be paired answers once the peer's key has
/// been accepted: its own key, and a context that waits for the key check.
pub open spec fn initiator_outcome(
    peer: DeviceId,
    public_key: Seq<u8>,
    encrypted_test: Option<Seq<u8>>,
) -> ResponseView {
    ResponseView::NewContext {
        message: send_key_message(public_key, encrypted_test),
        new_context: plain_context(peer, ConnectionStatusView::PendingEncryption),
    }
}

/// Builds the answer of the side that asked to be paired.
pub fn finish_pairing_as_initiator(
    peer: DeviceId,
    public_key: &PublicKey,
    encrypted_test: Option<Vec<u8>>,
) -> (r: Response)
    ensures
        r@ == initiator_outcome(peer, public_key@, encrypted_test.deep_view()),
{
    let sent = bytes_copy(&public_key.bytes);
    proof {
        lemma_optional_bytes(&encrypted_test);
        crate::content::lemma_bytes_deep_view(&sent);
    }
    Response::NewContext {
        message: Protocol::DeviceToDevice(
            DeviceToDevicePackets::SendKey { public_key: sent, test: encrypted_test },
        ),
        new_context: ConnectionContext {
            encryption: DynamicEncryptionManager::Unencrypted,
            status: ConnectionStatus::PendingEncryption,
            connection_type: ConnectionType::DirectConnection(DirectConnection { device_id: peer }),
        },
    }
}

/// What the side that approved the pairing answers once the peer's key has
/// been accepted: an encrypted nonce, and a context that waits for the key
/// check.
pub open spec fn responder_outcome(peer: DeviceId, encrypted_nonce: Seq<u8>) -> ResponseView {
    ResponseView::NewContext {
        message: key_check_message(encrypted_nonce),
        new_context: plain_context(peer, ConnectionStatusView::PendingEncryption),
    }
}

/// Builds the answer of the side that approved the pairing.
pub fn finish_pairing_as_responder(peer: DeviceId, encrypted_nonce: Vec<u8>) -> (r: Response)
    ensures
        r@ == responder_outcome(peer, encrypted_nonce@),
{
    proof {
        crate::content::lemma_bytes_deep_view(&encrypted_nonce);
    }
    Response::NewContext {
        message: Protocol::DeviceToDevice(DeviceToDevicePackets::KeyCheck(encrypted_nonce)),
        new_context: ConnectionContext {
            encryption: DynamicEncryptionManager::Unencrypted,
            status: ConnectionStatus::PendingEncryption,
            connection_type: ConnectionType::DirectConnection(DirectConnection { device_id: peer }),
        },
    }
}

/// Remembers the nonce that the peer's key check held: from now on the
/// connection checks keys.
pub fn remember_nonce(ctx: &mut ConnectionContext, nonce: &Vec<u8>)
    ensures
        final(ctx)@ == with_status(
            old(ctx)@,
            ConnectionStatusView::CheckingKeys { random_bytes: nonce@ },
        ),
{
    ctx.status = ConnectionStatus::CheckingKeys { random_bytes: bytes_copy(nonce) };
}

/// Builds the key check that sends a nonce back, encrypted again.
pub fn echo_nonce(encrypted: Vec<u8>) -> (r: Response)
    ensures
        r@ == ResponseView::Message(key_check_message(encrypted@)),
{
    proof {
        crate::content::lemma_bytes_deep_view(&encrypted);
    }
    Response::Message(Protocol::DeviceToDevice(DeviceToDevicePackets::KeyCheck(encrypted)))
}

/// The outcome of a key check against a remembered nonce: when the nonce
/// that came back is the remembered one, the peer is told so and the
/// connection gets its encryption and is connected; else the peer is told
/// that the check failed and nothing else changes.
pub open spec fn nonce_outcome(
    peer: DeviceId,
    remembered: Seq<u8>,
    decrypted: Seq<u8>,
    encryption: EncryptionView,
) -> ResponseView {
    if decrypted == remembered {
        ResponseView::NewContext {
            message: key_check_response_message(true),
            new_context: ConnectionContextView {
                encryption,
                status: ConnectionStatusView::Connected,
                connection_type: ConnectionType::DirectConnection(
                    DirectConnection { device_id: peer },
                ),
            },
        }
    } else {
        ResponseView::Message(key_check_response_message(false))
    }
}

/// Holds the nonce that came back against the remembered one and builds
/// the answer.
pub fn check_nonce(
    peer: DeviceId,
    remembered: &Vec<u8>,
    decrypted: &Vec<u8>,
    manager: DynamicEncryptionManager,
) -> (r: Response)
    ensures
        r@ == nonce_outcome(peer, remembered@, decrypted@, manager@),
{
    if bytes_equal(decrypted, remembered) {
        Response::NewContext {
            message: Protocol::DeviceToDevice(DeviceToDevicePackets::KeyCheckResponse(true)),
            new_context: ConnectionContext {
                encryption: manager,
                status: ConnectionStatus::Connected,
                connection_type: ConnectionType::DirectConnection(
                    DirectConnection { device_id: peer },
                ),
            },
        }
    } else {
        Response::Message(Protocol::DeviceToDevice(DeviceToDevicePackets::KeyCheckResponse(false)))
    }
}

/// Takes over the encryption of the pairing after the peer confirmed the
/// key check: the connection is connected and nothing goes to the peer.
pub fn adopt_encryption(ctx: &mut ConnectionContext, manager: DynamicEncryptionManager) -> (r:
    Response)
    ensures
        final(ctx)@ == (ConnectionContextView {
            encryption: manager@,
            status: ConnectionStatusView::Connected,
            connection_type: old(ctx)@.connection_type,
        }),
        r@ == ResponseView::Nothing,
{
    ctx.encryption = manager;
    ctx.status = ConnectionStatus::Connected;
    Response::Nothing
}

/// Asks `rand::thread_rng()` to fill a fresh buffer of `len` bytes through
/// `Rng::try_fill`. For this generator the fill hands back `Ok` whenever it
/// returns, so a buffer always comes back, and it has the length asked for.
/// Nothing is said of the bytes, which differ from call to call.
#[verifier::external_body]
fn random_bytes(len: usize) -> (r: Option<Vec<u8>>)
    ensures
        r is Some,
        r->Some_0@.len() == len,
{
    let mut bytes = vec![0u8; len];
    match rand::thread_rng().try_fill(bytes.as_mut_slice()) {
        Ok(_) => Some(bytes),
        Err(_) => None,
    }
}

/// A fresh nonce for a key check: random bytes from the thread-local
/// generator, `NONCE_LEN` of them. One always comes back.
pub fn fresh_nonce() -> (r: Option<Vec<u8>>)
    ensures
        r is Some,
        r->Some_0@.len() == NONCE_LEN,
{
    random_bytes(NONCE_LEN)
}

/// The text of the error for a pair request that was not approved.
pub open spec fn pairing_rejected_text() -> Seq<char> {
    "Pairing Rejected"@
}

/// The text of the error for a public key that is none.
pub open spec fn invalid_key_text() -> Seq<char> {
    "Invalid Key"@
}

/// The text of the error for a connection that is not direct.
pub open spec fn direct_only_text() -> Seq<char> {
    "Direct Connection Only"@
}

/// The text of the error for a packet between a device and a realm.
pub open spec fn realm_unsupported_text() -> Seq<char> {
    "Realm Unsupported"@
}

/// A failure of the device manager, handed on as it is.
pub open spec fn manager_failed<E>(e: E) -> Result<Response, HandshakeError<E>> {
    Err(HandshakeError::DeviceManager(e))
}

/// A failure of the primitives, handed on as it is.
pub open spec fn primitives_failed<E>(e: EncryptionError) -> Result<Response, HandshakeError<E>> {
    Err(HandshakeError::Encryption(e))
}

/// The failure of a test value or a key check that did not match.
pub open spec fn integrity_failed<E>() -> Result<Response, HandshakeError<E>> {
    Err(HandshakeError::KeyIntegrityFailure)
}

/// The details of a pair request as the device manager gets them: none
/// are handed on as no bytes.
pub open spec fn details_or_empty(details: Option<Seq<u8>>) -> Seq<u8> {
    match details {
        Some(d) => d,
        None => Seq::empty(),
    }
}

/// What answering a hello comes to: the device manager is asked for this
/// device's id and whether the peer is paired, and the answer is the hello
/// that `hello_outcome` builds of what it said.
pub open spec fn hello_handled<DM: DeviceManager>(
    dm: DM,
    peer: DeviceId,
    has_context: bool,
    r: Result<Response, HandshakeError<DM::Error>>,
) -> bool {
    exists|self_id: DeviceId, paired: bool|
        #![trigger dm.answers_device_id(self_id), dm.answers_is_paired(peer, paired)]
        {
            &&& dm.answers_device_id(self_id)
            &&& dm.answers_is_paired(peer, paired)
            &&& r is Ok
            &&& r->Ok_0@ == hello_outcome(self_id, peer, paired, has_context)
        }
}

/// The start of a pairing with the given keys: the connection remembers
/// them and the test value, and the public key goes to the peer with the
/// encrypted test value, if there is one.
pub open spec fn pairing_begun<E>(
    before: ConnectionContextView,
    private_key: Seq<u8>,
    public_key: Seq<u8>,
    test: Option<Seq<u8>>,
    encrypted_test: Option<Seq<u8>>,
    after: ConnectionContextView,
    r: Result<Response, HandshakeError<E>>,
) -> bool {
    &&& r is Ok
    &&& r->Ok_0@ == ResponseView::Message(send_key_message(public_key, encrypted_test))
    &&& after == with_status(
        before,
        ConnectionStatusView::Pairing { public_key, private_key, key_b: None, test },
    )
}

/// What an approved pair request comes to, given the key pair that was
/// generated and, where there is a test value, the primitives' answer to
/// encrypting it under that pair: a refusal fails and changes nothing,
/// else the pairing begins.
pub open spec fn approved_given<E>(
    before: ConnectionContextView,
    private_key: Seq<u8>,
    public_key: Seq<u8>,
    test: Option<Seq<u8>>,
    encrypted: Option<Result<Seq<u8>, EncryptionError>>,
    after: ConnectionContextView,
    r: Result<Response, HandshakeError<E>>,
) -> bool {
    match encrypted {
        None => pairing_begun(before, private_key, public_key, test, None, after, r),
        Some(Err(e)) => r == primitives_failed::<E>(e) && after == before,
        Some(Ok(c)) => pairing_begun(before, private_key, public_key, test, Some(c), after, r),
    }
}

/// What an approved pair request comes to with the key pair that was
/// generated: the test value, if there is one, is encrypted under that
/// pair, and the rest follows from the primitives' answer.
pub open spec fn approved_with<SM: SecureMessaging, E>(
    crypto: SM,
    before: ConnectionContextView,
    private_key: Seq<u8>,
    public_key: Seq<u8>,
    test: Option<Seq<u8>>,
    after: ConnectionContextView,
    r: Result<Response, HandshakeError<E>>,
) -> bool {
    if test is None {
        approved_given(before, private_key, public_key, test, None, after, r)
    } else {
        exists|answer: Result<Seq<u8>, EncryptionError>|
            #![trigger crypto.encrypts(private_key, public_key, test->Some_0, answer)]
            crypto.encrypts(private_key, public_key, test->Some_0, answer) && approved_given(
                before,
                private_key,
                public_key,
                test,
                Some(answer),
                after,
                r,
            )
    }
}

/// What an approved pair request comes to: a key pair is generated, the
/// test value, if there is one, is encrypted under that pair, and the
/// pairing begins with both.
pub open spec fn pair_request_approved<SM: SecureMessaging, E>(
    crypto: SM,
    before: ConnectionContextView,
    test: Option<Seq<u8>>,
    after: ConnectionContextView,
    r: Result<Response, HandshakeError<E>>,
) -> bool {
    exists|private_key: Seq<u8>, public_key: Seq<u8>|
        #![trigger crypto.generates(private_key, public_key)]
        crypto.generates(private_key, public_key) && approved_with(
            crypto,
            before,
            private_key,
            public_key,
            test,
            after,
            r,
        )
}

/// What a pair request comes to, given the device manager's answer: its
/// failure is handed on; a rejection is reported to the peer; both change
/// nothing and generate no key. An approval begins the pairing.
pub open spec fn pair_request_given<SM: SecureMessaging, E>(
    crypto: SM,
    before: ConnectionContextView,
    answer: Result<(bool, Option<Seq<u8>>), E>,
    after: ConnectionContextView,
    r: Result<Response, HandshakeError<E>>,
) -> bool {
    match answer {
        Err(e) => r == manager_failed(e) && after == before,
        Ok((approved, test)) => if approved {
            pair_request_approved(crypto, before, test, after, r)
        } else {
            &&& r is Ok
            &&& r->Ok_0@ == refusal_reply(
                PROTOCOL_DEVICE_TO_DEVICE,
                DTD_PAIR_REQUEST,
                ERROR_PAIRING_REJECTED,
                pairing_rejected_text(),
            )
            &&& after == before
        },
    }
}

/// What handling a pair request in a state that expects it comes to: the
/// device manager is asked with the peer's id, the name and the details
/// of the request, and the rest follows from its answer.
pub open spec fn pair_request_handled<DM: DeviceManager, SM: SecureMessaging>(
    dm: DM,
    crypto: SM,
    before: ConnectionContextView,
    peer: DeviceId,
    device_name: Seq<char>,
    details: Option<Seq<u8>>,
    after: ConnectionContextView,
    r: Result<Response, HandshakeError<DM::Error>>,
) -> bool {
    exists|answer: Result<(bool, Option<Seq<u8>>), DM::Error>|
        #![trigger dm.answers_pair_request(peer, device_name, details_or_empty(details), answer)]
        dm.answers_pair_request(peer, device_name, details_or_empty(details), answer)
            && pair_request_given(crypto, before, answer, after, r)
}

/// What registering a device and then answering comes to: the device
/// manager is asked to register the peer with the given keys; its failure
/// is handed on, else the answer goes out.
pub open spec fn registered_then<DM: DeviceManager>(
    dm: DM,
    dm_after: DM,
    peer: DeviceId,
    set: EncryptionSetView,
    reply: ResponseView,
    r: Result<Response, HandshakeError<DM::Error>>,
) -> bool {
    exists|outcome: Result<(), DM::Error>|
        #![trigger dm.registers(peer, set, outcome, dm_after)]
        dm.registers(peer, set, outcome, dm_after) && match outcome {
            Err(e) => r == manager_failed(e),
            Ok(_) => r is Ok && r->Ok_0@ == reply,
        }
}

/// Whether the test value `received` holds against this device's test
/// value `test`: it is what the primitives give for `test` under this
/// device's private key joined with the peer's public key.
pub open spec fn test_passes<SM: SecureMessaging>(
    crypto: SM,
    private_key: Seq<u8>,
    peer_key: Seq<u8>,
    test: Seq<u8>,
    received: Seq<u8>,
) -> bool {
    crypto.encrypts(private_key, peer_key, test, Ok::<Seq<u8>, EncryptionError>(received))
}

/// What a test value that does not hold comes to: the primitives refused
/// to encrypt this device's test value, which is handed on, or they gave
/// other bytes than the peer sent, which is a key-integrity failure.
pub open spec fn test_fails<SM: SecureMessaging, E>(
    crypto: SM,
    private_key: Seq<u8>,
    peer_key: Seq<u8>,
    test: Seq<u8>,
    received: Seq<u8>,
    r: Result<Response, HandshakeError<E>>,
) -> bool {
    exists|answer: Result<Seq<u8>, EncryptionError>|
        #![trigger crypto.encrypts(private_key, peer_key, test, answer)]
        crypto.encrypts(private_key, peer_key, test, answer) && match answer {
            Err(e) => r == primitives_failed::<E>(e),
            Ok(expected) => expected != received && r == integrity_failed::<E>(),
        }
}

/// The keys of a pairing.
pub open spec fn key_set(public_key: Seq<u8>, private_key: Seq<u8>, key_b: Seq<u8>)
    -> EncryptionSetView {
    EncryptionSetView { public_key, private_key, key_b }
}

/// What the side that asked to be paired makes of the peer's key once its
/// own pair is generated and the test values, if any, hold: where there is
/// a test value it is encrypted under this device's own pair for the
/// answer; then the peer is registered with this device's pair and its
/// key; then this device's public key goes out.
pub open spec fn initiator_answers<DM: DeviceManager, SM: SecureMessaging>(
    dm: DM,
    dm_after: DM,
    crypto: SM,
    peer: DeviceId,
    key_b: Seq<u8>,
    private_key: Seq<u8>,
    public_key: Seq<u8>,
    test: Option<Seq<u8>>,
    r: Result<Response, HandshakeError<DM::Error>>,
) -> bool {
    match test {
        None => registered_then(
            dm,
            dm_after,
            peer,
            key_set(public_key, private_key, key_b),
            initiator_outcome(peer, public_key, None),
            r,
        ),
        Some(t) => exists|mine: Result<Seq<u8>, EncryptionError>|
            #![trigger crypto.encrypts(private_key, public_key, t, mine)]
            crypto.encrypts(private_key, public_key, t, mine) && match mine {
                Err(e) => r == primitives_failed::<DM::Error>(e) && dm_after == dm,
                Ok(m) => registered_then(
                    dm,
                    dm_after,
                    peer,
                    key_set(public_key, private_key, key_b),
                    initiator_outcome(peer, public_key, Some(m)),
                    r,
                ),
            },
    }
}

/// What the side that asked to be paired makes of the peer's key. A test
/// value on one side only is a key-integrity failure. Else a key pair is
/// generated; a test value that the peer sent is held against this
/// device's under the new private key and the peer's key; if it holds, or
/// there is none, the pairing is completed. Nothing is registered unless
/// the test values hold.
pub open spec fn initiator_handled<DM: DeviceManager, SM: SecureMessaging>(
    dm: DM,
    dm_after: DM,
    crypto: SM,
    peer: DeviceId,
    key_b: Seq<u8>,
    test: Option<Seq<u8>>,
    received: Option<Seq<u8>>,
    r: Result<Response, HandshakeError<DM::Error>>,
) -> bool {
    if (test is Some) != (received is Some) {
        r == integrity_failed::<DM::Error>() && dm_after == dm
    } else {
        exists|private_key: Seq<u8>, public_key: Seq<u8>|
            #![trigger crypto.generates(private_key, public_key)]
            crypto.generates(private_key, public_key) && match (test, received) {
                (Some(t), Some(x)) => {
                    ||| test_fails(crypto, private_key, key_b, t, x, r) && dm_after == dm
                    ||| test_passes(crypto, private_key, key_b, t, x) && initiator_answers(
                        dm,
                        dm_after,
                        crypto,
                        peer,
                        key_b,
                        private_key,
                        public_key,
                        test,
                        r,
                    )
                },
                _ => initiator_answers(
                    dm,
                    dm_after,
                    crypto,
                    peer,
                    key_b,
                    private_key,
                    public_key,
                    test,
                    r,
                ),
            }
    }
}

/// What the side that approved the pairing answers once the test values,
/// if any, hold: a fresh nonce of `NONCE_LEN` bytes is encrypted under
/// this device's private key and the peer's key; then the peer is
/// registered with this device's pair and its key; then the encrypted
/// nonce goes out as a key check.
pub open spec fn responder_answers<DM: DeviceManager, SM: SecureMessaging>(
    dm: DM,
    dm_after: DM,
    crypto: SM,
    peer: DeviceId,
    key_b: Seq<u8>,
    private_key: Seq<u8>,
    public_key: Seq<u8>,
    r: Result<Response, HandshakeError<DM::Error>>,
) -> bool {
    exists|nonce: Seq<u8>, sealed: Result<Seq<u8>, EncryptionError>|
        #![trigger crypto.encrypts(private_key, key_b, nonce, sealed)]
        {
            &&& nonce.len() == NONCE_LEN
            &&& crypto.encrypts(private_key, key_b, nonce, sealed)
            &&& match sealed {
                Err(e) => r == primitives_failed::<DM::Error>(e) && dm_after == dm,
                Ok(c) => registered_then(
                    dm,
                    dm_after,
                    peer,
                    key_set(public_key, private_key, key_b),
                    responder_outcome(peer, c),
                    r,
                ),
            }
        }
}

/// What the side that approved the pairing makes of the peer's key. A
/// test value that the peer sent needs one of this device's to be held
/// against, under this device's private key and the peer's key; without
/// one, or if it does not hold, nothing is registered. If it holds, or the
/// peer sent none, the pairing is completed.
pub open spec fn responder_handled<DM: DeviceManager, SM: SecureMessaging>(
    dm: DM,
    dm_after: DM,
    crypto: SM,
    peer: DeviceId,
    key_b: Seq<u8>,
    private_key: Seq<u8>,
    public_key: Seq<u8>,
    test: Option<Seq<u8>>,
    received: Option<Seq<u8>>,
    r: Result<Response, HandshakeError<DM::Error>>,
) -> bool {
    match received {
        None => responder_answers(dm, dm_after, crypto, peer, key_b, private_key, public_key, r),
        Some(x) => match test {
            None => r == integrity_failed::<DM::Error>() && dm_after == dm,
            Some(t) => {
                ||| test_fails(crypto, private_key, key_b, t, x, r) && dm_after == dm
                ||| test_passes(crypto, private_key, key_b, t, x) && responder_answers(
                    dm,
                    dm_after,
                    crypto,
                    peer,
                    key_b,
                    private_key,
                    public_key,
                    r,
                )
            },
        },
    }
}

/// What the peer's key comes to, given the primitives' answer to importing
/// it: bytes that hold no key are reported to the peer and nothing is
/// registered; a key is handled by the side that this device is on.
pub open spec fn send_key_given<DM: DeviceManager, SM: SecureMessaging>(
    dm: DM,
    dm_after: DM,
    crypto: SM,
    status: ConnectionStatusView,
    peer: DeviceId,
    imported: Option<Seq<u8>>,
    received: Option<Seq<u8>>,
    r: Result<Response, HandshakeError<DM::Error>>,
) -> bool {
    match imported {
        None => {
            &&& r is Ok
            &&& r->Ok_0@ == refusal_reply(
                PROTOCOL_DEVICE_TO_DEVICE,
                DTD_SEND_KEY,
                ERROR_INVALID_KEY,
                invalid_key_text(),
            )
            &&& dm_after == dm
        },
        Some(key_b) => match status {
            ConnectionStatusView::PendingPairRequest { test } => initiator_handled(
                dm,
                dm_after,
                crypto,
                peer,
                key_b,
                test,
                received,
                r,
            ),
            ConnectionStatusView::Pairing {
                public_key,
                private_key,
                key_b: _,
                test,
            } => responder_handled(
                dm,
                dm_after,
                crypto,
                peer,
                key_b,
                private_key,
                public_key,
                test,
                received,
                r,
            ),
            _ => true,
        },
    }
}

/// What handling the peer's key in a state that expects it comes to: the
/// primitives are asked to import the key that was sent, and the rest
/// follows from their answer. The connection's own context never changes.
pub open spec fn send_key_handled<DM: DeviceManager, SM: SecureMessaging>(
    dm: DM,
    dm_after: DM,
    crypto: SM,
    before: ConnectionContextView,
    peer: DeviceId,
    sent_key: Seq<u8>,
    received: Option<Seq<u8>>,
    after: ConnectionContextView,
    r: Result<Response, HandshakeError<DM::Error>>,
) -> bool {
    &&& after == before
    &&& exists|imported: Option<Seq<u8>>|
        #![trigger crypto.imports(sent_key, imported)]
        crypto.imports(sent_key, imported) && send_key_given(
            dm,
            dm_after,
            crypto,
            before.status,
            peer,
            imported,
            received,
            r,
        )
}

/// What a key check comes to, given the encryption of the pairing and its
/// answer to decrypting the check. A refusal is handed on and changes
/// nothing. While the connection checks keys, the decrypted bytes are held
/// against the remembered nonce (`nonce_outcome`) and nothing changes.
/// While it waits, the decrypted bytes are encrypted again: a refusal
/// changes nothing, else they are remembered and their encryption goes
/// back to the peer.
pub open spec fn key_check_given<SM: SecureMessaging, E>(
    crypto: SM,
    before: ConnectionContextView,
    peer: DeviceId,
    manager: EncryptionView,
    decrypted: Result<Seq<u8>, EncryptionError>,
    after: ConnectionContextView,
    r: Result<Response, HandshakeError<E>>,
) -> bool {
    match decrypted {
        Err(e) => r == primitives_failed::<E>(e) && after == before,
        Ok(nonce) => match before.status {
            ConnectionStatusView::CheckingKeys { random_bytes } => {
                &&& r is Ok
                &&& r->Ok_0@ == nonce_outcome(peer, random_bytes, nonce, manager)
                &&& after == before
            },
            _ => exists|sealed: Result<Seq<u8>, EncryptionError>|
                #![trigger manager_encrypts(manager, crypto, nonce, sealed)]
                manager_encrypts(manager, crypto, nonce, sealed) && match sealed {
                    Err(e) => r == primitives_failed::<E>(e) && after == before,
                    Ok(c) => {
                        &&& r is Ok
                        &&& r->Ok_0@ == ResponseView::Message(key_check_message(c))
                        &&& after == with_status(
                            before,
                            ConnectionStatusView::CheckingKeys { random_bytes: nonce },
                        )
                    },
                },
        },
    }
}

/// What a key check comes to, given the record that the device manager
/// found: the record gives the encryption of the pairing, which is asked
/// to decrypt the check.
pub open spec fn key_check_found<PD: PairedDevice, SM: SecureMessaging, E>(
    device: PD,
    crypto: SM,
    before: ConnectionContextView,
    peer: DeviceId,
    check: Seq<u8>,
    after: ConnectionContextView,
    r: Result<Response, HandshakeError<E>>,
) -> bool {
    exists|manager: EncryptionView, decrypted: Result<Seq<u8>, EncryptionError>|
        #![trigger device.gives_manager(manager), manager_decrypts(manager, crypto, check, decrypted)]
        {
            &&& device.gives_manager(manager)
            &&& manager_decrypts(manager, crypto, check, decrypted)
            &&& key_check_given(crypto, before, peer, manager, decrypted, after, r)
        }
}

/// What handling a key check in a state that expects it comes to: the
/// device manager is asked for the record of the peer; its failure is
/// handed on and changes nothing, else the rest follows from the record.
pub open spec fn key_check_handled<DM: DeviceManager, SM: SecureMessaging>(
    dm: DM,
    crypto: SM,
    before: ConnectionContextView,
    peer: DeviceId,
    check: Seq<u8>,
    after: ConnectionContextView,
    r: Result<Response, HandshakeError<DM::Error>>,
) -> bool {
    exists|found: Result<DM::PD, DM::Error>|
        #![trigger dm.finds(peer, found)]
        dm.finds(peer, found) && match found {
            Err(e) => r == manager_failed(e) && after == before,
            Ok(device) => key_check_found(device, crypto, before, peer, check, after, r),
        }
}

/// The context of a connection that took over the encryption of the
/// pairing and is connected.
pub open spec fn connected_context(before: ConnectionContextView, manager: EncryptionView)
    -> ConnectionContextView {
    ConnectionContextView {
        encryption: manager,
        status: ConnectionStatusView::Connected,
        connection_type: before.connection_type,
    }
}

/// What handling the peer's verdict on the key check comes to while the
/// connection checks keys: a negative verdict is a key-integrity failure
/// and nobody is asked; on a positive one the device manager is asked for
/// the record of the peer, and the connection takes over the encryption
/// that the record gives and is connected. A failure changes nothing.
pub open spec fn key_check_response_handled<DM: DeviceManager>(
    dm: DM,
    before: ConnectionContextView,
    peer: DeviceId,
    ok: bool,
    after: ConnectionContextView,
    r: Result<Response, HandshakeError<DM::Error>>,
) -> bool {
    if !ok {
        r == integrity_failed::<DM::Error>() && after == before
    } else {
        exists|found: Result<DM::PD, DM::Error>|
            #![trigger dm.finds(peer, found)]
            dm.finds(peer, found) && match found {
                Err(e) => r == manager_failed(e) && after == before,
                Ok(device) => exists|manager: EncryptionView|
                    #![trigger device.gives_manager(manager)]
                    {
                        &&& device.gives_manager(manager)
                        &&& r is Ok
                        &&& r->Ok_0@ == ResponseView::Nothing
                        &&& after == connected_context(before, manager)
                    },
            }
    }
}

/// What handling one packet between two devices comes to, over the answers
/// of the device manager `dm` and the primitives `crypto`. `dm_after` is
/// the device manager as the step leaves it: only the registration of a
/// peer on its key changes it.
///
/// Heartbeats and errors are taken note of. A hello is answered with a
/// hello, and creates the context of a connection that has none. Every
/// other packet needs a direct connection whose state expects it; else the
/// answer is an error packet that names the packet, and nothing changes.
pub open spec fn handled<DM: DeviceManager, SM: SecureMessaging>(
    dm: DM,
    dm_after: DM,
    crypto: SM,
    before: Option<ConnectionContextView>,
    packet: DeviceToDeviceView,
    after: Option<ConnectionContextView>,
    r: Result<Response, HandshakeError<DM::Error>>,
) -> bool {
    &&& after is Some <==> before is Some
    &&& match packet {
        DeviceToDeviceView::Heartbeat => {
            &&& after == before
            &&& dm_after == dm
            &&& r is Ok
            &&& r->Ok_0@ == ResponseView::Nothing
        },
        DeviceToDeviceView::Error(_) => {
            &&& after == before
            &&& dm_after == dm
            &&& r is Ok
            &&& r->Ok_0@ == ResponseView::Nothing
        },
        DeviceToDeviceView::Hello { device_id, paired } => {
            &&& after == before
            &&& dm_after == dm
            &&& hello_handled(dm, device_id, before is Some, r)
        },
        _ => {
            let id = <DeviceToDevicePackets as Packet>::id_of(packet);
            match before {
                None => dm_after == dm && r is Ok && r->Ok_0@ == invalid_state_reply(id),
                Some(ctx) => match ctx.connection_type {
                    ConnectionType::DTDViaRealm(_) => {
                        &&& after == before
                        &&& dm_after == dm
                        &&& r is Ok
                        &&& r->Ok_0@ == refusal_reply(
                            PROTOCOL_DEVICE_TO_DEVICE,
                            id,
                            ERROR_UNSUPPORTED,
                            direct_only_text(),
                        )
                    },
                    ConnectionType::DirectConnection(direct) => if !expects(ctx.status, id) {
                        &&& after == before
                        &&& dm_after == dm
                        &&& r is Ok
                        &&& r->Ok_0@ == invalid_state_reply(id)
                    } else {
                        match packet {
                            DeviceToDeviceView::PairRequest { device_name, details } => {
                                &&& dm_after == dm
                                &&& pair_request_handled(
                                    dm,
                                    crypto,
                                    ctx,
                                    direct.device_id,
                                    device_name,
                                    details,
                                    after->Some_0,
                                    r,
                                )
                            },
                            DeviceToDeviceView::SendKey { public_key, test } => send_key_handled(
                                dm,
                                dm_after,
                                crypto,
                                ctx,
                                direct.device_id,
                                public_key,
                                test,
                                after->Some_0,
                                r,
                            ),
                            DeviceToDeviceView::KeyCheck(check) => {
                                &&& dm_after == dm
                                &&& key_check_handled(
                                    dm,
                                    crypto,
                                    ctx,
                                    direct.device_id,
                                    check,
                                    after->Some_0,
                                    r,
                                )
                            },
                            DeviceToDeviceView::KeyCheckResponse(ok) => {
                                &&& dm_after == dm
                                &&& key_check_response_handled(
                                    dm,
                                    ctx,
                                    direct.device_id,
                                    ok,
                                    after->Some_0,
                                    r,
                                )
                            },
                            _ => true,
                        }
                    },
                },
            }
        },
    }
}

/// What the device manager's answer to a pair request settles: either the
/// whole step, or that the pairing may begin with the test value agreed
/// on.
#[derive(Debug, PartialEq, Eq)]
pub enum Approval<E> {
    /// The step is over: the failure or the answer for the peer.
    Settled(Result<Response, HandshakeError<E>>),
    /// The pairing was approved.
    Granted {
        /// The test value, if one is agreed on.
        test: Option<Vec<u8>>,
    },
}

/// Weighs the device manager's answer to a pair request: its failure is
/// handed on, a rejection is reported to the peer, an approval lets the
/// pairing begin.
pub fn weigh_pair_request<E>(answer: Result<(bool, Option<Vec<u8>>), E>) -> (r: Approval<E>)
    ensures
        match approval_view(answer) {
            Err(e) => r == Approval::Settled(manager_failed(e)),
            Ok((approved, test)) => if approved {
                r matches Approval::Granted { test: granted } && granted.deep_view() == test
            } else {
                &&& r matches Approval::Settled(Ok(response))
                &&& response@ == refusal_reply(
                    PROTOCOL_DEVICE_TO_DEVICE,
                    DTD_PAIR_REQUEST,
                    ERROR_PAIRING_REJECTED,
                    pairing_rejected_text(),
                )
            },
        },
{
    match answer {
        Err(e) => Approval::Settled(Err(HandshakeError::DeviceManager(e))),
        Ok((approved, test)) => {
            proof {
                lemma_optional_bytes(&test);
            }
            if approved {
                Approval::Granted { test }
            } else {
                Approval::Settled(
                    Ok(
                        refusal_response(
                            PROTOCOL_DEVICE_TO_DEVICE,
                            DTD_PAIR_REQUEST,
                            ERROR_PAIRING_REJECTED,
                            "Pairing Rejected",
                        ),
                    ),
                )
            }
        },
    }
}

/// The primitives' answer to encrypting a test value, if one was asked
/// for, with the bytes as a sequence.
pub open spec fn sealed_view(encrypted: Option<Result<Vec<u8>, EncryptionError>>) -> Option<
    Result<Seq<u8>, EncryptionError>,
> {
    match encrypted {
        None => None,
        Some(answer) => Some(outcome_view(answer)),
    }
}

/// Begins an approved pairing with the key pair that was generated and the
/// primitives' answer to encrypting the test value, where there is one: a
/// refusal fails and changes nothing, else the connection remembers keys
/// and test value and the public key goes to the peer.
pub fn approved_step<E>(
    ctx: &mut ConnectionContext,
    private_key: PrivateKey,
    public_key: PublicKey,
    test: Option<Vec<u8>>,
    encrypted: Option<Result<Vec<u8>, EncryptionError>>,
) -> (r: Result<Response, HandshakeError<E>>)
    ensures
        approved_given(
            old(ctx)@,
            private_key@,
            public_key@,
            test.deep_view(),
            sealed_view(encrypted),
            final(ctx)@,
            r,
        ),
{
    match encrypted {
        None => Ok(begin_pairing(ctx, private_key, public_key, test, None)),
        Some(Err(e)) => Err(HandshakeError::Encryption(e)),
        Some(Ok(bytes)) => {
            let encrypted_test = Some(bytes);
            proof {
                lemma_optional_bytes(&encrypted_test);
            }
            Ok(begin_pairing(ctx, private_key, public_key, test, encrypted_test))
        },
    }
}

/// Holds the test value that the peer sent against the primitives' answer
/// to encrypting this device's: their refusal is handed on, other bytes
/// than the peer sent are a key-integrity failure.
pub fn test_verdict<E>(received: &Vec<u8>, expected: Result<Vec<u8>, EncryptionError>) -> (r:
    Result<(), HandshakeError<E>>)
    ensures
        match outcome_view(expected) {
            Err(e) => r == Err::<(), HandshakeError<E>>(HandshakeError::Encryption(e)),
            Ok(bytes) => if bytes == received@ {
                r is Ok
            } else {
                r == Err::<(), HandshakeError<E>>(HandshakeError::KeyIntegrityFailure)
            },
        },
{
    match expected {
        Err(e) => Err(HandshakeError::Encryption(e)),
        Ok(bytes) => check_test_value(received, &bytes),
    }
}

/// Hands out the answer that was prepared once the device manager has
/// registered the peer; its failure is handed on in place of the answer.
pub fn registered_step<E>(outcome: Result<(), E>, response: Response) -> (r: Result<
    Response,
    HandshakeError<E>,
>)
    ensures
        match outcome {
            Err(e) => r == manager_failed(e),
            Ok(_) => r is Ok && r->Ok_0@ == response@,
        },
{
    match outcome {
        Err(e) => Err(HandshakeError::DeviceManager(e)),
        Ok(_) => Ok(response),
    }
}

/// While the connection waits for the key check: remembers the decrypted
/// nonce and sends its encryption back, unless the primitives refused to
/// encrypt it, which fails and changes nothing.
pub fn waiting_step<E>(
    ctx: &mut ConnectionContext,
    nonce: &Vec<u8>,
    sealed: Result<Vec<u8>, EncryptionError>,
) -> (r: Result<Response, HandshakeError<E>>)
    ensures
        match outcome_view(sealed) {
            Err(e) => r == primitives_failed::<E>(e) && final(ctx)@ == old(ctx)@,
            Ok(c) => {
                &&& r is Ok
                &&& r->Ok_0@ == ResponseView::Message(key_check_message(c))
                &&& final(ctx)@ == with_status(
                    old(ctx)@,
                    ConnectionStatusView::CheckingKeys { random_bytes: nonce@ },
                )
            },
        },
{
    match sealed {
        Err(e) => Err(HandshakeError::Encryption(e)),
        Ok(bytes) => {
            remember_nonce(ctx, nonce);
            Ok(echo_nonce(bytes))
        },
    }
}

/// The handler of a receiving device. It consults the device manager and
/// the secure-messaging primitives and decides what to answer.
pub struct DefaultProtocolHandler<'dm, DM: DeviceManager, SM: SecureMessaging> {
    device_manager: &'dm mut DM,
    crypto: &'dm SM,
}

impl<'dm, DM: DeviceManager, SM: SecureMessaging> DefaultProtocolHandler<'dm, DM, SM> {
    /// The borrow of the device manager that the handler consults.
    pub closed spec fn manager(&self) -> &'dm mut DM {
        self.device_manager
    }

    /// The primitives that the handler consults.
    pub closed spec fn primitives(&self) -> &'dm SM {
        self.crypto
    }

    /// A handler over the given device manager and primitives. It borrows
    /// the manager as it is: what the handler leaves in it is what the
    /// caller finds.
    pub fn new(device_manager: &'dm mut DM, crypto: &'dm SM) -> (r: Self)
        ensures
            *r.manager() == *old(device_manager),
            *final(device_manager) == *final(r.manager()),
            r.primitives() == crypto,
    {
        DefaultProtocolHandler { device_manager, crypto }
    }

    /// Handles a packet that arrived on a direct connection. A packet of
    /// the realm protocol is answered with an error packet that names it,
    /// and changes nothing.
    pub fn handle_packet_direct_communication(
        &mut self,
        packet: Protocol,
        connection_context: Option<&mut ConnectionContext>,
    ) -> (r: Result<Response, HandshakeError<DM::Error>>)
        ensures
            final(self).primitives() == old(self).primitives(),
            match packet@ {
                ProtocolView::DeviceToDevice(p) => handled(
                    *old(self).manager(),
                    *final(self).manager(),
                    *old(self).primitives(),
                    match connection_context {
                        Some(c) => Some(c@),
                        None => None,
                    },
                    p,
                    match connection_context {
                        Some(c) => Some(final(c)@),
                        None => None,
                    },
                    r,
                ),
                ProtocolView::DeviceToRealm(p) => {
                    &&& r is Ok
                    &&& r->Ok_0@ == refusal_reply(
                        PROTOCOL_DEVICE_TO_REALM,
                        <RealmPacket as Packet>::id_of(p),
                        ERROR_UNSUPPORTED,
                        realm_unsupported_text(),
                    )
                    &&& *final(self).manager() == *old(self).manager()
                    &&& match connection_context {
                        Some(c) => final(c)@ == c@,
                        None => true,
                    }
                },
            },
    {
        match packet {
            Protocol::DeviceToDevice(device_to_device) => {
                self.handle_device_to_device_direct_communication(
                    device_to_device,
                    connection_context,
                )
            },
            Protocol::DeviceToRealm(realm) => Ok(
                refusal_response(
                    PROTOCOL_DEVICE_TO_REALM,
                    realm.get_packet_id(),
                    ERROR_UNSUPPORTED,
                    "Realm Unsupported",
                ),
            ),
        }
    }

    /// Handles a packet between two devices.
    pub fn handle_device_to_device_direct_communication(
        &mut self,
        packet: DeviceToDevicePackets,
        connection_context: Option<&mut ConnectionContext>,
    ) -> (r: Result<Response, HandshakeError<DM::Error>>)
        ensures
            final(self).primitives() == old(self).primitives(),
            handled(
                *old(self).manager(),
                *final(self).manager(),
                *old(self).primitives(),
                match connection_context {
                    Some(c) => Some(c@),
                    None => None,
                },
                packet@,
                match connection_context {
                    Some(c) => Some(final(c)@),
                    None => None,
                },
                r,
            ),
    {
        let id: u8 = packet.get_packet_id();
        match packet {
            DeviceToDevicePackets::Heartbeat => Ok(Response::Nothing),
            DeviceToDevicePackets::Error(_) => Ok(Response::Nothing),
            DeviceToDevicePackets::Hello { device_id, .. } => {
                let is_paired = self.device_manager.is_paired(&device_id);
                let self_id = self.device_manager.get_device_id();
                Ok(hello_reply(self_id, device_id, is_paired, connection_context.is_some()))
            },
            DeviceToDevicePackets::PairRequest { device_name, details } => {
                match connection_context {
                    None => Ok(invalid_state_response(id)),
                    Some(context) => match context.connection_type {
                        ConnectionType::DTDViaRealm(_) => Ok(
                            refusal_response(
                                PROTOCOL_DEVICE_TO_DEVICE,
                                id,
                                ERROR_UNSUPPORTED,
                                "Direct Connection Only",
                            ),
                        ),
                        ConnectionType::DirectConnection(direct) => {
                            if !status_expects(&context.status, id) {
                                Ok(invalid_state_response(id))
                            } else {
                                self.on_pair_request(
                                    context,
                                    direct.device_id,
                                    device_name,
                                    details,
                                )
                            }
                        },
                    },
                }
            },
            DeviceToDevicePackets::SendKey { public_key, test } => {
                proof {
                    lemma_optional_bytes(&test);
                    crate::content::lemma_bytes_deep_view(&public_key);
                }
                match connection_context {
                    None => Ok(invalid_state_response(id)),
                    Some(context) => match context.connection_type {
                        ConnectionType::DTDViaRealm(_) => Ok(
                            refusal_response(
                                PROTOCOL_DEVICE_TO_DEVICE,
                                id,
                                ERROR_UNSUPPORTED,
                                "Direct Connection Only",
                            ),
                        ),
                        ConnectionType::DirectConnection(direct) => {
                            if !status_expects(&context.status, id) {
                                Ok(invalid_state_response(id))
                            } else {
                                self.on_send_key(context, direct.device_id, public_key, test)
                            }
                        },
                    },
                }
            },
            DeviceToDevicePackets::KeyCheck(random_check) => {
                proof {
                    crate::content::lemma_bytes_deep_view(&random_check);
                }
                match connection_context {
                    None => Ok(invalid_state_response(id)),
                    Some(context) => match context.connection_type {
                        ConnectionType::DTDViaRealm(_) => Ok(
                            refusal_response(
                                PROTOCOL_DEVICE_TO_DEVICE,
                                id,
                                ERROR_UNSUPPORTED,
                                "Direct Connection Only",
                            ),
                        ),
                        ConnectionType::DirectConnection(direct) => {
                            if !status_expects(&context.status, id) {
                                Ok(invalid_state_response(id))
                            } else {
                                self.on_key_check(context, direct.device_id, random_check)
                            }
                        },
                    },
                }
            },
            DeviceToDevicePackets::KeyCheckResponse(success) => {
                match connection_context {
                    None => Ok(invalid_state_response(id)),
                    Some(context) => match context.connection_type {
                        ConnectionType::DTDViaRealm(_) => Ok(
                            refusal_response(
                                PROTOCOL_DEVICE_TO_DEVICE,
                                id,
                                ERROR_UNSUPPORTED,
                                "Direct Connection Only",
                            ),
                        ),
                        ConnectionType::DirectConnection(direct) => {
                            if !status_expects(&context.status, id) {
                                Ok(invalid_state_response(id))
                            } else {
                                self.on_key_check_response(context, direct.device_id, success)
                            }
                        },
                    },
                }
            },
        }
    }

    fn on_pair_request(
        &mut self,
        context: &mut ConnectionContext,
        peer: DeviceId,
        device_name: String,
        details: Option<Vec<u8>>,
    ) -> (r: Result<Response, HandshakeError<DM::Error>>)
        ensures
            final(self).primitives() == old(self).primitives(),
            *final(self).manager() == *old(self).manager(),
            pair_request_handled(
                *old(self).manager(),
                *old(self).primitives(),
                old(context)@,
                peer,
                device_name@,
                details.deep_view(),
                final(context)@,
                r,
            ),
    {
        proof {
            lemma_optional_bytes(&details);
        }
        let ghost dm = *self.device_manager;
        let ghost crypto = *self.crypto;
        let ghost before = context@;
        let empty: Vec<u8> = Vec::new();
        let asked = match &details {
            Some(d) => self.device_manager.pair_request(&peer, device_name.as_str(), d.as_slice()),
            None => self.device_manager.pair_request(
                &peer,
                device_name.as_str(),
                empty.as_slice(),
            ),
        };
        let ghost answer = approval_view(asked);
        assert(dm.answers_pair_request(
            peer,
            device_name@,
            details_or_empty(details.deep_view()),
            answer,
        ));
        let r = match weigh_pair_request(asked) {
            Approval::Settled(r) => r,
            Approval::Granted { test } => self.on_approval(context, test),
        };
        assert(pair_request_given(crypto, before, answer, context@, r));
        r
    }

    fn on_approval(&mut self, context: &mut ConnectionContext, test: Option<Vec<u8>>) -> (r: Result<
        Response,
        HandshakeError<DM::Error>,
    >)
        ensures
            final(self).primitives() == old(self).primitives(),
            *final(self).manager() == *old(self).manager(),
            pair_request_approved(
                *old(self).primitives(),
                old(context)@,
                test.deep_view(),
                final(context)@,
                r,
            ),
    {
        proof {
            lemma_optional_bytes(&test);
        }
        let ghost crypto = *self.crypto;
        let ghost before = context@;
        let ghost agreed = test.deep_view();
        let (private_key, public_key) = self.crypto.generate_keypair();
        let ghost private = private_key@;
        let ghost public = public_key@;
        assert(crypto.generates(private, public));
        let encrypted = match &test {
            None => None,
            Some(t) => Some(self.crypto.secure_encrypt(&private_key, &public_key, t.as_slice())),
        };
        let ghost sealed = sealed_view(encrypted);
        proof {
            if agreed is Some {
                assert(crypto.encrypts(private, public, agreed->Some_0, sealed->Some_0));
            }
        }
        let r = approved_step(context, private_key, public_key, test, encrypted);
        assert(approved_with(crypto, before, private, public, agreed, context@, r));
        r
    }

    fn on_send_key(
        &mut self,
        context: &mut ConnectionContext,
        peer: DeviceId,
        public_key: Vec<u8>,
        received_test: Option<Vec<u8>>,
    ) -> (r: Result<Response, HandshakeError<DM::Error>>)
        requires
            expects(old(context)@.status, DTD_SEND_KEY),
        ensures
            final(self).primitives() == old(self).primitives(),
            send_key_handled(
                *old(self).manager(),
                *final(self).manager(),
                *old(self).primitives(),
                old(context)@,
                peer,
                public_key@,
                match received_test {
                    Some(t) => Some(t@),
                    None => None,
                },
                final(context)@,
                r,
            ),
    {
        let ghost dm = *self.device_manager;
        let ghost crypto = *self.crypto;
        let imported = self.crypto.import_public_key(public_key.as_slice());
        let key_b = match imported {
            Some(key) => key,
            None => {
                return Ok(
                    refusal_response(
                        PROTOCOL_DEVICE_TO_DEVICE,
                        DTD_SEND_KEY,
                        ERROR_INVALID_KEY,
                        "Invalid Key",
                    ),
                );
            },
        };
        match &context.status {
            ConnectionStatus::PendingPairRequest { test } => {
                proof {
                    lemma_optional_bytes(test);
                }
                if received_test.is_none() != test.is_none() {
                    return Err(HandshakeError::KeyIntegrityFailure);
                }
                let (my_private, my_public) = self.crypto.generate_keypair();
                let encrypted_test = match (&received_test, test) {
                    (Some(received), Some(my_test)) => {
                        let expected = self.crypto.secure_encrypt(
                            &my_private,
                            &key_b,
                            my_test.as_slice(),
                        );
                        match test_verdict::<DM::Error>(received, expected) {
                            Ok(_) => {},
                            Err(e) => {
                                return Err(e);
                            },
                        }
                        match self.crypto.secure_encrypt(
                            &my_private,
                            &my_public,
                            my_test.as_slice(),
                        ) {
                            Ok(bytes) => Some(bytes),
                            Err(e) => {
                                return Err(HandshakeError::Encryption(e));
                            },
                        }
                    },
                    _ => None,
                };
                proof {
                    lemma_optional_bytes(&encrypted_test);
                }
                let response = finish_pairing_as_initiator(peer, &my_public, encrypted_test);
                let ghost set = key_set(my_public@, my_private@, key_b@);
                let ghost reply = response@;
                let ghost private = my_private@;
                let ghost public = my_public@;
                let keys = EncryptionSet { public_key: my_public, private_key: my_private, key_b };
                let registered = self.device_manager.register_device(&peer, keys);
                let r = registered_step(registered, response);
                assert(registered_then(dm, *self.device_manager, peer, set, reply, r));
                assert(initiator_answers(
                    dm,
                    *self.device_manager,
                    crypto,
                    peer,
                    set.key_b,
                    private,
                    public,
                    test.deep_view(),
                    r,
                ));
                r
            },
            ConnectionStatus::Pairing { public_key, private_key, key_b: _, test } => {
                proof {
                    lemma_optional_bytes(test);
                }
                match &received_test {
                    Some(received) => {
                        let my_test = match test {
                            Some(my_test) => my_test,
                            None => {
                                return Err(HandshakeError::KeyIntegrityFailure);
                            },
                        };
                        let expected = self.crypto.secure_encrypt(
                            private_key,
                            &key_b,
                            my_test.as_slice(),
                        );
                        match test_verdict::<DM::Error>(received, expected) {
                            Ok(_) => {},
                            Err(e) => {
                                return Err(e);
                            },
                        }
                    },
                    None => {},
                }
                let nonce = fresh_nonce().unwrap();
                let sealed = self.crypto.secure_encrypt(private_key, &key_b, nonce.as_slice());
                let encrypted = match sealed {
                    Ok(bytes) => bytes,
                    Err(e) => {
                        return Err(HandshakeError::Encryption(e));
                    },
                };
                let response = finish_pairing_as_responder(peer, encrypted);
                let ghost set = key_set(public_key@, private_key@, key_b@);
                let ghost reply = response@;
                let keys = EncryptionSet {
                    public_key: public_key.duplicate(),
                    private_key: private_key.duplicate(),
                    key_b,
                };
                let registered = self.device_manager.register_device(&peer, keys);
                let r = registered_step(registered, response);
                assert(registered_then(dm, *self.device_manager, peer, set, reply, r));
                assert(responder_answers(
                    dm,
                    *self.device_manager,
                    crypto,
                    peer,
                    set.key_b,
                    set.private_key,
                    set.public_key,
                    r,
                ));
                r
            },
            _ => Ok(invalid_state_response(DTD_SEND_KEY)),
        }
    }

    fn on_key_check(
        &mut self,
        context: &mut ConnectionContext,
        peer: DeviceId,
        random_check: Vec<u8>,
    ) -> (r: Result<Response, HandshakeError<DM::Error>>)
        requires
            expects(old(context)@.status, DTD_KEY_CHECK),
        ensures
            final(self).primitives() == old(self).primitives(),
            *final(self).manager() == *old(self).manager(),
            key_check_handled(
                *old(self).manager(),
                *old(self).primitives(),
                old(context)@,
                peer,
                random_check@,
                final(context)@,
                r,
            ),
    {
        let ghost crypto = *self.crypto;
        let ghost before = context@;
        let manager = match self.device_manager.get_paired_device(&peer) {
            Ok(device) => device.get_encryption_manager(),
            Err(e) => {
                return Err(HandshakeError::DeviceManager(e));
            },
        };
        let ghost keys = manager@;
        let opened = manager.decrypt_message(self.crypto, random_check.as_slice());
        let ghost answer = outcome_view(opened);
        let decrypted = match opened {
            Ok(bytes) => bytes,
            Err(e) => {
                return Err(HandshakeError::Encryption(e));
            },
        };
        match &context.status {
            ConnectionStatus::CheckingKeys { random_bytes } => Ok(
                check_nonce(peer, random_bytes, &decrypted, manager),
            ),
            _ => {
                let sealed = manager.encrypt_message(self.crypto, decrypted.as_slice());
                let r = waiting_step(context, &decrypted, sealed);
                assert(key_check_given(crypto, before, peer, keys, answer, context@, r));
                r
            },
        }
    }

    fn on_key_check_response(
        &mut self,
        context: &mut ConnectionContext,
        peer: DeviceId,
        success: bool,
    ) -> (r: Result<Response, HandshakeError<DM::Error>>)
        ensures
            final(self).primitives() == old(self).primitives(),
            *final(self).manager() == *old(self).manager(),
            key_check_response_handled(
                *old(self).manager(),
                old(context)@,
                peer,
                success,
                final(context)@,
                r,
            ),
    {
        if !success {
            return Err(HandshakeError::KeyIntegrityFailure);
        }
        let ghost dm = *self.device_manager;
        let ghost before = context@;
        let found = self.device_manager.get_paired_device(&peer);
        let ghost answer = found_view(found);
        assert(dm.finds(peer, answer));
        match found {
            Ok(device) => {
                let manager = device.get_encryption_manager();
                let ghost keys = manager@;
                assert(answer->Ok_0.gives_manager(keys));
                let r = Ok(adopt_encryption(context, manager));
                assert(r is Ok && r->Ok_0@ == ResponseView::Nothing);
                assert(context@ == connected_context(before, keys));
                r
            },
            Err(e) => {
                let r = Err(HandshakeError::DeviceManager(e));
                assert(r == manager_failed::<DM::Error>(e));
                r
            },
        }
    }
}

/// Whether a step leaves the connection connected: in its own context or
/// in the context that the response hands over.
pub open spec fn connects<E>(
    after: Option<ConnectionContextView>,
    r: Result<Response, HandshakeError<E>>,
) -> bool {
    ||| after matches Some(ctx) && ctx.status is Connected
    ||| r matches Ok(response) && response@ matches ResponseView::NewContext {
        message,
        new_context,
    } && new_context.status is Connected
}

/// A packet that the state of a direct connection does not expect, or that
/// needs a context where there is none, is answered with the error packet
/// of an invalid state that names the packet; nothing changes, nobody's
/// records change and nothing fails.
pub proof fn lemma_unexpected_packet_is_reported<DM: DeviceManager, SM: SecureMessaging>(
    dm: DM,
    dm_after: DM,
    crypto: SM,
    before: Option<ConnectionContextView>,
    packet: DeviceToDeviceView,
    after: Option<ConnectionContextView>,
    r: Result<Response, HandshakeError<DM::Error>>,
)
    requires
        handled(dm, dm_after, crypto, before, packet, after, r),
        !(packet is Heartbeat),
        !(packet is Error),
        !(packet is Hello),
        match before {
            None => true,
            Some(ctx) => ctx.connection_type is DirectConnection && !expects(
                ctx.status,
                <DeviceToDevicePackets as Packet>::id_of(packet),
            ),
        },
    ensures
        r is Ok,
        r->Ok_0@ == invalid_state_reply(<DeviceToDevicePackets as Packet>::id_of(packet)),
        after == before,
        dm_after == dm,
{
}

/// A step that fails changes nothing in the connection's context.
pub proof fn lemma_failure_changes_nothing<DM: DeviceManager, SM: SecureMessaging>(
    dm: DM,
    dm_after: DM,
    crypto: SM,
    before: Option<ConnectionContextView>,
    packet: DeviceToDeviceView,
    after: Option<ConnectionContextView>,
    r: Result<Response, HandshakeError<DM::Error>>,
)
    requires
        handled(dm, dm_after, crypto, before, packet, after, r),
        r is Err,
    ensures
        after == before,
{
}

/// Only the peer's key changes the device manager's records: every other
/// packet leaves the device manager as it was.
pub proof fn lemma_only_a_key_registers<DM: DeviceManager, SM: SecureMessaging>(
    dm: DM,
    dm_after: DM,
    crypto: SM,
    before: Option<ConnectionContextView>,
    packet: DeviceToDeviceView,
    after: Option<ConnectionContextView>,
    r: Result<Response, HandshakeError<DM::Error>>,
)
    requires
        handled(dm, dm_after, crypto, before, packet, after, r),
        !(packet is SendKey),
    ensures
        dm_after == dm,
{
}

/// A key-integrity failure registers nothing: when the test values do not
/// hold, the device manager is as it was.
pub proof fn lemma_integrity_failure_registers_nothing<DM: DeviceManager, SM: SecureMessaging>(
    dm: DM,
    dm_after: DM,
    crypto: SM,
    before: Option<ConnectionContextView>,
    packet: DeviceToDeviceView,
    after: Option<ConnectionContextView>,
    r: Result<Response, HandshakeError<DM::Error>>,
)
    requires
        handled(dm, dm_after, crypto, before, packet, after, r),
        r == integrity_failed::<DM::Error>(),
    ensures
        dm_after == dm,
        after == before,
{
}

/// A connection becomes connected only through the key check: the step
/// that connects it starts from a context that checks keys, and handles
/// either a key check or the peer's positive verdict on one.
pub proof fn lemma_connected_only_through_key_check<DM: DeviceManager, SM: SecureMessaging>(
    dm: DM,
    dm_after: DM,
    crypto: SM,
    before: Option<ConnectionContextView>,
    packet: DeviceToDeviceView,
    after: Option<ConnectionContextView>,
    r: Result<Response, HandshakeError<DM::Error>>,
)
    requires
        handled(dm, dm_after, crypto, before, packet, after, r),
        connects(after, r),
        !(before matches Some(ctx) && ctx.status is Connected),
    ensures
        before matches Some(ctx) && ctx.status is CheckingKeys,
        packet is KeyCheck || packet == DeviceToDeviceView::KeyCheckResponse(true),
{
}

/// Handling the peer's key never connects a connection, whatever the test
/// values are: a mismatch fails, a match leads to the key check.
pub proof fn lemma_send_key_never_connects<DM: DeviceManager, SM: SecureMessaging>(
    dm: DM,
    dm_after: DM,
    crypto: SM,
    before: Option<ConnectionContextView>,
    packet: DeviceToDeviceView,
    after: Option<ConnectionContextView>,
    r: Result<Response, HandshakeError<DM::Error>>,
)
    requires
        handled(dm, dm_after, crypto, before, packet, after, r),
        packet is SendKey,
        !(before matches Some(ctx) && ctx.status is Connected),
    ensures
        !connects(after, r),
{
}

/// A key check that tells the peer that the nonces differ leaves the
/// connection where it was: it does not become connected.
pub proof fn lemma_failed_key_check_does_not_connect<DM: DeviceManager, SM: SecureMessaging>(
    dm: DM,
    dm_after: DM,
    crypto: SM,
    before: Option<ConnectionContextView>,
    packet: DeviceToDeviceView,
    after: Option<ConnectionContextView>,
    r: Result<Response, HandshakeError<DM::Error>>,
)
    requires
        handled(dm, dm_after, crypto, before, packet, after, r),
        packet is KeyCheck,
        r matches Ok(response) && response@ == ResponseView::Message(
            key_check_response_message(false),
        ),
    ensures
        after == before,
        dm_after == dm,
        !(before matches Some(ctx) && ctx.status is Connected) ==> !connects(after, r),
{
}

/// The nonce check answers with a negative verdict exactly when the nonce
/// that came back differs from the remembered one, and only a matching
/// nonce yields a connected context.
pub proof fn lemma_nonce_mismatch(
    peer: DeviceId,
    remembered: Seq<u8>,
    decrypted: Seq<u8>,
    encryption: EncryptionView,
)
    ensures
        decrypted != remembered <==> nonce_outcome(peer, remembered, decrypted, encryption)
            == ResponseView::Message(key_check_response_message(false)),
        decrypted == remembered <==> (nonce_outcome(peer, remembered, decrypted, encryption)
            matches ResponseView::NewContext { message, new_context } && new_context.status
            is Connected),
{
}

} // verus!
