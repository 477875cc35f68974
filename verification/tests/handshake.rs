use abst_rs::device_id::DeviceId;
use abst_rs::device_manager::{DeviceManager, PairedDevice};
use abst_rs::encryption::{
    DynamicEncryptionManager, EncryptionSet, PrivateKey, PublicKey, SecureMessaging,
    ThemisEncryptionManager,
};
use abst_rs::error::EncryptionError;
use abst_rs::packets::dtd::DeviceToDevicePackets;
use abst_rs::packets::handlers::{
    adopt_encryption, approved_step, begin_pairing, check_nonce, check_test_value, echo_nonce,
    finish_pairing_as_initiator, finish_pairing_as_responder, fresh_nonce, hello_reply,
    invalid_state_response, refusal_response, registered_step, remember_nonce, status_expects,
    test_verdict, waiting_step, weigh_pair_request, Approval, ConnectionContext, ConnectionType,
    DefaultProtocolHandler, HandshakeError, Response, ERROR_INVALID_KEY, ERROR_PAIRING_REJECTED,
    ERROR_UNSUPPORTED, NONCE_LEN,
};
use abst_rs::packets::realm::RealmPacket;
use abst_rs::packets::{ErrorPacket, Protocol};
use abst_rs::protocol::{ConnectionStatus, DTDViaRealm, DirectConnection};
use std::cell::{Cell, RefCell};
use std::collections::HashMap;

struct FakeCrypto {
    next_key: Cell<u8>,
    refuse: Cell<bool>,
    plaintexts: RefCell<Vec<Vec<u8>>>,
}

impl FakeCrypto {
    fn new(first_key: u8) -> FakeCrypto {
        FakeCrypto {
            next_key: Cell::new(first_key),
            refuse: Cell::new(false),
            plaintexts: RefCell::new(Vec::new()),
        }
    }

    fn joined(private_key: &PrivateKey, peer: &PublicKey) -> u8 {
        private_key.bytes[0] ^ peer.bytes[0] ^ 0x55
    }
}

impl SecureMessaging for FakeCrypto {
    fn generate_keypair(&self) -> (PrivateKey, PublicKey) {
        let n = self.next_key.get();
        self.next_key.set(n + 1);
        (PrivateKey { bytes: vec![n; 4] }, PublicKey { bytes: vec![n; 4] })
    }

    fn import_public_key(&self, bytes: &[u8]) -> Option<PublicKey> {
        if bytes.len() == 4 {
            Some(PublicKey { bytes: bytes.to_vec() })
        } else {
            None
        }
    }

    fn secure_encrypt(
        &self,
        private_key: &PrivateKey,
        peer_public_key: &PublicKey,
        plaintext: &[u8],
    ) -> Result<Vec<u8>, EncryptionError> {
        if self.refuse.get() {
            return Err(EncryptionError::ThemisError);
        }
        self.plaintexts.borrow_mut().push(plaintext.to_vec());
        let k = FakeCrypto::joined(private_key, peer_public_key);
        Ok(plaintext.iter().map(|b| b ^ k).collect())
    }

    fn secure_decrypt(
        &self,
        private_key: &PrivateKey,
        peer_public_key: &PublicKey,
        ciphertext: &[u8],
    ) -> Result<Vec<u8>, EncryptionError> {
        if self.refuse.get() {
            return Err(EncryptionError::ThemisError);
        }
        let k = FakeCrypto::joined(private_key, peer_public_key);
        Ok(ciphertext.iter().map(|b| b ^ k).collect())
    }
}

struct FakeDevice {
    id: DeviceId,
    manager: DynamicEncryptionManager,
}

impl PairedDevice for FakeDevice {
    fn get_device_id(&self) -> DeviceId {
        self.id
    }

    fn get_encryption_manager(&self) -> DynamicEncryptionManager {
        self.manager.clone()
    }
}

struct FakeManager {
    id: DeviceId,
    paired: HashMap<DeviceId, FakeDevice>,
    approve: bool,
    test: Option<Vec<u8>>,
    refuse: bool,
    asked: RefCell<Vec<(DeviceId, String, Vec<u8>)>>,
}

impl FakeManager {
    fn new(id: DeviceId) -> FakeManager {
        FakeManager {
            id,
            paired: HashMap::new(),
            approve: true,
            test: None,
            refuse: false,
            asked: RefCell::new(Vec::new()),
        }
    }
}

impl DeviceManager for FakeManager {
    type Error = String;
    type PD = FakeDevice;

    fn get_device_id(&self) -> DeviceId {
        self.id
    }

    fn get_device_name(&self) -> String {
        String::from("fake")
    }

    fn is_paired(&self, uuid: &DeviceId) -> bool {
        self.paired.contains_key(uuid)
    }

    fn get_paired_devices(&self) -> Result<Vec<&FakeDevice>, String> {
        Ok(self.paired.values().collect())
    }

    fn get_paired_device(&self, device_id: &DeviceId) -> Result<&FakeDevice, String> {
        if self.refuse {
            return Err(String::from("refused"));
        }
        self.paired.get(device_id).ok_or_else(|| String::from("unknown device"))
    }

    fn register_device(
        &mut self,
        device_id: &DeviceId,
        encryption: EncryptionSet,
    ) -> Result<(), String> {
        if self.refuse {
            return Err(String::from("refused"));
        }
        let manager = DynamicEncryptionManager::from_set(&encryption);
        self.paired.insert(*device_id, FakeDevice { id: *device_id, manager });
        Ok(())
    }

    fn delete_device(&mut self, device_id: &DeviceId) -> Result<(), String> {
        self.paired.remove(device_id);
        Ok(())
    }

    fn pair_request(
        &self,
        device_id: &DeviceId,
        device_name: &str,
        details: &[u8],
    ) -> Result<(bool, Option<Vec<u8>>), String> {
        if self.refuse {
            return Err(String::from("refused"));
        }
        self.asked.borrow_mut().push((*device_id, device_name.to_string(), details.to_vec()));
        Ok((self.approve, self.test.clone()))
    }
}

type Outcome = Result<Response, HandshakeError<String>>;

fn handle(
    manager: &mut FakeManager,
    crypto: &FakeCrypto,
    packet: DeviceToDevicePackets,
    context: Option<&mut ConnectionContext>,
) -> Outcome {
    let mut handler = DefaultProtocolHandler::new(manager, crypto);
    handler.handle_packet_direct_communication(Protocol::DeviceToDevice(packet), context)
}

fn id_a() -> DeviceId {
    DeviceId::from_u64_pair(0xa, 0xa)
}

fn id_b() -> DeviceId {
    DeviceId::from_u64_pair(0xb, 0xb)
}

fn direct(peer: DeviceId) -> ConnectionType {
    ConnectionType::DirectConnection(DirectConnection { device_id: peer })
}

fn context(peer: DeviceId, status: ConnectionStatus) -> ConnectionContext {
    ConnectionContext {
        encryption: DynamicEncryptionManager::Unencrypted,
        status,
        connection_type: direct(peer),
    }
}

fn message(packet: DeviceToDevicePackets) -> Response {
    Response::Message(Protocol::DeviceToDevice(packet))
}

fn invalid_state(packet_id: u8) -> Response {
    message(DeviceToDevicePackets::Error(ErrorPacket::invalid_state(0, packet_id)))
}

fn take_message(response: Response) -> DeviceToDevicePackets {
    match response {
        Response::Message(Protocol::DeviceToDevice(p)) => p,
        other => panic!("no message: {:?}", other),
    }
}

fn take_new_context(response: Response) -> (DeviceToDevicePackets, ConnectionContext) {
    match response {
        Response::NewContext { message: Protocol::DeviceToDevice(p), new_context } => {
            (p, new_context)
        }
        other => panic!("no new context: {:?}", other),
    }
}

#[test]
fn happy_path_brings_both_sides_to_connected() {
    let mut manager_a = FakeManager::new(id_a());
    let mut manager_b = FakeManager::new(id_b());
    let crypto_a = FakeCrypto::new(10);
    let crypto_b = FakeCrypto::new(20);

    // A sends Hello; B has no context for the connection yet.
    let hello = DeviceToDevicePackets::Hello { device_id: id_a(), paired: false };
    let (reply, mut ctx_b) =
        take_new_context(handle(&mut manager_b, &crypto_b, hello, None).unwrap());
    assert_eq!(reply, DeviceToDevicePackets::Hello { device_id: id_b(), paired: false });
    assert_eq!(ctx_b, context(id_a(), ConnectionStatus::Entry));

    // A sends PairRequest and waits for the key.
    let mut ctx_a = context(id_b(), ConnectionStatus::PendingPairRequest { test: None });
    let request = DeviceToDevicePackets::PairRequest {
        device_name: String::from("device a"),
        details: Some(vec![1, 2]),
    };
    let send_key_b =
        take_message(handle(&mut manager_b, &crypto_b, request, Some(&mut ctx_b)).unwrap());
    assert_eq!(
        send_key_b,
        DeviceToDevicePackets::SendKey { public_key: vec![20; 4], test: None }
    );
    assert_eq!(
        ctx_b.status,
        ConnectionStatus::Pairing {
            public_key: PublicKey { bytes: vec![20; 4] },
            private_key: PrivateKey { bytes: vec![20; 4] },
            key_b: None,
            test: None,
        }
    );
    assert_eq!(
        *manager_b.asked.borrow(),
        vec![(id_a(), String::from("device a"), vec![1, 2])]
    );

    // A answers with its own key; both sides reach PendingEncryption.
    let (send_key_a, new_a) =
        take_new_context(handle(&mut manager_a, &crypto_a, send_key_b, Some(&mut ctx_a)).unwrap());
    assert_eq!(
        send_key_a,
        DeviceToDevicePackets::SendKey { public_key: vec![10; 4], test: None }
    );
    assert_eq!(new_a, context(id_b(), ConnectionStatus::PendingEncryption));
    ctx_a = new_a;
    assert!(manager_a.is_paired(&id_b()));

    let (key_check_1, new_b) =
        take_new_context(handle(&mut manager_b, &crypto_b, send_key_a, Some(&mut ctx_b)).unwrap());
    assert_eq!(new_b, context(id_a(), ConnectionStatus::PendingEncryption));
    ctx_b = new_b;
    assert!(manager_b.is_paired(&id_a()));
    let nonce = crypto_b.plaintexts.borrow().last().unwrap().clone();
    assert_eq!(nonce.len(), 256);
    let key = 10 ^ 20 ^ 0x55;
    let sealed: Vec<u8> = nonce.iter().map(|b| b ^ key).collect();
    assert_eq!(key_check_1, DeviceToDevicePackets::KeyCheck(sealed.clone()));

    // The nonce goes round.
    let key_check_2 =
        take_message(handle(&mut manager_a, &crypto_a, key_check_1, Some(&mut ctx_a)).unwrap());
    assert_eq!(key_check_2, DeviceToDevicePackets::KeyCheck(sealed.clone()));
    assert_eq!(ctx_a.status, ConnectionStatus::CheckingKeys { random_bytes: nonce.clone() });

    let key_check_3 =
        take_message(handle(&mut manager_b, &crypto_b, key_check_2, Some(&mut ctx_b)).unwrap());
    assert_eq!(key_check_3, DeviceToDevicePackets::KeyCheck(sealed));
    assert_eq!(ctx_b.status, ConnectionStatus::CheckingKeys { random_bytes: nonce });

    let (verdict, new_a) =
        take_new_context(handle(&mut manager_a, &crypto_a, key_check_3, Some(&mut ctx_a)).unwrap());
    assert_eq!(verdict, DeviceToDevicePackets::KeyCheckResponse(true));
    assert_eq!(new_a.status, ConnectionStatus::Connected);
    assert_eq!(new_a.connection_type, direct(id_b()));
    assert_eq!(
        new_a.encryption,
        DynamicEncryptionManager::Themis(ThemisEncryptionManager {
            self_private_key: vec![10; 4],
            self_public_key: vec![10; 4],
            other_public_key: vec![20; 4],
        })
    );

    let done = handle(&mut manager_b, &crypto_b, verdict, Some(&mut ctx_b)).unwrap();
    assert_eq!(done, Response::Nothing);
    assert_eq!(ctx_b.status, ConnectionStatus::Connected);
    assert_eq!(
        ctx_b.encryption,
        DynamicEncryptionManager::Themis(ThemisEncryptionManager {
            self_private_key: vec![20; 4],
            self_public_key: vec![20; 4],
            other_public_key: vec![10; 4],
        })
    );
}

#[test]
fn hello_creates_the_context_that_the_pairing_calls_for() {
    let mut manager = FakeManager::new(id_b());
    let crypto = FakeCrypto::new(1);
    let hello = DeviceToDevicePackets::Hello { device_id: id_a(), paired: true };
    let unpaired = handle(&mut manager, &crypto, hello.clone(), None).unwrap();
    assert_eq!(unpaired, hello_reply(id_b(), id_a(), false, false));
    let set = EncryptionSet {
        public_key: PublicKey { bytes: vec![1; 4] },
        private_key: PrivateKey { bytes: vec![1; 4] },
        key_b: PublicKey { bytes: vec![2; 4] },
    };
    manager.register_device(&id_a(), set).unwrap();
    let (reply, ctx) = take_new_context(handle(&mut manager, &crypto, hello.clone(), None).unwrap());
    assert_eq!(reply, DeviceToDevicePackets::Hello { device_id: id_b(), paired: true });
    assert_eq!(ctx, context(id_a(), ConnectionStatus::PendingEncryption));

    let mut existing = context(id_a(), ConnectionStatus::Connected);
    let again = handle(&mut manager, &crypto, hello, Some(&mut existing)).unwrap();
    assert_eq!(
        again,
        message(DeviceToDevicePackets::Hello { device_id: id_b(), paired: true })
    );
    assert_eq!(existing, context(id_a(), ConnectionStatus::Connected));
}

#[test]
fn mismatching_test_value_is_a_key_integrity_failure() {
    let mut manager = FakeManager::new(id_a());
    let crypto = FakeCrypto::new(10);
    let before = context(id_b(), ConnectionStatus::PendingPairRequest { test: Some(vec![7, 7]) });
    let mut ctx = before.clone();
    let packet = DeviceToDevicePackets::SendKey {
        public_key: vec![20; 4],
        test: Some(vec![1, 2, 3]),
    };
    let got = handle(&mut manager, &crypto, packet, Some(&mut ctx));
    assert_eq!(got, Err(HandshakeError::KeyIntegrityFailure));
    assert_eq!(ctx, before);
    assert!(!manager.is_paired(&id_b()));

    // The value that the joined key gives is accepted.
    let key = 10 ^ 20 ^ 0x55;
    let packet = DeviceToDevicePackets::SendKey {
        public_key: vec![20; 4],
        test: Some(vec![7 ^ key, 7 ^ key]),
    };
    let crypto = FakeCrypto::new(10);
    let (reply, new_context) =
        take_new_context(handle(&mut manager, &crypto, packet, Some(&mut ctx)).unwrap());
    assert_eq!(
        reply,
        DeviceToDevicePackets::SendKey {
            public_key: vec![10; 4],
            test: Some(vec![7 ^ 0x55, 7 ^ 0x55]),
        }
    );
    assert_eq!(new_context.status, ConnectionStatus::PendingEncryption);
    assert!(manager.is_paired(&id_b()));
}

#[test]
fn responder_checks_the_test_value_too() {
    let mut manager = FakeManager::new(id_b());
    let crypto = FakeCrypto::new(30);
    let pairing = ConnectionStatus::Pairing {
        public_key: PublicKey { bytes: vec![20; 4] },
        private_key: PrivateKey { bytes: vec![20; 4] },
        key_b: None,
        test: Some(vec![9]),
    };
    let mut ctx = context(id_a(), pairing.clone());
    let wrong = DeviceToDevicePackets::SendKey { public_key: vec![10; 4], test: Some(vec![9]) };
    assert_eq!(
        handle(&mut manager, &crypto, wrong, Some(&mut ctx)),
        Err(HandshakeError::KeyIntegrityFailure)
    );
    assert_eq!(ctx.status, pairing);
    assert!(!manager.is_paired(&id_a()));

    let key = 20 ^ 10 ^ 0x55;
    let right =
        DeviceToDevicePackets::SendKey { public_key: vec![10; 4], test: Some(vec![9 ^ key]) };
    let (reply, new_context) =
        take_new_context(handle(&mut manager, &crypto, right, Some(&mut ctx)).unwrap());
    assert!(matches!(reply, DeviceToDevicePackets::KeyCheck(ref sealed) if sealed.len() == 256));
    assert_eq!(new_context, context(id_a(), ConnectionStatus::PendingEncryption));
    assert!(manager.is_paired(&id_a()));
}

#[test]
fn test_values_must_be_on_both_sides_or_on_none() {
    let mut manager = FakeManager::new(id_a());
    let crypto = FakeCrypto::new(10);
    let mut ctx = context(id_b(), ConnectionStatus::PendingPairRequest { test: Some(vec![1]) });
    let packet = DeviceToDevicePackets::SendKey { public_key: vec![20; 4], test: None };
    assert_eq!(
        handle(&mut manager, &crypto, packet, Some(&mut ctx)),
        Err(HandshakeError::KeyIntegrityFailure)
    );
    let mut ctx = context(id_b(), ConnectionStatus::PendingPairRequest { test: None });
    let packet = DeviceToDevicePackets::SendKey { public_key: vec![20; 4], test: Some(vec![1]) };
    assert_eq!(
        handle(&mut manager, &crypto, packet, Some(&mut ctx)),
        Err(HandshakeError::KeyIntegrityFailure)
    );
    let pairing = ConnectionStatus::Pairing {
        public_key: PublicKey { bytes: vec![20; 4] },
        private_key: PrivateKey { bytes: vec![20; 4] },
        key_b: None,
        test: None,
    };
    let mut ctx = context(id_b(), pairing);
    let packet = DeviceToDevicePackets::SendKey { public_key: vec![20; 4], test: Some(vec![1]) };
    assert_eq!(
        handle(&mut manager, &crypto, packet, Some(&mut ctx)),
        Err(HandshakeError::KeyIntegrityFailure)
    );
    assert!(!manager.is_paired(&id_b()));
}

#[test]
fn pair_request_sends_the_encrypted_test_value() {
    let mut manager = FakeManager::new(id_b());
    manager.test = Some(vec![4, 5, 6]);
    let crypto = FakeCrypto::new(20);
    let mut ctx = context(id_a(), ConnectionStatus::Entry);
    let request =
        DeviceToDevicePackets::PairRequest { device_name: String::from("a"), details: None };
    let reply = take_message(handle(&mut manager, &crypto, request, Some(&mut ctx)).unwrap());
    assert_eq!(
        reply,
        DeviceToDevicePackets::SendKey {
            public_key: vec![20; 4],
            test: Some(vec![4 ^ 0x55, 5 ^ 0x55, 6 ^ 0x55]),
        }
    );
    assert_eq!(
        ctx.status,
        ConnectionStatus::Pairing {
            public_key: PublicKey { bytes: vec![20; 4] },
            private_key: PrivateKey { bytes: vec![20; 4] },
            key_b: None,
            test: Some(vec![4, 5, 6]),
        }
    );
    assert_eq!(*manager.asked.borrow(), vec![(id_a(), String::from("a"), vec![])]);
}

#[test]
fn rejected_pair_request_is_reported_and_changes_nothing() {
    let mut manager = FakeManager::new(id_b());
    manager.approve = false;
    let crypto = FakeCrypto::new(20);
    let mut ctx = context(id_a(), ConnectionStatus::Entry);
    let request =
        DeviceToDevicePackets::PairRequest { device_name: String::from("a"), details: None };
    let reply = handle(&mut manager, &crypto, request, Some(&mut ctx)).unwrap();
    assert_eq!(
        reply,
        message(DeviceToDevicePackets::Error(ErrorPacket::with_reference(
            0,
            3,
            ERROR_PAIRING_REJECTED,
            "Pairing Rejected"
        )))
    );
    assert_eq!(reply, refusal_response(0, 3, 1, "Pairing Rejected"));
    assert_eq!(ctx, context(id_a(), ConnectionStatus::Entry));
}

#[test]
fn invalid_key_is_reported() {
    let mut manager = FakeManager::new(id_a());
    let crypto = FakeCrypto::new(10);
    let mut ctx = context(id_b(), ConnectionStatus::PendingPairRequest { test: None });
    let packet = DeviceToDevicePackets::SendKey { public_key: vec![1, 2], test: None };
    let reply = handle(&mut manager, &crypto, packet, Some(&mut ctx)).unwrap();
    assert_eq!(
        reply,
        message(DeviceToDevicePackets::Error(ErrorPacket::with_reference(
            0,
            4,
            ERROR_INVALID_KEY,
            "Invalid Key"
        )))
    );
    assert_eq!(ctx.status, ConnectionStatus::PendingPairRequest { test: None });
    assert!(!manager.is_paired(&id_b()));
}

#[test]
fn nonce_mismatch_answers_false_and_does_not_connect() {
    let mut manager = FakeManager::new(id_a());
    let crypto = FakeCrypto::new(10);
    let set = EncryptionSet {
        public_key: PublicKey { bytes: vec![10; 4] },
        private_key: PrivateKey { bytes: vec![10; 4] },
        key_b: PublicKey { bytes: vec![20; 4] },
    };
    manager.register_device(&id_b(), set).unwrap();
    let key = 10 ^ 20 ^ 0x55;
    let remembered = vec![1u8, 2, 3, 4];
    let before = context(id_b(), ConnectionStatus::CheckingKeys { random_bytes: remembered.clone() });

    let mut ctx = before.clone();
    let other: Vec<u8> = [1u8, 2, 3, 5].iter().map(|b| b ^ key).collect();
    let reply =
        handle(&mut manager, &crypto, DeviceToDevicePackets::KeyCheck(other), Some(&mut ctx));
    assert_eq!(reply, Ok(message(DeviceToDevicePackets::KeyCheckResponse(false))));
    assert_eq!(ctx, before);

    let shorter: Vec<u8> = [1u8, 2, 3].iter().map(|b| b ^ key).collect();
    let reply =
        handle(&mut manager, &crypto, DeviceToDevicePackets::KeyCheck(shorter), Some(&mut ctx));
    assert_eq!(reply, Ok(message(DeviceToDevicePackets::KeyCheckResponse(false))));
    assert_eq!(ctx, before);

    let same: Vec<u8> = remembered.iter().map(|b| b ^ key).collect();
    let (verdict, new_context) = take_new_context(
        handle(&mut manager, &crypto, DeviceToDevicePackets::KeyCheck(same), Some(&mut ctx))
            .unwrap(),
    );
    assert_eq!(verdict, DeviceToDevicePackets::KeyCheckResponse(true));
    assert_eq!(new_context.status, ConnectionStatus::Connected);
    assert_eq!(ctx, before);
}

#[test]
fn negative_verdict_is_a_key_integrity_failure() {
    let mut manager = FakeManager::new(id_a());
    let crypto = FakeCrypto::new(10);
    let before = context(id_b(), ConnectionStatus::CheckingKeys { random_bytes: vec![1] });
    let mut ctx = before.clone();
    let got = handle(
        &mut manager,
        &crypto,
        DeviceToDevicePackets::KeyCheckResponse(false),
        Some(&mut ctx),
    );
    assert_eq!(got, Err(HandshakeError::KeyIntegrityFailure));
    assert_eq!(ctx, before);
}

#[test]
fn key_check_in_entry_is_answered_with_an_error_packet() {
    let mut manager = FakeManager::new(id_b());
    let crypto = FakeCrypto::new(20);
    let mut ctx = context(id_a(), ConnectionStatus::Entry);
    let reply =
        handle(&mut manager, &crypto, DeviceToDevicePackets::KeyCheck(vec![1, 2]), Some(&mut ctx));
    assert_eq!(
        reply,
        Ok(message(DeviceToDevicePackets::Error(ErrorPacket::ErrorWithReference {
            reference_protocol: 0,
            reference_packet: 5,
            error_code: 0,
            error_message: Some(String::from("Invalid State")),
        })))
    );
    assert_eq!(ctx, context(id_a(), ConnectionStatus::Entry));
    assert_eq!(reply.unwrap(), invalid_state_response(5));
}

fn statuses() -> Vec<ConnectionStatus> {
    vec![
        ConnectionStatus::Entry,
        ConnectionStatus::PendingPairRequest { test: None },
        ConnectionStatus::Pairing {
            public_key: PublicKey { bytes: vec![20; 4] },
            private_key: PrivateKey { bytes: vec![20; 4] },
            key_b: None,
            test: None,
        },
        ConnectionStatus::PendingEncryption,
        ConnectionStatus::CheckingKeys { random_bytes: vec![1] },
        ConnectionStatus::Connected,
    ]
}

#[test]
fn every_unexpected_packet_is_answered_with_an_error_packet() {
    let packets = vec![
        DeviceToDevicePackets::PairRequest { device_name: String::from("a"), details: None },
        DeviceToDevicePackets::SendKey { public_key: vec![10; 4], test: None },
        DeviceToDevicePackets::KeyCheck(vec![1]),
        DeviceToDevicePackets::KeyCheckResponse(true),
    ];
    let expected: [[bool; 6]; 4] = [
        [true, true, false, false, false, false],
        [false, true, true, false, false, false],
        [false, false, false, true, true, false],
        [false, false, false, false, true, false],
    ];
    for (i, packet) in packets.iter().enumerate() {
        let id = (i + 3) as u8;
        for (j, status) in statuses().into_iter().enumerate() {
            assert_eq!(status_expects(&status, id), expected[i][j]);
            if expected[i][j] {
                continue;
            }
            let mut manager = FakeManager::new(id_b());
            let crypto = FakeCrypto::new(20);
            let before = context(id_a(), status);
            let mut ctx = before.clone();
            let reply = handle(&mut manager, &crypto, packet.clone(), Some(&mut ctx));
            assert_eq!(reply, Ok(invalid_state(id)));
            assert_eq!(ctx, before);
            assert!(manager.asked.borrow().is_empty());
        }
        let mut manager = FakeManager::new(id_b());
        let crypto = FakeCrypto::new(20);
        assert_eq!(handle(&mut manager, &crypto, packet.clone(), None), Ok(invalid_state(id)));
    }
    for id in [0u8, 1, 2, 7, 200] {
        for status in statuses() {
            assert!(status_expects(&status, id));
        }
    }
}

#[test]
fn heartbeat_and_error_need_no_answer() {
    let mut manager = FakeManager::new(id_b());
    let crypto = FakeCrypto::new(20);
    assert_eq!(
        handle(&mut manager, &crypto, DeviceToDevicePackets::Heartbeat, None),
        Ok(Response::Nothing)
    );
    let mut ctx = context(id_a(), ConnectionStatus::Connected);
    let error = DeviceToDevicePackets::Error(ErrorPacket::from(3u8));
    assert_eq!(handle(&mut manager, &crypto, error, Some(&mut ctx)), Ok(Response::Nothing));
    assert_eq!(ctx, context(id_a(), ConnectionStatus::Connected));
}

#[test]
fn relayed_connections_and_realm_packets_are_not_served() {
    let mut manager = FakeManager::new(id_b());
    let crypto = FakeCrypto::new(20);
    let before = ConnectionContext {
        encryption: DynamicEncryptionManager::Unencrypted,
        status: ConnectionStatus::Entry,
        connection_type: ConnectionType::DTDViaRealm(DTDViaRealm { device_id: id_a() }),
    };
    let mut ctx = before.clone();
    let request =
        DeviceToDevicePackets::PairRequest { device_name: String::from("a"), details: None };
    let reply = handle(&mut manager, &crypto, request, Some(&mut ctx)).unwrap();
    assert_eq!(reply, refusal_response(0, 3, ERROR_UNSUPPORTED, "Direct Connection Only"));
    assert_eq!(ctx, before);

    let mut handler = DefaultProtocolHandler::new(&mut manager, &crypto);
    let reply = handler
        .handle_packet_direct_communication(
            Protocol::DeviceToRealm(RealmPacket::KeyCheck(vec![1])),
            Some(&mut ctx),
        )
        .unwrap();
    assert_eq!(reply, refusal_response(2, 5, ERROR_UNSUPPORTED, "Realm Unsupported"));
    assert_eq!(
        reply,
        message(DeviceToDevicePackets::Error(ErrorPacket::ErrorWithReference {
            reference_protocol: 2,
            reference_packet: 5,
            error_code: 3,
            error_message: Some(String::from("Realm Unsupported")),
        }))
    );
    assert_eq!(ctx, before);
}

#[test]
fn failures_of_the_capabilities_are_passed_on_and_change_nothing() {
    let mut manager = FakeManager::new(id_b());
    manager.refuse = true;
    let crypto = FakeCrypto::new(20);
    let request =
        DeviceToDevicePackets::PairRequest { device_name: String::from("a"), details: None };
    let mut ctx = context(id_a(), ConnectionStatus::Entry);
    assert_eq!(
        handle(&mut manager, &crypto, request.clone(), Some(&mut ctx)),
        Err(HandshakeError::DeviceManager(String::from("refused")))
    );
    assert_eq!(ctx, context(id_a(), ConnectionStatus::Entry));

    let mut ctx = context(id_a(), ConnectionStatus::PendingPairRequest { test: None });
    let send_key = DeviceToDevicePackets::SendKey { public_key: vec![10; 4], test: None };
    assert_eq!(
        handle(&mut manager, &crypto, send_key, Some(&mut ctx)),
        Err(HandshakeError::DeviceManager(String::from("refused")))
    );

    let mut ctx = context(id_a(), ConnectionStatus::PendingEncryption);
    assert_eq!(
        handle(&mut manager, &crypto, DeviceToDevicePackets::KeyCheck(vec![1]), Some(&mut ctx)),
        Err(HandshakeError::DeviceManager(String::from("refused")))
    );
    assert_eq!(ctx, context(id_a(), ConnectionStatus::PendingEncryption));

    let mut ctx = context(id_a(), ConnectionStatus::CheckingKeys { random_bytes: vec![1] });
    assert_eq!(
        handle(
            &mut manager,
            &crypto,
            DeviceToDevicePackets::KeyCheckResponse(true),
            Some(&mut ctx)
        ),
        Err(HandshakeError::DeviceManager(String::from("refused")))
    );
    assert_eq!(ctx, context(id_a(), ConnectionStatus::CheckingKeys { random_bytes: vec![1] }));

    let mut manager = FakeManager::new(id_b());
    manager.test = Some(vec![1]);
    crypto.refuse.set(true);
    let mut ctx = context(id_a(), ConnectionStatus::Entry);
    assert_eq!(
        handle(&mut manager, &crypto, request, Some(&mut ctx)),
        Err(HandshakeError::Encryption(EncryptionError::ThemisError))
    );
    assert_eq!(ctx, context(id_a(), ConnectionStatus::Entry));
}

#[test]
fn key_check_without_keys_is_refused_by_the_encryption() {
    let mut manager = FakeManager::new(id_b());
    manager.paired.insert(
        id_a(),
        FakeDevice { id: id_a(), manager: DynamicEncryptionManager::Unencrypted },
    );
    assert_eq!(manager.get_paired_device(&id_a()).unwrap().get_device_id(), id_a());
    let crypto = FakeCrypto::new(20);
    let mut ctx = context(id_a(), ConnectionStatus::PendingEncryption);
    assert_eq!(
        handle(&mut manager, &crypto, DeviceToDevicePackets::KeyCheck(vec![1]), Some(&mut ctx)),
        Err(HandshakeError::Encryption(EncryptionError::ThemisError))
    );
    assert_eq!(ctx, context(id_a(), ConnectionStatus::PendingEncryption));
}

#[test]
fn nonces_are_fresh_and_of_the_stated_length() {
    let first = fresh_nonce().unwrap();
    let second = fresh_nonce().unwrap();
    assert_eq!(NONCE_LEN, 256);
    assert_eq!(first.len(), 256);
    assert_eq!(second.len(), 256);
    assert_ne!(first, second);
    assert_ne!(first, vec![0u8; 256]);
}

#[test]
fn steps_build_what_they_state() {
    assert_eq!(
        hello_reply(id_b(), id_a(), true, true),
        message(DeviceToDevicePackets::Hello { device_id: id_b(), paired: true })
    );
    assert_eq!(
        hello_reply(id_b(), id_a(), false, false),
        Response::NewContext {
            message: Protocol::DeviceToDevice(DeviceToDevicePackets::Hello {
                device_id: id_b(),
                paired: false
            }),
            new_context: context(id_a(), ConnectionStatus::Entry),
        }
    );
    assert_eq!(check_test_value::<()>(&vec![1, 2], &vec![1, 2]), Ok(()));
    assert_eq!(
        check_test_value::<()>(&vec![1, 2], &vec![1, 3]),
        Err(HandshakeError::KeyIntegrityFailure)
    );
    assert_eq!(
        check_test_value::<()>(&vec![], &vec![0]),
        Err(HandshakeError::KeyIntegrityFailure)
    );

    let mut ctx = context(id_a(), ConnectionStatus::Entry);
    let reply = begin_pairing(
        &mut ctx,
        PrivateKey { bytes: vec![1] },
        PublicKey { bytes: vec![2] },
        Some(vec![3]),
        Some(vec![4]),
    );
    assert_eq!(
        reply,
        message(DeviceToDevicePackets::SendKey { public_key: vec![2], test: Some(vec![4]) })
    );
    assert_eq!(
        ctx.status,
        ConnectionStatus::Pairing {
            public_key: PublicKey { bytes: vec![2] },
            private_key: PrivateKey { bytes: vec![1] },
            key_b: None,
            test: Some(vec![3]),
        }
    );

    assert_eq!(
        finish_pairing_as_initiator(id_b(), &PublicKey { bytes: vec![5] }, None),
        Response::NewContext {
            message: Protocol::DeviceToDevice(DeviceToDevicePackets::SendKey {
                public_key: vec![5],
                test: None
            }),
            new_context: context(id_b(), ConnectionStatus::PendingEncryption),
        }
    );
    assert_eq!(
        finish_pairing_as_responder(id_a(), vec![6, 7]),
        Response::NewContext {
            message: Protocol::DeviceToDevice(DeviceToDevicePackets::KeyCheck(vec![6, 7])),
            new_context: context(id_a(), ConnectionStatus::PendingEncryption),
        }
    );

    let mut ctx = context(id_a(), ConnectionStatus::PendingEncryption);
    remember_nonce(&mut ctx, &vec![8, 9]);
    assert_eq!(ctx.status, ConnectionStatus::CheckingKeys { random_bytes: vec![8, 9] });
    assert_eq!(echo_nonce(vec![1]), message(DeviceToDevicePackets::KeyCheck(vec![1])));

    let keys = DynamicEncryptionManager::Themis(ThemisEncryptionManager {
        self_private_key: vec![1],
        self_public_key: vec![2],
        other_public_key: vec![3],
    });
    assert_eq!(
        check_nonce(id_a(), &vec![1, 2], &vec![1, 2], keys.clone()),
        Response::NewContext {
            message: Protocol::DeviceToDevice(DeviceToDevicePackets::KeyCheckResponse(true)),
            new_context: ConnectionContext {
                encryption: keys.clone(),
                status: ConnectionStatus::Connected,
                connection_type: direct(id_a()),
            },
        }
    );
    assert_eq!(
        check_nonce(id_a(), &vec![1, 2], &vec![2, 1], keys.clone()),
        message(DeviceToDevicePackets::KeyCheckResponse(false))
    );
    let mut ctx = context(id_a(), ConnectionStatus::CheckingKeys { random_bytes: vec![1] });
    assert_eq!(adopt_encryption(&mut ctx, keys.clone()), Response::Nothing);
    assert_eq!(
        ctx,
        ConnectionContext {
            encryption: keys,
            status: ConnectionStatus::Connected,
            connection_type: direct(id_a()),
        }
    );
}

#[test]
fn steps_follow_the_answers_they_are_given() {
    assert_eq!(
        weigh_pair_request::<String>(Err(String::from("down"))),
        Approval::Settled(Err(HandshakeError::DeviceManager(String::from("down"))))
    );
    assert_eq!(
        weigh_pair_request::<String>(Ok((false, Some(vec![1])))),
        Approval::Settled(Ok(refusal_response(0, 3, ERROR_PAIRING_REJECTED, "Pairing Rejected")))
    );
    assert_eq!(
        weigh_pair_request::<String>(Ok((true, Some(vec![1])))),
        Approval::Granted { test: Some(vec![1]) }
    );
    assert_eq!(weigh_pair_request::<String>(Ok((true, None))), Approval::Granted { test: None });

    let before = context(id_a(), ConnectionStatus::Entry);
    let mut ctx = before.clone();
    let refused = approved_step::<String>(
        &mut ctx,
        PrivateKey { bytes: vec![1] },
        PublicKey { bytes: vec![2] },
        Some(vec![3]),
        Some(Err(EncryptionError::ThemisError)),
    );
    assert_eq!(refused, Err(HandshakeError::Encryption(EncryptionError::ThemisError)));
    assert_eq!(ctx, before);
    let begun = approved_step::<String>(
        &mut ctx,
        PrivateKey { bytes: vec![1] },
        PublicKey { bytes: vec![2] },
        Some(vec![3]),
        Some(Ok(vec![4])),
    );
    assert_eq!(
        begun,
        Ok(message(DeviceToDevicePackets::SendKey { public_key: vec![2], test: Some(vec![4]) }))
    );
    assert_eq!(
        ctx.status,
        ConnectionStatus::Pairing {
            public_key: PublicKey { bytes: vec![2] },
            private_key: PrivateKey { bytes: vec![1] },
            key_b: None,
            test: Some(vec![3]),
        }
    );
    let mut ctx = before.clone();
    let plain = approved_step::<String>(
        &mut ctx,
        PrivateKey { bytes: vec![1] },
        PublicKey { bytes: vec![2] },
        None,
        None,
    );
    assert_eq!(
        plain,
        Ok(message(DeviceToDevicePackets::SendKey { public_key: vec![2], test: None }))
    );

    assert_eq!(test_verdict::<String>(&vec![1, 2], Ok(vec![1, 2])), Ok(()));
    assert_eq!(
        test_verdict::<String>(&vec![1, 2], Ok(vec![2, 1])),
        Err(HandshakeError::KeyIntegrityFailure)
    );
    assert_eq!(
        test_verdict::<String>(&vec![1, 2], Err(EncryptionError::ThemisError)),
        Err(HandshakeError::Encryption(EncryptionError::ThemisError))
    );

    let answer = echo_nonce(vec![5]);
    assert_eq!(registered_step::<String>(Ok(()), answer.clone()), Ok(answer.clone()));
    assert_eq!(
        registered_step(Err(String::from("full")), answer),
        Err(HandshakeError::DeviceManager(String::from("full")))
    );

    let waiting = context(id_a(), ConnectionStatus::PendingEncryption);
    let mut ctx = waiting.clone();
    assert_eq!(
        waiting_step::<String>(&mut ctx, &vec![7, 8], Err(EncryptionError::ThemisError)),
        Err(HandshakeError::Encryption(EncryptionError::ThemisError))
    );
    assert_eq!(ctx, waiting);
    assert_eq!(
        waiting_step::<String>(&mut ctx, &vec![7, 8], Ok(vec![9])),
        Ok(message(DeviceToDevicePackets::KeyCheck(vec![9])))
    );
    assert_eq!(ctx.status, ConnectionStatus::CheckingKeys { random_bytes: vec![7, 8] });
}

#[test]
fn only_the_peers_key_changes_the_records() {
    let mut manager = FakeManager::new(id_b());
    let crypto = FakeCrypto::new(20);
    let hello = DeviceToDevicePackets::Hello { device_id: id_a(), paired: false };
    handle(&mut manager, &crypto, hello, None).unwrap();
    let mut ctx = context(id_a(), ConnectionStatus::Entry);
    let request =
        DeviceToDevicePackets::PairRequest { device_name: String::from("a"), details: None };
    handle(&mut manager, &crypto, request, Some(&mut ctx)).unwrap();
    assert!(manager.paired.is_empty());
    let key = DeviceToDevicePackets::SendKey { public_key: vec![10; 4], test: None };
    handle(&mut manager, &crypto, key, Some(&mut ctx)).unwrap();
    assert_eq!(manager.paired.len(), 1);
    assert_eq!(
        manager.paired[&id_a()].manager,
        DynamicEncryptionManager::Themis(ThemisEncryptionManager {
            self_private_key: vec![20; 4],
            self_public_key: vec![20; 4],
            other_public_key: vec![10; 4],
        })
    );
    let mut ctx = context(id_a(), ConnectionStatus::CheckingKeys { random_bytes: vec![1] });
    let verdict = DeviceToDevicePackets::KeyCheckResponse(false);
    assert!(handle(&mut manager, &crypto, verdict, Some(&mut ctx)).is_err());
    assert_eq!(manager.paired.len(), 1);
}
