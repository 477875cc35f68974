use abst_rs::device_id::DeviceId;
use abst_rs::envelope::{decode_packet, Envelope};
use abst_rs::error::PacketReadError;
use abst_rs::packet::{Packet, Protocol as ProtocolFamily};
use abst_rs::packets::dtd::DeviceToDevicePackets;
use abst_rs::packets::realm::{LoginDetails, RealmPacket};
use abst_rs::packets::{ErrorPacket, PacketType, Protocol};
use abst_rs::reader::ByteReader;

fn dtd_samples() -> Vec<DeviceToDevicePackets> {
    vec![
        DeviceToDevicePackets::Heartbeat,
        DeviceToDevicePackets::Error(ErrorPacket::invalid_state(0, 3)),
        DeviceToDevicePackets::Hello { device_id: DeviceId::from_u64_pair(7, 8), paired: false },
        DeviceToDevicePackets::PairRequest { device_name: String::from("phone"), details: None },
        DeviceToDevicePackets::PairRequest {
            device_name: String::new(),
            details: Some(vec![1, 2, 3]),
        },
        DeviceToDevicePackets::SendKey { public_key: vec![9; 40], test: Some(vec![]) },
        DeviceToDevicePackets::SendKey { public_key: vec![], test: None },
        DeviceToDevicePackets::KeyCheck(vec![3; 256]),
        DeviceToDevicePackets::KeyCheckResponse(true),
        DeviceToDevicePackets::KeyCheckResponse(false),
    ]
}

fn realm_samples() -> Vec<RealmPacket> {
    vec![
        RealmPacket::Heartbeat,
        RealmPacket::Error(ErrorPacket::from(4u8)),
        RealmPacket::Hello { device_id: DeviceId::from_u64_pair(1, 0), public_key_hash: None },
        RealmPacket::Hello {
            device_id: DeviceId::from_u64_pair(0, 1),
            public_key_hash: Some(vec![5; 32]),
        },
        RealmPacket::SendKey { public_key: vec![1, 2] },
        RealmPacket::KeyCheck(vec![]),
        RealmPacket::KeyCheckResponse(false),
        RealmPacket::DeviceLogin(LoginDetails::Absent),
        RealmPacket::DeviceLogin(LoginDetails::Other { id: 3, details: vec![7] }),
    ]
}

#[test]
fn packet_ids_are_the_registered_ones() {
    let ids: Vec<u8> = dtd_samples().iter().map(|p| p.get_packet_id()).collect();
    assert_eq!(ids, vec![0, 1, 2, 3, 3, 4, 4, 5, 6, 6]);
    let ids: Vec<u8> = realm_samples().iter().map(|p| p.get_packet_id()).collect();
    assert_eq!(ids, vec![0, 1, 2, 2, 4, 5, 6, 7, 7]);
    assert_eq!(Protocol::DeviceToDevice(DeviceToDevicePackets::Heartbeat).get_protocol_id(), 0);
    assert_eq!(Protocol::DeviceToRealm(RealmPacket::Heartbeat).get_protocol_id(), 2);
    assert_eq!(Protocol::DeviceToRealm(RealmPacket::KeyCheck(vec![])).packet_id(), 5);
    assert_eq!(DeviceToDevicePackets::KeyCheck(vec![]).packet_id(), 5);
    assert_eq!(RealmPacket::DeviceLogin(LoginDetails::Absent).packet_id(), 7);
}

#[test]
fn supported_protocols_are_zero_and_two() {
    for id in 0..=255u8 {
        assert_eq!(Protocol::supports_protocol_id(id), id == 0 || id == 2);
    }
}

#[test]
fn unregistered_packet_ids_give_none() {
    let body = [0xc3, 0xcc, 1, 0xcc, 2, 0xcc, 3, 0xc0];
    for id in 0..=255u8 {
        let mut reader = ByteReader::new(&body);
        let got = DeviceToDevicePackets::build_or_none(id, &mut reader);
        assert_eq!(got.is_none(), id > 6);
        if got.is_none() {
            assert_eq!(reader.consumed(), 0);
        }
        let mut reader = ByteReader::new(&body);
        let got = RealmPacket::build_or_none(id, &mut reader);
        assert_eq!(got.is_none(), id == 3 || id > 7);
        if got.is_none() {
            assert_eq!(reader.consumed(), 0);
        }
    }
}

#[test]
fn unregistered_protocol_or_packet_gives_none() {
    for protocol_id in 0..=255u8 {
        for packet_id in 0..=255u8 {
            let mut reader = ByteReader::new(&[]);
            let got = Protocol::build_if_supported(protocol_id, packet_id, &mut reader);
            let registered = match protocol_id {
                0 => packet_id <= 6,
                2 => packet_id != 3 && packet_id <= 7,
                _ => false,
            };
            assert_eq!(got.is_some(), registered);
        }
    }
    let envelope = Envelope { protocol_id: 1, packet_id: 0, body: vec![] };
    assert_eq!(decode_packet::<Protocol>(&envelope), None);
    let envelope = Envelope { protocol_id: 2, packet_id: 3, body: vec![] };
    assert_eq!(decode_packet::<Protocol>(&envelope), None);
}

#[test]
fn registered_id_with_malformed_body_gives_an_error() {
    let mut reader = ByteReader::new(&[0xcf, 1]);
    assert_eq!(
        DeviceToDevicePackets::build_or_none(2, &mut reader),
        Some(Err(PacketReadError::Truncated))
    );
    assert_eq!(reader.consumed(), 0);
    let mut reader = ByteReader::new(&[0xa1, 0xff, 0xc0]);
    assert_eq!(
        DeviceToDevicePackets::build_or_none(3, &mut reader),
        Some(Err(PacketReadError::InvalidUtf8))
    );
    let mut reader = ByteReader::new(&[0xc0]);
    assert_eq!(RealmPacket::build_or_none(6, &mut reader), Some(Err(PacketReadError::BadTag)));
    let envelope = Envelope { protocol_id: 0, packet_id: 5, body: vec![0xc4, 2, 1] };
    assert_eq!(decode_packet::<Protocol>(&envelope), Some(Err(PacketReadError::Truncated)));
}

#[test]
fn every_packet_round_trips_through_its_family() {
    for packet in dtd_samples() {
        let mut out = Vec::new();
        packet.clone().write_payload(&mut out).unwrap();
        assert_eq!(out[0], packet.get_packet_id());
        let mut reader = ByteReader::new(&out[1..]);
        assert_eq!(DeviceToDevicePackets::build_or_none(out[0], &mut reader), Some(Ok(packet)));
        assert_eq!(reader.remaining(), 0);
    }
    for packet in realm_samples() {
        let mut out = Vec::new();
        packet.clone().write_payload(&mut out).unwrap();
        let mut reader = ByteReader::new(&out[1..]);
        assert_eq!(RealmPacket::build_or_none(out[0], &mut reader), Some(Ok(packet)));
        assert_eq!(reader.remaining(), 0);
    }
}

#[test]
fn every_packet_round_trips_through_the_protocol() {
    let mut all: Vec<Protocol> = dtd_samples().into_iter().map(Protocol::DeviceToDevice).collect();
    all.extend(realm_samples().into_iter().map(Protocol::DeviceToRealm));
    for packet in all {
        let mut out = Vec::new();
        packet.clone().write_payload(&mut out).unwrap();
        assert_eq!(out[0], packet.get_protocol_id());
        assert_eq!(out[1], packet.packet_id());
        let mut reader = ByteReader::new(&out[2..]);
        assert_eq!(Protocol::build_if_supported(out[0], out[1], &mut reader), Some(Ok(packet)));
        assert_eq!(reader.remaining(), 0);
    }
}

#[test]
fn heartbeat_has_no_content() {
    let mut out = Vec::new();
    Protocol::DeviceToDevice(DeviceToDevicePackets::Heartbeat).write_payload(&mut out).unwrap();
    assert_eq!(out, vec![0, 0]);
    let mut reader = ByteReader::new(&[1, 2, 3]);
    assert_eq!(RealmPacket::build_or_none(0, &mut reader), Some(Ok(RealmPacket::Heartbeat)));
    assert_eq!(reader.consumed(), 0);
}
