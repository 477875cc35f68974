//! The packets that two devices exchange directly.
//!
//! Packets 0 to 4 travel in the clear and are only in order before the
//! session is marked as secure.

use crate::content::PacketContent;
use crate::device_id::DeviceId;
use crate::error::{PacketReadError, PacketWriteError};
use crate::packet::Packet;
use crate::packets::{ErrorPacket, ErrorPacketView};
use crate::reader::ByteReader;
use crate::wire::Parsed;
use vstd::prelude::*;

verus! {

/// Packet id of [`DeviceToDevicePackets::Heartbeat`].
pub const DTD_HEARTBEAT: u8 = 0;

/// Packet id of [`DeviceToDevicePackets::Error`].
pub const DTD_ERROR: u8 = 1;

/// Packet id of [`DeviceToDevicePackets::Hello`].
pub const DTD_HELLO: u8 = 2;

/// Packet id of [`DeviceToDevicePackets::PairRequest`].
pub const DTD_PAIR_REQUEST: u8 = 3;

/// Packet id of [`DeviceToDevicePackets::SendKey`].
pub const DTD_SEND_KEY: u8 = 4;

/// Packet id of [`DeviceToDevicePackets::KeyCheck`].
pub const DTD_KEY_CHECK: u8 = 5;

/// Packet id of [`DeviceToDevicePackets::KeyCheckResponse`].
pub const DTD_KEY_CHECK_RESPONSE: u8 = 6;

/// A packet between two devices.
#[derive(Debug, Clone, PartialEq, Eq)]
pub enum DeviceToDevicePackets {
    /// Keeps the connection alive.
    Heartbeat,
    /// Reports an error to the peer.
    Error(ErrorPacket),
    /// Opens the exchange.
    Hello {
        /// The sender's device id.
        device_id: DeviceId,
        /// Whether the sender holds a pairing with the receiver.
        paired: bool,
    },
    /// Asks to be paired.
    PairRequest {
        /// The sender's device name.
        device_name: String,
        /// Details that are up to the implementer.
        details: Option<Vec<u8>>,
    },
    /// Hands over the sender's public key, with the encrypted test value
    /// where one was agreed on.
    SendKey {
        /// The sender's public key.
        public_key: Vec<u8>,
        /// The test value, encrypted.
        test: Option<Vec<u8>>,
    },
    /// Carries an encrypted nonce, to check that both sides hold the same
    /// keys.
    KeyCheck(Vec<u8>),
    /// Says whether the nonce that came back was the one sent.
    KeyCheckResponse(bool),
}

/// The mathematical value of a [`DeviceToDevicePackets`].
pub enum DeviceToDeviceView {
    Heartbeat,
    Error(ErrorPacketView),
    Hello { device_id: DeviceId, paired: bool },
    PairRequest { device_name: Seq<char>, details: Option<Seq<u8>> },
    SendKey { public_key: Seq<u8>, test: Option<Seq<u8>> },
    KeyCheck(Seq<u8>),
    KeyCheckResponse(bool),
}

impl View for DeviceToDevicePackets {
    type V = DeviceToDeviceView;

    open spec fn view(&self) -> DeviceToDeviceView {
        match *self {
            DeviceToDevicePackets::Heartbeat => DeviceToDeviceView::Heartbeat,
            DeviceToDevicePackets::Error(e) => DeviceToDeviceView::Error(e@),
            DeviceToDevicePackets::Hello { device_id, paired } => DeviceToDeviceView::Hello {
                device_id,
                paired,
            },
            DeviceToDevicePackets::PairRequest {
                device_name,
                details,
            } => DeviceToDeviceView::PairRequest {
                device_name: device_name@,
                details: details.deep_view(),
            },
            DeviceToDevicePackets::SendKey { public_key, test } => DeviceToDeviceView::SendKey {
                public_key: public_key.deep_view(),
                test: test.deep_view(),
            },
            DeviceToDevicePackets::KeyCheck(b) => DeviceToDeviceView::KeyCheck(b.deep_view()),
            DeviceToDevicePackets::KeyCheckResponse(ok) => DeviceToDeviceView::KeyCheckResponse(ok),
        }
    }
}

impl DeepView for DeviceToDevicePackets {
    type V = DeviceToDeviceView;

    open spec fn deep_view(&self) -> DeviceToDeviceView {
        self.view()
    }
}

impl Packet for DeviceToDevicePackets {
    open spec fn id_of(v: DeviceToDeviceView) -> u8 {
        match v {
            DeviceToDeviceView::Heartbeat => DTD_HEARTBEAT,
            DeviceToDeviceView::Error(_) => DTD_ERROR,
            DeviceToDeviceView::Hello { .. } => DTD_HELLO,
            DeviceToDeviceView::PairRequest { .. } => DTD_PAIR_REQUEST,
            DeviceToDeviceView::SendKey { .. } => DTD_SEND_KEY,
            DeviceToDeviceView::KeyCheck(_) => DTD_KEY_CHECK,
            DeviceToDeviceView::KeyCheckResponse(_) => DTD_KEY_CHECK_RESPONSE,
        }
    }

    open spec fn registered(id: u8) -> bool {
        id <= DTD_KEY_CHECK_RESPONSE
    }

    open spec fn content_error(v: DeviceToDeviceView) -> Option<PacketWriteError> {
        match v {
            DeviceToDeviceView::Heartbeat => None,
            DeviceToDeviceView::Error(e) => ErrorPacket::write_error(e),
            DeviceToDeviceView::Hello { device_id, paired } => None,
            DeviceToDeviceView::PairRequest { device_name, details } => <(
                String,
                Option<Vec<u8>>,
            ) as PacketContent>::write_error((device_name, details)),
            DeviceToDeviceView::SendKey { public_key, test } => <(
                Vec<u8>,
                Option<Vec<u8>>,
            ) as PacketContent>::write_error((public_key, test)),
            DeviceToDeviceView::KeyCheck(b) => <Vec<u8> as PacketContent>::write_error(b),
            DeviceToDeviceView::KeyCheckResponse(_) => None,
        }
    }

    open spec fn content(v: DeviceToDeviceView) -> Seq<u8> {
        match v {
            DeviceToDeviceView::Heartbeat => Seq::empty(),
            DeviceToDeviceView::Error(e) => ErrorPacket::encoding(e),
            DeviceToDeviceView::Hello { device_id, paired } => <(
                DeviceId,
                bool,
            ) as PacketContent>::encoding((device_id, paired)),
            DeviceToDeviceView::PairRequest { device_name, details } => <(
                String,
                Option<Vec<u8>>,
            ) as PacketContent>::encoding((device_name, details)),
            DeviceToDeviceView::SendKey { public_key, test } => <(
                Vec<u8>,
                Option<Vec<u8>>,
            ) as PacketContent>::encoding((public_key, test)),
            DeviceToDeviceView::KeyCheck(b) => <Vec<u8> as PacketContent>::encoding(b),
            DeviceToDeviceView::KeyCheckResponse(ok) => <bool as PacketContent>::encoding(ok),
        }
    }

    open spec fn parse_content(id: u8, s: Seq<u8>) -> Parsed<DeviceToDeviceView> {
        if id == DTD_HEARTBEAT {
            Ok((DeviceToDeviceView::Heartbeat, 0))
        } else if id == DTD_ERROR {
            match ErrorPacket::parse(s) {
                Ok((e, n)) => Ok((DeviceToDeviceView::Error(e), n)),
                Err(e) => Err(e),
            }
        } else if id == DTD_HELLO {
            match <(DeviceId, bool) as PacketContent>::parse(s) {
                Ok((f, n)) => Ok((DeviceToDeviceView::Hello { device_id: f.0, paired: f.1 }, n)),
                Err(e) => Err(e),
            }
        } else if id == DTD_PAIR_REQUEST {
            match <(String, Option<Vec<u8>>) as PacketContent>::parse(s) {
                Ok((f, n)) => Ok(
                    (DeviceToDeviceView::PairRequest { device_name: f.0, details: f.1 }, n),
                ),
                Err(e) => Err(e),
            }
        } else if id == DTD_SEND_KEY {
            match <(Vec<u8>, Option<Vec<u8>>) as PacketContent>::parse(s) {
                Ok((f, n)) => Ok((DeviceToDeviceView::SendKey { public_key: f.0, test: f.1 }, n)),
                Err(e) => Err(e),
            }
        } else if id == DTD_KEY_CHECK {
            match <Vec<u8> as PacketContent>::parse(s) {
                Ok((b, n)) => Ok((DeviceToDeviceView::KeyCheck(b), n)),
                Err(e) => Err(e),
            }
        } else if id == DTD_KEY_CHECK_RESPONSE {
            match <bool as PacketContent>::parse(s) {
                Ok((ok, n)) => Ok((DeviceToDeviceView::KeyCheckResponse(ok), n)),
                Err(e) => Err(e),
            }
        } else {
            Err(PacketReadError::BadTag)
        }
    }

    proof fn lemma_id_registered(v: DeviceToDeviceView) {
    }

    proof fn lemma_round_trip(v: DeviceToDeviceView, rest: Seq<u8>) {
        match v {
            DeviceToDeviceView::Heartbeat => {},
            DeviceToDeviceView::Error(e) => {
                ErrorPacket::lemma_round_trip(e, rest);
            },
            DeviceToDeviceView::Hello { device_id, paired } => {
                <(DeviceId, bool) as PacketContent>::lemma_round_trip((device_id, paired), rest);
            },
            DeviceToDeviceView::PairRequest { device_name, details } => {
                <(String, Option<Vec<u8>>) as PacketContent>::lemma_round_trip(
                    (device_name, details),
                    rest,
                );
            },
            DeviceToDeviceView::SendKey { public_key, test } => {
                <(Vec<u8>, Option<Vec<u8>>) as PacketContent>::lemma_round_trip(
                    (public_key, test),
                    rest,
                );
            },
            DeviceToDeviceView::KeyCheck(b) => {
                <Vec<u8> as PacketContent>::lemma_round_trip(b, rest);
            },
            DeviceToDeviceView::KeyCheckResponse(ok) => {
                <bool as PacketContent>::lemma_round_trip(ok, rest);
            },
        }
    }

    fn get_packet_id(&self) -> (r: u8) {
        match self {
            DeviceToDevicePackets::Heartbeat => DTD_HEARTBEAT,
            DeviceToDevicePackets::Error(_) => DTD_ERROR,
            DeviceToDevicePackets::Hello { .. } => DTD_HELLO,
            DeviceToDevicePackets::PairRequest { .. } => DTD_PAIR_REQUEST,
            DeviceToDevicePackets::SendKey { .. } => DTD_SEND_KEY,
            DeviceToDevicePackets::KeyCheck(_) => DTD_KEY_CHECK,
            DeviceToDevicePackets::KeyCheckResponse(_) => DTD_KEY_CHECK_RESPONSE,
        }
    }

    fn write_payload(self, writer: &mut Vec<u8>) -> (r: Result<(), PacketWriteError>) {
        let mark: usize = writer.len();
        let ghost v = self.deep_view();
        writer.push(self.get_packet_id());
        let written = match self {
            DeviceToDevicePackets::Heartbeat => Ok(()),
            DeviceToDevicePackets::Error(e) => e.write(writer),
            DeviceToDevicePackets::Hello { device_id, paired } => (device_id, paired).write(writer),
            DeviceToDevicePackets::PairRequest { device_name, details } => (
                device_name,
                details,
            ).write(writer),
            DeviceToDevicePackets::SendKey { public_key, test } => (public_key, test).write(writer),
            DeviceToDevicePackets::KeyCheck(b) => b.write(writer),
            DeviceToDevicePackets::KeyCheckResponse(ok) => ok.write(writer),
        };
        match written {
            Ok(_) => {
                assert(writer@ =~= old(writer)@ + (seq![Self::id_of(v)] + Self::content(v)));
                Ok(())
            },
            Err(e) => {
                writer.truncate(mark);
                assert(writer@ =~= old(writer)@);
                Err(e)
            },
        }
    }

    fn build_or_none(id: u8, reader: &mut ByteReader) -> (r: Option<
        Result<DeviceToDevicePackets, PacketReadError>,
    >) {
        if id == DTD_HEARTBEAT {
            assert(reader@ =~= reader@.skip(0));
            Some(Ok(DeviceToDevicePackets::Heartbeat))
        } else if id == DTD_ERROR {
            Some(
                match ErrorPacket::read(reader) {
                    Ok(e) => Ok(DeviceToDevicePackets::Error(e)),
                    Err(e) => Err(e),
                },
            )
        } else if id == DTD_HELLO {
            Some(
                match <(DeviceId, bool) as PacketContent>::read(reader) {
                    Ok(f) => Ok(DeviceToDevicePackets::Hello { device_id: f.0, paired: f.1 }),
                    Err(e) => Err(e),
                },
            )
        } else if id == DTD_PAIR_REQUEST {
            Some(
                match <(String, Option<Vec<u8>>) as PacketContent>::read(reader) {
                    Ok(f) => Ok(
                        DeviceToDevicePackets::PairRequest { device_name: f.0, details: f.1 },
                    ),
                    Err(e) => Err(e),
                },
            )
        } else if id == DTD_SEND_KEY {
            Some(
                match <(Vec<u8>, Option<Vec<u8>>) as PacketContent>::read(reader) {
                    Ok(f) => Ok(DeviceToDevicePackets::SendKey { public_key: f.0, test: f.1 }),
                    Err(e) => Err(e),
                },
            )
        } else if id == DTD_KEY_CHECK {
            Some(
                match <Vec<u8> as PacketContent>::read(reader) {
                    Ok(b) => Ok(DeviceToDevicePackets::KeyCheck(b)),
                    Err(e) => Err(e),
                },
            )
        } else if id == DTD_KEY_CHECK_RESPONSE {
            Some(
                match <bool as PacketContent>::read(reader) {
                    Ok(ok) => Ok(DeviceToDevicePackets::KeyCheckResponse(ok)),
                    Err(e) => Err(e),
                },
            )
        } else {
            None
        }
    }
}

} // verus!
