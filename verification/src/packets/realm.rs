//! The packets that a device exchanges with a realm.

use crate::content::{too_long, PacketContent, TaggedContent};
use crate::device_id::DeviceId;
use crate::error::{PacketReadError, PacketWriteError};
use crate::packet::Packet;
use crate::packets::{ErrorPacket, ErrorPacketView};
use crate::reader::ByteReader;
use crate::wire::{
    enc_bin, enc_u8, lemma_bin_round_trip, lemma_u8_round_trip, parse_bin, parse_u8, write_bin,
    write_u8, Parsed,
};
use vstd::prelude::*;

verus! {

/// Packet id of [`RealmPacket::Heartbeat`].
pub const REALM_HEARTBEAT: u8 = 0;

/// Packet id of [`RealmPacket::Error`].
pub const REALM_ERROR: u8 = 1;

/// Packet id of [`RealmPacket::Hello`].
pub const REALM_HELLO: u8 = 2;

/// Packet id of [`RealmPacket::SendKey`].
pub const REALM_SEND_KEY: u8 = 4;

/// Packet id of [`RealmPacket::KeyCheck`].
pub const REALM_KEY_CHECK: u8 = 5;

/// Packet id of [`RealmPacket::KeyCheckResponse`].
pub const REALM_KEY_CHECK_RESPONSE: u8 = 6;

/// Packet id of [`RealmPacket::DeviceLogin`].
pub const REALM_DEVICE_LOGIN: u8 = 7;

/// The login id that stands for "no login details".
pub const LOGIN_NONE: u8 = 0;

/// How a device logs in to a realm.
#[derive(Debug, Clone, PartialEq, Eq)]
pub enum LoginDetails {
    /// No login details.
    Absent,
    /// Login details that are up to the implementer. The id 0 is kept for
    /// [`LoginDetails::Absent`].
    Other {
        /// The kind of the details; never 0 on the wire.
        id: u8,
        /// The details.
        details: Vec<u8>,
    },
}

/// The mathematical value of a [`LoginDetails`].
pub enum LoginDetailsView {
    Absent,
    Other { id: u8, details: Seq<u8> },
}

impl View for LoginDetails {
    type V = LoginDetailsView;

    open spec fn view(&self) -> LoginDetailsView {
        match *self {
            LoginDetails::Absent => LoginDetailsView::Absent,
            LoginDetails::Other { id, details } => LoginDetailsView::Other {
                id,
                details: details.deep_view(),
            },
        }
    }
}

impl DeepView for LoginDetails {
    type V = LoginDetailsView;

    open spec fn deep_view(&self) -> LoginDetailsView {
        self.view()
    }
}

impl PacketContent for LoginDetails {
    open spec fn write_error(v: LoginDetailsView) -> Option<PacketWriteError> {
        match v {
            LoginDetailsView::Absent => None,
            LoginDetailsView::Other { id, details } => if id == LOGIN_NONE {
                Some(PacketWriteError::ReservedValue)
            } else {
                too_long(details.len())
            },
        }
    }

    open spec fn encoding(v: LoginDetailsView) -> Seq<u8> {
        match v {
            LoginDetailsView::Absent => enc_u8(LOGIN_NONE),
            LoginDetailsView::Other { id, details } => enc_u8(id) + enc_bin(details),
        }
    }

    open spec fn parse(s: Seq<u8>) -> Parsed<LoginDetailsView> {
        match parse_u8(s) {
            Err(e) => Err(e),
            Ok((id, _)) => if id == LOGIN_NONE {
                Ok((LoginDetailsView::Absent, 2))
            } else {
                match parse_bin(s.skip(2)) {
                    Ok((details, n)) => Ok((LoginDetailsView::Other { id, details }, 2 + n)),
                    Err(e) => Err(e),
                }
            },
        }
    }

    proof fn lemma_round_trip(v: LoginDetailsView, rest: Seq<u8>) {
        match v {
            LoginDetailsView::Absent => {
                lemma_u8_round_trip(LOGIN_NONE, rest);
            },
            LoginDetailsView::Other { id, details } => {
                let whole = Self::encoding(v) + rest;
                lemma_u8_round_trip(id, enc_bin(details) + rest);
                assert(whole.skip(2) =~= enc_bin(details) + rest);
                lemma_bin_round_trip(details, rest);
            },
        }
    }

    fn read(reader: &mut ByteReader) -> (r: Result<LoginDetails, PacketReadError>) {
        let start = *reader;
        let id: u8 = match reader.read_u8() {
            Ok(id) => id,
            Err(e) => {
                return Err(e);
            },
        };
        if id == LOGIN_NONE {
            Ok(LoginDetails::Absent)
        } else {
            match reader.read_bin() {
                Ok(details) => {
                    proof {
                        crate::content::lemma_bytes_deep_view(&details);
                    }
                    Ok(LoginDetails::Other { id, details })
                },
                Err(e) => {
                    *reader = start;
                    Err(e)
                },
            }
        }
    }

    fn write(&self, writer: &mut Vec<u8>) -> (r: Result<(), PacketWriteError>) {
        match self {
            LoginDetails::Absent => {
                write_u8(writer, LOGIN_NONE);
                Ok(())
            },
            LoginDetails::Other { id, details } => {
                proof {
                    crate::content::lemma_bytes_deep_view(details);
                }
                if *id == LOGIN_NONE {
                    return Err(PacketWriteError::ReservedValue);
                }
                let mark: usize = writer.len();
                write_u8(writer, *id);
                match write_bin(writer, details.as_slice()) {
                    Ok(_) => {
                        assert(writer@ =~= old(writer)@ + Self::encoding(self@));
                        Ok(())
                    },
                    Err(e) => {
                        writer.truncate(mark);
                        assert(writer@ =~= old(writer)@);
                        Err(e)
                    },
                }
            },
        }
    }
}

impl TaggedContent for LoginDetails {
    proof fn lemma_first_byte(v: LoginDetailsView) {
    }
}

/// A packet between a device and a realm.
#[derive(Debug, Clone, PartialEq, Eq)]
pub enum RealmPacket {
    /// Keeps the connection alive.
    Heartbeat,
    /// Reports an error to the peer.
    Error(ErrorPacket),
    /// Sent to the realm after connecting. Without a key hash the realm
    /// moves to a key exchange; with one it checks the key.
    Hello {
        /// The sender's device id.
        device_id: DeviceId,
        /// The hash of the public key that the realm should hold.
        public_key_hash: Option<Vec<u8>>,
    },
    /// Sent by the realm after a successful login.
    SendKey {
        /// The realm's public key.
        public_key: Vec<u8>,
    },
    /// Carries an encrypted nonce, to check that both sides hold the same
    /// keys.
    KeyCheck(Vec<u8>),
    /// Says whether the nonce that came back was the one sent.
    KeyCheckResponse(bool),
    /// Logs a device in.
    DeviceLogin(LoginDetails),
}

/// The mathematical value of a [`RealmPacket`].
pub enum RealmPacketView {
    Heartbeat,
    Error(ErrorPacketView),
    Hello { device_id: DeviceId, public_key_hash: Option<Seq<u8>> },
    SendKey { public_key: Seq<u8> },
    KeyCheck(Seq<u8>),
    KeyCheckResponse(bool),
    DeviceLogin(LoginDetailsView),
}

impl View for RealmPacket {
    type V = RealmPacketView;

    open spec fn view(&self) -> RealmPacketView {
        match *self {
            RealmPacket::Heartbeat => RealmPacketView::Heartbeat,
            RealmPacket::Error(e) => RealmPacketView::Error(e@),
            RealmPacket::Hello { device_id, public_key_hash } => RealmPacketView::Hello {
                device_id,
                public_key_hash: public_key_hash.deep_view(),
            },
            RealmPacket::SendKey { public_key } => RealmPacketView::SendKey {
                public_key: public_key.deep_view(),
            },
            RealmPacket::KeyCheck(b) => RealmPacketView::KeyCheck(b.deep_view()),
            RealmPacket::KeyCheckResponse(ok) => RealmPacketView::KeyCheckResponse(ok),
            RealmPacket::DeviceLogin(login) => RealmPacketView::DeviceLogin(login@),
        }
    }
}

impl DeepView for RealmPacket {
    type V = RealmPacketView;

    open spec fn deep_view(&self) -> RealmPacketView {
        self.view()
    }
}

impl Packet for RealmPacket {
    open spec fn id_of(v: RealmPacketView) -> u8 {
        match v {
            RealmPacketView::Heartbeat => REALM_HEARTBEAT,
            RealmPacketView::Error(_) => REALM_ERROR,
            RealmPacketView::Hello { .. } => REALM_HELLO,
            RealmPacketView::SendKey { .. } => REALM_SEND_KEY,
            RealmPacketView::KeyCheck(_) => REALM_KEY_CHECK,
            RealmPacketView::KeyCheckResponse(_) => REALM_KEY_CHECK_RESPONSE,
            RealmPacketView::DeviceLogin(_) => REALM_DEVICE_LOGIN,
        }
    }

    open spec fn registered(id: u8) -> bool {
        id == REALM_HEARTBEAT || id == REALM_ERROR || id == REALM_HELLO || id == REALM_SEND_KEY
            || id == REALM_KEY_CHECK || id == REALM_KEY_CHECK_RESPONSE || id == REALM_DEVICE_LOGIN
    }

    open spec fn content_error(v: RealmPacketView) -> Option<PacketWriteError> {
        match v {
            RealmPacketView::Heartbeat => None,
            RealmPacketView::Error(e) => ErrorPacket::write_error(e),
            RealmPacketView::Hello { device_id, public_key_hash } => <(
                DeviceId,
                Option<Vec<u8>>,
            ) as PacketContent>::write_error((device_id, public_key_hash)),
            RealmPacketView::SendKey { public_key } => <Vec<u8> as PacketContent>::write_error(
                public_key,
            ),
            RealmPacketView::KeyCheck(b) => <Vec<u8> as PacketContent>::write_error(b),
            RealmPacketView::KeyCheckResponse(_) => None,
            RealmPacketView::DeviceLogin(login) => LoginDetails::write_error(login),
        }
    }

    open spec fn content(v: RealmPacketView) -> Seq<u8> {
        match v {
            RealmPacketView::Heartbeat => Seq::empty(),
            RealmPacketView::Error(e) => ErrorPacket::encoding(e),
            RealmPacketView::Hello { device_id, public_key_hash } => <(
                DeviceId,
                Option<Vec<u8>>,
            ) as PacketContent>::encoding((device_id, public_key_hash)),
            RealmPacketView::SendKey { public_key } => <Vec<u8> as PacketContent>::encoding(
                public_key,
            ),
            RealmPacketView::KeyCheck(b) => <Vec<u8> as PacketContent>::encoding(b),
            RealmPacketView::KeyCheckResponse(ok) => <bool as PacketContent>::encoding(ok),
            RealmPacketView::DeviceLogin(login) => LoginDetails::encoding(login),
        }
    }

    open spec fn parse_content(id: u8, s: Seq<u8>) -> Parsed<RealmPacketView> {
        if id == REALM_HEARTBEAT {
            Ok((RealmPacketView::Heartbeat, 0))
        } else if id == REALM_ERROR {
            match ErrorPacket::parse(s) {
                Ok((e, n)) => Ok((RealmPacketView::Error(e), n)),
                Err(e) => Err(e),
            }
        } else if id == REALM_HELLO {
            match <(DeviceId, Option<Vec<u8>>) as PacketContent>::parse(s) {
                Ok((f, n)) => Ok(
                    (RealmPacketView::Hello { device_id: f.0, public_key_hash: f.1 }, n),
                ),
                Err(e) => Err(e),
            }
        } else if id == REALM_SEND_KEY {
            match <Vec<u8> as PacketContent>::parse(s) {
                Ok((public_key, n)) => Ok((RealmPacketView::SendKey { public_key }, n)),
                Err(e) => Err(e),
            }
        } else if id == REALM_KEY_CHECK {
            match <Vec<u8> as PacketContent>::parse(s) {
                Ok((b, n)) => Ok((RealmPacketView::KeyCheck(b), n)),
                Err(e) => Err(e),
            }
        } else if id == REALM_KEY_CHECK_RESPONSE {
            match <bool as PacketContent>::parse(s) {
                Ok((ok, n)) => Ok((RealmPacketView::KeyCheckResponse(ok), n)),
                Err(e) => Err(e),
            }
        } else if id == REALM_DEVICE_LOGIN {
            match LoginDetails::parse(s) {
                Ok((login, n)) => Ok((RealmPacketView::DeviceLogin(login), n)),
                Err(e) => Err(e),
            }
        } else {
            Err(PacketReadError::BadTag)
        }
    }

    proof fn lemma_id_registered(v: RealmPacketView) {
    }

    proof fn lemma_round_trip(v: RealmPacketView, rest: Seq<u8>) {
        match v {
            RealmPacketView::Heartbeat => {},
            RealmPacketView::Error(e) => {
                ErrorPacket::lemma_round_trip(e, rest);
            },
            RealmPacketView::Hello { device_id, public_key_hash } => {
                <(DeviceId, Option<Vec<u8>>) as PacketContent>::lemma_round_trip(
                    (device_id, public_key_hash),
                    rest,
                );
            },
            RealmPacketView::SendKey { public_key } => {
                <Vec<u8> as PacketContent>::lemma_round_trip(public_key, rest);
            },
            RealmPacketView::KeyCheck(b) => {
                <Vec<u8> as PacketContent>::lemma_round_trip(b, rest);
            },
            RealmPacketView::KeyCheckResponse(ok) => {
                <bool as PacketContent>::lemma_round_trip(ok, rest);
            },
            RealmPacketView::DeviceLogin(login) => {
                LoginDetails::lemma_round_trip(login, rest);
            },
        }
    }

    fn get_packet_id(&self) -> (r: u8) {
        match self {
            RealmPacket::Heartbeat => REALM_HEARTBEAT,
            RealmPacket::Error(_) => REALM_ERROR,
            RealmPacket::Hello { .. } => REALM_HELLO,
            RealmPacket::SendKey { .. } => REALM_SEND_KEY,
            RealmPacket::KeyCheck(_) => REALM_KEY_CHECK,
            RealmPacket::KeyCheckResponse(_) => REALM_KEY_CHECK_RESPONSE,
            RealmPacket::DeviceLogin(_) => REALM_DEVICE_LOGIN,
        }
    }

    fn write_payload(self, writer: &mut Vec<u8>) -> (r: Result<(), PacketWriteError>) {
        let mark: usize = writer.len();
        let ghost v = self.deep_view();
        writer.push(self.get_packet_id());
        let written = match self {
            RealmPacket::Heartbeat => Ok(()),
            RealmPacket::Error(e) => e.write(writer),
            RealmPacket::Hello { device_id, public_key_hash } => (device_id, public_key_hash).write(
                writer,
            ),
            RealmPacket::SendKey { public_key } => public_key.write(writer),
            RealmPacket::KeyCheck(b) => b.write(writer),
            RealmPacket::KeyCheckResponse(ok) => ok.write(writer),
            RealmPacket::DeviceLogin(login) => login.write(writer),
        };
        match written {
            Ok(_) => {
                assert(writer@ =~= old(writer)@ + (seq![Self::id_of(v)] + Self::content(v)));
                Ok(())
            },
            Err(e) => {
                writer.truncate(mark);
                assert(writer@ =~= old(writer)@);
                Err(e)
            },
        }
    }

    fn build_or_none(id: u8, reader: &mut ByteReader) -> (r: Option<
        Result<RealmPacket, PacketReadError>,
    >) {
        if id == REALM_HEARTBEAT {
            assert(reader@ =~= reader@.skip(0));
            Some(Ok(RealmPacket::Heartbeat))
        } else if id == REALM_ERROR {
            Some(
                match ErrorPacket::read(reader) {
                    Ok(e) => Ok(RealmPacket::Error(e)),
                    Err(e) => Err(e),
                },
            )
        } else if id == REALM_HELLO {
            Some(
                match <(DeviceId, Option<Vec<u8>>) as PacketContent>::read(reader) {
                    Ok(f) => Ok(RealmPacket::Hello { device_id: f.0, public_key_hash: f.1 }),
                    Err(e) => Err(e),
                },
            )
        } else if id == REALM_SEND_KEY {
            Some(
                match <Vec<u8> as PacketContent>::read(reader) {
                    Ok(public_key) => Ok(RealmPacket::SendKey { public_key }),
                    Err(e) => Err(e),
                },
            )
        } else if id == REALM_KEY_CHECK {
            Some(
                match <Vec<u8> as PacketContent>::read(reader) {
                    Ok(b) => Ok(RealmPacket::KeyCheck(b)),
                    Err(e) => Err(e),
                },
            )
        } else if id == REALM_KEY_CHECK_RESPONSE {
            Some(
                match <bool as PacketContent>::read(reader) {
                    Ok(ok) => Ok(RealmPacket::KeyCheckResponse(ok)),
                    Err(e) => Err(e),
                },
            )
        } else if id == REALM_DEVICE_LOGIN {
            Some(
                match LoginDetails::read(reader) {
                    Ok(login) => Ok(RealmPacket::DeviceLogin(login)),
                    Err(e) => Err(e),
                },
            )
        } else {
            None
        }
    }
}

} // verus!
