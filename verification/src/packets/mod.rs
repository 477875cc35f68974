//! The packets of the standard protocols, and the error packet that both
//! protocol families share.

pub mod dtd;
pub mod realm;
pub mod handlers;

use crate::content::{PacketContent, TaggedContent};
use crate::error::{PacketReadError, PacketWriteError};
use crate::packet::Packet;
use crate::packets::dtd::{DeviceToDevicePackets, DeviceToDeviceView};
use crate::packets::realm::{RealmPacket, RealmPacketView};
use crate::reader::ByteReader;
use crate::wire::{
    enc_bool, enc_u8, lemma_bool_round_trip, lemma_u8_round_trip, parse_bool, parse_u8,
    write_bool, write_u8, Parsed,
};
use vstd::prelude::*;
use vstd::string::StringExecFns;

verus! {

/// The error code of a packet that arrived in a state that does not expect
/// it.
pub const ERROR_INVALID_STATE: u8 = 0;

/// An error reported to the peer.
#[derive(Debug, Clone, PartialEq, Eq)]
pub enum ErrorPacket {
    /// An error that names the packet that caused it.
    ErrorWithReference {
        /// The protocol id of the offending packet.
        reference_protocol: u8,
        /// The packet id of the offending packet.
        reference_packet: u8,
        /// What went wrong.
        error_code: u8,
        /// A text for people, if any.
        error_message: Option<String>,
    },
    /// An error that names no packet.
    ErrorNoReference {
        /// What went wrong.
        error_code: u8,
        /// A text for people, if any.
        error_message: Option<String>,
    },
}

/// The mathematical value of an [`ErrorPacket`].
pub enum ErrorPacketView {
    /// An error that names the packet that caused it.
    ErrorWithReference {
        reference_protocol: u8,
        reference_packet: u8,
        error_code: u8,
        error_message: Option<Seq<char>>,
    },
    /// An error that names no packet.
    ErrorNoReference { error_code: u8, error_message: Option<Seq<char>> },
}

impl View for ErrorPacket {
    type V = ErrorPacketView;

    open spec fn view(&self) -> ErrorPacketView {
        match *self {
            ErrorPacket::ErrorWithReference {
                reference_protocol,
                reference_packet,
                error_code,
                error_message,
            } => ErrorPacketView::ErrorWithReference {
                reference_protocol,
                reference_packet,
                error_code,
                error_message: error_message.deep_view(),
            },
            ErrorPacket::ErrorNoReference { error_code, error_message } => {
                ErrorPacketView::ErrorNoReference {
                    error_code,
                    error_message: error_message.deep_view(),
                }
            },
        }
    }
}

impl DeepView for ErrorPacket {
    type V = ErrorPacketView;

    open spec fn deep_view(&self) -> ErrorPacketView {
        self.view()
    }
}

impl ErrorPacket {
    /// The error for a packet that arrived in a state that does not expect
    /// it: it names the packet, carries the code of an invalid state and the
    /// text "Invalid State".
    pub fn invalid_state(protocol: u8, packet: u8) -> (r: ErrorPacket)
        ensures
            r@ == (ErrorPacketView::ErrorWithReference {
                reference_protocol: protocol,
                reference_packet: packet,
                error_code: ERROR_INVALID_STATE,
                error_message: Some("Invalid State"@),
            }),
    {
        ErrorPacket::ErrorWithReference {
            reference_protocol: protocol,
            reference_packet: packet,
            error_code: ERROR_INVALID_STATE,
            error_message: Some(String::from_str("Invalid State")),
        }
    }
}

impl From<(u8, u8, u8)> for ErrorPacket {
    /// An error that names a packet and carries no text.
    fn from(value: (u8, u8, u8)) -> (r: ErrorPacket) {
        ErrorPacket::ErrorWithReference {
            reference_protocol: value.0,
            reference_packet: value.1,
            error_code: value.2,
            error_message: None,
        }
    }
}

impl vstd::std_specs::convert::FromSpecImpl<(u8, u8, u8)> for ErrorPacket {
    open spec fn obeys_from_spec() -> bool {
        true
    }

    open spec fn from_spec(value: (u8, u8, u8)) -> ErrorPacket {
        ErrorPacket::ErrorWithReference {
            reference_protocol: value.0,
            reference_packet: value.1,
            error_code: value.2,
            error_message: None,
        }
    }
}

impl From<u8> for ErrorPacket {
    /// An error that names no packet and carries no text.
    fn from(value: u8) -> (r: ErrorPacket) {
        ErrorPacket::ErrorNoReference { error_code: value, error_message: None }
    }
}

impl vstd::std_specs::convert::FromSpecImpl<u8> for ErrorPacket {
    open spec fn obeys_from_spec() -> bool {
        true
    }

    open spec fn from_spec(value: u8) -> ErrorPacket {
        ErrorPacket::ErrorNoReference { error_code: value, error_message: None }
    }
}

impl ErrorPacket {
    /// An error that names a packet and carries the text `debug`.
    pub fn with_reference(protocol: u8, reference: u8, error: u8, debug: &str) -> (r: ErrorPacket)
        ensures
            r@ == (ErrorPacketView::ErrorWithReference {
                reference_protocol: protocol,
                reference_packet: reference,
                error_code: error,
                error_message: Some(debug@),
            }),
    {
        ErrorPacket::ErrorWithReference {
            reference_protocol: protocol,
            reference_packet: reference,
            error_code: error,
            error_message: Some(String::from_str(debug)),
        }
    }

    /// An error that names no packet and carries the text `debug`.
    pub fn without_reference(error: u8, debug: &str) -> (r: ErrorPacket)
        ensures
            r@ == (ErrorPacketView::ErrorNoReference {
                error_code: error,
                error_message: Some(debug@),
            }),
    {
        ErrorPacket::ErrorNoReference {
            error_code: error,
            error_message: Some(String::from_str(debug)),
        }
    }

    /// The code that says what went wrong.
    pub fn error_code(&self) -> (r: u8)
        ensures
            r == match self@ {
                ErrorPacketView::ErrorWithReference { error_code, .. } => error_code,
                ErrorPacketView::ErrorNoReference { error_code, .. } => error_code,
            },
    {
        match self {
            ErrorPacket::ErrorWithReference { error_code, .. } => *error_code,
            ErrorPacket::ErrorNoReference { error_code, .. } => *error_code,
        }
    }
}

/// Decoding of the fields of an error that names a packet, after the
/// leading discriminant.
pub open spec fn parse_error_with_reference(s: Seq<u8>) -> Parsed<ErrorPacketView> {
    let protocol = parse_u8(s);
    if protocol is Err {
        Err(protocol->Err_0)
    } else {
        let packet = parse_u8(s.skip(2));
        if packet is Err {
            Err(packet->Err_0)
        } else {
            let code = parse_u8(s.skip(4));
            if code is Err {
                Err(code->Err_0)
            } else {
                let message = <Option<String> as PacketContent>::parse(s.skip(6));
                if message is Err {
                    Err(message->Err_0)
                } else {
                    Ok(
                        (
                            ErrorPacketView::ErrorWithReference {
                                reference_protocol: protocol->Ok_0.0,
                                reference_packet: packet->Ok_0.0,
                                error_code: code->Ok_0.0,
                                error_message: message->Ok_0.0,
                            },
                            6 + message->Ok_0.1,
                        ),
                    )
                }
            }
        }
    }
}

/// Decoding of the fields of an error that names no packet, after the
/// leading discriminant.
pub open spec fn parse_error_no_reference(s: Seq<u8>) -> Parsed<ErrorPacketView> {
    let code = parse_u8(s);
    if code is Err {
        Err(code->Err_0)
    } else {
        let message = <Option<String> as PacketContent>::parse(s.skip(2));
        if message is Err {
            Err(message->Err_0)
        } else {
            Ok(
                (
                    ErrorPacketView::ErrorNoReference {
                        error_code: code->Ok_0.0,
                        error_message: message->Ok_0.0,
                    },
                    2 + message->Ok_0.1,
                ),
            )
        }
    }
}

/// The text of an error, if any.
pub open spec fn error_message_of(v: ErrorPacketView) -> Option<Seq<char>> {
    match v {
        ErrorPacketView::ErrorWithReference { error_message, .. } => error_message,
        ErrorPacketView::ErrorNoReference { error_message, .. } => error_message,
    }
}

/// The encoded fields of an error, without the leading discriminant.
pub open spec fn error_fields(v: ErrorPacketView) -> Seq<u8> {
    match v {
        ErrorPacketView::ErrorWithReference {
            reference_protocol,
            reference_packet,
            error_code,
            error_message,
        } => enc_u8(reference_protocol) + enc_u8(reference_packet) + enc_u8(error_code) + <Option<
            String,
        > as PacketContent>::encoding(error_message),
        ErrorPacketView::ErrorNoReference { error_code, error_message } => enc_u8(error_code)
            + <Option<String> as PacketContent>::encoding(error_message),
    }
}

/// Decoding of the fields of an error after the leading discriminant.
pub open spec fn parse_error_fields(with_reference: bool, s: Seq<u8>) -> Parsed<ErrorPacketView> {
    if with_reference {
        parse_error_with_reference(s)
    } else {
        parse_error_no_reference(s)
    }
}

/// Decoding the encoded fields of an error gives them back, whatever bytes
/// follow.
proof fn lemma_error_fields(v: ErrorPacketView, rest: Seq<u8>)
    requires
        <Option<String> as PacketContent>::write_error(error_message_of(v)) is None,
    ensures
        parse_error_fields(v is ErrorWithReference, error_fields(v) + rest) == Ok::<
            (ErrorPacketView, nat),
            PacketReadError,
        >((v, error_fields(v).len())),
{
    match v {
        ErrorPacketView::ErrorWithReference {
            reference_protocol,
            reference_packet,
            error_code,
            error_message,
        } => {
            let m = <Option<String> as PacketContent>::encoding(error_message);
            let s = error_fields(v) + rest;
            let s2 = enc_u8(reference_packet) + (enc_u8(error_code) + (m + rest));
            let s4 = enc_u8(error_code) + (m + rest);
            assert(s =~= enc_u8(reference_protocol) + s2);
            lemma_u8_round_trip(reference_protocol, s2);
            lemma_u8_round_trip(reference_packet, s4);
            lemma_u8_round_trip(error_code, m + rest);
            assert(s.skip(6) =~= m + rest);
            <Option<String> as PacketContent>::lemma_round_trip(error_message, rest);
        },
        ErrorPacketView::ErrorNoReference { error_code, error_message } => {
            let m = <Option<String> as PacketContent>::encoding(error_message);
            let s = error_fields(v) + rest;
            lemma_u8_round_trip(error_code, m + rest);
            assert(s.skip(2) =~= m + rest);
            <Option<String> as PacketContent>::lemma_round_trip(error_message, rest);
        },
    }
}

impl PacketContent for ErrorPacket {
    open spec fn write_error(v: ErrorPacketView) -> Option<PacketWriteError> {
        <Option<String> as PacketContent>::write_error(error_message_of(v))
    }

    /// A leading boolean tells the two variants apart: `true` before an
    /// error that names a packet. The fields follow in declared order.
    open spec fn encoding(v: ErrorPacketView) -> Seq<u8> {
        enc_bool(v is ErrorWithReference) + error_fields(v)
    }

    open spec fn parse(s: Seq<u8>) -> Parsed<ErrorPacketView> {
        match parse_bool(s) {
            Err(e) => Err(e),
            Ok((with_reference, _)) => match parse_error_fields(with_reference, s.skip(1)) {
                Ok((v, n)) => Ok((v, 1 + n)),
                Err(e) => Err(e),
            },
        }
    }

    proof fn lemma_round_trip(v: ErrorPacketView, rest: Seq<u8>) {
        let whole = Self::encoding(v) + rest;
        let flag = v is ErrorWithReference;
        lemma_bool_round_trip(flag, error_fields(v) + rest);
        assert(whole.skip(1) =~= error_fields(v) + rest);
        lemma_error_fields(v, rest);
    }

    fn read(reader: &mut ByteReader) -> (r: Result<ErrorPacket, PacketReadError>) {
        let start = *reader;
        let with_reference: bool = match reader.read_bool() {
            Ok(b) => b,
            Err(e) => {
                return Err(e);
            },
        };
        if with_reference {
            let reference_protocol: u8 = match reader.read_u8() {
                Ok(v) => v,
                Err(e) => {
                    *reader = start;
                    return Err(e);
                },
            };
            let reference_packet: u8 = match reader.read_u8() {
                Ok(v) => v,
                Err(e) => {
                    *reader = start;
                    return Err(e);
                },
            };
            let error_code: u8 = match reader.read_u8() {
                Ok(v) => v,
                Err(e) => {
                    *reader = start;
                    return Err(e);
                },
            };
            assert(reader@ =~= start@.skip(1).skip(6));
            let error_message = match <Option<String> as PacketContent>::read(reader) {
                Ok(v) => v,
                Err(e) => {
                    *reader = start;
                    return Err(e);
                },
            };
            Ok(
                ErrorPacket::ErrorWithReference {
                    reference_protocol,
                    reference_packet,
                    error_code,
                    error_message,
                },
            )
        } else {
            let error_code: u8 = match reader.read_u8() {
                Ok(v) => v,
                Err(e) => {
                    *reader = start;
                    return Err(e);
                },
            };
            let error_message = match <Option<String> as PacketContent>::read(reader) {
                Ok(v) => v,
                Err(e) => {
                    *reader = start;
                    return Err(e);
                },
            };
            Ok(ErrorPacket::ErrorNoReference { error_code, error_message })
        }
    }

    fn write(&self, writer: &mut Vec<u8>) -> (r: Result<(), PacketWriteError>) {
        let mark: usize = writer.len();
        match self {
            ErrorPacket::ErrorWithReference {
                reference_protocol,
                reference_packet,
                error_code,
                error_message,
            } => {
                write_bool(writer, true);
                write_u8(writer, *reference_protocol);
                write_u8(writer, *reference_packet);
                write_u8(writer, *error_code);
                match error_message.write(writer) {
                    Ok(_) => {
                        assert(writer@ =~= old(writer)@ + Self::encoding(self@));
                        Ok(())
                    },
                    Err(e) => {
                        writer.truncate(mark);
                        assert(writer@ =~= old(writer)@);
                        Err(e)
                    },
                }
            },
            ErrorPacket::ErrorNoReference { error_code, error_message } => {
                write_bool(writer, false);
                write_u8(writer, *error_code);
                match error_message.write(writer) {
                    Ok(_) => {
                        assert(writer@ =~= old(writer)@ + Self::encoding(self@));
                        Ok(())
                    },
                    Err(e) => {
                        writer.truncate(mark);
                        assert(writer@ =~= old(writer)@);
                        Err(e)
                    },
                }
            },
        }
    }
}

impl TaggedContent for ErrorPacket {
    proof fn lemma_first_byte(v: ErrorPacketView) {
    }
}

/// The character of one decimal digit.
pub open spec fn digit(d: u8) -> Seq<char>
    recommends
        d < 10,
{
    if d == 0 {
        seq!['0']
    } else if d == 1 {
        seq!['1']
    } else if d == 2 {
        seq!['2']
    } else if d == 3 {
        seq!['3']
    } else if d == 4 {
        seq!['4']
    } else if d == 5 {
        seq!['5']
    } else if d == 6 {
        seq!['6']
    } else if d == 7 {
        seq!['7']
    } else if d == 8 {
        seq!['8']
    } else {
        seq!['9']
    }
}

/// The decimal digits of a byte, without leading zeros.
pub open spec fn decimal(v: u8) -> Seq<char> {
    if v < 10 {
        digit(v)
    } else if v < 100 {
        digit(v / 10) + digit(v % 10)
    } else {
        digit(v / 100) + digit(v / 10 % 10) + digit(v % 10)
    }
}

/// The text of an error for people: what kind of error it is, its numbers
/// in decimal, separated by one space, and the text that stands for the
/// optional message.
pub open spec fn error_text(v: ErrorPacketView, message_text: Seq<char>) -> Seq<char> {
    match v {
        ErrorPacketView::ErrorWithReference {
            reference_protocol,
            reference_packet,
            error_code,
            error_message,
        } => "Error with reference: "@ + decimal(reference_protocol) + " "@ + decimal(
            reference_packet,
        ) + " "@ + decimal(error_code) + " "@ + message_text,
        ErrorPacketView::ErrorNoReference { error_code, error_message } => {
            "Error without reference: "@ + decimal(error_code) + " "@ + message_text
        },
    }
}

/// What the `Debug` formatting of the standard library writes for an
/// optional string.
pub uninterp spec fn debug_text(message: Option<Seq<char>>) -> Seq<char>;

/// Formats an optional string with `format!("{:?}", ..)`: the `Debug`
/// formatting of `Option<&String>` in the standard library. The result is
/// a function of the string alone, and for no string it is the word
/// `None`; nothing else is said of it.
#[verifier::external_body]
fn format_message(message: &Option<String>) -> (r: String)
    ensures
        r@ == debug_text(message.deep_view()),
        message is None ==> r@ == "None"@,
{
    format!("{:?}", message.as_ref())
}

fn digit_text(d: u8) -> (r: &'static str)
    requires
        d < 10,
    ensures
        r@ == digit(d),
{
    proof {
        reveal_strlit("0");
        reveal_strlit("1");
        reveal_strlit("2");
        reveal_strlit("3");
        reveal_strlit("4");
        reveal_strlit("5");
        reveal_strlit("6");
        reveal_strlit("7");
        reveal_strlit("8");
        reveal_strlit("9");
    }
    let r = if d == 0 {
        "0"
    } else if d == 1 {
        "1"
    } else if d == 2 {
        "2"
    } else if d == 3 {
        "3"
    } else if d == 4 {
        "4"
    } else if d == 5 {
        "5"
    } else if d == 6 {
        "6"
    } else if d == 7 {
        "7"
    } else if d == 8 {
        "8"
    } else {
        "9"
    };
    r
}

/// Appends the decimal digits of a byte.
pub fn push_decimal(out: &mut String, v: u8)
    ensures
        final(out)@ == old(out)@ + decimal(v),
{
    if v >= 100 {
        out.append(digit_text(v / 100));
    }
    if v >= 10 {
        out.append(digit_text(v / 10 % 10));
    }
    out.append(digit_text(v % 10));
}

impl ErrorPacket {
    /// The text of the error, given the text that stands for its optional
    /// message.
    pub fn text_with(&self, message_text: &str) -> (r: String)
        ensures
            r@ == error_text(self@, message_text@),
    {
        match self {
            ErrorPacket::ErrorWithReference {
                reference_protocol,
                reference_packet,
                error_code,
                error_message,
            } => {
                let mut out = String::from_str("Error with reference: ");
                push_decimal(&mut out, *reference_protocol);
                out.append(" ");
                push_decimal(&mut out, *reference_packet);
                out.append(" ");
                push_decimal(&mut out, *error_code);
                out.append(" ");
                out.append(message_text);
                out
            },
            ErrorPacket::ErrorNoReference { error_code, error_message } => {
                let mut out = String::from_str("Error without reference: ");
                push_decimal(&mut out, *error_code);
                out.append(" ");
                out.append(message_text);
                out
            },
        }
    }

    /// The text of the error for people. An error without a message ends
    /// in the word `None`.
    pub fn to_text(&self) -> (r: String)
        ensures
            r@ == error_text(self@, debug_text(error_message_of(self@))),
            error_message_of(self@) is None ==> r@ == error_text(self@, "None"@),
    {
        let message_text = match self {
            ErrorPacket::ErrorWithReference { error_message, .. } => format_message(error_message),
            ErrorPacket::ErrorNoReference { error_message, .. } => format_message(error_message),
        };
        self.text_with(message_text.as_str())
    }
}

/// Protocol id of the packets between two devices.
pub const PROTOCOL_DEVICE_TO_DEVICE: u8 = 0x00;

/// Protocol id of the packets between a device and a realm.
pub const PROTOCOL_DEVICE_TO_REALM: u8 = 0x02;

/// One packet of one of the protocol families.
#[derive(Debug, Clone, PartialEq, Eq)]
pub enum Protocol {
    /// A packet between two devices.
    DeviceToDevice(DeviceToDevicePackets),
    /// A packet between a device and a realm.
    DeviceToRealm(RealmPacket),
}

/// The mathematical value of a [`Protocol`].
pub enum ProtocolView {
    DeviceToDevice(DeviceToDeviceView),
    DeviceToRealm(RealmPacketView),
}

impl View for Protocol {
    type V = ProtocolView;

    open spec fn view(&self) -> ProtocolView {
        match *self {
            Protocol::DeviceToDevice(p) => ProtocolView::DeviceToDevice(p@),
            Protocol::DeviceToRealm(p) => ProtocolView::DeviceToRealm(p@),
        }
    }
}

impl DeepView for Protocol {
    type V = ProtocolView;

    open spec fn deep_view(&self) -> ProtocolView {
        self.view()
    }
}

/// Something that knows the id of the packet kind it is.
pub trait PacketType {
    /// The packet id, as a specification.
    spec fn packet_id_spec(&self) -> u8;

    /// The packet id.
    fn packet_id(&self) -> (r: u8)
        ensures
            r == self.packet_id_spec(),
    ;
}

impl PacketType for DeviceToDevicePackets {
    open spec fn packet_id_spec(&self) -> u8 {
        <DeviceToDevicePackets as Packet>::id_of(self@)
    }

    fn packet_id(&self) -> (r: u8) {
        self.get_packet_id()
    }
}

impl PacketType for RealmPacket {
    open spec fn packet_id_spec(&self) -> u8 {
        <RealmPacket as Packet>::id_of(self@)
    }

    fn packet_id(&self) -> (r: u8) {
        self.get_packet_id()
    }
}

impl PacketType for Protocol {
    open spec fn packet_id_spec(&self) -> u8 {
        <Protocol as crate::packet::Protocol>::packet_of(self@)
    }

    fn packet_id(&self) -> (r: u8) {
        match self {
            Protocol::DeviceToDevice(p) => p.get_packet_id(),
            Protocol::DeviceToRealm(p) => p.get_packet_id(),
        }
    }
}

impl crate::packet::Protocol for Protocol {
    open spec fn protocol_of(v: ProtocolView) -> u8 {
        match v {
            ProtocolView::DeviceToDevice(_) => PROTOCOL_DEVICE_TO_DEVICE,
            ProtocolView::DeviceToRealm(_) => PROTOCOL_DEVICE_TO_REALM,
        }
    }

    open spec fn packet_of(v: ProtocolView) -> u8 {
        match v {
            ProtocolView::DeviceToDevice(p) => <DeviceToDevicePackets as Packet>::id_of(p),
            ProtocolView::DeviceToRealm(p) => <RealmPacket as Packet>::id_of(p),
        }
    }

    open spec fn supported(id: u8) -> bool {
        id == PROTOCOL_DEVICE_TO_DEVICE || id == PROTOCOL_DEVICE_TO_REALM
    }

    open spec fn registered(protocol_id: u8, packet_id: u8) -> bool {
        if protocol_id == PROTOCOL_DEVICE_TO_DEVICE {
            <DeviceToDevicePackets as Packet>::registered(packet_id)
        } else if protocol_id == PROTOCOL_DEVICE_TO_REALM {
            <RealmPacket as Packet>::registered(packet_id)
        } else {
            false
        }
    }

    open spec fn content_error(v: ProtocolView) -> Option<PacketWriteError> {
        match v {
            ProtocolView::DeviceToDevice(p) => <DeviceToDevicePackets as Packet>::content_error(p),
            ProtocolView::DeviceToRealm(p) => <RealmPacket as Packet>::content_error(p),
        }
    }

    open spec fn content(v: ProtocolView) -> Seq<u8> {
        match v {
            ProtocolView::DeviceToDevice(p) => <DeviceToDevicePackets as Packet>::content(p),
            ProtocolView::DeviceToRealm(p) => <RealmPacket as Packet>::content(p),
        }
    }

    open spec fn parse_content(protocol_id: u8, packet_id: u8, s: Seq<u8>) -> Parsed<
        ProtocolView,
    > {
        if protocol_id == PROTOCOL_DEVICE_TO_DEVICE {
            match <DeviceToDevicePackets as Packet>::parse_content(packet_id, s) {
                Ok((p, n)) => Ok((ProtocolView::DeviceToDevice(p), n)),
                Err(e) => Err(e),
            }
        } else if protocol_id == PROTOCOL_DEVICE_TO_REALM {
            match <RealmPacket as Packet>::parse_content(packet_id, s) {
                Ok((p, n)) => Ok((ProtocolView::DeviceToRealm(p), n)),
                Err(e) => Err(e),
            }
        } else {
            Err(PacketReadError::BadTag)
        }
    }

    proof fn lemma_ids_registered(v: ProtocolView) {
        match v {
            ProtocolView::DeviceToDevice(p) => {
                <DeviceToDevicePackets as Packet>::lemma_id_registered(p);
            },
            ProtocolView::DeviceToRealm(p) => {
                <RealmPacket as Packet>::lemma_id_registered(p);
            },
        }
    }

    proof fn lemma_round_trip(v: ProtocolView, rest: Seq<u8>) {
        match v {
            ProtocolView::DeviceToDevice(p) => {
                <DeviceToDevicePackets as Packet>::lemma_round_trip(p, rest);
            },
            ProtocolView::DeviceToRealm(p) => {
                <RealmPacket as Packet>::lemma_round_trip(p, rest);
            },
        }
    }

    fn get_protocol_id(&self) -> (r: u8) {
        match self {
            Protocol::DeviceToDevice(_) => PROTOCOL_DEVICE_TO_DEVICE,
            Protocol::DeviceToRealm(_) => PROTOCOL_DEVICE_TO_REALM,
        }
    }

    fn write_payload(self, writer: &mut Vec<u8>) -> (r: Result<(), PacketWriteError>) {
        let mark: usize = writer.len();
        let ghost v = self.deep_view();
        writer.push(self.get_protocol_id());
        let written = match self {
            Protocol::DeviceToDevice(p) => p.write_payload(writer),
            Protocol::DeviceToRealm(p) => p.write_payload(writer),
        };
        match written {
            Ok(_) => {
                assert(writer@ =~= old(writer)@ + (seq![Self::protocol_of(v), Self::packet_of(v)]
                    + Self::content(v)));
                Ok(())
            },
            Err(e) => {
                writer.truncate(mark);
                assert(writer@ =~= old(writer)@);
                Err(e)
            },
        }
    }

    fn supports_protocol_id(id: u8) -> (r: bool) {
        id == PROTOCOL_DEVICE_TO_DEVICE || id == PROTOCOL_DEVICE_TO_REALM
    }

    fn build_if_supported(protocol_id: u8, packet_id: u8, reader: &mut ByteReader) -> (r: Option<
        Result<Protocol, PacketReadError>,
    >) {
        if protocol_id == PROTOCOL_DEVICE_TO_DEVICE {
            match DeviceToDevicePackets::build_or_none(packet_id, reader) {
                Some(Ok(p)) => Some(Ok(Protocol::DeviceToDevice(p))),
                Some(Err(e)) => Some(Err(e)),
                None => None,
            }
        } else if protocol_id == PROTOCOL_DEVICE_TO_REALM {
            match RealmPacket::build_or_none(packet_id, reader) {
                Some(Ok(p)) => Some(Ok(Protocol::DeviceToRealm(p))),
                Some(Err(e)) => Some(Err(e)),
                None => None,
            }
        } else {
            None
        }
    }
}

} // verus!
