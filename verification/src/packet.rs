//! What a family of packets and a family of protocols offer: the id of a
//! value, the closed table of ids, and encoding and decoding keyed by id.

use crate::content::write_outcome;
use crate::error::{PacketReadError, PacketWriteError};
use crate::reader::ByteReader;
use crate::wire::Parsed;
use vstd::prelude::*;

verus! {

/// What decoding under an id gives back: nothing for an id that is not in
/// the table, with the reader untouched; else the outcome of decoding the
/// content that belongs to the id.
pub open spec fn build_outcome<T: DeepView>(
    before: ByteReader,
    after: ByteReader,
    registered: bool,
    expected: Parsed<T::V>,
    got: Option<Result<T, PacketReadError>>,
) -> bool {
    if !registered {
        got is None && after == before
    } else {
        match expected {
            Ok((v, n)) => {
                &&& got is Some
                &&& got->Some_0 is Ok
                &&& got->Some_0->Ok_0.deep_view() == v
                &&& n <= before@.len()
                &&& after@ == before@.skip(n as int)
                &&& after.position() == before.position() + n
            },
            Err(e) => got == Some(Err::<T, PacketReadError>(e)) && after == before,
        }
    }
}

/// One family of packets: a closed table from packet id to packet kind.
pub trait Packet: Sized + DeepView {
    /// The id of the kind that `v` belongs to.
    spec fn id_of(v: Self::V) -> u8;

    /// Whether `id` is in the family's table.
    spec fn registered(id: u8) -> bool;

    /// Why the content of `v` has no encoding, if it has none.
    spec fn content_error(v: Self::V) -> Option<PacketWriteError>;

    /// The encoded fields of `v`, in declared order, without the id.
    spec fn content(v: Self::V) -> Seq<u8>;

    /// What decoding the head of `s` as the content of kind `id` gives.
    spec fn parse_content(id: u8, s: Seq<u8>) -> Parsed<Self::V>;

    /// The id of every value is in the table.
    proof fn lemma_id_registered(v: Self::V)
        ensures
            Self::registered(Self::id_of(v)),
    ;

    /// Decoding the encoded content under the value's id gives the value
    /// back and takes exactly the content, whatever bytes follow.
    proof fn lemma_round_trip(v: Self::V, rest: Seq<u8>)
        requires
            Self::content_error(v) is None,
        ensures
            Self::parse_content(Self::id_of(v), Self::content(v) + rest) == Ok::<
                (Self::V, nat),
                PacketReadError,
            >((v, Self::content(v).len())),
    ;

    /// The packet id of the value.
    fn get_packet_id(&self) -> (r: u8)
        ensures
            r == Self::id_of(self.deep_view()),
    ;

    /// Appends the packet id as one byte, then the content; or leaves the
    /// writer as it was.
    fn write_payload(self, writer: &mut Vec<u8>) -> (r: Result<(), PacketWriteError>)
        ensures
            write_outcome(
                old(writer)@,
                final(writer)@,
                Self::content_error(self.deep_view()),
                seq![Self::id_of(self.deep_view())] + Self::content(self.deep_view()),
                r,
            ),
    ;

    /// Decodes the content of the kind that `id` names: `None` for an id
    /// outside the table, else the packet or the reason why the content is
    /// malformed.
    fn build_or_none(id: u8, reader: &mut ByteReader) -> (r: Option<Result<Self, PacketReadError>>)
        ensures
            build_outcome(
                *old(reader),
                *final(reader),
                Self::registered(id),
                Self::parse_content(id, old(reader)@),
                r,
            ),
    ;
}

/// The protocol families: a closed table from protocol id to a family of
/// packets.
pub trait Protocol: Sized + DeepView {
    /// The id of the family that `v` belongs to.
    spec fn protocol_of(v: Self::V) -> u8;

    /// The id of the packet kind that `v` belongs to, within its family.
    spec fn packet_of(v: Self::V) -> u8;

    /// Whether `id` names a family.
    spec fn supported(id: u8) -> bool;

    /// Whether `protocol_id` names a family whose table holds `packet_id`.
    spec fn registered(protocol_id: u8, packet_id: u8) -> bool;

    /// Why the content of `v` has no encoding, if it has none.
    spec fn content_error(v: Self::V) -> Option<PacketWriteError>;

    /// The encoded fields of the packet in `v`, without the two ids.
    spec fn content(v: Self::V) -> Seq<u8>;

    /// What decoding the head of `s` as the content of the named kind gives.
    spec fn parse_content(protocol_id: u8, packet_id: u8, s: Seq<u8>) -> Parsed<Self::V>;

    /// The two ids of every value are in the tables.
    proof fn lemma_ids_registered(v: Self::V)
        ensures
            Self::supported(Self::protocol_of(v)),
            Self::registered(Self::protocol_of(v), Self::packet_of(v)),
    ;

    /// Decoding the encoded content under the value's two ids gives the
    /// value back and takes exactly the content, whatever bytes follow.
    proof fn lemma_round_trip(v: Self::V, rest: Seq<u8>)
        requires
            Self::content_error(v) is None,
        ensures
            Self::parse_content(Self::protocol_of(v), Self::packet_of(v), Self::content(v) + rest)
                == Ok::<(Self::V, nat), PacketReadError>((v, Self::content(v).len())),
    ;

    /// The protocol id of the value.
    fn get_protocol_id(&self) -> (r: u8)
        ensures
            r == Self::protocol_of(self.deep_view()),
    ;

    /// Appends the protocol id and the packet id, one byte each, then the
    /// content; or leaves the writer as it was.
    fn write_payload(self, writer: &mut Vec<u8>) -> (r: Result<(), PacketWriteError>)
        ensures
            write_outcome(
                old(writer)@,
                final(writer)@,
                Self::content_error(self.deep_view()),
                seq![Self::protocol_of(self.deep_view()), Self::packet_of(self.deep_view())]
                    + Self::content(self.deep_view()),
                r,
            ),
    ;

    /// Whether `id` names a family.
    fn supports_protocol_id(id: u8) -> (r: bool)
        ensures
            r == Self::supported(id),
    ;

    /// Decodes the content of the named kind: `None` when either id is
    /// outside its table, else the packet or the reason why the content is
    /// malformed.
    fn build_if_supported(protocol_id: u8, packet_id: u8, reader: &mut ByteReader) -> (r: Option<
        Result<Self, PacketReadError>,
    >)
        ensures
            build_outcome(
                *old(reader),
                *final(reader),
                Self::registered(protocol_id, packet_id),
                Self::parse_content(protocol_id, packet_id, old(reader)@),
                r,
            ),
    ;
}

} // verus!
