//! The envelope: a length prefix, one byte of protocol id, one byte of
//! packet id, and the encoded content of one packet.

use crate::content::write_outcome;
use crate::error::{ChannelError, PacketReadError, PacketWriteError};
use crate::packet::{Packet, Protocol};
use crate::reader::{read_outcome, ByteReader};
use crate::wire::{enc_uint, lemma_uint_round_trip, parse_uint, write_uint, Parsed};
use vstd::prelude::*;

verus! {

/// A length-prefixed payload on the wire: the payload's length in its
/// shortest integer encoding, then the payload.
pub open spec fn frame_bytes(payload: Seq<u8>) -> Seq<u8>
    recommends
        payload.len() <= u64::MAX,
{
    enc_uint(payload.len() as u64) + payload
}

/// What the head of a byte stream holds.
pub enum FrameView {
    /// Not yet a whole frame: more bytes have to arrive.
    Incomplete,
    /// No frame can start like this.
    Malformed(PacketReadError),
    /// A whole frame: its payload, and the bytes it took with its prefix.
    Complete { payload: Seq<u8>, taken: nat },
}

/// Decoding of a frame at the head of `s`. A length prefix that is cut
/// short, or a payload that is, makes the frame incomplete; a first byte
/// that starts no unsigned integer makes it malformed.
pub open spec fn parse_frame(s: Seq<u8>) -> FrameView {
    match parse_uint(s) {
        Err(PacketReadError::Truncated) => FrameView::Incomplete,
        Err(e) => FrameView::Malformed(e),
        Ok((len, h)) => if s.len() < h + len {
            FrameView::Incomplete
        } else {
            FrameView::Complete { payload: s.subrange(h as int, h + len), taken: h + len as nat }
        },
    }
}

/// The bytes of one envelope.
pub open spec fn envelope_bytes(protocol_id: u8, packet_id: u8, body: Seq<u8>) -> Seq<u8>
    recommends
        body.len() + 2 <= u64::MAX,
{
    frame_bytes(seq![protocol_id, packet_id] + body)
}

/// What the head of a byte stream holds, read as an envelope.
pub enum EnvelopeView {
    /// Not yet a whole envelope: more bytes have to arrive.
    Incomplete,
    /// No envelope can look like this.
    Malformed(PacketReadError),
    /// A whole envelope, and the bytes it took with its prefix.
    Complete { protocol_id: u8, packet_id: u8, body: Seq<u8>, taken: nat },
}

/// Decoding of an envelope at the head of `s`: a whole frame whose payload
/// starts with the two ids. A frame too short to hold them is malformed.
pub open spec fn parse_envelope(s: Seq<u8>) -> EnvelopeView {
    match parse_frame(s) {
        FrameView::Incomplete => EnvelopeView::Incomplete,
        FrameView::Malformed(e) => EnvelopeView::Malformed(e),
        FrameView::Complete { payload, taken } => if payload.len() < 2 {
            EnvelopeView::Malformed(PacketReadError::Truncated)
        } else {
            EnvelopeView::Complete {
                protocol_id: payload[0],
                packet_id: payload[1],
                body: payload.skip(2),
                taken,
            }
        },
    }
}

/// Decoding a frame that was encoded gives the payload back and takes
/// exactly the frame, whatever bytes follow.
pub proof fn lemma_frame_round_trip(payload: Seq<u8>, rest: Seq<u8>)
    requires
        payload.len() <= u64::MAX,
    ensures
        parse_frame(frame_bytes(payload) + rest) == (FrameView::Complete {
            payload,
            taken: frame_bytes(payload).len(),
        }),
{
    let len = payload.len() as u64;
    let h = enc_uint(len).len();
    let whole = frame_bytes(payload) + rest;
    lemma_uint_round_trip(len, payload + rest);
    assert(whole.subrange(h as int, h + len) =~= payload);
}

/// Reading back an envelope that was written reproduces the protocol id,
/// the packet id and the body, and takes exactly the envelope, whatever
/// bytes follow.
pub proof fn lemma_envelope_round_trip(protocol_id: u8, packet_id: u8, body: Seq<u8>, rest: Seq<u8>)
    requires
        body.len() + 2 <= u64::MAX,
    ensures
        parse_envelope(envelope_bytes(protocol_id, packet_id, body) + rest) == (
        EnvelopeView::Complete {
            protocol_id,
            packet_id,
            body,
            taken: envelope_bytes(protocol_id, packet_id, body).len(),
        }),
{
    let payload = seq![protocol_id, packet_id] + body;
    lemma_frame_round_trip(payload, rest);
    assert(payload.skip(2) =~= body);
}

/// No proper prefix of a frame is taken for a frame: until its last byte
/// has arrived the frame is incomplete, never a shorter payload.
pub proof fn lemma_frame_prefix_incomplete(payload: Seq<u8>, k: int)
    requires
        payload.len() <= u64::MAX,
        0 <= k < frame_bytes(payload).len(),
    ensures
        parse_frame(frame_bytes(payload).take(k)) == FrameView::Incomplete,
{
    let len = payload.len() as u64;
    let h = enc_uint(len).len();
    lemma_uint_round_trip(len, Seq::empty());
    if k >= h {
        lemma_uint_round_trip(len, payload.take(k - h));
    }
}

/// No proper prefix of an envelope is taken for an envelope.
pub proof fn lemma_envelope_prefix_incomplete(protocol_id: u8, packet_id: u8, body: Seq<u8>, k: int)
    requires
        body.len() + 2 <= u64::MAX,
        0 <= k < envelope_bytes(protocol_id, packet_id, body).len(),
    ensures
        parse_envelope(envelope_bytes(protocol_id, packet_id, body).take(k))
            == EnvelopeView::Incomplete,
{
    lemma_frame_prefix_incomplete(seq![protocol_id, packet_id] + body, k);
}

/// One envelope, decoded: the two ids and the encoded content.
#[derive(Debug, Clone, PartialEq, Eq)]
pub struct Envelope {
    /// The protocol family of the packet.
    pub protocol_id: u8,
    /// The kind of the packet within its family.
    pub packet_id: u8,
    /// The encoded content of the packet.
    pub body: Vec<u8>,
}

/// Appends one frame: the length of `payload`, then `payload`.
pub fn write_frame(payload: &[u8], out: &mut Vec<u8>)
    ensures
        final(out)@ == old(out)@ + frame_bytes(payload@),
{
    write_uint(out, payload.len() as u64);
    out.extend_from_slice(payload);
}

/// Appends one envelope as a single unit: the length of everything after
/// it, the two ids, the body. A body too long for any length prefix is
/// refused and nothing is appended.
pub fn write_envelope(protocol_id: u8, packet_id: u8, body: &[u8], out: &mut Vec<u8>) -> (r: Result<
    (),
    PacketWriteError,
>)
    ensures
        r is Ok <==> body@.len() + 2 <= u64::MAX,
        r is Ok ==> final(out)@ == old(out)@ + envelope_bytes(protocol_id, packet_id, body@),
        r is Err ==> r == Err::<(), PacketWriteError>(PacketWriteError::TooLong) && final(out)@
            == old(out)@,
{
    let n: u64 = body.len() as u64;
    if n > u64::MAX - 2 {
        return Err(PacketWriteError::TooLong);
    }
    write_uint(out, n + 2);
    out.push(protocol_id);
    out.push(packet_id);
    out.extend_from_slice(body);
    Ok(())
}

/// Takes one frame from the reader if a whole one is there. On an
/// incomplete or malformed frame the reader stays where it was.
pub fn read_frame(reader: &mut ByteReader) -> (r: Result<Option<Vec<u8>>, PacketReadError>)
    ensures
        match parse_frame(old(reader)@) {
            FrameView::Incomplete => {
                &&& r == Ok::<Option<Vec<u8>>, PacketReadError>(None)
                &&& *final(reader) == *old(reader)
            },
            FrameView::Malformed(e) => {
                &&& r == Err::<Option<Vec<u8>>, PacketReadError>(e)
                &&& *final(reader) == *old(reader)
            },
            FrameView::Complete { payload, taken } => {
                &&& r is Ok
                &&& r->Ok_0 is Some
                &&& r->Ok_0->Some_0@ == payload
                &&& taken <= old(reader)@.len()
                &&& final(reader)@ == old(reader)@.skip(taken as int)
                &&& final(reader).position() == old(reader).position() + taken
            },
        },
{
    let start = *reader;
    let len: u64 = match reader.read_uint() {
        Ok(len) => len,
        Err(PacketReadError::Truncated) => {
            return Ok(None);
        },
        Err(e) => {
            return Err(e);
        },
    };
    let left: usize = reader.remaining();
    if (left as u64) < len {
        *reader = start;
        return Ok(None);
    }
    match reader.read_exact(len as usize) {
        Ok(payload) => Ok(Some(payload)),
        Err(e) => {
            *reader = start;
            Ok(None)
        },
    }
}

/// Takes one envelope from the reader if a whole one is there. On an
/// incomplete or malformed envelope the reader stays where it was.
pub fn read_envelope(reader: &mut ByteReader) -> (r: Result<Option<Envelope>, PacketReadError>)
    ensures
        match parse_envelope(old(reader)@) {
            EnvelopeView::Incomplete => {
                &&& r == Ok::<Option<Envelope>, PacketReadError>(None)
                &&& *final(reader) == *old(reader)
            },
            EnvelopeView::Malformed(e) => {
                &&& r == Err::<Option<Envelope>, PacketReadError>(e)
                &&& *final(reader) == *old(reader)
            },
            EnvelopeView::Complete { protocol_id, packet_id, body, taken } => {
                &&& r is Ok
                &&& r->Ok_0 is Some
                &&& r->Ok_0->Some_0.protocol_id == protocol_id
                &&& r->Ok_0->Some_0.packet_id == packet_id
                &&& r->Ok_0->Some_0.body@ == body
                &&& taken <= old(reader)@.len()
                &&& final(reader)@ == old(reader)@.skip(taken as int)
                &&& final(reader).position() == old(reader).position() + taken
            },
        },
{
    let start = *reader;
    let payload = match read_frame(reader) {
        Ok(Some(payload)) => payload,
        Ok(None) => {
            return Ok(None);
        },
        Err(e) => {
            return Err(e);
        },
    };
    if payload.len() < 2 {
        *reader = start;
        return Err(PacketReadError::Truncated);
    }
    let mut inner = ByteReader::new(payload.as_slice());
    let ids = match read_packet_type(&mut inner) {
        Ok(ids) => ids,
        Err(e) => {
            *reader = start;
            return Err(e);
        },
    };
    let body = match inner.read_exact(payload.len() - 2) {
        Ok(body) => body,
        Err(e) => {
            *reader = start;
            return Err(e);
        },
    };
    Ok(Some(Envelope { protocol_id: ids.0, packet_id: ids.1, body }))
}

/// Decoding of the two ids at the head of a payload.
pub open spec fn parse_packet_type(s: Seq<u8>) -> Parsed<(u8, u8)> {
    if s.len() < 2 {
        Err(PacketReadError::Truncated)
    } else {
        Ok(((s[0], s[1]), 2))
    }
}

/// Takes the protocol id and the packet id, one byte each.
pub fn read_packet_type(value: &mut ByteReader) -> (r: Result<(u8, u8), PacketReadError>)
    ensures
        read_outcome(*old(value), *final(value), parse_packet_type(old(value)@), r),
{
    let start = *value;
    let protocol: u8 = match value.read_byte() {
        Ok(b) => b,
        Err(e) => {
            return Err(e);
        },
    };
    let packet: u8 = match value.read_byte() {
        Ok(b) => b,
        Err(e) => {
            *value = start;
            return Err(e);
        },
    };
    assert(value@ =~= start@.skip(2));
    Ok((protocol, packet))
}

/// Something that can be written as the payload of an envelope: the
/// protocol id, the packet id, the content.
pub trait IntoPacket: Sized {
    /// Why the value has no payload, if it has none.
    spec fn payload_error(&self) -> Option<PacketWriteError>;

    /// The payload: one byte of protocol id, one byte of packet id, then
    /// the encoded content.
    spec fn payload(&self) -> Seq<u8>;

    /// Appends the payload, or leaves the writer as it was.
    fn into_packet(self, writer: &mut Vec<u8>) -> (r: Result<(), PacketWriteError>)
        ensures
            write_outcome(old(writer)@, final(writer)@, self.payload_error(), self.payload(), r),
    ;
}

impl<Pr: Protocol> IntoPacket for Pr {
    open spec fn payload_error(&self) -> Option<PacketWriteError> {
        Pr::content_error(self.deep_view())
    }

    open spec fn payload(&self) -> Seq<u8> {
        seq![Pr::protocol_of(self.deep_view()), Pr::packet_of(self.deep_view())] + Pr::content(
            self.deep_view(),
        )
    }

    fn into_packet(self, writer: &mut Vec<u8>) -> (r: Result<(), PacketWriteError>) {
        self.write_payload(writer)
    }
}

/// A protocol id, a packet id and content that is encoded already.
impl IntoPacket for (u8, u8, Vec<u8>) {
    open spec fn payload_error(&self) -> Option<PacketWriteError> {
        None
    }

    open spec fn payload(&self) -> Seq<u8> {
        seq![self.0, self.1] + self.2@
    }

    fn into_packet(self, writer: &mut Vec<u8>) -> (r: Result<(), PacketWriteError>) {
        writer.push(self.0);
        writer.push(self.1);
        writer.extend_from_slice(self.2.as_slice());
        assert(writer@ =~= old(writer)@ + self.payload());
        Ok(())
    }
}

/// A protocol id and a packet of some family.
impl<Pk: Packet> IntoPacket for (u8, Pk) {
    open spec fn payload_error(&self) -> Option<PacketWriteError> {
        Pk::content_error(self.1.deep_view())
    }

    open spec fn payload(&self) -> Seq<u8> {
        seq![self.0, Pk::id_of(self.1.deep_view())] + Pk::content(self.1.deep_view())
    }

    fn into_packet(self, writer: &mut Vec<u8>) -> (r: Result<(), PacketWriteError>) {
        let mark: usize = writer.len();
        let ghost v = self.1.deep_view();
        writer.push(self.0);
        match self.1.write_payload(writer) {
            Ok(_) => {
                assert(writer@ =~= old(writer)@ + (seq![self.0, Pk::id_of(v)] + Pk::content(v)));
                Ok(())
            },
            Err(e) => {
                writer.truncate(mark);
                assert(writer@ =~= old(writer)@);
                Err(e)
            },
        }
    }
}

/// Decodes the content of an envelope under its two ids: `None` when the
/// ids name no registered packet kind, else the packet or the reason why
/// the content is malformed. Bytes after the content are not looked at.
pub fn decode_packet<Pr: Protocol>(envelope: &Envelope) -> (r: Option<Result<Pr, PacketReadError>>)
    ensures
        !Pr::registered(envelope.protocol_id, envelope.packet_id) ==> r is None,
        Pr::registered(envelope.protocol_id, envelope.packet_id) ==> match Pr::parse_content(
            envelope.protocol_id,
            envelope.packet_id,
            envelope.body@,
        ) {
            Ok((v, n)) => r is Some && r->Some_0 is Ok && r->Some_0->Ok_0.deep_view() == v,
            Err(e) => r == Some(Err::<Pr, PacketReadError>(e)),
        },
{
    let mut reader = ByteReader::new(envelope.body.as_slice());
    Pr::build_if_supported(envelope.protocol_id, envelope.packet_id, &mut reader)
}

/// Writes a packet as one envelope: its payload, prefixed with the
/// payload's length. A packet without an encoding appends nothing.
pub fn encode_packet<C: IntoPacket>(content: C, out: &mut Vec<u8>) -> (r: Result<
    (),
    PacketWriteError,
>)
    ensures
        write_outcome(
            old(out)@,
            final(out)@,
            content.payload_error(),
            frame_bytes(content.payload()),
            r,
        ),
{
    let mut payload: Vec<u8> = Vec::new();
    match content.into_packet(&mut payload) {
        Ok(_) => {
            write_frame(payload.as_slice(), out);
            Ok(())
        },
        Err(e) => Err(e),
    }
}

/// The bytes that have arrived on a channel and have not yet been handed
/// out as envelopes.
pub struct FrameBuffer {
    pending: Vec<u8>,
}

impl View for FrameBuffer {
    type V = Seq<u8>;

    closed spec fn view(&self) -> Seq<u8> {
        self.pending@
    }
}

/// The bytes of `chunks`, one chunk after the other.
pub open spec fn concat_chunks(chunks: Seq<Seq<u8>>) -> Seq<u8>
    decreases chunks.len(),
{
    if chunks.len() == 0 {
        Seq::empty()
    } else {
        concat_chunks(chunks.drop_last()) + chunks.last()
    }
}

impl FrameBuffer {
    /// A buffer that holds no bytes.
    pub fn new() -> (r: FrameBuffer)
        ensures
            r@ == Seq::<u8>::empty(),
    {
        FrameBuffer { pending: Vec::new() }
    }

    /// The number of bytes held.
    pub fn len(&self) -> (n: usize)
        ensures
            n == self@.len(),
    {
        self.pending.len()
    }

    /// Adds the bytes of one read from the channel, however few.
    pub fn push(&mut self, chunk: &[u8])
        ensures
            final(self)@ == old(self)@ + chunk@,
    {
        self.pending.extend_from_slice(chunk);
    }

    /// Adds the bytes of several reads in the order they were made: the
    /// buffer ends up holding what one read of all the bytes would have
    /// given.
    pub fn push_all(&mut self, chunks: &Vec<Vec<u8>>)
        ensures
            final(self)@ == old(self)@ + concat_chunks(chunks.deep_view()),
    {
        let mut i: usize = 0;
        while i < chunks.len()
            invariant
                i <= chunks.len(),
                self@ == old(self)@ + concat_chunks(chunks.deep_view().take(i as int)),
            decreases chunks.len() - i,
        {
            let ghost before = chunks.deep_view().take(i as int);
            let ghost after = chunks.deep_view().take(i + 1);
            self.push(chunks[i].as_slice());
            proof {
                assert(after.drop_last() =~= before);
                crate::content::lemma_bytes_deep_view(&chunks[i as int]);
            }
            i = i + 1;
        }
        assert(chunks.deep_view().take(chunks.len() as int) =~= chunks.deep_view());
    }

    /// Hands out the payload of the next frame if all its bytes have
    /// arrived, and drops the frame from the buffer. An incomplete or
    /// malformed head leaves the buffer as it is.
    pub fn next_frame(&mut self) -> (r: Result<Option<Vec<u8>>, PacketReadError>)
        ensures
            match parse_frame(old(self)@) {
                FrameView::Incomplete => {
                    &&& r == Ok::<Option<Vec<u8>>, PacketReadError>(None)
                    &&& final(self)@ == old(self)@
                },
                FrameView::Malformed(e) => {
                    &&& r == Err::<Option<Vec<u8>>, PacketReadError>(e)
                    &&& final(self)@ == old(self)@
                },
                FrameView::Complete { payload, taken } => {
                    &&& r is Ok
                    &&& r->Ok_0 is Some
                    &&& r->Ok_0->Some_0@ == payload
                    &&& taken <= old(self)@.len()
                    &&& final(self)@ == old(self)@.skip(taken as int)
                },
            },
    {
        let mut reader = ByteReader::new(self.pending.as_slice());
        let found = read_frame(&mut reader);
        let taken: usize = reader.consumed();
        match found {
            Ok(Some(payload)) => {
                let rest = self.pending.split_off(taken);
                self.pending = rest;
                Ok(Some(payload))
            },
            Ok(None) => Ok(None),
            Err(e) => Err(e),
        }
    }

    /// Hands out the next envelope if all its bytes have arrived, and drops
    /// them from the buffer. An incomplete or malformed head leaves the
    /// buffer as it is.
    pub fn next_envelope(&mut self) -> (r: Result<Option<Envelope>, PacketReadError>)
        ensures
            match parse_envelope(old(self)@) {
                EnvelopeView::Incomplete => {
                    &&& r == Ok::<Option<Envelope>, PacketReadError>(None)
                    &&& final(self)@ == old(self)@
                },
                EnvelopeView::Malformed(e) => {
                    &&& r == Err::<Option<Envelope>, PacketReadError>(e)
                    &&& final(self)@ == old(self)@
                },
                EnvelopeView::Complete { protocol_id, packet_id, body, taken } => {
                    &&& r is Ok
                    &&& r->Ok_0 is Some
                    &&& r->Ok_0->Some_0.protocol_id == protocol_id
                    &&& r->Ok_0->Some_0.packet_id == packet_id
                    &&& r->Ok_0->Some_0.body@ == body
                    &&& taken <= old(self)@.len()
                    &&& final(self)@ == old(self)@.skip(taken as int)
                },
            },
    {
        let mut reader = ByteReader::new(self.pending.as_slice());
        let found = read_envelope(&mut reader);
        let taken: usize = reader.consumed();
        match found {
            Ok(Some(envelope)) => {
                let rest = self.pending.split_off(taken);
                self.pending = rest;
                Ok(Some(envelope))
            },
            Ok(None) => Ok(None),
            Err(e) => Err(e),
        }
    }

    /// What the end of the channel means for the bytes still held: nothing
    /// when none are left, else the channel closed inside an envelope.
    pub fn finish(&self) -> (r: Result<(), ChannelError>)
        ensures
            r == (if self@.len() == 0 {
                Ok::<(), ChannelError>(())
            } else {
                Err::<(), ChannelError>(ChannelError::UnexpectedEof)
            }),
    {
        if self.pending.len() == 0 {
            Ok(())
        } else {
            Err(ChannelError::UnexpectedEof)
        }
    }
}

/// Feeding a buffer chunk by chunk leaves in it what feeding it all the
/// bytes at once leaves: what is decoded next does not depend on how the
/// bytes were split into reads.
pub proof fn lemma_chunks_decode_as_whole(held: Seq<u8>, chunks: Seq<Seq<u8>>)
    ensures
        parse_envelope(fed(held, chunks)) == parse_envelope(held + concat_chunks(chunks)),
        fed(held, chunks) == held + concat_chunks(chunks),
    decreases chunks.len(),
{
    if chunks.len() > 0 {
        lemma_chunks_decode_as_whole(held, chunks.drop_last());
        assert(fed(held, chunks) =~= held + concat_chunks(chunks));
    } else {
    }
}

/// What a buffer holds after the chunks were pushed one by one.
pub open spec fn fed(held: Seq<u8>, chunks: Seq<Seq<u8>>) -> Seq<u8>
    decreases chunks.len(),
{
    if chunks.len() == 0 {
        held
    } else {
        fed(held, chunks.drop_last()) + chunks.last()
    }
}

/// A packet that was written as an envelope comes back as the same packet:
/// the envelope that is read holds the packet's two ids and its content,
/// the ids are registered, and decoding the content under them gives the
/// packet and takes all of the content.
pub proof fn lemma_packet_round_trip<Pr: Protocol>(v: Pr::V, rest: Seq<u8>)
    requires
        Pr::content_error(v) is None,
        Pr::content(v).len() + 2 <= u64::MAX,
    ensures
        parse_envelope(
            frame_bytes(seq![Pr::protocol_of(v), Pr::packet_of(v)] + Pr::content(v)) + rest,
        ) == (EnvelopeView::Complete {
            protocol_id: Pr::protocol_of(v),
            packet_id: Pr::packet_of(v),
            body: Pr::content(v),
            taken: envelope_bytes(Pr::protocol_of(v), Pr::packet_of(v), Pr::content(v)).len(),
        }),
        Pr::registered(Pr::protocol_of(v), Pr::packet_of(v)),
        Pr::parse_content(Pr::protocol_of(v), Pr::packet_of(v), Pr::content(v)) == Ok::<
            (Pr::V, nat),
            PacketReadError,
        >((v, Pr::content(v).len())),
{
    lemma_envelope_round_trip(Pr::protocol_of(v), Pr::packet_of(v), Pr::content(v), rest);
    Pr::lemma_ids_registered(v);
    Pr::lemma_round_trip(v, Seq::empty());
}

} // verus!
