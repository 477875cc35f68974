//! The 128-bit identity of a device, carried as two 64-bit halves.

use crate::content::{PacketContent, TaggedContent};
use crate::error::{PacketReadError, PacketWriteError};
use crate::reader::ByteReader;
use crate::wire::{
    be64, enc_u64, lemma_be64_round_trip, lemma_u64_round_trip, parse_u64, write_u64, Parsed,
    TAG_U64,
};
use uuid::Uuid;
use vstd::prelude::*;

verus! {

/// A 128-bit device identity: the upper 64 bits and the lower 64 bits.
#[derive(Debug, Clone, Copy, PartialEq, Eq, Structural, Hash)]
pub struct DeviceId {
    /// The most significant 64 bits.
    pub most: u64,
    /// The least significant 64 bits.
    pub least: u64,
}

impl View for DeviceId {
    type V = DeviceId;

    open spec fn view(&self) -> DeviceId {
        *self
    }
}

impl DeepView for DeviceId {
    type V = DeviceId;

    open spec fn deep_view(&self) -> DeviceId {
        *self
    }
}

impl DeviceId {
    /// The identity whose halves are `most` and `least`.
    pub fn from_u64_pair(most: u64, least: u64) -> (r: DeviceId)
        ensures
            r == (DeviceId { most, least }),
    {
        DeviceId { most, least }
    }

    /// The two halves, most significant first.
    pub fn as_u64_pair(&self) -> (r: (u64, u64))
        ensures
            r == (self.most, self.least),
    {
        (self.most, self.least)
    }
}

impl PacketContent for DeviceId {
    open spec fn write_error(v: DeviceId) -> Option<PacketWriteError> {
        None
    }

    open spec fn encoding(v: DeviceId) -> Seq<u8> {
        enc_u64(v.most) + enc_u64(v.least)
    }

    open spec fn parse(s: Seq<u8>) -> Parsed<DeviceId> {
        match parse_u64(s) {
            Ok((most, n)) => match parse_u64(s.skip(n as int)) {
                Ok((least, m)) => Ok((DeviceId { most, least }, n + m)),
                Err(e) => Err(e),
            },
            Err(e) => Err(e),
        }
    }

    proof fn lemma_round_trip(v: DeviceId, rest: Seq<u8>) {
        lemma_u64_round_trip(v.most, enc_u64(v.least) + rest);
        lemma_u64_round_trip(v.least, rest);
    }

    fn read(reader: &mut ByteReader) -> (r: Result<DeviceId, PacketReadError>) {
        let start = *reader;
        let most: u64 = match reader.read_u64() {
            Ok(v) => v,
            Err(e) => {
                return Err(e);
            },
        };
        let least: u64 = match reader.read_u64() {
            Ok(v) => v,
            Err(e) => {
                *reader = start;
                return Err(e);
            },
        };
        Ok(DeviceId { most, least })
    }

    fn write(&self, writer: &mut Vec<u8>) -> (r: Result<(), PacketWriteError>) {
        write_u64(writer, self.most);
        write_u64(writer, self.least);
        assert(writer@ =~= old(writer)@ + Self::encoding(*self));
        Ok(())
    }
}

impl TaggedContent for DeviceId {
    proof fn lemma_first_byte(v: DeviceId) {
    }
}

/// The universally unique identifier of the `uuid` crate.
#[verifier::external_type_specification]
#[verifier::external_body]
pub struct ExUuid(uuid::Uuid);

/// The sixteen bytes that a UUID holds, most significant first.
pub uninterp spec fn uuid_bytes(id: Uuid) -> Seq<u8>;

/// Makes a UUID of two halves with `Uuid::from_u64_pair`: the UUID holds
/// the big-endian bytes of the upper half, then those of the lower half.
#[verifier::external_body]
fn uuid_from_u64_pair(most: u64, least: u64) -> (r: Uuid)
    ensures
        uuid_bytes(r) == be64(most) + be64(least),
{
    Uuid::from_u64_pair(most, least)
}

/// Splits a UUID in two halves with `Uuid::as_u64_pair`: the UUID holds
/// the big-endian bytes of the first half, then those of the second.
#[verifier::external_body]
fn uuid_as_u64_pair(id: &Uuid) -> (r: (u64, u64))
    ensures
        uuid_bytes(*id) == be64(r.0) + be64(r.1),
{
    id.as_u64_pair()
}

/// The bytes that a device id stands for: its upper half, then its lower
/// half, each most significant byte first.
pub open spec fn device_id_bytes(id: DeviceId) -> Seq<u8> {
    be64(id.most) + be64(id.least)
}

/// Two device ids that stand for the same bytes are the same id.
pub proof fn lemma_device_id_bytes_injective(a: DeviceId, b: DeviceId)
    requires
        device_id_bytes(a) == device_id_bytes(b),
    ensures
        a == b,
{
    lemma_be64_round_trip(a.most, be64(a.least));
    lemma_be64_round_trip(b.most, be64(b.least));
    lemma_be64_round_trip(a.least, Seq::empty());
    lemma_be64_round_trip(b.least, Seq::empty());
    assert(device_id_bytes(a).skip(8) + Seq::<u8>::empty() =~= be64(a.least) + Seq::<u8>::empty());
    assert(device_id_bytes(b).skip(8) + Seq::<u8>::empty() =~= be64(b.least) + Seq::<u8>::empty());
}

impl DeviceId {
    /// The device id that holds the bytes of a UUID.
    pub fn from_uuid(id: &Uuid) -> (r: DeviceId)
        ensures
            device_id_bytes(r) == uuid_bytes(*id),
    {
        let (most, least) = uuid_as_u64_pair(id);
        DeviceId { most, least }
    }

    /// The UUID that holds the bytes of the device id.
    pub fn to_uuid(&self) -> (r: Uuid)
        ensures
            uuid_bytes(r) == device_id_bytes(*self),
    {
        uuid_from_u64_pair(self.most, self.least)
    }
}

/// The encoding of the id that sixteen bytes hold: the first eight as one
/// 64-bit integer, then the last eight as another.
pub open spec fn enc_uuid_bytes(bytes: Seq<u8>) -> Seq<u8>
    recommends
        bytes.len() == 16,
{
    seq![TAG_U64] + bytes.take(8) + seq![TAG_U64] + bytes.skip(8)
}

/// The encoding of the bytes of a device id is the encoding of the device
/// id: what is written for a UUID is read back as the device id that holds
/// the same bytes.
pub proof fn lemma_uuid_encoding(id: DeviceId)
    ensures
        enc_uuid_bytes(device_id_bytes(id)) == <DeviceId as PacketContent>::encoding(id),
{
    assert(device_id_bytes(id).take(8) =~= be64(id.most));
    assert(device_id_bytes(id).skip(8) =~= be64(id.least));
    assert(enc_uuid_bytes(device_id_bytes(id)) =~= enc_u64(id.most) + enc_u64(id.least));
}

/// Takes a device id from the reader as a UUID, or leaves the reader where
/// it was.
pub fn read_uuid(reader: &mut ByteReader) -> (r: Result<Uuid, PacketReadError>)
    ensures
        match DeviceId::parse(old(reader)@) {
            Ok((v, n)) => {
                &&& r is Ok
                &&& uuid_bytes(r->Ok_0) == device_id_bytes(v)
                &&& n <= old(reader)@.len()
                &&& final(reader)@ == old(reader)@.skip(n as int)
                &&& final(reader).position() == old(reader).position() + n
            },
            Err(e) => r == Err::<Uuid, PacketReadError>(e) && *final(reader) == *old(reader),
        },
{
    match DeviceId::read(reader) {
        Ok(id) => Ok(id.to_uuid()),
        Err(e) => Err(e),
    }
}

/// Appends the encoding of the device id that a UUID holds.
pub fn write_uuid(id: &Uuid, writer: &mut Vec<u8>)
    ensures
        final(writer)@ == old(writer)@ + enc_uuid_bytes(uuid_bytes(*id)),
{
    let device = DeviceId::from_uuid(id);
    write_u64(writer, device.most);
    write_u64(writer, device.least);
    assert(uuid_bytes(*id).take(8) =~= be64(device.most));
    assert(uuid_bytes(*id).skip(8) =~= be64(device.least));
    assert(writer@ =~= old(writer)@ + enc_uuid_bytes(uuid_bytes(*id)));
}

} // verus!
