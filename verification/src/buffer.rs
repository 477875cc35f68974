//! Byte vectors, and the shared byte buffers that callers may hold them in.

use crate::content::{too_long, write_outcome};
use crate::error::{PacketReadError, PacketWriteError};
use crate::reader::ByteReader;
use crate::wire::{enc_bin, parse_bin, write_bin};
use bytes::Bytes;
use vstd::prelude::*;

verus! {

/// Whether two byte vectors hold the same bytes.
pub fn bytes_equal(a: &Vec<u8>, b: &Vec<u8>) -> (r: bool)
    ensures
        r == (a@ == b@),
{
    let r = a == b;
    assert(r == (a@ =~= b@));
    r
}

/// A copy of a byte vector.
pub fn bytes_copy(a: &Vec<u8>) -> (r: Vec<u8>)
    ensures
        r@ == a@,
{
    let r = a.clone();
    r
}

/// A copy of an optional byte vector.
pub fn optional_bytes_copy(a: &Option<Vec<u8>>) -> (r: Option<Vec<u8>>)
    ensures
        r.deep_view() == a.deep_view(),
{
    match a {
        Some(v) => {
            let c = bytes_copy(v);
            proof {
                crate::content::lemma_bytes_deep_view(v);
                crate::content::lemma_bytes_deep_view(&c);
            }
            Some(c)
        },
        None => None,
    }
}

/// The shared byte buffer of the `bytes` crate.
#[verifier::external_type_specification]
#[verifier::external_body]
pub struct ExBytes(bytes::Bytes);

/// The bytes that a shared buffer holds, in order.
pub uninterp spec fn bytes_contents(buffer: Bytes) -> Seq<u8>;

/// Makes a shared buffer of a vector with `Bytes::from`: the buffer holds
/// the vector's bytes.
#[verifier::external_body]
fn shared_from_vec(bytes: Vec<u8>) -> (r: Bytes)
    ensures
        bytes_contents(r) == bytes@,
{
    Bytes::from(bytes)
}

/// Copies what a shared buffer holds, through `Bytes::as_ref`, into a
/// vector: the vector holds the buffer's bytes.
#[verifier::external_body]
fn shared_to_vec(buffer: &Bytes) -> (r: Vec<u8>)
    ensures
        r@ == bytes_contents(*buffer),
{
    buffer.as_ref().to_vec()
}

/// Takes a byte blob from the reader into a shared buffer, or leaves the
/// reader where it was.
pub fn read_shared(reader: &mut ByteReader) -> (r: Result<Bytes, PacketReadError>)
    ensures
        match parse_bin(old(reader)@) {
            Ok((v, n)) => {
                &&& r is Ok
                &&& bytes_contents(r->Ok_0) == v
                &&& n <= old(reader)@.len()
                &&& final(reader)@ == old(reader)@.skip(n as int)
                &&& final(reader).position() == old(reader).position() + n
            },
            Err(e) => r == Err::<Bytes, PacketReadError>(e) && *final(reader) == *old(reader),
        },
{
    match reader.read_bin() {
        Ok(bytes) => Ok(shared_from_vec(bytes)),
        Err(e) => Err(e),
    }
}

/// Appends the encoding of the blob that a shared buffer holds, or leaves
/// the writer as it was.
pub fn write_shared(buffer: &Bytes, writer: &mut Vec<u8>) -> (r: Result<(), PacketWriteError>)
    ensures
        write_outcome(
            old(writer)@,
            final(writer)@,
            too_long(bytes_contents(*buffer).len()),
            enc_bin(bytes_contents(*buffer)),
            r,
        ),
{
    let bytes = shared_to_vec(buffer);
    write_bin(writer, bytes.as_slice())
}

} // verus!
