//! The values that a packet can carry, each with its encoding, its decoding
//! and the proof that decoding undoes encoding.

use crate::error::{PacketReadError, PacketWriteError};
use crate::reader::ByteReader;
use crate::wire::{
    enc_bin, enc_bool, enc_nil, enc_str_bytes, enc_u32, enc_u64, enc_u8, lemma_bin_round_trip,
    lemma_bool_round_trip, lemma_str_bytes_round_trip, lemma_u32_round_trip, lemma_u64_round_trip,
    lemma_u8_round_trip, parse_bin, parse_bool, parse_str_bytes, parse_u32, parse_u64, parse_u8,
    write_bin, write_bool, write_nil, write_str_bytes, write_u32, write_u64, write_u8, Parsed,
    TAG_NIL,
};
use vstd::prelude::*;
use vstd::utf8::{
    decode_utf8, encode_utf8, encode_utf8_decode_utf8, encode_utf8_valid_utf8, valid_utf8,
};

verus! {

/// What a write does to the output: it appends the encoding of a value
/// that has one, and refuses any other value, with the reason, without
/// touching the output.
pub open spec fn write_outcome(
    before: Seq<u8>,
    after: Seq<u8>,
    refusal: Option<PacketWriteError>,
    encoding: Seq<u8>,
    got: Result<(), PacketWriteError>,
) -> bool {
    match refusal {
        None => got is Ok && after == before + encoding,
        Some(e) => got == Err::<(), PacketWriteError>(e) && after == before,
    }
}

/// The refusal of a length that no header can state.
pub open spec fn too_long(len: nat) -> Option<PacketWriteError> {
    if len <= u32::MAX {
        None
    } else {
        Some(PacketWriteError::TooLong)
    }
}

/// A value that can stand in the content of a packet.
///
/// The encoding is self-delimiting: `parse` needs nothing but the bytes from
/// the start of the value on, and says how many of them the value took.
pub trait PacketContent: Sized + DeepView {
    /// Why the value has no encoding, if it has none: a length in it does
    /// not fit the header that has to state it, or a field holds a value
    /// that the format keeps for another meaning.
    spec fn write_error(v: Self::V) -> Option<PacketWriteError>;

    /// The bytes that stand for the value.
    spec fn encoding(v: Self::V) -> Seq<u8>;

    /// What decoding the head of `s` gives.
    spec fn parse(s: Seq<u8>) -> Parsed<Self::V>;

    /// Decoding what was encoded gives the value back and takes exactly the
    /// encoding, whatever bytes follow it.
    proof fn lemma_round_trip(v: Self::V, rest: Seq<u8>)
        requires
            Self::write_error(v) is None,
        ensures
            Self::parse(Self::encoding(v) + rest) == Ok::<(Self::V, nat), PacketReadError>(
                (v, Self::encoding(v).len()),
            ),
    ;

    /// Takes one value from the reader, or leaves the reader where it was.
    fn read(reader: &mut ByteReader) -> (r: Result<Self, PacketReadError>)
        ensures
            match Self::parse(old(reader)@) {
                Ok((v, n)) => {
                    &&& r is Ok
                    &&& r->Ok_0.deep_view() == v
                    &&& n <= old(reader)@.len()
                    &&& final(reader)@ == old(reader)@.skip(n as int)
                    &&& final(reader).position() == old(reader).position() + n
                },
                Err(e) => r == Err::<Self, PacketReadError>(e) && *final(reader) == *old(reader),
            },
    ;

    /// Appends the encoding of the value, or leaves the writer as it was.
    fn write(&self, writer: &mut Vec<u8>) -> (r: Result<(), PacketWriteError>)
        ensures
            write_outcome(
                old(writer)@,
                final(writer)@,
                Self::write_error(self.deep_view()),
                Self::encoding(self.deep_view()),
                r,
            ),
    ;
}

impl PacketContent for u8 {
    open spec fn write_error(v: u8) -> Option<PacketWriteError> {
        None
    }

    open spec fn encoding(v: u8) -> Seq<u8> {
        enc_u8(v)
    }

    open spec fn parse(s: Seq<u8>) -> Parsed<u8> {
        parse_u8(s)
    }

    proof fn lemma_round_trip(v: u8, rest: Seq<u8>) {
        lemma_u8_round_trip(v, rest);
    }

    fn read(reader: &mut ByteReader) -> (r: Result<u8, PacketReadError>) {
        reader.read_u8()
    }

    fn write(&self, writer: &mut Vec<u8>) -> (r: Result<(), PacketWriteError>) {
        write_u8(writer, *self);
        Ok(())
    }
}

impl PacketContent for u32 {
    open spec fn write_error(v: u32) -> Option<PacketWriteError> {
        None
    }

    open spec fn encoding(v: u32) -> Seq<u8> {
        enc_u32(v)
    }

    open spec fn parse(s: Seq<u8>) -> Parsed<u32> {
        parse_u32(s)
    }

    proof fn lemma_round_trip(v: u32, rest: Seq<u8>) {
        lemma_u32_round_trip(v, rest);
    }

    fn read(reader: &mut ByteReader) -> (r: Result<u32, PacketReadError>) {
        reader.read_u32()
    }

    fn write(&self, writer: &mut Vec<u8>) -> (r: Result<(), PacketWriteError>) {
        write_u32(writer, *self);
        Ok(())
    }
}

impl PacketContent for u64 {
    open spec fn write_error(v: u64) -> Option<PacketWriteError> {
        None
    }

    open spec fn encoding(v: u64) -> Seq<u8> {
        enc_u64(v)
    }

    open spec fn parse(s: Seq<u8>) -> Parsed<u64> {
        parse_u64(s)
    }

    proof fn lemma_round_trip(v: u64, rest: Seq<u8>) {
        lemma_u64_round_trip(v, rest);
    }

    fn read(reader: &mut ByteReader) -> (r: Result<u64, PacketReadError>) {
        reader.read_u64()
    }

    fn write(&self, writer: &mut Vec<u8>) -> (r: Result<(), PacketWriteError>) {
        write_u64(writer, *self);
        Ok(())
    }
}

impl PacketContent for bool {
    open spec fn write_error(v: bool) -> Option<PacketWriteError> {
        None
    }

    open spec fn encoding(v: bool) -> Seq<u8> {
        enc_bool(v)
    }

    open spec fn parse(s: Seq<u8>) -> Parsed<bool> {
        parse_bool(s)
    }

    proof fn lemma_round_trip(v: bool, rest: Seq<u8>) {
        lemma_bool_round_trip(v, rest);
    }

    fn read(reader: &mut ByteReader) -> (r: Result<bool, PacketReadError>) {
        reader.read_bool()
    }

    fn write(&self, writer: &mut Vec<u8>) -> (r: Result<(), PacketWriteError>) {
        write_bool(writer, *self);
        Ok(())
    }
}

/// The model of a byte vector is the sequence of its bytes.
pub proof fn lemma_bytes_deep_view(v: &Vec<u8>)
    ensures
        v.deep_view() == v@,
{
}

impl PacketContent for Vec<u8> {
    open spec fn write_error(v: Seq<u8>) -> Option<PacketWriteError> {
        too_long(v.len())
    }

    open spec fn encoding(v: Seq<u8>) -> Seq<u8> {
        enc_bin(v)
    }

    open spec fn parse(s: Seq<u8>) -> Parsed<Seq<u8>> {
        parse_bin(s)
    }

    proof fn lemma_round_trip(v: Seq<u8>, rest: Seq<u8>) {
        lemma_bin_round_trip(v, rest);
    }

    fn read(reader: &mut ByteReader) -> (r: Result<Vec<u8>, PacketReadError>) {
        match reader.read_bin() {
            Ok(v) => {
                proof {
                    lemma_bytes_deep_view(&v);
                }
                Ok(v)
            },
            Err(e) => Err(e),
        }
    }

    fn write(&self, writer: &mut Vec<u8>) -> (r: Result<(), PacketWriteError>) {
        proof {
            lemma_bytes_deep_view(self);
        }
        write_bin(writer, self.as_slice())
    }
}

/// Turns bytes into a string with `String::from_utf8` of the standard
/// library: a string comes back exactly when the bytes are UTF-8, and it is
/// the string that those bytes spell.
#[verifier::external_body]
fn string_from_utf8(bytes: Vec<u8>) -> (r: Option<String>)
    ensures
        r is Some <==> valid_utf8(bytes@),
        r matches Some(s) ==> s@ == decode_utf8(bytes@),
{
    match String::from_utf8(bytes) {
        Ok(s) => Some(s),
        Err(_) => None,
    }
}

impl PacketContent for String {
    open spec fn write_error(v: Seq<char>) -> Option<PacketWriteError> {
        too_long(encode_utf8(v).len())
    }

    open spec fn encoding(v: Seq<char>) -> Seq<u8> {
        enc_str_bytes(encode_utf8(v))
    }

    open spec fn parse(s: Seq<u8>) -> Parsed<Seq<char>> {
        match parse_str_bytes(s) {
            Ok((bytes, n)) => if valid_utf8(bytes) {
                Ok((decode_utf8(bytes), n))
            } else {
                Err(PacketReadError::InvalidUtf8)
            },
            Err(e) => Err(e),
        }
    }

    proof fn lemma_round_trip(v: Seq<char>, rest: Seq<u8>) {
        lemma_str_bytes_round_trip(encode_utf8(v), rest);
        encode_utf8_valid_utf8(v);
        encode_utf8_decode_utf8(v);
    }

    fn read(reader: &mut ByteReader) -> (r: Result<String, PacketReadError>) {
        let start = *reader;
        match reader.read_str_bytes() {
            Ok(bytes) => match string_from_utf8(bytes) {
                Some(s) => Ok(s),
                None => {
                    *reader = start;
                    Err(PacketReadError::InvalidUtf8)
                },
            },
            Err(e) => Err(e),
        }
    }

    fn write(&self, writer: &mut Vec<u8>) -> (r: Result<(), PacketWriteError>) {
        write_str_bytes(writer, self.as_str().as_bytes())
    }
}

/// Content whose encoding never starts with the tag of an absent value, so
/// that it can stand inside an optional value.
pub trait TaggedContent: PacketContent {
    /// The encoding is not empty and its first byte is not the nil tag.
    proof fn lemma_first_byte(v: Self::V)
        requires
            Self::write_error(v) is None,
        ensures
            Self::encoding(v).len() > 0,
            Self::encoding(v)[0] != TAG_NIL,
    ;
}

impl TaggedContent for u8 {
    proof fn lemma_first_byte(v: u8) {
    }
}

impl TaggedContent for u32 {
    proof fn lemma_first_byte(v: u32) {
    }
}

impl TaggedContent for u64 {
    proof fn lemma_first_byte(v: u64) {
    }
}

impl TaggedContent for bool {
    proof fn lemma_first_byte(v: bool) {
    }
}

impl TaggedContent for Vec<u8> {
    proof fn lemma_first_byte(v: Seq<u8>) {
    }
}

impl TaggedContent for String {
    proof fn lemma_first_byte(v: Seq<char>) {
    }
}

impl<T: TaggedContent> PacketContent for Option<T> {
    open spec fn write_error(v: Option<T::V>) -> Option<PacketWriteError> {
        match v {
            None => None,
            Some(x) => T::write_error(x),
        }
    }

    open spec fn encoding(v: Option<T::V>) -> Seq<u8> {
        match v {
            None => enc_nil(),
            Some(x) => T::encoding(x),
        }
    }

    open spec fn parse(s: Seq<u8>) -> Parsed<Option<T::V>> {
        if s.len() > 0 && s[0] == TAG_NIL {
            Ok((None, 1))
        } else {
            match T::parse(s) {
                Ok((x, n)) => Ok((Some(x), n)),
                Err(e) => Err(e),
            }
        }
    }

    proof fn lemma_round_trip(v: Option<T::V>, rest: Seq<u8>) {
        match v {
            None => {},
            Some(x) => {
                T::lemma_first_byte(x);
                T::lemma_round_trip(x, rest);
            },
        }
    }

    fn read(reader: &mut ByteReader) -> (r: Result<Option<T>, PacketReadError>) {
        if reader.take_nil() {
            Ok(None)
        } else {
            match T::read(reader) {
                Ok(x) => Ok(Some(x)),
                Err(e) => Err(e),
            }
        }
    }

    fn write(&self, writer: &mut Vec<u8>) -> (r: Result<(), PacketWriteError>) {
        match self {
            None => {
                write_nil(writer);
                Ok(())
            },
            Some(x) => x.write(writer),
        }
    }
}

/// A composite of two fields: the first field's encoding, then the
/// second's.
impl<A: PacketContent, B: PacketContent> PacketContent for (A, B) {
    open spec fn write_error(v: (A::V, B::V)) -> Option<PacketWriteError> {
        match A::write_error(v.0) {
            Some(e) => Some(e),
            None => B::write_error(v.1),
        }
    }

    open spec fn encoding(v: (A::V, B::V)) -> Seq<u8> {
        A::encoding(v.0) + B::encoding(v.1)
    }

    open spec fn parse(s: Seq<u8>) -> Parsed<(A::V, B::V)> {
        match A::parse(s) {
            Ok((a, n)) => match B::parse(s.skip(n as int)) {
                Ok((b, m)) => Ok(((a, b), n + m)),
                Err(e) => Err(e),
            },
            Err(e) => Err(e),
        }
    }

    proof fn lemma_round_trip(v: (A::V, B::V), rest: Seq<u8>) {
        let whole = Self::encoding(v) + rest;
        let tail = B::encoding(v.1) + rest;
        assert(whole =~= A::encoding(v.0) + tail);
        A::lemma_round_trip(v.0, tail);
        assert(whole.skip(A::encoding(v.0).len() as int) =~= tail);
        B::lemma_round_trip(v.1, rest);
    }

    fn read(reader: &mut ByteReader) -> (r: Result<(A, B), PacketReadError>) {
        let start = *reader;
        let a = match A::read(reader) {
            Ok(a) => a,
            Err(e) => {
                return Err(e);
            },
        };
        let b = match B::read(reader) {
            Ok(b) => b,
            Err(e) => {
                *reader = start;
                return Err(e);
            },
        };
        Ok((a, b))
    }

    fn write(&self, writer: &mut Vec<u8>) -> (r: Result<(), PacketWriteError>) {
        let mark: usize = writer.len();
        match self.0.write(writer) {
            Ok(_) => {},
            Err(e) => {
                return Err(e);
            },
        }
        match self.1.write(writer) {
            Ok(_) => {
                assert(writer@ =~= old(writer)@ + Self::encoding(self.deep_view()));
                Ok(())
            },
            Err(e) => {
                writer.truncate(mark);
                assert(writer@ =~= old(writer)@);
                Err(e)
            },
        }
    }
}

impl<A: TaggedContent, B: PacketContent> TaggedContent for (A, B) {
    proof fn lemma_first_byte(v: (A::V, B::V)) {
        A::lemma_first_byte(v.0);
    }
}

} // verus!
