//! The tagged binary wire format: tag bytes, big-endian integers and
//! length headers, stated as functions on byte sequences.

use crate::error::{PacketReadError, PacketWriteError};
use vstd::prelude::*;

verus! {

/// Tag of an absent optional value.
pub const TAG_NIL: u8 = 0xc0;

/// Tag of the boolean `false`.
pub const TAG_FALSE: u8 = 0xc2;

/// Tag of the boolean `true`.
pub const TAG_TRUE: u8 = 0xc3;

/// Tag of a byte blob whose length fits in one byte.
pub const TAG_BIN8: u8 = 0xc4;

/// Tag of a byte blob whose length fits in two bytes.
pub const TAG_BIN16: u8 = 0xc5;

/// Tag of a byte blob whose length fits in four bytes.
pub const TAG_BIN32: u8 = 0xc6;

/// Tag of an unsigned 8-bit integer.
pub const TAG_U8: u8 = 0xcc;

/// Tag of an unsigned 16-bit integer.
pub const TAG_U16: u8 = 0xcd;

/// Tag of an unsigned 32-bit integer.
pub const TAG_U32: u8 = 0xce;

/// Tag of an unsigned 64-bit integer.
pub const TAG_U64: u8 = 0xcf;

/// Tag of a string whose byte length fits in one byte.
pub const TAG_STR8: u8 = 0xd9;

/// Tag of a string whose byte length fits in two bytes.
pub const TAG_STR16: u8 = 0xda;

/// Tag of a string whose byte length fits in four bytes.
pub const TAG_STR32: u8 = 0xdb;

/// First tag of the short strings: the tag is this base plus the byte length.
pub const TAG_FIXSTR: u8 = 0xa0;

/// Number of byte lengths that a short-string tag can carry.
pub const FIXSTR_LIMIT: u8 = 32;

/// Number of values that a single untagged byte can carry as an integer.
pub const FIXINT_LIMIT: u8 = 128;

/// The two bytes of `v`, most significant first.
pub open spec fn be16(v: u16) -> Seq<u8> {
    seq![(v / 0x100) as u8, (v % 0x100) as u8]
}

/// The four bytes of `v`, most significant first.
pub open spec fn be32(v: u32) -> Seq<u8> {
    seq![
        (v / 0x100_0000) as u8,
        (v / 0x1_0000 % 0x100) as u8,
        (v / 0x100 % 0x100) as u8,
        (v % 0x100) as u8,
    ]
}

/// The eight bytes of `v`, most significant first: the upper half's four
/// bytes, then the lower half's.
pub open spec fn be64(v: u64) -> Seq<u8> {
    be32((v / 0x1_0000_0000) as u32) + be32((v % 0x1_0000_0000) as u32)
}

/// The integer whose big-endian bytes are the first two of `s`.
pub open spec fn from_be16(s: Seq<u8>) -> u16
    recommends
        s.len() >= 2,
{
    (s[0] as int * 0x100 + s[1] as int) as u16
}

/// The integer whose big-endian bytes are the first four of `s`.
pub open spec fn from_be32(s: Seq<u8>) -> u32
    recommends
        s.len() >= 4,
{
    (s[0] as int * 0x100_0000 + s[1] as int * 0x1_0000 + s[2] as int * 0x100 + s[3] as int) as u32
}

/// The integer whose big-endian bytes are the first eight of `s`.
pub open spec fn from_be64(s: Seq<u8>) -> u64
    recommends
        s.len() >= 8,
{
    (from_be32(s) as int * 0x1_0000_0000 + from_be32(s.skip(4)) as int) as u64
}

/// Reading back the big-endian bytes of a 16-bit integer gives the integer,
/// whatever follows the bytes.
pub proof fn lemma_be16_round_trip(v: u16, rest: Seq<u8>)
    ensures
        be16(v).len() == 2,
        from_be16(be16(v) + rest) == v,
{
}

/// Reading back the big-endian bytes of a 32-bit integer gives the integer,
/// whatever follows the bytes.
pub proof fn lemma_be32_round_trip(v: u32, rest: Seq<u8>)
    ensures
        be32(v).len() == 4,
        from_be32(be32(v) + rest) == v,
{
}

/// Reading back the big-endian bytes of a 64-bit integer gives the integer,
/// whatever follows the bytes.
pub proof fn lemma_be64_round_trip(v: u64, rest: Seq<u8>)
    ensures
        be64(v).len() == 8,
        from_be64(be64(v) + rest) == v,
{
    let hi = (v / 0x1_0000_0000) as u32;
    let lo = (v % 0x1_0000_0000) as u32;
    lemma_be32_round_trip(hi, be32(lo) + rest);
    lemma_be32_round_trip(lo, rest);
}

/// The encoding of an unsigned 8-bit integer: its tag, then the byte.
pub open spec fn enc_u8(v: u8) -> Seq<u8> {
    seq![TAG_U8, v]
}

/// The encoding of an unsigned 16-bit integer: its tag, then two bytes.
pub open spec fn enc_u16(v: u16) -> Seq<u8> {
    seq![TAG_U16] + be16(v)
}

/// The encoding of an unsigned 32-bit integer: its tag, then four bytes.
pub open spec fn enc_u32(v: u32) -> Seq<u8> {
    seq![TAG_U32] + be32(v)
}

/// The encoding of an unsigned 64-bit integer: its tag, then eight bytes.
pub open spec fn enc_u64(v: u64) -> Seq<u8> {
    seq![TAG_U64] + be64(v)
}

/// The encoding of a boolean: one tag byte.
pub open spec fn enc_bool(b: bool) -> Seq<u8> {
    seq![if b { TAG_TRUE } else { TAG_FALSE }]
}

/// The encoding of an absent optional value: one tag byte.
pub open spec fn enc_nil() -> Seq<u8> {
    seq![TAG_NIL]
}

/// The shortest encoding of an unsigned integer: a single untagged byte
/// below 128, else the narrowest tagged width that holds it.
pub open spec fn enc_uint(v: u64) -> Seq<u8> {
    if v < FIXINT_LIMIT {
        seq![v as u8]
    } else if v < 0x100 {
        enc_u8(v as u8)
    } else if v < 0x1_0000 {
        enc_u16(v as u16)
    } else if v < 0x1_0000_0000 {
        enc_u32(v as u32)
    } else {
        enc_u64(v)
    }
}

/// The header that announces a byte blob of `n` bytes.
pub open spec fn enc_bin_header(n: u32) -> Seq<u8> {
    if n < 0x100 {
        seq![TAG_BIN8, n as u8]
    } else if n < 0x1_0000 {
        seq![TAG_BIN16] + be16(n as u16)
    } else {
        seq![TAG_BIN32] + be32(n)
    }
}

/// The header that announces a string of `n` bytes.
pub open spec fn enc_str_header(n: u32) -> Seq<u8> {
    if n < FIXSTR_LIMIT {
        seq![(TAG_FIXSTR + n) as u8]
    } else if n < 0x100 {
        seq![TAG_STR8, n as u8]
    } else if n < 0x1_0000 {
        seq![TAG_STR16] + be16(n as u16)
    } else {
        seq![TAG_STR32] + be32(n)
    }
}

/// The encoding of a byte blob: its header, then the bytes as they are.
pub open spec fn enc_bin(data: Seq<u8>) -> Seq<u8>
    recommends
        data.len() <= u32::MAX,
{
    enc_bin_header(data.len() as u32) + data
}

/// The encoding of a string given by its UTF-8 bytes: its header, then the
/// bytes.
pub open spec fn enc_str_bytes(utf8: Seq<u8>) -> Seq<u8>
    recommends
        utf8.len() <= u32::MAX,
{
    enc_str_header(utf8.len() as u32) + utf8
}

/// Appends the two big-endian bytes of `v`.
pub fn put_be16(out: &mut Vec<u8>, v: u16)
    ensures
        final(out)@ == old(out)@ + be16(v),
{
    out.push((v / 0x100) as u8);
    out.push((v % 0x100) as u8);
}

/// Appends the four big-endian bytes of `v`.
pub fn put_be32(out: &mut Vec<u8>, v: u32)
    ensures
        final(out)@ == old(out)@ + be32(v),
{
    out.push((v / 0x100_0000) as u8);
    out.push((v / 0x1_0000 % 0x100) as u8);
    out.push((v / 0x100 % 0x100) as u8);
    out.push((v % 0x100) as u8);
}

/// Appends the eight big-endian bytes of `v`.
pub fn put_be64(out: &mut Vec<u8>, v: u64)
    ensures
        final(out)@ == old(out)@ + be64(v),
{
    put_be32(out, (v / 0x1_0000_0000) as u32);
    put_be32(out, (v % 0x1_0000_0000) as u32);
}

/// Appends the encoding of an unsigned 8-bit integer.
pub fn write_u8(out: &mut Vec<u8>, v: u8)
    ensures
        final(out)@ == old(out)@ + enc_u8(v),
{
    out.push(TAG_U8);
    out.push(v);
}

/// Appends the encoding of an unsigned 16-bit integer.
pub fn write_u16(out: &mut Vec<u8>, v: u16)
    ensures
        final(out)@ == old(out)@ + enc_u16(v),
{
    out.push(TAG_U16);
    put_be16(out, v);
}

/// Appends the encoding of an unsigned 32-bit integer.
pub fn write_u32(out: &mut Vec<u8>, v: u32)
    ensures
        final(out)@ == old(out)@ + enc_u32(v),
{
    out.push(TAG_U32);
    put_be32(out, v);
}

/// Appends the encoding of an unsigned 64-bit integer.
pub fn write_u64(out: &mut Vec<u8>, v: u64)
    ensures
        final(out)@ == old(out)@ + enc_u64(v),
{
    out.push(TAG_U64);
    put_be64(out, v);
}

/// Appends the encoding of a boolean.
pub fn write_bool(out: &mut Vec<u8>, b: bool)
    ensures
        final(out)@ == old(out)@ + enc_bool(b),
{
    if b {
        out.push(TAG_TRUE);
    } else {
        out.push(TAG_FALSE);
    }
}

/// Appends the tag of an absent optional value.
pub fn write_nil(out: &mut Vec<u8>)
    ensures
        final(out)@ == old(out)@ + enc_nil(),
{
    out.push(TAG_NIL);
}

/// Appends the shortest encoding of an unsigned integer.
pub fn write_uint(out: &mut Vec<u8>, v: u64)
    ensures
        final(out)@ == old(out)@ + enc_uint(v),
{
    if v < 128 {
        out.push(v as u8);
    } else if v < 0x100 {
        write_u8(out, v as u8);
    } else if v < 0x1_0000 {
        write_u16(out, v as u16);
    } else if v < 0x1_0000_0000 {
        write_u32(out, v as u32);
    } else {
        write_u64(out, v);
    }
}

/// Appends the header of a byte blob of `n` bytes.
pub fn write_bin_len(out: &mut Vec<u8>, n: u32)
    ensures
        final(out)@ == old(out)@ + enc_bin_header(n),
{
    if n < 0x100 {
        out.push(TAG_BIN8);
        out.push(n as u8);
    } else if n < 0x1_0000 {
        out.push(TAG_BIN16);
        put_be16(out, n as u16);
    } else {
        out.push(TAG_BIN32);
        put_be32(out, n);
    }
}

/// Appends the header of a string of `n` bytes.
pub fn write_str_len(out: &mut Vec<u8>, n: u32)
    ensures
        final(out)@ == old(out)@ + enc_str_header(n),
{
    if n < 32 {
        out.push(TAG_FIXSTR + n as u8);
    } else if n < 0x100 {
        out.push(TAG_STR8);
        out.push(n as u8);
    } else if n < 0x1_0000 {
        out.push(TAG_STR16);
        put_be16(out, n as u16);
    } else {
        out.push(TAG_STR32);
        put_be32(out, n);
    }
}

/// Appends the encoding of a byte blob, or leaves `out` as it was when the
/// blob is longer than a header can state.
pub fn write_bin(out: &mut Vec<u8>, data: &[u8]) -> (r: Result<(), PacketWriteError>)
    ensures
        r is Ok <==> data@.len() <= u32::MAX,
        r is Ok ==> final(out)@ == old(out)@ + enc_bin(data@),
        r is Err ==> r == Err::<(), PacketWriteError>(PacketWriteError::TooLong) && final(out)@
            == old(out)@,
{
    let n = data.len();
    if n > u32::MAX as usize {
        return Err(PacketWriteError::TooLong);
    }
    write_bin_len(out, n as u32);
    out.extend_from_slice(data);
    Ok(())
}

/// Appends the encoding of a string given by its UTF-8 bytes, or leaves
/// `out` as it was when they are more than a header can state.
pub fn write_str_bytes(out: &mut Vec<u8>, utf8: &[u8]) -> (r: Result<(), PacketWriteError>)
    ensures
        r is Ok <==> utf8@.len() <= u32::MAX,
        r is Ok ==> final(out)@ == old(out)@ + enc_str_bytes(utf8@),
        r is Err ==> r == Err::<(), PacketWriteError>(PacketWriteError::TooLong) && final(out)@
            == old(out)@,
{
    let n = utf8.len();
    if n > u32::MAX as usize {
        return Err(PacketWriteError::TooLong);
    }
    write_str_len(out, n as u32);
    out.extend_from_slice(utf8);
    Ok(())
}

/// What decoding a prefix of a byte sequence gives: the value and the number
/// of bytes it took, or the reason for the refusal.
pub type Parsed<T> = Result<(T, nat), PacketReadError>;

/// Decoding of a value made of one tag byte and `width` bytes after it:
/// `Truncated` on an empty input, `BadTag` on another first byte,
/// `Truncated` when fewer than `width` bytes follow the tag.
pub open spec fn parse_fixed(s: Seq<u8>, tag: u8, width: nat) -> Result<(), PacketReadError> {
    if s.len() == 0 {
        Err(PacketReadError::Truncated)
    } else if s[0] != tag {
        Err(PacketReadError::BadTag)
    } else if s.len() < 1 + width {
        Err(PacketReadError::Truncated)
    } else {
        Ok(())
    }
}

/// Decoding of an unsigned 8-bit integer at the head of `s`.
pub open spec fn parse_u8(s: Seq<u8>) -> Parsed<u8> {
    match parse_fixed(s, TAG_U8, 1) {
        Ok(_) => Ok((s[1], 2)),
        Err(e) => Err(e),
    }
}

/// Decoding of an unsigned 16-bit integer at the head of `s`.
pub open spec fn parse_u16(s: Seq<u8>) -> Parsed<u16> {
    match parse_fixed(s, TAG_U16, 2) {
        Ok(_) => Ok((from_be16(s.skip(1)), 3)),
        Err(e) => Err(e),
    }
}

/// Decoding of an unsigned 32-bit integer at the head of `s`.
pub open spec fn parse_u32(s: Seq<u8>) -> Parsed<u32> {
    match parse_fixed(s, TAG_U32, 4) {
        Ok(_) => Ok((from_be32(s.skip(1)), 5)),
        Err(e) => Err(e),
    }
}

/// Decoding of an unsigned 64-bit integer at the head of `s`.
pub open spec fn parse_u64(s: Seq<u8>) -> Parsed<u64> {
    match parse_fixed(s, TAG_U64, 8) {
        Ok(_) => Ok((from_be64(s.skip(1)), 9)),
        Err(e) => Err(e),
    }
}

/// Decoding of a boolean at the head of `s`.
pub open spec fn parse_bool(s: Seq<u8>) -> Parsed<bool> {
    if s.len() == 0 {
        Err(PacketReadError::Truncated)
    } else if s[0] == TAG_TRUE {
        Ok((true, 1))
    } else if s[0] == TAG_FALSE {
        Ok((false, 1))
    } else {
        Err(PacketReadError::BadTag)
    }
}

/// Decoding of an unsigned integer of any width at the head of `s`: a
/// single byte below 128 stands for itself, the four unsigned tags are
/// followed by their big-endian bytes, every other first byte is refused.
pub open spec fn parse_uint(s: Seq<u8>) -> Parsed<u64> {
    if s.len() == 0 {
        Err(PacketReadError::Truncated)
    } else if s[0] < FIXINT_LIMIT {
        Ok((s[0] as u64, 1))
    } else if s[0] == TAG_U8 {
        match parse_u8(s) {
            Ok((v, n)) => Ok((v as u64, n)),
            Err(e) => Err(e),
        }
    } else if s[0] == TAG_U16 {
        match parse_u16(s) {
            Ok((v, n)) => Ok((v as u64, n)),
            Err(e) => Err(e),
        }
    } else if s[0] == TAG_U32 {
        match parse_u32(s) {
            Ok((v, n)) => Ok((v as u64, n)),
            Err(e) => Err(e),
        }
    } else if s[0] == TAG_U64 {
        parse_u64(s)
    } else {
        Err(PacketReadError::BadTag)
    }
}

/// Decoding of the header of a byte blob at the head of `s`: the length it
/// announces.
pub open spec fn parse_bin_header(s: Seq<u8>) -> Parsed<u32> {
    if s.len() == 0 {
        Err(PacketReadError::Truncated)
    } else if s[0] == TAG_BIN8 {
        if s.len() < 2 {
            Err(PacketReadError::Truncated)
        } else {
            Ok((s[1] as u32, 2))
        }
    } else if s[0] == TAG_BIN16 {
        if s.len() < 3 {
            Err(PacketReadError::Truncated)
        } else {
            Ok((from_be16(s.skip(1)) as u32, 3))
        }
    } else if s[0] == TAG_BIN32 {
        if s.len() < 5 {
            Err(PacketReadError::Truncated)
        } else {
            Ok((from_be32(s.skip(1)), 5))
        }
    } else {
        Err(PacketReadError::BadTag)
    }
}

/// Decoding of the header of a string at the head of `s`: the byte length
/// it announces.
pub open spec fn parse_str_header(s: Seq<u8>) -> Parsed<u32> {
    if s.len() == 0 {
        Err(PacketReadError::Truncated)
    } else if TAG_FIXSTR <= s[0] < TAG_FIXSTR + FIXSTR_LIMIT {
        Ok(((s[0] - TAG_FIXSTR) as u32, 1))
    } else if s[0] == TAG_STR8 {
        if s.len() < 2 {
            Err(PacketReadError::Truncated)
        } else {
            Ok((s[1] as u32, 2))
        }
    } else if s[0] == TAG_STR16 {
        if s.len() < 3 {
            Err(PacketReadError::Truncated)
        } else {
            Ok((from_be16(s.skip(1)) as u32, 3))
        }
    } else if s[0] == TAG_STR32 {
        if s.len() < 5 {
            Err(PacketReadError::Truncated)
        } else {
            Ok((from_be32(s.skip(1)), 5))
        }
    } else {
        Err(PacketReadError::BadTag)
    }
}

/// The `n` bytes that follow a header of `h` bytes, with the bytes taken in
/// all, or `Truncated` when fewer than `n` follow.
pub open spec fn parse_body(s: Seq<u8>, h: nat, n: nat) -> Parsed<Seq<u8>> {
    if s.len() < h + n {
        Err(PacketReadError::Truncated)
    } else {
        Ok((s.subrange(h as int, (h + n) as int), h + n))
    }
}

/// Decoding of a byte blob at the head of `s`.
pub open spec fn parse_bin(s: Seq<u8>) -> Parsed<Seq<u8>> {
    match parse_bin_header(s) {
        Ok((n, h)) => parse_body(s, h, n as nat),
        Err(e) => Err(e),
    }
}

/// Decoding of the UTF-8 bytes of a string at the head of `s`; whether they
/// are UTF-8 is not looked at here.
pub open spec fn parse_str_bytes(s: Seq<u8>) -> Parsed<Seq<u8>> {
    match parse_str_header(s) {
        Ok((n, h)) => parse_body(s, h, n as nat),
        Err(e) => Err(e),
    }
}

/// Decoding what was encoded gives the value back, whatever bytes follow:
/// unsigned 8-bit integers.
pub proof fn lemma_u8_round_trip(v: u8, rest: Seq<u8>)
    ensures
        parse_u8(enc_u8(v) + rest) == Ok::<(u8, nat), PacketReadError>((v, 2)),
        enc_u8(v).len() == 2,
{
}

/// Decoding what was encoded gives the value back, whatever bytes follow:
/// unsigned 16-bit integers.
pub proof fn lemma_u16_round_trip(v: u16, rest: Seq<u8>)
    ensures
        parse_u16(enc_u16(v) + rest) == Ok::<(u16, nat), PacketReadError>((v, 3)),
        enc_u16(v).len() == 3,
{
    lemma_be16_round_trip(v, rest);
}

/// Decoding what was encoded gives the value back, whatever bytes follow:
/// unsigned 32-bit integers.
pub proof fn lemma_u32_round_trip(v: u32, rest: Seq<u8>)
    ensures
        parse_u32(enc_u32(v) + rest) == Ok::<(u32, nat), PacketReadError>((v, 5)),
        enc_u32(v).len() == 5,
{
    lemma_be32_round_trip(v, rest);
}

/// Decoding what was encoded gives the value back, whatever bytes follow:
/// unsigned 64-bit integers.
pub proof fn lemma_u64_round_trip(v: u64, rest: Seq<u8>)
    ensures
        parse_u64(enc_u64(v) + rest) == Ok::<(u64, nat), PacketReadError>((v, 9)),
        enc_u64(v).len() == 9,
{
    lemma_be64_round_trip(v, rest);
}

/// Decoding what was encoded gives the value back, whatever bytes follow:
/// booleans.
pub proof fn lemma_bool_round_trip(b: bool, rest: Seq<u8>)
    ensures
        parse_bool(enc_bool(b) + rest) == Ok::<(bool, nat), PacketReadError>((b, 1)),
        enc_bool(b).len() == 1,
{
}

/// Decoding what was encoded gives the value back, whatever bytes follow:
/// unsigned integers in their shortest form.
pub proof fn lemma_uint_round_trip(v: u64, rest: Seq<u8>)
    ensures
        parse_uint(enc_uint(v) + rest) == Ok::<(u64, nat), PacketReadError>(
            (v, enc_uint(v).len()),
        ),
        1 <= enc_uint(v).len() <= 9,
{
    if v < FIXINT_LIMIT {
    } else if v < 0x100 {
        lemma_u8_round_trip(v as u8, rest);
    } else if v < 0x1_0000 {
        lemma_u16_round_trip(v as u16, rest);
    } else if v < 0x1_0000_0000 {
        lemma_u32_round_trip(v as u32, rest);
    } else {
        lemma_u64_round_trip(v, rest);
    }
}

/// Decoding a blob header that was encoded gives the length back, whatever
/// bytes follow.
pub proof fn lemma_bin_header_round_trip(n: u32, rest: Seq<u8>)
    ensures
        parse_bin_header(enc_bin_header(n) + rest) == Ok::<(u32, nat), PacketReadError>(
            (n, enc_bin_header(n).len()),
        ),
        2 <= enc_bin_header(n).len() <= 5,
{
    if n < 0x100 {
    } else if n < 0x1_0000 {
        lemma_be16_round_trip(n as u16, rest);
    } else {
        lemma_be32_round_trip(n, rest);
    }
}

/// Decoding a string header that was encoded gives the length back,
/// whatever bytes follow.
pub proof fn lemma_str_header_round_trip(n: u32, rest: Seq<u8>)
    ensures
        parse_str_header(enc_str_header(n) + rest) == Ok::<(u32, nat), PacketReadError>(
            (n, enc_str_header(n).len()),
        ),
        1 <= enc_str_header(n).len() <= 5,
{
    if n < FIXSTR_LIMIT {
    } else if n < 0x100 {
    } else if n < 0x1_0000 {
        lemma_be16_round_trip(n as u16, rest);
    } else {
        lemma_be32_round_trip(n, rest);
    }
}

/// Decoding what was encoded gives the value back, whatever bytes follow:
/// byte blobs, the empty one included.
pub proof fn lemma_bin_round_trip(data: Seq<u8>, rest: Seq<u8>)
    requires
        data.len() <= u32::MAX,
    ensures
        parse_bin(enc_bin(data) + rest) == Ok::<(Seq<u8>, nat), PacketReadError>(
            (data, enc_bin(data).len()),
        ),
{
    let n = data.len() as u32;
    let h = enc_bin_header(n).len();
    lemma_bin_header_round_trip(n, data + rest);
    assert((enc_bin(data) + rest).subrange(h as int, (h + n) as int) =~= data);
}

/// Decoding what was encoded gives the bytes back, whatever bytes follow:
/// the UTF-8 bytes of a string, the empty one included.
pub proof fn lemma_str_bytes_round_trip(utf8: Seq<u8>, rest: Seq<u8>)
    requires
        utf8.len() <= u32::MAX,
    ensures
        parse_str_bytes(enc_str_bytes(utf8) + rest) == Ok::<(Seq<u8>, nat), PacketReadError>(
            (utf8, enc_str_bytes(utf8).len()),
        ),
{
    let n = utf8.len() as u32;
    let h = enc_str_header(n).len();
    lemma_str_header_round_trip(n, utf8 + rest);
    assert((enc_str_bytes(utf8) + rest).subrange(h as int, (h + n) as int) =~= utf8);
}

/// Decoding of one untagged byte at the head of `s`.
pub open spec fn parse_byte(s: Seq<u8>) -> Parsed<u8> {
    if s.len() == 0 {
        Err(PacketReadError::Truncated)
    } else {
        Ok((s[0], 1))
    }
}

} // verus!
