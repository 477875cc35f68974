//! A cursor over a byte buffer. Every read either takes exactly the bytes
//! of one value or leaves the cursor where it was.

use crate::error::PacketReadError;
use crate::wire::{
    from_be16, from_be32, from_be64, parse_bin, parse_bin_header, parse_bool, parse_str_bytes,
    parse_str_header, parse_u16, parse_u32, parse_u64, parse_u8, parse_uint, Parsed, TAG_BIN16,
    TAG_BIN32, TAG_BIN8, TAG_FALSE, TAG_FIXSTR, TAG_NIL, TAG_STR16, TAG_STR32, TAG_STR8, TAG_TRUE,
    TAG_U16, TAG_U32, TAG_U64, TAG_U8,
};
use vstd::prelude::*;
use vstd::slice::slice_subrange;
use vstd::slice::slice_to_vec;

verus! {

/// A read position in a borrowed byte buffer.
#[derive(Clone, Copy)]
pub struct ByteReader<'a> {
    data: &'a [u8],
    pos: usize,
}

impl<'a> View for ByteReader<'a> {
    type V = Seq<u8>;

    /// The bytes that have not been taken yet.
    closed spec fn view(&self) -> Seq<u8> {
        self.data@.skip(self.pos as int)
    }
}

/// How a read changes a cursor: on success the value comes back and the
/// cursor has moved past exactly the bytes the value took; on failure the
/// error comes back and the cursor has not moved.
pub open spec fn read_outcome<T>(
    before: ByteReader,
    after: ByteReader,
    expected: Parsed<T>,
    got: Result<T, PacketReadError>,
) -> bool {
    match expected {
        Ok((v, n)) => {
            &&& got == Ok::<T, PacketReadError>(v)
            &&& n <= before@.len()
            &&& after@ == before@.skip(n as int)
            &&& after.position() == before.position() + n
        },
        Err(e) => got == Err::<T, PacketReadError>(e) && after == before,
    }
}

impl<'a> ByteReader<'a> {
    #[verifier::type_invariant]
    spec fn in_bounds(self) -> bool {
        self.pos <= self.data@.len()
    }

    /// The number of bytes taken so far.
    pub closed spec fn position(&self) -> nat {
        self.pos as nat
    }

    /// A cursor at the start of `data`.
    pub fn new(data: &'a [u8]) -> (r: ByteReader<'a>)
        ensures
            r@ == data@,
            r.position() == 0,
    {
        ByteReader { data, pos: 0 }
    }

    /// The number of bytes not taken yet.
    pub fn remaining(&self) -> (n: usize)
        ensures
            n == self@.len(),
    {
        proof {
            use_type_invariant(self);
        }
        self.data.len() - self.pos
    }

    /// The number of bytes taken so far.
    pub fn consumed(&self) -> (n: usize)
        ensures
            n == self.position(),
    {
        self.pos
    }

    /// The next byte, without taking it.
    pub fn peek(&self) -> (r: Option<u8>)
        ensures
            r == (if self@.len() == 0 {
                None::<u8>
            } else {
                Some(self@[0])
            }),
    {
        proof {
            use_type_invariant(self);
        }
        if self.pos < self.data.len() {
            Some(self.data[self.pos])
        } else {
            None
        }
    }

    fn byte_at(&self, offset: usize) -> (b: u8)
        requires
            offset < self@.len(),
        ensures
            b == self@[offset as int],
    {
        proof {
            use_type_invariant(self);
        }
        let len: usize = self.data.len();
        assert(self.pos + offset < len);
        self.data[self.pos + offset]
    }

    fn be16_at(&self, offset: usize) -> (v: u16)
        requires
            offset + 2 <= self@.len(),
        ensures
            v == from_be16(self@.skip(offset as int)),
    {
        let left: usize = self.remaining();
        assert(offset + 2 <= left);
        let b0: u16 = self.byte_at(offset) as u16;
        let b1: u16 = self.byte_at(offset + 1) as u16;
        b0 * 0x100 + b1
    }

    fn be32_at(&self, offset: usize) -> (v: u32)
        requires
            offset + 4 <= self@.len(),
        ensures
            v == from_be32(self@.skip(offset as int)),
    {
        let left: usize = self.remaining();
        assert(offset + 4 <= left);
        let b0: u32 = self.byte_at(offset) as u32;
        let b1: u32 = self.byte_at(offset + 1) as u32;
        let b2: u32 = self.byte_at(offset + 2) as u32;
        let b3: u32 = self.byte_at(offset + 3) as u32;
        b0 * 0x100_0000 + b1 * 0x1_0000 + b2 * 0x100 + b3
    }

    fn be64_at(&self, offset: usize) -> (v: u64)
        requires
            offset + 8 <= self@.len(),
        ensures
            v == from_be64(self@.skip(offset as int)),
    {
        let left: usize = self.remaining();
        assert(offset + 8 <= left);
        let hi: u64 = self.be32_at(offset) as u64;
        let lo: u64 = self.be32_at(offset + 4) as u64;
        hi * 0x1_0000_0000 + lo
    }

    fn advance(&mut self, n: usize)
        requires
            n <= old(self)@.len(),
        ensures
            final(self)@ == old(self)@.skip(n as int),
            final(self).position() == old(self).position() + n,
    {
        proof {
            use_type_invariant(&*self);
        }
        let len: usize = self.data.len();
        assert(self.pos + n <= len);
        self.pos = self.pos + n;
    }

    fn expect_fixed(&self, tag: u8, width: usize) -> (r: Result<(), PacketReadError>)
        requires
            width <= 8,
        ensures
            r == crate::wire::parse_fixed(self@, tag, width as nat),
    {
        let left: usize = self.remaining();
        if left == 0 {
            Err(PacketReadError::Truncated)
        } else if self.byte_at(0) != tag {
            Err(PacketReadError::BadTag)
        } else if left < 1 + width {
            Err(PacketReadError::Truncated)
        } else {
            Ok(())
        }
    }

    /// Takes an unsigned 8-bit integer.
    pub fn read_u8(&mut self) -> (r: Result<u8, PacketReadError>)
        ensures
            read_outcome(*old(self), *final(self), parse_u8(old(self)@), r),
    {
        match self.expect_fixed(TAG_U8, 1) {
            Ok(_) => {
                let v: u8 = self.byte_at(1);
                self.advance(2);
                Ok(v)
            },
            Err(e) => Err(e),
        }
    }

    /// Takes an unsigned 16-bit integer.
    pub fn read_u16(&mut self) -> (r: Result<u16, PacketReadError>)
        ensures
            read_outcome(*old(self), *final(self), parse_u16(old(self)@), r),
    {
        match self.expect_fixed(TAG_U16, 2) {
            Ok(_) => {
                let v: u16 = self.be16_at(1);
                self.advance(3);
                Ok(v)
            },
            Err(e) => Err(e),
        }
    }

    /// Takes an unsigned 32-bit integer.
    pub fn read_u32(&mut self) -> (r: Result<u32, PacketReadError>)
        ensures
            read_outcome(*old(self), *final(self), parse_u32(old(self)@), r),
    {
        match self.expect_fixed(TAG_U32, 4) {
            Ok(_) => {
                let v: u32 = self.be32_at(1);
                self.advance(5);
                Ok(v)
            },
            Err(e) => Err(e),
        }
    }

    /// Takes an unsigned 64-bit integer.
    pub fn read_u64(&mut self) -> (r: Result<u64, PacketReadError>)
        ensures
            read_outcome(*old(self), *final(self), parse_u64(old(self)@), r),
    {
        match self.expect_fixed(TAG_U64, 8) {
            Ok(_) => {
                let v: u64 = self.be64_at(1);
                self.advance(9);
                Ok(v)
            },
            Err(e) => Err(e),
        }
    }

    /// Takes a boolean.
    pub fn read_bool(&mut self) -> (r: Result<bool, PacketReadError>)
        ensures
            read_outcome(*old(self), *final(self), parse_bool(old(self)@), r),
    {
        match self.peek() {
            None => Err(PacketReadError::Truncated),
            Some(tag) => {
                if tag == TAG_TRUE {
                    self.advance(1);
                    Ok(true)
                } else if tag == TAG_FALSE {
                    self.advance(1);
                    Ok(false)
                } else {
                    Err(PacketReadError::BadTag)
                }
            },
        }
    }

    /// Takes the tag of an absent optional value if it is next, and says
    /// whether it was; any other next byte stays where it is.
    pub fn take_nil(&mut self) -> (r: bool)
        ensures
            r == (old(self)@.len() > 0 && old(self)@[0] == TAG_NIL),
            r ==> final(self)@ == old(self)@.skip(1) && final(self).position() == old(
                self,
            ).position() + 1,
            !r ==> *final(self) == *old(self),
    {
        match self.peek() {
            None => false,
            Some(tag) => {
                if tag == TAG_NIL {
                    self.advance(1);
                    true
                } else {
                    false
                }
            },
        }
    }

    /// Takes an unsigned integer of any width.
    pub fn read_uint(&mut self) -> (r: Result<u64, PacketReadError>)
        ensures
            read_outcome(*old(self), *final(self), parse_uint(old(self)@), r),
    {
        match self.peek() {
            None => Err(PacketReadError::Truncated),
            Some(tag) => {
                if tag < 128 {
                    self.advance(1);
                    Ok(tag as u64)
                } else if tag == TAG_U8 {
                    match self.read_u8() {
                        Ok(v) => Ok(v as u64),
                        Err(e) => Err(e),
                    }
                } else if tag == TAG_U16 {
                    match self.read_u16() {
                        Ok(v) => Ok(v as u64),
                        Err(e) => Err(e),
                    }
                } else if tag == TAG_U32 {
                    match self.read_u32() {
                        Ok(v) => Ok(v as u64),
                        Err(e) => Err(e),
                    }
                } else if tag == TAG_U64 {
                    self.read_u64()
                } else {
                    Err(PacketReadError::BadTag)
                }
            },
        }
    }

    fn bin_header(&self) -> (r: Result<(u32, usize), PacketReadError>)
        ensures
            match parse_bin_header(self@) {
                Ok((n, h)) => r == Ok::<(u32, usize), PacketReadError>((n, h as usize)) && h <= 5
                    && h <= self@.len(),
                Err(e) => r == Err::<(u32, usize), PacketReadError>(e),
            },
    {
        let left: usize = self.remaining();
        if left == 0 {
            return Err(PacketReadError::Truncated);
        }
        let tag: u8 = self.byte_at(0);
        if tag == TAG_BIN8 {
            if left < 2 {
                Err(PacketReadError::Truncated)
            } else {
                Ok((self.byte_at(1) as u32, 2))
            }
        } else if tag == TAG_BIN16 {
            if left < 3 {
                Err(PacketReadError::Truncated)
            } else {
                Ok((self.be16_at(1) as u32, 3))
            }
        } else if tag == TAG_BIN32 {
            if left < 5 {
                Err(PacketReadError::Truncated)
            } else {
                Ok((self.be32_at(1), 5))
            }
        } else {
            Err(PacketReadError::BadTag)
        }
    }

    fn str_header(&self) -> (r: Result<(u32, usize), PacketReadError>)
        ensures
            match parse_str_header(self@) {
                Ok((n, h)) => r == Ok::<(u32, usize), PacketReadError>((n, h as usize)) && h <= 5
                    && h <= self@.len(),
                Err(e) => r == Err::<(u32, usize), PacketReadError>(e),
            },
    {
        let left: usize = self.remaining();
        if left == 0 {
            return Err(PacketReadError::Truncated);
        }
        let tag: u8 = self.byte_at(0);
        if TAG_FIXSTR <= tag && tag < TAG_FIXSTR + 32 {
            Ok(((tag - TAG_FIXSTR) as u32, 1))
        } else if tag == TAG_STR8 {
            if left < 2 {
                Err(PacketReadError::Truncated)
            } else {
                Ok((self.byte_at(1) as u32, 2))
            }
        } else if tag == TAG_STR16 {
            if left < 3 {
                Err(PacketReadError::Truncated)
            } else {
                Ok((self.be16_at(1) as u32, 3))
            }
        } else if tag == TAG_STR32 {
            if left < 5 {
                Err(PacketReadError::Truncated)
            } else {
                Ok((self.be32_at(1), 5))
            }
        } else {
            Err(PacketReadError::BadTag)
        }
    }

    fn take_body(&mut self, h: usize, n: u32) -> (r: Result<Vec<u8>, PacketReadError>)
        requires
            h <= 5,
        ensures
            match crate::wire::parse_body(old(self)@, h as nat, n as nat) {
                Ok((v, k)) => {
                    &&& r is Ok
                    &&& r->Ok_0@ == v
                    &&& k <= old(self)@.len()
                    &&& final(self)@ == old(self)@.skip(k as int)
                    &&& final(self).position() == old(self).position() + k
                },
                Err(e) => r == Err::<Vec<u8>, PacketReadError>(e) && *final(self) == *old(self),
            },
    {
        proof {
            use_type_invariant(&*self);
        }
        let left: usize = self.remaining();
        if (left as u64) < h as u64 + n as u64 {
            return Err(PacketReadError::Truncated);
        }
        let total: usize = h + n as usize;
        let len: usize = self.data.len();
        assert(self.pos + total <= len);
        let body = slice_subrange(self.data, self.pos + h, self.pos + total);
        let v = slice_to_vec(body);
        self.advance(total);
        Ok(v)
    }

    /// Takes the header of a byte blob and gives the length it announces.
    pub fn read_bin_len(&mut self) -> (r: Result<u32, PacketReadError>)
        ensures
            read_outcome(*old(self), *final(self), parse_bin_header(old(self)@), r),
    {
        match self.bin_header() {
            Ok((n, h)) => {
                self.advance(h);
                Ok(n)
            },
            Err(e) => Err(e),
        }
    }

    /// Takes the header of a string and gives the byte length it announces.
    pub fn read_str_len(&mut self) -> (r: Result<u32, PacketReadError>)
        ensures
            read_outcome(*old(self), *final(self), parse_str_header(old(self)@), r),
    {
        match self.str_header() {
            Ok((n, h)) => {
                self.advance(h);
                Ok(n)
            },
            Err(e) => Err(e),
        }
    }

    /// Takes a byte blob: its header and the bytes it announces.
    pub fn read_bin(&mut self) -> (r: Result<Vec<u8>, PacketReadError>)
        ensures
            match parse_bin(old(self)@) {
                Ok((v, k)) => {
                    &&& r is Ok
                    &&& r->Ok_0@ == v
                    &&& k <= old(self)@.len()
                    &&& final(self)@ == old(self)@.skip(k as int)
                    &&& final(self).position() == old(self).position() + k
                },
                Err(e) => r == Err::<Vec<u8>, PacketReadError>(e) && *final(self) == *old(self),
            },
    {
        match self.bin_header() {
            Ok((n, h)) => self.take_body(h, n),
            Err(e) => Err(e),
        }
    }

    /// Takes the bytes of a string: its header and the bytes it announces.
    pub fn read_str_bytes(&mut self) -> (r: Result<Vec<u8>, PacketReadError>)
        ensures
            match parse_str_bytes(old(self)@) {
                Ok((v, k)) => {
                    &&& r is Ok
                    &&& r->Ok_0@ == v
                    &&& k <= old(self)@.len()
                    &&& final(self)@ == old(self)@.skip(k as int)
                    &&& final(self).position() == old(self).position() + k
                },
                Err(e) => r == Err::<Vec<u8>, PacketReadError>(e) && *final(self) == *old(self),
            },
    {
        match self.str_header() {
            Ok((n, h)) => self.take_body(h, n),
            Err(e) => Err(e),
        }
    }

    /// Takes the next `n` bytes as they are, or none when fewer remain.
    pub fn read_exact(&mut self, n: usize) -> (r: Result<Vec<u8>, PacketReadError>)
        ensures
            n <= old(self)@.len() ==> {
                &&& r is Ok
                &&& r->Ok_0@ == old(self)@.take(n as int)
                &&& final(self)@ == old(self)@.skip(n as int)
                &&& final(self).position() == old(self).position() + n
            },
            n > old(self)@.len() ==> r == Err::<Vec<u8>, PacketReadError>(
                PacketReadError::Truncated,
            ) && *final(self) == *old(self),
    {
        proof {
            use_type_invariant(&*self);
        }
        let left: usize = self.remaining();
        if left < n {
            return Err(PacketReadError::Truncated);
        }
        let len: usize = self.data.len();
        assert(self.pos + n <= len);
        let body = slice_subrange(self.data, self.pos, self.pos + n);
        let v = slice_to_vec(body);
        self.advance(n);
        Ok(v)
    }

    /// Takes the next byte as it is.
    pub fn read_byte(&mut self) -> (r: Result<u8, PacketReadError>)
        ensures
            read_outcome(*old(self), *final(self), crate::wire::parse_byte(old(self)@), r),
    {
        match self.peek() {
            None => Err(PacketReadError::Truncated),
            Some(b) => {
                self.advance(1);
                Ok(b)
            },
        }
    }
}

} // verus!
