//! What happens to a packet between the codec and the channel: it is
//! encrypted and framed on the way out, unframed, decrypted and split on
//! the way in. Reading from and writing to the channel is the caller's.

use crate::content::PacketContent;
use crate::device_id::DeviceId;
use crate::encryption::{outcome_view, EncryptionManager};
use crate::envelope::{
    frame_bytes, parse_packet_type, read_packet_type, write_frame, Envelope, IntoPacket,
};
use crate::error::{EncryptionError, Error, PacketReadError};
use crate::reader::{read_outcome, ByteReader};
use crate::wire::{parse_uint, Parsed};
use vstd::prelude::*;

verus! {

/// Decoding of a frame's length prefix at the head of `s`, as a length
/// that fits this machine. A length that does not fit can never arrive in
/// full and counts as cut short.
pub open spec fn parse_binary_header(s: Seq<u8>) -> Parsed<usize> {
    match parse_uint(s) {
        Ok((len, n)) => if len <= usize::MAX {
            Ok((len as usize, n))
        } else {
            Err(PacketReadError::Truncated)
        },
        Err(e) => Err(e),
    }
}

/// Takes the length prefix of a frame.
pub fn read_binary_header(reader: &mut ByteReader) -> (r: Result<usize, PacketReadError>)
    ensures
        read_outcome(*old(reader), *final(reader), parse_binary_header(old(reader)@), r),
{
    let start = *reader;
    match reader.read_uint() {
        Ok(len) => {
            if len > usize::MAX as u64 {
                *reader = start;
                Err(PacketReadError::Truncated)
            } else {
                Ok(len as usize)
            }
        },
        Err(e) => Err(e),
    }
}

/// What a decrypted payload splits into: the two ids, then the content.
pub open spec fn split_outcome(plaintext: Seq<u8>, r: Result<Envelope, PacketReadError>) -> bool {
    if plaintext.len() < 2 {
        r == Err::<Envelope, PacketReadError>(PacketReadError::Truncated)
    } else {
        &&& r is Ok
        &&& r->Ok_0.protocol_id == plaintext[0]
        &&& r->Ok_0.packet_id == plaintext[1]
        &&& r->Ok_0.body@ == plaintext.skip(2)
    }
}

/// Splits a decrypted payload into the two ids and the content.
pub fn split_packet(plaintext: &[u8]) -> (r: Result<Envelope, PacketReadError>)
    ensures
        split_outcome(plaintext@, r),
{
    let mut reader = ByteReader::new(plaintext);
    let ids = match read_packet_type(&mut reader) {
        Ok(ids) => ids,
        Err(e) => {
            return Err(e);
        },
    };
    match reader.read_exact(plaintext.len() - 2) {
        Ok(body) => {
            assert(body@ =~= plaintext@.skip(2));
            Ok(Envelope { protocol_id: ids.0, packet_id: ids.1, body })
        },
        Err(e) => Err(e),
    }
}

/// What a decrypted payload that a realm relayed splits into: the two ids,
/// the device that the content is for, then the content.
pub open spec fn parse_relayed(s: Seq<u8>) -> Parsed<(u8, u8, DeviceId, Seq<u8>)> {
    match parse_packet_type(s) {
        Err(e) => Err(e),
        Ok((ids, _)) => match DeviceId::parse(s.skip(2)) {
            Err(e) => Err(e),
            Ok((device, n)) => Ok(((ids.0, ids.1, device, s.skip((2 + n) as int)), s.len())),
        },
    }
}

/// Splits a decrypted payload that a realm relayed.
pub fn split_relayed_packet(plaintext: &[u8]) -> (r: Result<
    (u8, u8, DeviceId, Vec<u8>),
    PacketReadError,
>)
    ensures
        match parse_relayed(plaintext@) {
            Ok((v, _)) => {
                &&& r is Ok
                &&& r->Ok_0.0 == v.0
                &&& r->Ok_0.1 == v.1
                &&& r->Ok_0.2 == v.2
                &&& r->Ok_0.3@ == v.3
            },
            Err(e) => r == Err::<(u8, u8, DeviceId, Vec<u8>), PacketReadError>(e),
        },
{
    let mut reader = ByteReader::new(plaintext);
    let ids = match read_packet_type(&mut reader) {
        Ok(ids) => ids,
        Err(e) => {
            return Err(e);
        },
    };
    let device = match DeviceId::read(&mut reader) {
        Ok(device) => device,
        Err(e) => {
            return Err(e);
        },
    };
    let left: usize = reader.remaining();
    match reader.read_exact(left) {
        Ok(body) => Ok((ids.0, ids.1, device, body)),
        Err(e) => Err(e),
    }
}

/// What receiving makes of the encryption's answer to a payload: a refusal
/// is passed on; a plaintext is split into the two ids and the content, and
/// one too short to hold the ids is reported as cut short.
pub open spec fn opened(
    outcome: Result<Seq<u8>, EncryptionError>,
    r: Result<Envelope, Error>,
) -> bool {
    match outcome {
        Err(e) => r == Err::<Envelope, Error>(Error::Encryption(e)),
        Ok(plaintext) => if plaintext.len() < 2 {
            r == Err::<Envelope, Error>(Error::PacketRead(PacketReadError::Truncated))
        } else {
            &&& r is Ok
            &&& r->Ok_0.protocol_id == plaintext[0]
            &&& r->Ok_0.packet_id == plaintext[1]
            &&& r->Ok_0.body@ == plaintext.skip(2)
        },
    }
}

/// Builds what receiving hands out from the encryption's answer to a
/// payload.
pub fn open_packet(decrypted: Result<Vec<u8>, EncryptionError>) -> (r: Result<Envelope, Error>)
    ensures
        opened(outcome_view(decrypted), r),
{
    match decrypted {
        Err(e) => Err(Error::Encryption(e)),
        Ok(plaintext) => match split_packet(plaintext.as_slice()) {
            Ok(envelope) => Ok(envelope),
            Err(e) => Err(Error::PacketRead(e)),
        },
    }
}

/// Decrypts the payload of one frame and splits it: the result is what
/// `open_packet` makes of an answer that the encryption gives to the
/// payload. So a failure is the encryption's, or that of a plaintext too
/// short to hold the two ids.
pub fn read_packet<EM: EncryptionManager<Error = EncryptionError>>(em: &EM, payload: Vec<u8>) -> (r:
    Result<Envelope, Error>)
    ensures
        exists|outcome: Result<Seq<u8>, EncryptionError>| #[trigger]
            em.decrypts(payload@, outcome) && opened(outcome, r),
        r is Err ==> r->Err_0 is Encryption || r->Err_0 == Error::PacketRead(
            PacketReadError::Truncated,
        ),
{
    let ghost sent = payload@;
    let decrypted = em.decrypt_message(payload);
    let ghost outcome = outcome_view(decrypted);
    let r = open_packet(decrypted);
    assert(em.decrypts(sent, outcome) && opened(outcome, r));
    r
}

/// What sending makes of the encryption's answer to a payload: a refusal
/// is passed on and nothing is appended; a ciphertext is appended as
/// exactly one frame.
pub open spec fn sealed(
    before: Seq<u8>,
    after: Seq<u8>,
    outcome: Result<Seq<u8>, EncryptionError>,
    r: Result<(), Error>,
) -> bool {
    match outcome {
        Err(e) => r == Err::<(), Error>(Error::Encryption(e)) && after == before,
        Ok(ciphertext) => r is Ok && after == before + frame_bytes(ciphertext),
    }
}

/// Appends what sending makes of the encryption's answer to a payload.
pub fn seal_packet(writer: &mut Vec<u8>, encrypted: Result<Vec<u8>, EncryptionError>) -> (r: Result<
    (),
    Error,
>)
    ensures
        sealed(old(writer)@, final(writer)@, outcome_view(encrypted), r),
{
    match encrypted {
        Err(e) => Err(Error::Encryption(e)),
        Ok(ciphertext) => {
            write_frame(ciphertext.as_slice(), writer);
            Ok(())
        },
    }
}

/// Encodes a packet, encrypts the payload and appends it as one frame. A
/// packet without an encoding is refused before the encryption is asked,
/// and appends nothing. Else the encryption is asked for the packet's
/// payload, and the result is what `seal_packet` makes of its answer.
pub fn send_packet<EM: EncryptionManager<Error = EncryptionError>, C: IntoPacket>(
    writer: &mut Vec<u8>,
    em: &EM,
    content: C,
) -> (r: Result<(), Error>)
    ensures
        match content.payload_error() {
            Some(e) => {
                &&& r == Err::<(), Error>(Error::PacketBuild(e))
                &&& final(writer)@ == old(writer)@
            },
            None => exists|outcome: Result<Seq<u8>, EncryptionError>| #[trigger]
                em.encrypts(content.payload(), outcome) && sealed(
                    old(writer)@,
                    final(writer)@,
                    outcome,
                    r,
                ),
        },
{
    let mut payload: Vec<u8> = Vec::new();
    match content.into_packet(&mut payload) {
        Ok(_) => {},
        Err(e) => {
            return Err(Error::PacketBuild(e));
        },
    }
    let ghost plain = payload@;
    let encrypted = em.encrypt_message(payload);
    let ghost outcome = outcome_view(encrypted);
    let r = seal_packet(writer, encrypted);
    assert(em.encrypts(plain, outcome) && sealed(old(writer)@, writer@, outcome, r));
    r
}

} // verus!
