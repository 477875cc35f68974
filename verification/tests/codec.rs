use abst_rs::content::PacketContent;
use abst_rs::device_id::DeviceId;
use abst_rs::error::{PacketReadError, PacketWriteError};
use abst_rs::packets::realm::LoginDetails;
use abst_rs::packets::ErrorPacket;
use abst_rs::reader::ByteReader;
use abst_rs::wire::{write_bin_len, write_str_len, write_u16, write_uint};

fn encode<T: PacketContent>(value: &T) -> Vec<u8> {
    let mut out = Vec::new();
    value.write(&mut out).unwrap();
    out
}

fn decode<T: PacketContent>(bytes: &[u8]) -> Result<(T, usize), PacketReadError> {
    let mut reader = ByteReader::new(bytes);
    let value = T::read(&mut reader)?;
    Ok((value, reader.consumed()))
}

fn round_trip<T: PacketContent + PartialEq + std::fmt::Debug>(value: T) {
    let mut bytes = encode(&value);
    let len = bytes.len();
    assert_eq!(decode::<T>(&bytes), Ok((value, len)));
    bytes.extend_from_slice(&[0xc0, 0xff, 0x00]);
    let (_, taken) = decode::<T>(&bytes).unwrap();
    assert_eq!(taken, len);
}

#[test]
fn test() {
    let mut out: Vec<u8> = Vec::new();
    7u8.write(&mut out).unwrap();
    (1u8, (2u8, 3u8)).write(&mut out).unwrap();
    assert_eq!(out, vec![0xcc, 7, 0xcc, 1, 0xcc, 2, 0xcc, 3]);
    let mut reader = ByteReader::new(&out);
    assert_eq!(u8::read(&mut reader), Ok(7));
    assert_eq!(<(u8, (u8, u8))>::read(&mut reader), Ok((1, (2, 3))));
    assert_eq!(reader.remaining(), 0);
}

#[test]
fn integers_have_fixed_width_big_endian_encodings() {
    assert_eq!(encode(&0u8), vec![0xcc, 0x00]);
    assert_eq!(encode(&0xabu8), vec![0xcc, 0xab]);
    assert_eq!(encode(&1u32), vec![0xce, 0, 0, 0, 1]);
    assert_eq!(encode(&0x0102_0304u32), vec![0xce, 1, 2, 3, 4]);
    assert_eq!(encode(&u32::MAX), vec![0xce, 0xff, 0xff, 0xff, 0xff]);
    assert_eq!(encode(&0x0102_0304_0506_0708u64), vec![0xcf, 1, 2, 3, 4, 5, 6, 7, 8]);
    assert_eq!(encode(&u64::MAX), vec![0xcf, 255, 255, 255, 255, 255, 255, 255, 255]);
    let mut out = Vec::new();
    write_u16(&mut out, 0x1234);
    assert_eq!(out, vec![0xcd, 0x12, 0x34]);
}

#[test]
fn integers_round_trip() {
    for v in [0u8, 1, 127, 128, 0xc0, 255] {
        round_trip(v);
    }
    for v in [0u32, 1, 255, 256, 65535, 65536, 0xdead_beef, u32::MAX] {
        round_trip(v);
    }
    for v in [0u64, 1, 0xffff_ffff, 0x1_0000_0000, 0x0123_4567_89ab_cdef, u64::MAX] {
        round_trip(v);
    }
}

#[test]
fn booleans_are_one_tagged_byte() {
    assert_eq!(encode(&true), vec![0xc3]);
    assert_eq!(encode(&false), vec![0xc2]);
    round_trip(true);
    round_trip(false);
    assert_eq!(decode::<bool>(&[0xc0]), Err(PacketReadError::BadTag));
    assert_eq!(decode::<bool>(&[]), Err(PacketReadError::Truncated));
}

#[test]
fn integer_decoding_reports_bad_tag_and_truncation() {
    assert_eq!(decode::<u8>(&[]), Err(PacketReadError::Truncated));
    assert_eq!(decode::<u8>(&[0xcc]), Err(PacketReadError::Truncated));
    assert_eq!(decode::<u8>(&[0xce, 1]), Err(PacketReadError::BadTag));
    assert_eq!(decode::<u8>(&[0x05]), Err(PacketReadError::BadTag));
    assert_eq!(decode::<u32>(&[0xce, 1, 2, 3]), Err(PacketReadError::Truncated));
    assert_eq!(decode::<u32>(&[0xcc, 1, 2, 3, 4]), Err(PacketReadError::BadTag));
    assert_eq!(decode::<u64>(&[0xcf, 1, 2, 3, 4, 5, 6, 7]), Err(PacketReadError::Truncated));
    assert_eq!(decode::<u64>(&[0xce, 1, 2, 3, 4, 5, 6, 7, 8]), Err(PacketReadError::BadTag));
}

#[test]
fn failed_read_leaves_the_cursor_where_it_was() {
    let bytes = [0xcc, 9, 0xcf, 1, 2];
    let mut reader = ByteReader::new(&bytes);
    assert_eq!(u8::read(&mut reader), Ok(9));
    assert_eq!(reader.consumed(), 2);
    assert_eq!(DeviceId::read(&mut reader), Err(PacketReadError::Truncated));
    assert_eq!(reader.consumed(), 2);
    assert_eq!(reader.remaining(), 3);
    assert_eq!(reader.peek(), Some(0xcf));
}

#[test]
fn strings_are_length_prefixed_utf8() {
    assert_eq!(encode(&String::new()), vec![0xa0]);
    assert_eq!(encode(&String::from("hi")), vec![0xa2, b'h', b'i']);
    assert_eq!(encode(&String::from("é")), vec![0xa2, 0xc3, 0xa9]);
    round_trip(String::new());
    round_trip(String::from("Invalid State"));
    round_trip(String::from("héllo wörld ✓ 🦀"));
    for len in [31usize, 32, 255, 256, 65535, 65536] {
        let s: String = "a".repeat(len);
        let bytes = encode(&s);
        let header = match len {
            31 => vec![0xbf],
            32 => vec![0xd9, 32],
            255 => vec![0xd9, 255],
            256 => vec![0xda, 1, 0],
            65535 => vec![0xda, 255, 255],
            _ => vec![0xdb, 0, 1, 0, 0],
        };
        assert_eq!(&bytes[..header.len()], &header[..]);
        assert_eq!(bytes.len(), header.len() + len);
        round_trip(s);
    }
}

#[test]
fn string_decoding_reports_invalid_utf8() {
    assert_eq!(decode::<String>(&[0xa2, 0xff, 0xfe]), Err(PacketReadError::InvalidUtf8));
    assert_eq!(decode::<String>(&[0xa1, 0x80]), Err(PacketReadError::InvalidUtf8));
    assert_eq!(decode::<String>(&[0xa3, 0xe2, 0x82]), Err(PacketReadError::Truncated));
    assert_eq!(decode::<String>(&[0xc4, 0]), Err(PacketReadError::BadTag));
    assert_eq!(decode::<String>(&[0xd9]), Err(PacketReadError::Truncated));
    let bytes = [0xa2, 0xc3, 0x28, 7];
    let mut reader = ByteReader::new(&bytes);
    assert_eq!(String::read(&mut reader), Err(PacketReadError::InvalidUtf8));
    assert_eq!(reader.consumed(), 0);
}

#[test]
fn blobs_are_length_prefixed_raw_bytes() {
    assert_eq!(encode(&Vec::<u8>::new()), vec![0xc4, 0]);
    assert_eq!(encode(&vec![1u8, 2, 3]), vec![0xc4, 3, 1, 2, 3]);
    round_trip(Vec::<u8>::new());
    round_trip(vec![0xc0u8; 5]);
    for len in [255usize, 256, 65535, 65536] {
        let blob = vec![0x5au8; len];
        let bytes = encode(&blob);
        let header = match len {
            255 => vec![0xc4, 255],
            256 => vec![0xc5, 1, 0],
            65535 => vec![0xc5, 255, 255],
            _ => vec![0xc6, 0, 1, 0, 0],
        };
        assert_eq!(&bytes[..header.len()], &header[..]);
        round_trip(blob);
    }
    assert_eq!(decode::<Vec<u8>>(&[0xc4, 3, 1, 2]), Err(PacketReadError::Truncated));
    assert_eq!(decode::<Vec<u8>>(&[0xc5, 0]), Err(PacketReadError::Truncated));
    assert_eq!(decode::<Vec<u8>>(&[0xa0]), Err(PacketReadError::BadTag));
}

#[test]
fn headers_of_any_width_are_accepted() {
    assert_eq!(decode::<Vec<u8>>(&[0xc5, 0, 2, 8, 9]), Ok((vec![8, 9], 5)));
    assert_eq!(decode::<Vec<u8>>(&[0xc6, 0, 0, 0, 1, 8]), Ok((vec![8], 6)));
    assert_eq!(decode::<String>(&[0xd9, 1, b'x']), Ok((String::from("x"), 3)));
    assert_eq!(decode::<String>(&[0xdb, 0, 0, 0, 1, b'x']), Ok((String::from("x"), 6)));
    let mut out = Vec::new();
    write_bin_len(&mut out, 70000);
    write_str_len(&mut out, 70000);
    assert_eq!(out, vec![0xc6, 0, 1, 0x11, 0x70, 0xdb, 0, 1, 0x11, 0x70]);
}

#[test]
fn device_ids_travel_as_two_halves() {
    let id = DeviceId::from_u64_pair(0x0102_0304_0506_0708, 0x1112_1314_1516_1718);
    assert_eq!(id.as_u64_pair(), (0x0102_0304_0506_0708, 0x1112_1314_1516_1718));
    assert_eq!(
        encode(&id),
        vec![
            0xcf, 1, 2, 3, 4, 5, 6, 7, 8, 0xcf, 0x11, 0x12, 0x13, 0x14, 0x15, 0x16, 0x17, 0x18
        ]
    );
    round_trip(id);
    round_trip(DeviceId::from_u64_pair(0, 0));
    round_trip(DeviceId::from_u64_pair(u64::MAX, u64::MAX));
}

#[test]
fn optional_values_use_the_nil_tag() {
    assert_eq!(encode(&None::<String>), vec![0xc0]);
    assert_eq!(encode(&Some(String::from("a"))), vec![0xa1, b'a']);
    assert_eq!(encode(&Some(5u8)), vec![0xcc, 5]);
    round_trip(None::<String>);
    round_trip(None::<Vec<u8>>);
    round_trip(None::<u64>);
    round_trip(Some(String::new()));
    round_trip(Some(Vec::<u8>::new()));
    round_trip(Some(vec![0xc0u8]));
    round_trip(Some(DeviceId::from_u64_pair(1, 2)));
    assert_eq!(decode::<Option<u8>>(&[]), Err(PacketReadError::Truncated));
    assert_eq!(decode::<Option<u8>>(&[0xc2]), Err(PacketReadError::BadTag));
}

#[test]
fn peeking_an_optional_value_takes_nothing_from_the_value() {
    let bytes = [0xcc, 9, 0xc0, 0xcc, 1];
    let mut reader = ByteReader::new(&bytes);
    assert_eq!(<Option<u8>>::read(&mut reader), Ok(Some(9)));
    assert_eq!(reader.consumed(), 2);
    assert_eq!(<Option<u8>>::read(&mut reader), Ok(None));
    assert_eq!(reader.consumed(), 3);
    assert_eq!(u8::read(&mut reader), Ok(1));
}

#[test]
fn pairs_are_their_fields_in_order() {
    let value = (String::from("ab"), Some(vec![1u8, 2]));
    assert_eq!(encode(&value), vec![0xa2, b'a', b'b', 0xc4, 2, 1, 2]);
    round_trip(value);
    round_trip((DeviceId::from_u64_pair(3, 4), false));
    round_trip((7u8, (8u32, (9u64, None::<String>))));
    let bytes = [0xcc, 1, 0xce, 0, 0];
    let mut reader = ByteReader::new(&bytes);
    assert_eq!(<(u8, u32)>::read(&mut reader), Err(PacketReadError::Truncated));
    assert_eq!(reader.consumed(), 0);
}

#[test]
fn error_packets_start_with_a_discriminant() {
    let with = ErrorPacket::invalid_state(0, 5);
    assert_eq!(
        with,
        ErrorPacket::ErrorWithReference {
            reference_protocol: 0,
            reference_packet: 5,
            error_code: 0,
            error_message: Some(String::from("Invalid State")),
        }
    );
    let mut expected = vec![0xc3, 0xcc, 0, 0xcc, 5, 0xcc, 0, 0xad];
    expected.extend_from_slice(b"Invalid State");
    assert_eq!(encode(&with), expected);
    round_trip(with);
    let without = ErrorPacket::from(9u8);
    assert_eq!(without, ErrorPacket::ErrorNoReference { error_code: 9, error_message: None });
    assert_eq!(encode(&without), vec![0xc2, 0xcc, 9, 0xc0]);
    round_trip(without);
    round_trip(ErrorPacket::from((1u8, 2u8, 3u8)));
    round_trip(ErrorPacket::with_reference(2, 7, 3, "no"));
    round_trip(ErrorPacket::without_reference(4, ""));
    assert_eq!(ErrorPacket::from((1u8, 2u8, 3u8)).error_code(), 3);
    assert_eq!(ErrorPacket::without_reference(4, "x").error_code(), 4);
    assert_eq!(decode::<ErrorPacket>(&[0xcc, 1]), Err(PacketReadError::BadTag));
    assert_eq!(decode::<ErrorPacket>(&[0xc3, 0xcc, 1]), Err(PacketReadError::Truncated));
    assert_eq!(decode::<ErrorPacket>(&[0xc2, 0xcc, 1, 0xa1, 0xff]), Err(PacketReadError::InvalidUtf8));
}

#[test]
fn login_details_keep_id_zero_for_none() {
    assert_eq!(encode(&LoginDetails::Absent), vec![0xcc, 0]);
    let other = LoginDetails::Other { id: 4, details: vec![1, 2] };
    assert_eq!(encode(&other), vec![0xcc, 4, 0xc4, 2, 1, 2]);
    round_trip(LoginDetails::Absent);
    round_trip(other);
    round_trip(LoginDetails::Other { id: 255, details: vec![] });
    let reserved = LoginDetails::Other { id: 0, details: vec![1] };
    let mut out = vec![0xaa];
    assert_eq!(reserved.write(&mut out), Err(PacketWriteError::ReservedValue));
    assert_eq!(out, vec![0xaa]);
    assert_eq!(decode::<LoginDetails>(&[0xcc, 4]), Err(PacketReadError::Truncated));
    assert_eq!(decode::<LoginDetails>(&[0xcc, 4, 0xa0]), Err(PacketReadError::BadTag));
}

#[test]
fn unsigned_integers_take_the_shortest_form() {
    let cases: Vec<(u64, Vec<u8>)> = vec![
        (0, vec![0]),
        (127, vec![127]),
        (128, vec![0xcc, 128]),
        (255, vec![0xcc, 255]),
        (256, vec![0xcd, 1, 0]),
        (65535, vec![0xcd, 255, 255]),
        (65536, vec![0xce, 0, 1, 0, 0]),
        (0xffff_ffff, vec![0xce, 255, 255, 255, 255]),
        (0x1_0000_0000, vec![0xcf, 0, 0, 0, 1, 0, 0, 0, 0]),
        (u64::MAX, vec![0xcf, 255, 255, 255, 255, 255, 255, 255, 255]),
    ];
    for (value, bytes) in cases {
        let mut out = Vec::new();
        write_uint(&mut out, value);
        assert_eq!(out, bytes);
        let mut reader = ByteReader::new(&out);
        assert_eq!(reader.read_uint(), Ok(value));
        assert_eq!(reader.remaining(), 0);
    }
    let mut reader = ByteReader::new(&[0xd0, 1]);
    assert_eq!(reader.read_uint(), Err(PacketReadError::BadTag));
    let mut reader = ByteReader::new(&[0xcd, 1]);
    assert_eq!(reader.read_uint(), Err(PacketReadError::Truncated));
    let mut reader = ByteReader::new(&[0xcc, 5]);
    assert_eq!(reader.read_uint(), Ok(5));
}

#[test]
fn error_packets_have_a_text_for_people() {
    assert_eq!(
        ErrorPacket::invalid_state(0, 5).to_text(),
        "Error with reference: 0 5 0 Some(\"Invalid State\")"
    );
    assert_eq!(
        ErrorPacket::from((12u8, 255u8, 100u8)).to_text(),
        "Error with reference: 12 255 100 None"
    );
    assert_eq!(ErrorPacket::from(200u8).to_text(), "Error without reference: 200 None");
    assert_eq!(
        ErrorPacket::without_reference(7, "a \"b\"\n").to_text(),
        "Error without reference: 7 Some(\"a \\\"b\\\"\\n\")"
    );
    assert_eq!(
        ErrorPacket::with_reference(1, 2, 3, "ignored").text_with("<m>"),
        "Error with reference: 1 2 3 <m>"
    );
    assert_eq!(ErrorPacket::from(0u8).text_with(""), "Error without reference: 0 ");
}

#[test]
fn bytes_are_written_in_decimal() {
    for v in 0..=255u8 {
        let mut out = String::from("x");
        abst_rs::packets::push_decimal(&mut out, v);
        assert_eq!(out, format!("x{}", v));
    }
}

#[test]
fn reader_takes_headers_and_plain_bytes() {
    let bytes = [0xc5, 1, 2, 0xd9, 40, 0xbf, 0xcd, 0xab, 0xcd, 0xc0, 7, 8, 9];
    let mut reader = ByteReader::new(&bytes);
    assert_eq!(reader.read_bin_len(), Ok(258));
    assert_eq!(reader.read_bin_len(), Err(PacketReadError::BadTag));
    assert_eq!(reader.read_str_len(), Ok(40));
    assert_eq!(reader.read_str_len(), Ok(31));
    assert_eq!(reader.read_str_len(), Err(PacketReadError::BadTag));
    assert_eq!(reader.read_u16(), Ok(0xabcd));
    assert!(reader.take_nil());
    assert!(!reader.take_nil());
    assert_eq!(reader.read_byte(), Ok(7));
    assert_eq!(reader.consumed(), 11);
    assert_eq!(reader.read_exact(3), Err(PacketReadError::Truncated));
    assert_eq!(reader.consumed(), 11);
    assert_eq!(reader.read_exact(2), Ok(vec![8, 9]));
    assert_eq!(reader.read_exact(0), Ok(vec![]));
    assert_eq!(reader.read_byte(), Err(PacketReadError::Truncated));
    assert_eq!(reader.peek(), None);
    assert!(!reader.take_nil());
    let mut reader = ByteReader::new(&[0xc6, 0, 0]);
    assert_eq!(reader.read_bin_len(), Err(PacketReadError::Truncated));
    let mut reader = ByteReader::new(&[0xdb, 0, 0, 1, 0]);
    assert_eq!(reader.read_str_len(), Ok(256));
    let mut reader = ByteReader::new(&[0xcd, 1]);
    assert_eq!(reader.read_u16(), Err(PacketReadError::Truncated));
}
