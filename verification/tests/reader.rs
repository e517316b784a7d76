use zewif_zingo::{BinaryReader, DecodeFailure, ParseError, ReadCause};

fn le64(n: u64) -> Vec<u8> {
    n.to_le_bytes().to_vec()
}

#[test]
fn read_u8_returns_bytes_in_order() {
    let data = vec![0xAB, 0x01, 0xFF];
    let mut r = BinaryReader::new(&data);
    assert_eq!(r.read_u8("a").unwrap(), 0xAB);
    assert_eq!(r.read_u8("b").unwrap(), 0x01);
    assert_eq!(r.read_u8("c").unwrap(), 0xFF);
    assert_eq!(
        r.read_u8("d").unwrap_err(),
        ParseError::Read { label: "d", cause: ReadCause::UnexpectedEnd }
    );
}

#[test]
fn read_u32_little_endian() {
    let data = vec![0x78, 0x56, 0x34, 0x12];
    let mut r = BinaryReader::new(&data);
    assert_eq!(r.read_u32("x").unwrap(), 0x1234_5678);
    assert_eq!(r.remaining(), 0);
}

#[test]
fn read_u32_short_buffer_fails() {
    let data = vec![0x78, 0x56, 0x34];
    let mut r = BinaryReader::new(&data);
    assert_eq!(
        r.read_u32("x").unwrap_err(),
        ParseError::Read { label: "x", cause: ReadCause::UnexpectedEnd }
    );
}

#[test]
fn read_u64_little_endian() {
    let data = vec![0xEF, 0xCD, 0xAB, 0x89, 0x67, 0x45, 0x23, 0x01];
    let mut r = BinaryReader::new(&data);
    assert_eq!(r.read_u64("x").unwrap(), 0x0123_4567_89AB_CDEF);
}

#[test]
fn read_u64_short_buffer_fails() {
    let data = vec![0u8; 7];
    let mut r = BinaryReader::new(&data);
    assert_eq!(
        r.read_u64("x").unwrap_err(),
        ParseError::Read { label: "x", cause: ReadCause::UnexpectedEnd }
    );
}

#[test]
fn read_bool_accepts_only_zero_and_one() {
    let data = vec![0x00, 0x01];
    let mut r = BinaryReader::new(&data);
    assert_eq!(r.read_bool("flag").unwrap(), false);
    assert_eq!(r.read_bool("flag").unwrap(), true);
    for b in 2..=255u8 {
        let one = [b];
        let mut r = BinaryReader::new(&one);
        assert_eq!(
            r.read_bool("flag").unwrap_err(),
            ParseError::InvalidBoolean { label: "flag", value: b }
        );
    }
}

#[test]
fn read_bool_empty_buffer_is_read_failure() {
    let data: Vec<u8> = Vec::new();
    let mut r = BinaryReader::new(&data);
    assert_eq!(
        r.read_bool("flag").unwrap_err(),
        ParseError::Read { label: "flag", cause: ReadCause::UnexpectedEnd }
    );
}

#[test]
fn read_exact_vec_returns_exactly_n_bytes() {
    let data = vec![1, 2, 3, 4, 5];
    let mut r = BinaryReader::new(&data);
    assert_eq!(r.read_exact_vec("run", 3).unwrap(), vec![1, 2, 3]);
    assert_eq!(r.remaining(), 2);
    assert_eq!(
        r.read_exact_vec("run", 3).unwrap_err(),
        ParseError::Read { label: "run", cause: ReadCause::UnexpectedEnd }
    );
    assert_eq!(r.read_exact_vec("run", 2).unwrap(), vec![4, 5]);
    assert_eq!(r.read_exact_vec("run", 0).unwrap(), Vec::<u8>::new());
}

#[test]
fn string_round_trip_empty() {
    let mut data = le64(0);
    data.extend(b"trailing");
    let mut r = BinaryReader::new(&data);
    assert_eq!(r.read_string_with_u64_length("s").unwrap(), "");
    assert_eq!(r.remaining(), 8);
}

#[test]
fn string_round_trip_one_char() {
    let encoded = String::from("k").into_bytes();
    let mut data = le64(encoded.len() as u64);
    data.extend(&encoded);
    let mut r = BinaryReader::new(&data);
    assert_eq!(r.read_string_with_u64_length("s").unwrap(), "k");
    assert_eq!(r.remaining(), 0);
}

#[test]
fn string_round_trip_large() {
    let mut original = String::new();
    while original.len() < 70_000 {
        original.push_str("wallet snapshot bytes \u{00e9}\u{4e16}");
    }
    let encoded = original.clone().into_bytes();
    let mut data = le64(encoded.len() as u64);
    data.extend(&encoded);
    data.extend(b"tail");
    let mut r = BinaryReader::new(&data);
    assert_eq!(r.read_string_with_u64_length("s").unwrap(), original);
    assert_eq!(r.remaining(), 4);
}

#[test]
fn string_invalid_utf8_fails() {
    let mut data = le64(2);
    data.extend([0xFF, 0xFE]);
    let mut r = BinaryReader::new(&data);
    assert_eq!(
        r.read_string_with_u64_length("s").unwrap_err(),
        ParseError::InvalidString { label: "s" }
    );
    // The malformed bytes were still consumed before decoding failed.
    assert_eq!(r.remaining(), 0);
}

#[test]
fn string_truncated_payload_fails() {
    let mut data = le64(5);
    data.extend(b"hi");
    let mut r = BinaryReader::new(&data);
    assert_eq!(
        r.read_string_with_u64_length("s").unwrap_err(),
        ParseError::Read { label: "s", cause: ReadCause::UnexpectedEnd }
    );
}

#[test]
fn string_truncated_length_prefix_fails() {
    let data = vec![5u8, 0, 0];
    let mut r = BinaryReader::new(&data);
    assert_eq!(
        r.read_string_with_u64_length("s").unwrap_err(),
        ParseError::Read { label: "s", cause: ReadCause::UnexpectedEnd }
    );
}

#[test]
fn remaining_counts_unread_bytes() {
    let data = vec![9u8, 8, 7, 6];
    let mut r = BinaryReader::new(&data);
    assert_eq!(r.remaining(), 4);
    r.read_u8("a").unwrap();
    assert_eq!(r.remaining(), 3);
    r.read_exact_vec("b", 3).unwrap();
    assert_eq!(r.remaining(), 0);
}

#[test]
fn read_with_advances_by_reported_consumption() {
    let data = vec![10u8, 20, 30, 40];
    let mut r = BinaryReader::new(&data);
    let got = r
        .read_with("pair", |bytes: &[u8]| Ok(((bytes[0], bytes[1]), 2usize)))
        .unwrap();
    assert_eq!(got, (10, 20));
    assert_eq!(r.remaining(), 2);
}

#[test]
fn read_with_translates_decoder_failure() {
    let data = vec![1u8, 2];
    let mut r = BinaryReader::new(&data);
    let err = r
        .read_with("field", |_bytes: &[u8]| -> Result<(u8, usize), DecodeFailure> {
            Err(DecodeFailure { message: String::from("bad field") })
        })
        .unwrap_err();
    assert_eq!(
        err,
        ParseError::Read {
            label: "field",
            cause: ReadCause::Collaborator { message: String::from("bad field") },
        }
    );
    assert_eq!(r.remaining(), 2);
}

#[test]
fn read_with_rejects_overlong_consumption() {
    let data = vec![1u8, 2];
    let mut r = BinaryReader::new(&data);
    let err = r
        .read_with("field", |_bytes: &[u8]| -> Result<(u8, usize), DecodeFailure> {
            Ok((0, 3))
        })
        .unwrap_err();
    assert_eq!(err, ParseError::Read { label: "field", cause: ReadCause::InvalidData });
}
