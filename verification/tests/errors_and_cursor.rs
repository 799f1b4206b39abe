//! Error reporting and the cursor primitives.

use gvas::body;
use gvas::cursor::Cursor;
use gvas::error::{Error, ErrorCode};

/// A UEString: `i32` length counting the NUL terminator, bytes, NUL.
fn ue_e(s: &str) -> Vec<u8> {
    let mut out = Vec::new();
    out.extend_from_slice(&((s.len() as i32) + 1).to_le_bytes());
    out.extend_from_slice(s.as_bytes());
    out.push(0);
    out
}

#[test]
fn unknown_type_rejected_with_data() {
    let mut b = Vec::new();
    b.extend_from_slice(&ue_e("x"));
    b.extend_from_slice(&ue_e("Mystery"));
    b.extend_from_slice(&4i64.to_le_bytes());
    b.push(0);
    b.extend_from_slice(&42i32.to_le_bytes());
    b.extend_from_slice(&ue_e("None"));
    let e = body::from_bytes(&b).unwrap_err();
    assert!(e.is_data());
    assert!(e.message().contains("Mystery"));
    assert_eq!(e.message(), "unknown property type Mystery");
}

#[test]
fn scalar_size_mismatch_rejected_with_data() {
    // an IntProperty must declare a value size of exactly 4
    for bad in [0i64, 1, 3, 5, 8, -4, i64::MAX] {
        let mut b = Vec::new();
        b.extend_from_slice(&ue_e("x"));
        b.extend_from_slice(&ue_e("IntProperty"));
        b.extend_from_slice(&bad.to_le_bytes());
        b.push(0);
        b.extend_from_slice(&42i32.to_le_bytes());
        b.extend_from_slice(&ue_e("None"));
        let e = body::from_bytes(&b).unwrap_err();
        assert!(e.is_data());
    }
}

#[test]
fn bool_size_mismatch_rejected_with_data() {
    let mut b = Vec::new();
    b.extend_from_slice(&ue_e("b"));
    b.extend_from_slice(&ue_e("BoolProperty"));
    b.extend_from_slice(&2i64.to_le_bytes());
    b.extend_from_slice(&1u16.to_le_bytes());
    b.extend_from_slice(&ue_e("None"));
    let e = body::from_bytes(&b).unwrap_err();
    assert!(e.is_data());
}

#[test]
fn byte_size_mismatch_rejected_with_data() {
    let mut b = Vec::new();
    b.extend_from_slice(&ue_e("v"));
    b.extend_from_slice(&ue_e("ByteProperty"));
    b.extend_from_slice(&2i64.to_le_bytes());
    b.extend_from_slice(&ue_e("None"));
    b.push(0);
    b.push(9);
    b.extend_from_slice(&ue_e("None"));
    let e = body::from_bytes(&b).unwrap_err();
    assert!(e.is_data());
}

#[test]
fn truncated_input_fails_with_io() {
    let b = vec![0x05, 0x00];
    let e = body::from_bytes(&b).unwrap_err();
    assert!(e.is_io());
}

#[test]
fn negative_string_length_fails_with_data() {
    let b = (-2i32).to_le_bytes().to_vec();
    let e = body::from_bytes(&b).unwrap_err();
    assert!(e.is_data());
}

#[test]
fn overlong_string_length_fails_with_data() {
    let mut b = 100i32.to_le_bytes().to_vec();
    b.extend_from_slice(b"short\0");
    let e = body::from_bytes(&b).unwrap_err();
    assert!(e.is_data());
}

#[test]
fn invalid_utf8_fails_with_string_parse() {
    // declared length 3: two content bytes (invalid UTF-8) and a terminator
    let mut b = 3i32.to_le_bytes().to_vec();
    b.extend_from_slice(&[0xFF, 0xFE, 0x00]);
    let e = body::from_bytes(&b).unwrap_err();
    assert!(e.is_string_parse());
}

#[test]
fn negative_array_count_fails_with_data() {
    let mut b = Vec::new();
    b.extend_from_slice(&ue_e("a"));
    b.extend_from_slice(&ue_e("ArrayProperty"));
    b.extend_from_slice(&0i64.to_le_bytes());
    b.extend_from_slice(&ue_e("IntProperty"));
    b.push(0);
    b.extend_from_slice(&(-1i32).to_le_bytes());
    b.extend_from_slice(&ue_e("None"));
    let e = body::from_bytes(&b).unwrap_err();
    assert!(e.is_data());
}

#[test]
fn unknown_array_element_type_fails_with_data() {
    let mut b = Vec::new();
    b.extend_from_slice(&ue_e("a"));
    b.extend_from_slice(&ue_e("ArrayProperty"));
    b.extend_from_slice(&0i64.to_le_bytes());
    b.extend_from_slice(&ue_e("Puzzle"));
    b.push(0);
    b.extend_from_slice(&1i32.to_le_bytes());
    b.extend_from_slice(&ue_e("None"));
    let e = body::from_bytes(&b).unwrap_err();
    assert!(e.is_data());
    assert_eq!(e.message(), "unknown property type Puzzle");
}

#[test]
fn error_constructors_carry_their_codes() {
    let e = Error::make_other("o".to_string());
    assert!(e.is_other());
    assert!(matches!(e.code, ErrorCode::Other(_)));
    let e = Error::make_data("d".to_string());
    assert!(e.is_data());
    assert!(matches!(e.code, ErrorCode::Data(_)));
    let e = Error::make_read("r".to_string());
    assert!(e.is_io());
    assert!(matches!(e.code, ErrorCode::Io(_)));
    let e = Error::make_string("s".to_string());
    assert!(e.is_string_parse());
    assert!(matches!(e.code, ErrorCode::StringParse(_)));
    assert_eq!(e.message(), "s");
}

#[test]
fn cursor_little_endian_reads() {
    let b: Vec<u8> = vec![0x01, 0x02, 0x03, 0x04, 0x05, 0x06, 0x07, 0x08, 0xFF, 0xFF];
    let mut c = Cursor::new(&b);
    assert_eq!(c.read_u16().unwrap(), 0x0201);
    assert_eq!(c.position(), 2);
    assert_eq!(c.read_u32().unwrap(), 0x06050403);
    assert_eq!(c.position(), 6);
    assert_eq!(c.read_i16().unwrap(), 0x0807);
    assert_eq!(c.read_i16().unwrap(), -1);
    assert!(c.read_u32().is_err());
}

#[test]
fn cursor_signed_reads() {
    let b: Vec<u8> = vec![
        0x80, // i8 -128
        0xFF, 0xFF, 0xFF, 0xFF, // i32 -1
        0x00, 0x00, 0x00, 0x00, 0x00, 0x00, 0x00, 0x80, // i64 MIN
    ];
    let mut c = Cursor::new(&b);
    assert_eq!(c.read_i8().unwrap(), -128);
    assert_eq!(c.read_i32().unwrap(), -1);
    assert_eq!(c.read_i64().unwrap(), i64::MIN);
}

#[test]
fn cursor_peek_leaves_position() {
    let mut b = ue_e("peeked");
    b.extend_from_slice(&[1, 2, 3]);
    let mut c = Cursor::new(&b);
    let s = c.peek_string().unwrap();
    assert_eq!(s, "peeked");
    assert_eq!(c.position(), 0);
    let s2 = c.read_string().unwrap();
    assert_eq!(s2, "peeked");
    assert_eq!(c.position(), b.len() - 3);
}

#[test]
fn cursor_set_position_and_read_exact() {
    let b: Vec<u8> = vec![10, 20, 30, 40, 50];
    let mut c = Cursor::new(&b);
    let chunk = c.read_exact(3).unwrap().to_vec();
    assert_eq!(chunk, vec![10, 20, 30]);
    c.set_position(1);
    assert_eq!(c.read_u8().unwrap(), 20);
    assert_eq!(c.remaining(), 3);
}

#[test]
fn empty_string_lengths_zero_and_one() {
    // a declared length of 0 and of 1 both decode to the empty string
    let zero = 0i32.to_le_bytes().to_vec();
    let mut c = Cursor::new(&zero);
    assert_eq!(c.read_string().unwrap(), "");
    assert_eq!(c.position(), 4);
    let mut one = 1i32.to_le_bytes().to_vec();
    one.push(0);
    let mut c = Cursor::new(&one);
    assert_eq!(c.read_string().unwrap(), "");
    assert_eq!(c.position(), 5);
}
