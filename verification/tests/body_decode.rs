//! Decoding scenarios for the body property stream.

use gvas::body;
use gvas::value::GvasValue;

/// A UEString: `i32` length counting the NUL terminator, bytes, NUL.
fn ue(s: &str) -> Vec<u8> {
    let mut out = Vec::new();
    out.extend_from_slice(&((s.len() as i32) + 1).to_le_bytes());
    out.extend_from_slice(s.as_bytes());
    out.push(0);
    out
}

fn sentinel() -> Vec<u8> {
    ue("None")
}

#[test]
fn empty_body() {
    let bytes = vec![0x05, 0x00, 0x00, 0x00, 0x4E, 0x6F, 0x6E, 0x65, 0x00];
    let (v, n) = body::from_bytes(&bytes).unwrap();
    assert_eq!(v, GvasValue::Struct(vec![]));
    assert_eq!(n, 9);
}

#[test]
fn sentinel_advances_nine_bytes() {
    let mut bytes = sentinel();
    bytes.extend_from_slice(b"trailing junk");
    let (v, n) = body::from_bytes(&bytes).unwrap();
    assert_eq!(v, GvasValue::Struct(vec![]));
    assert_eq!(n, 9);
}

#[test]
fn int_property() {
    let mut b = Vec::new();
    b.extend_from_slice(&ue("x"));
    b.extend_from_slice(&ue("IntProperty"));
    b.extend_from_slice(&4i64.to_le_bytes());
    b.push(0);
    b.extend_from_slice(&42i32.to_le_bytes());
    b.extend_from_slice(&sentinel());
    let (v, n) = body::from_bytes(&b).unwrap();
    assert_eq!(
        v,
        GvasValue::Struct(vec![("x".to_string(), GvasValue::I32(42))])
    );
    assert_eq!(n, b.len());
}

#[test]
fn bool_property_true() {
    let mut b = Vec::new();
    b.extend_from_slice(&ue("b"));
    b.extend_from_slice(&ue("BoolProperty"));
    b.extend_from_slice(&0i64.to_le_bytes());
    b.extend_from_slice(&1u16.to_le_bytes());
    b.extend_from_slice(&sentinel());
    let (v, _) = body::from_bytes(&b).unwrap();
    assert_eq!(
        v,
        GvasValue::Struct(vec![("b".to_string(), GvasValue::Boolean(true))])
    );
}

#[test]
fn bool_property_false() {
    let mut b = Vec::new();
    b.extend_from_slice(&ue("b"));
    b.extend_from_slice(&ue("BoolProperty"));
    b.extend_from_slice(&0i64.to_le_bytes());
    b.extend_from_slice(&0u16.to_le_bytes());
    b.extend_from_slice(&sentinel());
    let (v, _) = body::from_bytes(&b).unwrap();
    assert_eq!(
        v,
        GvasValue::Struct(vec![("b".to_string(), GvasValue::Boolean(false))])
    );
}

#[test]
fn str_property() {
    let mut b = Vec::new();
    b.extend_from_slice(&ue("s"));
    b.extend_from_slice(&ue("StrProperty"));
    // the i64 size of a StrProperty is read but ignored
    b.extend_from_slice(&999i64.to_le_bytes());
    b.push(0);
    b.extend_from_slice(&ue("hi"));
    b.extend_from_slice(&sentinel());
    let (v, _) = body::from_bytes(&b).unwrap();
    assert_eq!(
        v,
        GvasValue::Struct(vec![("s".to_string(), GvasValue::Text("hi".to_string()))])
    );
}

#[test]
fn date_time_struct() {
    let mut b = Vec::new();
    b.extend_from_slice(&ue("t"));
    b.extend_from_slice(&ue("StructProperty"));
    b.extend_from_slice(&8i64.to_le_bytes());
    b.extend_from_slice(&ue("DateTime"));
    b.extend_from_slice(&[0u8; 16]); // all-zero guid
    b.push(0);
    b.extend_from_slice(&0x1234_5678_9ABC_DEF0u64.to_le_bytes());
    b.extend_from_slice(&sentinel());
    let (v, _) = body::from_bytes(&b).unwrap();
    assert_eq!(
        v,
        GvasValue::Struct(vec![(
            "t".to_string(),
            GvasValue::DateTime(0x1234_5678_9ABC_DEF0)
        )])
    );
}

#[test]
fn array_of_i32() {
    let mut b = Vec::new();
    b.extend_from_slice(&ue("a"));
    b.extend_from_slice(&ue("ArrayProperty"));
    b.extend_from_slice(&16i64.to_le_bytes());
    b.extend_from_slice(&ue("IntProperty"));
    b.push(0);
    b.extend_from_slice(&3i32.to_le_bytes());
    b.extend_from_slice(&1i32.to_le_bytes());
    b.extend_from_slice(&2i32.to_le_bytes());
    b.extend_from_slice(&3i32.to_le_bytes());
    b.extend_from_slice(&sentinel());
    let (v, _) = body::from_bytes(&b).unwrap();
    assert_eq!(
        v,
        GvasValue::Struct(vec![(
            "a".to_string(),
            GvasValue::Array(vec![
                GvasValue::I32(1),
                GvasValue::I32(2),
                GvasValue::I32(3)
            ])
        )])
    );
}

#[test]
fn nested_struct_property() {
    let mut inner = Vec::new();
    inner.extend_from_slice(&ue("test"));
    inner.extend_from_slice(&ue("IntProperty"));
    inner.extend_from_slice(&4i64.to_le_bytes());
    inner.push(0);
    inner.extend_from_slice(&7i32.to_le_bytes());
    inner.extend_from_slice(&sentinel());

    let mut b = Vec::new();
    b.extend_from_slice(&ue("test_struct"));
    b.extend_from_slice(&ue("StructProperty"));
    b.extend_from_slice(&(inner.len() as i64).to_le_bytes());
    b.extend_from_slice(&ue("TestStruct"));
    b.extend_from_slice(&[0u8; 16]);
    b.push(0);
    b.extend_from_slice(&inner);
    b.extend_from_slice(&sentinel());
    let (v, _) = body::from_bytes(&b).unwrap();
    assert_eq!(
        v,
        GvasValue::Struct(vec![(
            "test_struct".to_string(),
            GvasValue::Struct(vec![("test".to_string(), GvasValue::I32(7))])
        )])
    );
}

#[test]
fn array_of_structs() {
    // one element, itself a property run closed by a sentinel
    let mut elem = Vec::new();
    elem.extend_from_slice(&ue("test"));
    elem.extend_from_slice(&ue("IntProperty"));
    elem.extend_from_slice(&4i64.to_le_bytes());
    elem.push(0);
    elem.extend_from_slice(&5i32.to_le_bytes());
    elem.extend_from_slice(&sentinel());

    let mut b = Vec::new();
    b.extend_from_slice(&ue("arr"));
    b.extend_from_slice(&ue("ArrayProperty"));
    b.extend_from_slice(&0i64.to_le_bytes()); // outer size: ignored
    b.extend_from_slice(&ue("StructProperty"));
    b.push(0);
    b.extend_from_slice(&1i32.to_le_bytes()); // element count
    b.extend_from_slice(&ue("arr")); // duplicate variable name
    b.extend_from_slice(&ue("StructProperty")); // duplicate type tag
    b.extend_from_slice(&0i64.to_le_bytes()); // duplicate value size
    b.extend_from_slice(&ue("TestStruct")); // struct type name
    b.extend_from_slice(&[0u8; 16]);
    b.push(0);
    b.extend_from_slice(&elem);
    b.extend_from_slice(&sentinel());
    let (v, _) = body::from_bytes(&b).unwrap();
    assert_eq!(
        v,
        GvasValue::Struct(vec![(
            "arr".to_string(),
            GvasValue::Array(vec![GvasValue::Struct(vec![(
                "test".to_string(),
                GvasValue::I32(5)
            )])])
        )])
    );
}

#[test]
fn array_of_date_time_structs() {
    let mut b = Vec::new();
    b.extend_from_slice(&ue("times"));
    b.extend_from_slice(&ue("ArrayProperty"));
    b.extend_from_slice(&0i64.to_le_bytes());
    b.extend_from_slice(&ue("StructProperty"));
    b.push(0);
    b.extend_from_slice(&2i32.to_le_bytes());
    b.extend_from_slice(&ue("times"));
    b.extend_from_slice(&ue("StructProperty"));
    b.extend_from_slice(&16i64.to_le_bytes());
    b.extend_from_slice(&ue("DateTime"));
    b.extend_from_slice(&[0u8; 16]);
    b.push(0);
    b.extend_from_slice(&10u64.to_le_bytes());
    b.extend_from_slice(&20u64.to_le_bytes());
    b.extend_from_slice(&sentinel());
    let (v, _) = body::from_bytes(&b).unwrap();
    assert_eq!(
        v,
        GvasValue::Struct(vec![(
            "times".to_string(),
            GvasValue::Array(vec![GvasValue::DateTime(10), GvasValue::DateTime(20)])
        )])
    );
}

#[test]
fn byte_property_with_enum_name() {
    let mut b = Vec::new();
    b.extend_from_slice(&ue("u8_test"));
    b.extend_from_slice(&ue("ByteProperty"));
    b.extend_from_slice(&1i64.to_le_bytes());
    b.extend_from_slice(&ue("None")); // enum name, read and discarded
    b.push(0);
    b.push(129);
    b.extend_from_slice(&sentinel());
    let (v, _) = body::from_bytes(&b).unwrap();
    assert_eq!(
        v,
        GvasValue::Struct(vec![("u8_test".to_string(), GvasValue::U8(129))])
    );
}

#[test]
fn all_scalar_widths() {
    let mut b = Vec::new();
    b.extend_from_slice(&ue("i8"));
    b.extend_from_slice(&ue("Int8Property"));
    b.extend_from_slice(&1i64.to_le_bytes());
    b.push(0);
    b.extend_from_slice(&(-5i8).to_le_bytes());
    b.extend_from_slice(&ue("i16"));
    b.extend_from_slice(&ue("Int16Property"));
    b.extend_from_slice(&2i64.to_le_bytes());
    b.push(0);
    b.extend_from_slice(&(-300i16).to_le_bytes());
    b.extend_from_slice(&ue("u16"));
    b.extend_from_slice(&ue("UInt16Property"));
    b.extend_from_slice(&2i64.to_le_bytes());
    b.push(0);
    b.extend_from_slice(&40000u16.to_le_bytes());
    b.extend_from_slice(&ue("u32"));
    b.extend_from_slice(&ue("UInt32Property"));
    b.extend_from_slice(&4i64.to_le_bytes());
    b.push(0);
    b.extend_from_slice(&3_000_000_000u32.to_le_bytes());
    b.extend_from_slice(&ue("i64"));
    b.extend_from_slice(&ue("Int64Property"));
    b.extend_from_slice(&8i64.to_le_bytes());
    b.push(0);
    b.extend_from_slice(&(-9_000_000_000i64).to_le_bytes());
    b.extend_from_slice(&ue("u64"));
    b.extend_from_slice(&ue("UInt64Property"));
    b.extend_from_slice(&8i64.to_le_bytes());
    b.push(0);
    b.extend_from_slice(&18_000_000_000_000_000_000u64.to_le_bytes());
    b.extend_from_slice(&ue("f"));
    b.extend_from_slice(&ue("FloatProperty"));
    b.extend_from_slice(&4i64.to_le_bytes());
    b.push(0);
    b.extend_from_slice(&1.5f32.to_le_bytes());
    b.extend_from_slice(&ue("d"));
    b.extend_from_slice(&ue("DoubleProperty"));
    b.extend_from_slice(&8i64.to_le_bytes());
    b.push(0);
    b.extend_from_slice(&(-2.25f64).to_le_bytes());
    b.extend_from_slice(&sentinel());
    let (v, _) = body::from_bytes(&b).unwrap();
    assert_eq!(
        v,
        GvasValue::Struct(vec![
            ("i8".to_string(), GvasValue::I8(-5)),
            ("i16".to_string(), GvasValue::I16(-300)),
            ("u16".to_string(), GvasValue::U16(40000)),
            ("u32".to_string(), GvasValue::U32(3_000_000_000)),
            ("i64".to_string(), GvasValue::I64(-9_000_000_000)),
            ("u64".to_string(), GvasValue::U64(18_000_000_000_000_000_000)),
            ("f".to_string(), GvasValue::F32Bits(1.5f32.to_bits())),
            ("d".to_string(), GvasValue::F64Bits((-2.25f64).to_bits())),
        ])
    );
}

#[test]
fn array_of_bools_and_strings() {
    let mut b = Vec::new();
    b.extend_from_slice(&ue("flags"));
    b.extend_from_slice(&ue("ArrayProperty"));
    b.extend_from_slice(&0i64.to_le_bytes());
    b.extend_from_slice(&ue("BoolProperty"));
    b.push(0);
    b.extend_from_slice(&3i32.to_le_bytes());
    b.push(1);
    b.push(0);
    b.push(2); // in arrays a bool is one byte, true only when exactly 1
    b.extend_from_slice(&ue("names"));
    b.extend_from_slice(&ue("ArrayProperty"));
    b.extend_from_slice(&0i64.to_le_bytes());
    b.extend_from_slice(&ue("StrProperty"));
    b.push(0);
    b.extend_from_slice(&2i32.to_le_bytes());
    b.extend_from_slice(&ue("ab"));
    b.extend_from_slice(&ue(""));
    b.extend_from_slice(&sentinel());
    let (v, _) = body::from_bytes(&b).unwrap();
    assert_eq!(
        v,
        GvasValue::Struct(vec![
            (
                "flags".to_string(),
                GvasValue::Array(vec![
                    GvasValue::Boolean(true),
                    GvasValue::Boolean(false),
                    GvasValue::Boolean(false),
                ])
            ),
            (
                "names".to_string(),
                GvasValue::Array(vec![
                    GvasValue::Text("ab".to_string()),
                    GvasValue::Text("".to_string()),
                ])
            ),
        ])
    );
}

#[test]
fn non_ascii_string_round_trips() {
    let mut b = Vec::new();
    b.extend_from_slice(&ue("s"));
    b.extend_from_slice(&ue("StrProperty"));
    b.extend_from_slice(&0i64.to_le_bytes());
    b.push(0);
    b.extend_from_slice(&ue("héllo, wörld"));
    b.extend_from_slice(&sentinel());
    let (v, _) = body::from_bytes(&b).unwrap();
    assert_eq!(
        v,
        GvasValue::Struct(vec![(
            "s".to_string(),
            GvasValue::Text("héllo, wörld".to_string())
        )])
    );
}
