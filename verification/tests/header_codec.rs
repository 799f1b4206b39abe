//! Header encoding and decoding, and their round trip.

use gvas::header::{de, ser};
use gvas::types::{FCustomVersion, FEngineVersion, FGuid, GvasHeader};

/// A UEString: `i32` length counting the NUL terminator, bytes, NUL.
fn ue_h(s: &str) -> Vec<u8> {
    let mut out = Vec::new();
    out.extend_from_slice(&((s.len() as i32) + 1).to_le_bytes());
    out.extend_from_slice(s.as_bytes());
    out.push(0);
    out
}

fn sample_header() -> GvasHeader {
    GvasHeader {
        file_type_tag: 0x53415647, // "GVAS" read little-endian
        save_game_file_version: 2,
        package_file_ue4_version: 522,
        engine_version: FEngineVersion {
            major: 4,
            minor: 27,
            patch: 2,
            change_list: 18319896,
            branch: "++UE4+Release-4.27".to_string(),
        },
        custom_version_format: 3,
        custom_versions: vec![
            FCustomVersion {
                key: FGuid::new(1, 2, 3, 4),
                version: 7,
            },
            FCustomVersion {
                key: FGuid::new(0xDEADBEEF, 0, 0xFFFF_FFFF, 42),
                version: -1,
            },
        ],
        save_game_class_name: "/Script/Demo.DemoSaveGame".to_string(),
    }
}

#[test]
fn header_round_trip() {
    let h = sample_header();
    let bytes = ser::to_vec(&h).unwrap();
    let (h2, n) = de::from_bytes(&bytes).unwrap();
    assert_eq!(h2, h);
    assert_eq!(n, bytes.len());
}

#[test]
fn header_round_trip_empty_strings_and_no_versions() {
    let h = GvasHeader {
        file_type_tag: 0,
        save_game_file_version: -3,
        package_file_ue4_version: i32::MIN,
        engine_version: FEngineVersion {
            major: 0,
            minor: 0,
            patch: 0,
            change_list: 0,
            branch: "".to_string(),
        },
        custom_version_format: i32::MAX,
        custom_versions: vec![],
        save_game_class_name: "".to_string(),
    };
    let bytes = ser::to_vec(&h).unwrap();
    let (h2, n) = de::from_bytes(&bytes).unwrap();
    assert_eq!(h2, h);
    assert_eq!(n, bytes.len());
}

#[test]
fn header_round_trip_non_ascii_strings() {
    let mut h = sample_header();
    h.engine_version.branch = "ブランチ-β".to_string();
    h.save_game_class_name = "Klasse-Ü".to_string();
    let bytes = ser::to_vec(&h).unwrap();
    let (h2, n) = de::from_bytes(&bytes).unwrap();
    assert_eq!(h2, h);
    assert_eq!(n, bytes.len());
}

#[test]
fn header_known_bytes() {
    // hand-assembled header with one custom version
    let mut b = Vec::new();
    b.extend_from_slice(&1i32.to_le_bytes());
    b.extend_from_slice(&2i32.to_le_bytes());
    b.extend_from_slice(&3i32.to_le_bytes());
    b.extend_from_slice(&4u16.to_le_bytes());
    b.extend_from_slice(&26u16.to_le_bytes());
    b.extend_from_slice(&2u16.to_le_bytes());
    b.extend_from_slice(&999u32.to_le_bytes());
    b.extend_from_slice(&ue_h("main"));
    b.extend_from_slice(&5i32.to_le_bytes());
    b.extend_from_slice(&1i32.to_le_bytes());
    b.extend_from_slice(&10u32.to_le_bytes());
    b.extend_from_slice(&11u32.to_le_bytes());
    b.extend_from_slice(&12u32.to_le_bytes());
    b.extend_from_slice(&13u32.to_le_bytes());
    b.extend_from_slice(&(-9i32).to_le_bytes());
    b.extend_from_slice(&ue_h("Klass"));
    let (h, n) = de::from_bytes(&b).unwrap();
    assert_eq!(n, b.len());
    assert_eq!(h.file_type_tag, 1);
    assert_eq!(h.save_game_file_version, 2);
    assert_eq!(h.package_file_ue4_version, 3);
    assert_eq!(h.engine_version.major, 4);
    assert_eq!(h.engine_version.minor, 26);
    assert_eq!(h.engine_version.patch, 2);
    assert_eq!(h.engine_version.change_list, 999);
    assert_eq!(h.engine_version.branch, "main");
    assert_eq!(h.custom_version_format, 5);
    assert_eq!(
        h.custom_versions,
        vec![FCustomVersion {
            key: FGuid::new(10, 11, 12, 13),
            version: -9,
        }]
    );
    assert_eq!(h.save_game_class_name, "Klass");
}

#[test]
fn parsed_length_reports_consumed_prefix() {
    let h = sample_header();
    let mut bytes = ser::to_vec(&h).unwrap();
    let header_len = bytes.len();
    // trailing body bytes must not disturb the header decode
    bytes.extend_from_slice(&ue_h("None"));
    let mut d = de::Deserializer::from_bytes(&bytes);
    let h2 = d.parse_header().unwrap();
    assert_eq!(h2, h);
    assert_eq!(d.parsed_length(), header_len);
}

#[test]
fn header_then_body() {
    let h = sample_header();
    let mut bytes = ser::to_vec(&h).unwrap();
    bytes.extend_from_slice(&ue_h("None"));
    let (h2, n) = de::from_bytes(&bytes).unwrap();
    assert_eq!(h2, h);
    let (v, m) = gvas::body::from_bytes(&bytes[n..]).unwrap();
    assert_eq!(v, gvas::value::GvasValue::Struct(vec![]));
    assert_eq!(n + m, bytes.len());
}

#[test]
fn header_truncated_fails() {
    let h = sample_header();
    let bytes = ser::to_vec(&h).unwrap();
    let cut = &bytes[..bytes.len() - 1];
    let e = de::from_bytes(cut).unwrap_err();
    // the class-name string overruns the shortened buffer
    assert!(e.is_data() || e.is_io());
}

#[test]
fn header_negative_custom_version_count_fails() {
    let mut b = Vec::new();
    b.extend_from_slice(&1i32.to_le_bytes());
    b.extend_from_slice(&2i32.to_le_bytes());
    b.extend_from_slice(&3i32.to_le_bytes());
    b.extend_from_slice(&4u16.to_le_bytes());
    b.extend_from_slice(&26u16.to_le_bytes());
    b.extend_from_slice(&2u16.to_le_bytes());
    b.extend_from_slice(&999u32.to_le_bytes());
    b.extend_from_slice(&ue_h("main"));
    b.extend_from_slice(&5i32.to_le_bytes());
    b.extend_from_slice(&(-1i32).to_le_bytes());
    b.extend_from_slice(&ue_h("Klass"));
    let e = de::from_bytes(&b).unwrap_err();
    assert!(e.is_data());
}

#[test]
fn serializer_writes_ue_string() {
    let mut s = ser::Serializer::new();
    s.serialize_str("hi").unwrap();
    let out = s.into_bytes();
    assert_eq!(out, vec![0x03, 0x00, 0x00, 0x00, b'h', b'i', 0x00]);
}

#[test]
fn string_encoding_length() {
    // length of an encoded string is 4 + utf8 length + 1
    for s in ["", "a", "héllo", "日本語"] {
        let mut w = ser::Serializer::new();
        w.serialize_str(s).unwrap();
        let out = w.into_bytes();
        assert_eq!(out.len(), 4 + s.len() + 1);
    }
}

#[test]
fn string_round_trip_through_cursor() {
    for s in ["", "a", "héllo, wörld", "日本語のテキスト", "None"] {
        let mut w = ser::Serializer::new();
        w.serialize_str(s).unwrap();
        let out = w.into_bytes();
        let mut cur = gvas::cursor::Cursor::new(&out);
        let back = cur.read_string().unwrap();
        assert_eq!(back, s);
        assert_eq!(cur.position(), out.len());
    }
}
