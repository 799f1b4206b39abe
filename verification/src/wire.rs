//! Spec-level model of the GVAS wire format.
//!
//! Two families of spec functions describe the format: encoders (`*_le`)
//! map values to the little-endian byte sequences that represent them, and
//! readers (`*_at`) parse a byte sequence from a given position.  The
//! executable decoders and the header encoder are specified against these
//! functions; round-trip laws relate the two families.

use vstd::bytes::{
    spec_u16_from_le_bytes, spec_u16_to_le_bytes, spec_u32_from_le_bytes, spec_u32_to_le_bytes,
    spec_u64_from_le_bytes, spec_u64_to_le_bytes,
};
use vstd::prelude::*;
use vstd::utf8::{decode_utf8, encode_utf8, valid_utf8};

use crate::types::{EngineVersionModel, FCustomVersion, FGuid, HeaderModel};
use crate::value::ValueModel;

verus! {

// ---------------------------------------------------------------------------
// Signed/unsigned reinterpretation (two's complement).
// ---------------------------------------------------------------------------
/// The `u32` with the same 4-byte representation as `x`.
pub open spec fn i32_as_u32(x: i32) -> u32 {
    if x >= 0 {
        x as u32
    } else {
        (x + 0x1_0000_0000) as u32
    }
}

/// The `i32` with the same 4-byte representation as `x`.
pub open spec fn u32_as_i32(x: u32) -> i32 {
    if x < 0x8000_0000 {
        x as i32
    } else {
        (x - 0x1_0000_0000) as i32
    }
}

/// The `u64` with the same 8-byte representation as `x`.
pub open spec fn i64_as_u64(x: i64) -> u64 {
    if x >= 0 {
        x as u64
    } else {
        (x + 0x1_0000_0000_0000_0000) as u64
    }
}

/// The `i64` with the same 8-byte representation as `x`.
pub open spec fn u64_as_i64(x: u64) -> i64 {
    if x < 0x8000_0000_0000_0000 {
        x as i64
    } else {
        (x - 0x1_0000_0000_0000_0000) as i64
    }
}

/// The `i16` with the same 2-byte representation as `x`.
pub open spec fn u16_as_i16(x: u16) -> i16 {
    if x < 0x8000 {
        x as i16
    } else {
        (x - 0x1_0000) as i16
    }
}

/// The `i8` with the same 1-byte representation as `x`.
pub open spec fn u8_as_i8(x: u8) -> i8 {
    if x < 0x80 {
        x as i8
    } else {
        (x - 0x100) as i8
    }
}

/// Reinterpretation round-trips for the 4-byte case.
pub proof fn lemma_i32_u32_round_trip(x: i32)
    ensures
        u32_as_i32(i32_as_u32(x)) == x,
{
}

// ---------------------------------------------------------------------------
// Encoders: values to little-endian bytes.
// ---------------------------------------------------------------------------
/// The 2-byte little-endian encoding of `x`.
pub open spec fn u16_le(x: u16) -> Seq<u8> {
    spec_u16_to_le_bytes(x)
}

/// The 4-byte little-endian encoding of `x`.
pub open spec fn u32_le(x: u32) -> Seq<u8> {
    spec_u32_to_le_bytes(x)
}

/// The 8-byte little-endian encoding of `x`.
pub open spec fn u64_le(x: u64) -> Seq<u8> {
    spec_u64_to_le_bytes(x)
}

/// The 4-byte little-endian encoding of `x` (two's complement).
pub open spec fn i32_le(x: i32) -> Seq<u8> {
    u32_le(i32_as_u32(x))
}

/// The 8-byte little-endian encoding of `x` (two's complement).
pub open spec fn i64_le(x: i64) -> Seq<u8> {
    u64_le(i64_as_u64(x))
}

/// True when `c` can be written as a UEString: its UTF-8 form plus the
/// terminator must fit the `i32` length prefix.
pub open spec fn string_wf(c: Seq<char>) -> bool {
    encode_utf8(c).len() + 1 <= i32::MAX
}

/// The UEString encoding of `c`: an `i32` length counting the terminator,
/// the UTF-8 bytes, then one NUL byte.
pub open spec fn string_le(c: Seq<char>) -> Seq<u8> {
    i32_le((encode_utf8(c).len() + 1) as i32) + encode_utf8(c) + seq![0u8]
}

/// The 16-byte encoding of a GUID: four little-endian `u32` components.
pub open spec fn guid_le(g: FGuid) -> Seq<u8> {
    u32_le(g.a) + u32_le(g.b) + u32_le(g.c) + u32_le(g.d)
}

/// The encoding of the engine-version record.
pub open spec fn engine_version_le(e: EngineVersionModel) -> Seq<u8> {
    u16_le(e.major) + u16_le(e.minor) + u16_le(e.patch) + u32_le(e.change_list) + string_le(
        e.branch,
    )
}

/// The 20-byte encoding of one custom-version entry.
pub open spec fn custom_version_le(cv: FCustomVersion) -> Seq<u8> {
    guid_le(cv.key) + i32_le(cv.version)
}

/// The encoding of the custom-version entries, in order, with no terminator.
pub open spec fn custom_versions_le(cvs: Seq<FCustomVersion>) -> Seq<u8>
    decreases cvs.len(),
{
    if cvs.len() == 0 {
        Seq::empty()
    } else {
        custom_version_le(cvs[0]) + custom_versions_le(cvs.drop_first())
    }
}

/// Appending one entry extends the encoding by that entry's encoding.
pub proof fn lemma_custom_versions_le_push(cvs: Seq<FCustomVersion>, cv: FCustomVersion)
    ensures
        custom_versions_le(cvs.push(cv)) == custom_versions_le(cvs) + custom_version_le(cv),
    decreases cvs.len(),
{
    if cvs.len() == 0 {
        assert(cvs.push(cv).drop_first() =~= cvs);
        assert(custom_versions_le(cvs.push(cv)) =~= custom_versions_le(cvs) + custom_version_le(
            cv,
        ));
    } else {
        assert(cvs.push(cv).drop_first() =~= cvs.drop_first().push(cv));
        lemma_custom_versions_le_push(cvs.drop_first(), cv);
        assert(custom_versions_le(cvs.push(cv)) =~= custom_versions_le(cvs) + custom_version_le(
            cv,
        ));
    }
}

/// True when `h` can be written: its strings fit their length prefixes and
/// the custom-version count fits an `i32`.
pub open spec fn header_wf(h: HeaderModel) -> bool {
    &&& string_wf(h.engine_version.branch)
    &&& string_wf(h.save_game_class_name)
    &&& h.custom_versions.len() <= i32::MAX
}

/// The encoding of the whole header, field by field in stream order.
pub open spec fn header_le(h: HeaderModel) -> Seq<u8> {
    i32_le(h.file_type_tag) + i32_le(h.save_game_file_version) + i32_le(
        h.package_file_ue4_version,
    ) + engine_version_le(h.engine_version) + i32_le(h.custom_version_format) + i32_le(
        h.custom_versions.len() as i32,
    ) + custom_versions_le(h.custom_versions) + string_le(h.save_game_class_name)
}

// ---------------------------------------------------------------------------
// Readers: bytes at a position to values.
// ---------------------------------------------------------------------------
/// True when `n` bytes can be read at `pos`.
pub open spec fn can_read(s: Seq<u8>, pos: int, n: int) -> bool {
    0 <= pos && pos + n <= s.len()
}

/// The byte at `pos`.
pub open spec fn u8_at(s: Seq<u8>, pos: int) -> u8 {
    s[pos]
}

/// The little-endian `u16` at `pos`.
pub open spec fn u16_at(s: Seq<u8>, pos: int) -> u16 {
    spec_u16_from_le_bytes(s.subrange(pos, pos + 2))
}

/// The little-endian `u32` at `pos`.
pub open spec fn u32_at(s: Seq<u8>, pos: int) -> u32 {
    spec_u32_from_le_bytes(s.subrange(pos, pos + 4))
}

/// The little-endian `u64` at `pos`.
pub open spec fn u64_at(s: Seq<u8>, pos: int) -> u64 {
    spec_u64_from_le_bytes(s.subrange(pos, pos + 8))
}

/// The little-endian `i32` at `pos`.
pub open spec fn i32_at(s: Seq<u8>, pos: int) -> i32 {
    u32_as_i32(u32_at(s, pos))
}

/// The little-endian `i64` at `pos`.
pub open spec fn i64_at(s: Seq<u8>, pos: int) -> i64 {
    u64_as_i64(u64_at(s, pos))
}

/// The GUID at `pos`: four little-endian `u32` components.
pub open spec fn guid_at(s: Seq<u8>, pos: int) -> FGuid {
    FGuid {
        a: u32_at(s, pos),
        b: u32_at(s, pos + 4),
        c: u32_at(s, pos + 8),
        d: u32_at(s, pos + 12),
    }
}

/// Parses the UEString at `pos`: the decoded characters and the position
/// after the string.  `None` when the length prefix cannot be read, is
/// negative, or runs past the buffer, or when the content bytes (the
/// declared length minus the terminator) are not valid UTF-8.  A declared
/// length of `0` or `1` yields the empty string.
pub open spec fn string_at(s: Seq<u8>, pos: int) -> Option<(Seq<char>, int)> {
    if !can_read(s, pos, 4) {
        None
    } else {
        let n = i32_at(s, pos);
        if n < 0 || !can_read(s, pos + 4, n as int) {
            None
        } else if n == 0 {
            Some((Seq::empty(), pos + 4))
        } else {
            let content = s.subrange(pos + 4, pos + 4 + n - 1);
            if valid_utf8(content) {
                Some((decode_utf8(content), pos + 4 + n))
            } else {
                None
            }
        }
    }
}

/// Parses `n` custom-version entries at `pos`.
pub open spec fn custom_versions_at(s: Seq<u8>, pos: int, n: int) -> Option<
    (Seq<FCustomVersion>, int),
>
    decreases n,
{
    if n <= 0 {
        Some((Seq::empty(), pos))
    } else if can_read(s, pos, 20) {
        match custom_versions_at(s, pos + 20, n - 1) {
            Some((rest, p)) => Some(
                (
                    seq![FCustomVersion { key: guid_at(s, pos), version: i32_at(s, pos + 16) }]
                        + rest,
                    p,
                ),
            ),
            None => None,
        }
    } else {
        None
    }
}

/// Parses the engine-version record at `pos`.
pub open spec fn engine_version_at(s: Seq<u8>, pos: int) -> Option<(EngineVersionModel, int)> {
    if !can_read(s, pos, 10) {
        None
    } else {
        match string_at(s, pos + 10) {
            Some((branch, p)) => Some(
                (
                    EngineVersionModel {
                        major: u16_at(s, pos),
                        minor: u16_at(s, pos + 2),
                        patch: u16_at(s, pos + 4),
                        change_list: u32_at(s, pos + 6),
                        branch,
                    },
                    p,
                ),
            ),
            None => None,
        }
    }
}

/// Parses the whole header at `pos`: the header model and the position of
/// the first body byte.  `None` when any field cannot be read or the
/// custom-version count is negative.
pub open spec fn header_at(s: Seq<u8>, pos: int) -> Option<(HeaderModel, int)> {
    if !can_read(s, pos, 12) {
        None
    } else {
        match engine_version_at(s, pos + 12) {
            None => None,
            Some((ev, p1)) => {
                if !can_read(s, p1, 8) {
                    None
                } else {
                    let count = i32_at(s, p1 + 4);
                    if count < 0 {
                        None
                    } else {
                        match custom_versions_at(s, p1 + 8, count as int) {
                            None => None,
                            Some((cvs, p2)) => {
                                match string_at(s, p2) {
                                    None => None,
                                    Some((name, p3)) => Some(
                                        (
                                            HeaderModel {
                                                file_type_tag: i32_at(s, pos),
                                                save_game_file_version: i32_at(s, pos + 4),
                                                package_file_ue4_version: i32_at(s, pos + 8),
                                                engine_version: ev,
                                                custom_version_format: i32_at(s, p1),
                                                custom_versions: cvs,
                                                save_game_class_name: name,
                                            },
                                            p3,
                                        ),
                                    ),
                                }
                            },
                        }
                    }
                }
            },
        }
    }
}

// ---------------------------------------------------------------------------
// Body properties.
// ---------------------------------------------------------------------------
/// The width of the payload of a plain scalar property, by type tag; `None`
/// for tags that are not plain scalars (including `ByteProperty`,
/// `BoolProperty` and `StrProperty`, whose payloads carry extra framing).
pub open spec fn plain_scalar(tag: Seq<char>) -> Option<int> {
    if tag == "Int8Property"@ {
        Some(1int)
    } else if tag == "Int16Property"@ {
        Some(2int)
    } else if tag == "UInt16Property"@ {
        Some(2int)
    } else if tag == "IntProperty"@ {
        Some(4int)
    } else if tag == "UInt32Property"@ {
        Some(4int)
    } else if tag == "Int64Property"@ {
        Some(8int)
    } else if tag == "UInt64Property"@ {
        Some(8int)
    } else if tag == "FloatProperty"@ {
        Some(4int)
    } else if tag == "DoubleProperty"@ {
        Some(8int)
    } else {
        None
    }
}

/// The exact `value_size` a scalar property of the given tag must declare;
/// `None` for non-scalar tags.
pub open spec fn expected_size(tag: Seq<char>) -> Option<int> {
    if tag == "ByteProperty"@ {
        Some(1int)
    } else if tag == "BoolProperty"@ {
        Some(0int)
    } else {
        plain_scalar(tag)
    }
}

/// True when the tag is one of the supported property types.
pub open spec fn known_tag(tag: Seq<char>) -> bool {
    ||| tag == "StructProperty"@
    ||| tag == "ArrayProperty"@
    ||| tag == "BoolProperty"@
    ||| tag == "ByteProperty"@
    ||| tag == "StrProperty"@
    ||| plain_scalar(tag) is Some
}

/// The supported property type tags are pairwise distinct.
pub proof fn lemma_tag_distinct()
    ensures
        "StructProperty"@ != "ArrayProperty"@,
        "StructProperty"@ != "BoolProperty"@,
        "StructProperty"@ != "ByteProperty"@,
        "StructProperty"@ != "StrProperty"@,
        "StructProperty"@ != "Int8Property"@,
        "StructProperty"@ != "Int16Property"@,
        "StructProperty"@ != "UInt16Property"@,
        "StructProperty"@ != "IntProperty"@,
        "StructProperty"@ != "UInt32Property"@,
        "StructProperty"@ != "Int64Property"@,
        "StructProperty"@ != "UInt64Property"@,
        "StructProperty"@ != "FloatProperty"@,
        "StructProperty"@ != "DoubleProperty"@,
        "ArrayProperty"@ != "BoolProperty"@,
        "ArrayProperty"@ != "ByteProperty"@,
        "ArrayProperty"@ != "StrProperty"@,
        "ArrayProperty"@ != "Int8Property"@,
        "ArrayProperty"@ != "Int16Property"@,
        "ArrayProperty"@ != "UInt16Property"@,
        "ArrayProperty"@ != "IntProperty"@,
        "ArrayProperty"@ != "UInt32Property"@,
        "ArrayProperty"@ != "Int64Property"@,
        "ArrayProperty"@ != "UInt64Property"@,
        "ArrayProperty"@ != "FloatProperty"@,
        "ArrayProperty"@ != "DoubleProperty"@,
        "BoolProperty"@ != "ByteProperty"@,
        "BoolProperty"@ != "StrProperty"@,
        "BoolProperty"@ != "Int8Property"@,
        "BoolProperty"@ != "Int16Property"@,
        "BoolProperty"@ != "UInt16Property"@,
        "BoolProperty"@ != "IntProperty"@,
        "BoolProperty"@ != "UInt32Property"@,
        "BoolProperty"@ != "Int64Property"@,
        "BoolProperty"@ != "UInt64Property"@,
        "BoolProperty"@ != "FloatProperty"@,
        "BoolProperty"@ != "DoubleProperty"@,
        "ByteProperty"@ != "StrProperty"@,
        "ByteProperty"@ != "Int8Property"@,
        "ByteProperty"@ != "Int16Property"@,
        "ByteProperty"@ != "UInt16Property"@,
        "ByteProperty"@ != "IntProperty"@,
        "ByteProperty"@ != "UInt32Property"@,
        "ByteProperty"@ != "Int64Property"@,
        "ByteProperty"@ != "UInt64Property"@,
        "ByteProperty"@ != "FloatProperty"@,
        "ByteProperty"@ != "DoubleProperty"@,
        "StrProperty"@ != "Int8Property"@,
        "StrProperty"@ != "Int16Property"@,
        "StrProperty"@ != "UInt16Property"@,
        "StrProperty"@ != "IntProperty"@,
        "StrProperty"@ != "UInt32Property"@,
        "StrProperty"@ != "Int64Property"@,
        "StrProperty"@ != "UInt64Property"@,
        "StrProperty"@ != "FloatProperty"@,
        "StrProperty"@ != "DoubleProperty"@,
        "Int8Property"@ != "Int16Property"@,
        "Int8Property"@ != "UInt16Property"@,
        "Int8Property"@ != "IntProperty"@,
        "Int8Property"@ != "UInt32Property"@,
        "Int8Property"@ != "Int64Property"@,
        "Int8Property"@ != "UInt64Property"@,
        "Int8Property"@ != "FloatProperty"@,
        "Int8Property"@ != "DoubleProperty"@,
        "Int16Property"@ != "UInt16Property"@,
        "Int16Property"@ != "IntProperty"@,
        "Int16Property"@ != "UInt32Property"@,
        "Int16Property"@ != "Int64Property"@,
        "Int16Property"@ != "UInt64Property"@,
        "Int16Property"@ != "FloatProperty"@,
        "Int16Property"@ != "DoubleProperty"@,
        "UInt16Property"@ != "IntProperty"@,
        "UInt16Property"@ != "UInt32Property"@,
        "UInt16Property"@ != "Int64Property"@,
        "UInt16Property"@ != "UInt64Property"@,
        "UInt16Property"@ != "FloatProperty"@,
        "UInt16Property"@ != "DoubleProperty"@,
        "IntProperty"@ != "UInt32Property"@,
        "IntProperty"@ != "Int64Property"@,
        "IntProperty"@ != "UInt64Property"@,
        "IntProperty"@ != "FloatProperty"@,
        "IntProperty"@ != "DoubleProperty"@,
        "UInt32Property"@ != "Int64Property"@,
        "UInt32Property"@ != "UInt64Property"@,
        "UInt32Property"@ != "FloatProperty"@,
        "UInt32Property"@ != "DoubleProperty"@,
        "Int64Property"@ != "UInt64Property"@,
        "Int64Property"@ != "FloatProperty"@,
        "Int64Property"@ != "DoubleProperty"@,
        "UInt64Property"@ != "FloatProperty"@,
        "UInt64Property"@ != "DoubleProperty"@,
        "FloatProperty"@ != "DoubleProperty"@,
{
    reveal_strlit("StructProperty");
    reveal_strlit("ArrayProperty");
    reveal_strlit("BoolProperty");
    reveal_strlit("ByteProperty");
    reveal_strlit("StrProperty");
    reveal_strlit("Int8Property");
    reveal_strlit("Int16Property");
    reveal_strlit("UInt16Property");
    reveal_strlit("IntProperty");
    reveal_strlit("UInt32Property");
    reveal_strlit("Int64Property");
    reveal_strlit("UInt64Property");
    reveal_strlit("FloatProperty");
    reveal_strlit("DoubleProperty");
    assert("UInt16Property"@.index(4) == '1');
    assert("UInt32Property"@.index(4) == '3');
    assert("UInt64Property"@.index(4) == '6');
    assert("Int16Property"@.index(3) == '1');
    assert("Int64Property"@.index(3) == '6');
    assert("Int8Property"@.index(3) == '8');
    assert("BoolProperty"@.index(1) == 'o');
    assert("ByteProperty"@.index(1) == 'y');
    assert("StructProperty"@.index(0) == 'S');
    assert("DoubleProperty"@.index(0) == 'D');
    assert("ArrayProperty"@.index(0) == 'A');
    assert("FloatProperty"@.index(0) == 'F');
    assert("Int16Property"@.index(0) == 'I');
    assert("Int64Property"@.index(0) == 'I');
    assert("IntProperty"@.index(0) == 'I');
    assert("StrProperty"@.index(0) == 'S');
    assert("UInt16Property"@.index(0) == 'U');
    assert("UInt32Property"@.index(0) == 'U');
    assert("UInt64Property"@.index(0) == 'U');
    assert("Int8Property"@.index(0) == 'I');
    assert("BoolProperty"@.index(0) == 'B');
    assert("ByteProperty"@.index(0) == 'B');
    assert("StructProperty"@.index(3) == 'u');
    assert("StrProperty"@.index(2) == 'r');
}

/// The value of a plain scalar of the given tag whose bytes start at `pos`.
pub open spec fn scalar_value_at(s: Seq<u8>, pos: int, tag: Seq<char>) -> ValueModel {
    if tag == "Int8Property"@ {
        ValueModel::I8(u8_as_i8(u8_at(s, pos)))
    } else if tag == "Int16Property"@ {
        ValueModel::I16(u16_as_i16(u16_at(s, pos)))
    } else if tag == "UInt16Property"@ {
        ValueModel::U16(u16_at(s, pos))
    } else if tag == "IntProperty"@ {
        ValueModel::I32(i32_at(s, pos))
    } else if tag == "UInt32Property"@ {
        ValueModel::U32(u32_at(s, pos))
    } else if tag == "Int64Property"@ {
        ValueModel::I64(i64_at(s, pos))
    } else if tag == "UInt64Property"@ {
        ValueModel::U64(u64_at(s, pos))
    } else if tag == "FloatProperty"@ {
        ValueModel::F32Bits(u32_at(s, pos))
    } else {
        ValueModel::F64Bits(u64_at(s, pos))
    }
}

/// One bare array element of the given element type at `pos`: the raw value
/// with no per-element framing.  Strings are bare UEStrings; booleans and
/// bytes are single bytes.
pub open spec fn bare_at(s: Seq<u8>, pos: int, etype: Seq<char>) -> Option<(ValueModel, int)> {
    if etype == "StrProperty"@ {
        match string_at(s, pos) {
            None => None,
            Some((c, p)) => Some((ValueModel::Text(c), p)),
        }
    } else if etype == "BoolProperty"@ {
        if can_read(s, pos, 1) {
            Some((ValueModel::Boolean(u8_at(s, pos) == 1), pos + 1))
        } else {
            None
        }
    } else if etype == "ByteProperty"@ {
        if can_read(s, pos, 1) {
            Some((ValueModel::U8(u8_at(s, pos)), pos + 1))
        } else {
            None
        }
    } else {
        match plain_scalar(etype) {
            Some(w) => if can_read(s, pos, w) {
                Some((scalar_value_at(s, pos, etype), pos + w))
            } else {
                None
            },
            None => None,
        }
    }
}

/// Parses the run of properties at `pos` up to and including the `"None"`
/// sentinel: the named members in stream order and the position after the
/// sentinel.
pub open spec fn props_at(s: Seq<u8>, pos: int) -> Option<(Seq<(Seq<char>, ValueModel)>, int)>
    decreases s.len() - pos, 3int, 0int,
{
    match string_at(s, pos) {
        None => None,
        Some((name, p1)) => {
            if name == "None"@ {
                Some((Seq::empty(), p1))
            } else {
                match string_at(s, p1) {
                    None => None,
                    Some((tag, p2)) => {
                        match value_at(s, p2, tag) {
                            None => None,
                            Some((v, p3)) => {
                                if pos < p3 && p3 <= s.len() {
                                    match props_at(s, p3) {
                                        None => None,
                                        Some((rest, p4)) => Some((seq![(name, v)] + rest, p4)),
                                    }
                                } else {
                                    None
                                }
                            },
                        }
                    },
                }
            }
        },
    }
}

/// Parses the payload of one property of the given type tag at `pos`, the
/// position of its `i64 value_size` field.
pub open spec fn value_at(s: Seq<u8>, pos: int, tag: Seq<char>) -> Option<(ValueModel, int)>
    decreases s.len() - pos, 2int, 0int,
{
    if tag == "StructProperty"@ {
        if !can_read(s, pos, 8) {
            None
        } else {
            match string_at(s, pos + 8) {
                None => None,
                Some((stype, p1)) => {
                    if !can_read(s, p1, 17) {
                        None
                    } else {
                        let body = p1 + 17;
                        if stype == "DateTime"@ {
                            if can_read(s, body, 8) {
                                Some((ValueModel::DateTime(u64_at(s, body)), body + 8))
                            } else {
                                None
                            }
                        } else {
                            if pos < body {
                                match props_at(s, body) {
                                    None => None,
                                    Some((es, p2)) => Some((ValueModel::Struct(es), p2)),
                                }
                            } else {
                                None
                            }
                        }
                    }
                },
            }
        }
    } else if tag == "ArrayProperty"@ {
        if !can_read(s, pos, 8) {
            None
        } else {
            match string_at(s, pos + 8) {
                None => None,
                Some((etype, p1)) => {
                    if !can_read(s, p1, 5) {
                        None
                    } else {
                        let count = i32_at(s, p1 + 1);
                        if count < 0 {
                            None
                        } else if etype == "StructProperty"@ {
                            match string_at(s, p1 + 5) {
                                None => None,
                                Some((_dup_name, p2)) => {
                                    match string_at(s, p2) {
                                        None => None,
                                        Some((_dup_tag, p3)) => {
                                            if !can_read(s, p3, 8) {
                                                None
                                            } else {
                                                match string_at(s, p3 + 8) {
                                                    None => None,
                                                    Some((sname, p4)) => {
                                                        if !can_read(s, p4, 17) {
                                                            None
                                                        } else {
                                                            if pos < p4 + 17 {
                                                                match elems_at(
                                                                    s,
                                                                    p4 + 17,
                                                                    "StructProperty"@,
                                                                    sname,
                                                                    count as int,
                                                                ) {
                                                                    None => None,
                                                                    Some((vs, p5)) => Some(
                                                                        (ValueModel::Array(vs), p5),
                                                                    ),
                                                                }
                                                            } else {
                                                                None
                                                            }
                                                        }
                                                    },
                                                }
                                            }
                                        },
                                    }
                                },
                            }
                        } else {
                            if pos < p1 + 5 {
                                match elems_at(s, p1 + 5, etype, Seq::empty(), count as int) {
                                    None => None,
                                    Some((vs, p5)) => Some((ValueModel::Array(vs), p5)),
                                }
                            } else {
                                None
                            }
                        }
                    }
                },
            }
        }
    } else if tag == "BoolProperty"@ {
        if can_read(s, pos, 8) && i64_at(s, pos) == 0 && can_read(s, pos + 8, 2) {
            Some((ValueModel::Boolean(u16_at(s, pos + 8) > 0), pos + 10))
        } else {
            None
        }
    } else if tag == "ByteProperty"@ {
        if can_read(s, pos, 8) && i64_at(s, pos) == 1 {
            match string_at(s, pos + 8) {
                None => None,
                Some((_enum_name, p1)) => {
                    if can_read(s, p1, 2) {
                        Some((ValueModel::U8(u8_at(s, p1 + 1)), p1 + 2))
                    } else {
                        None
                    }
                },
            }
        } else {
            None
        }
    } else if tag == "StrProperty"@ {
        if can_read(s, pos, 9) {
            match string_at(s, pos + 9) {
                None => None,
                Some((c, p)) => Some((ValueModel::Text(c), p)),
            }
        } else {
            None
        }
    } else {
        match plain_scalar(tag) {
            Some(w) => if can_read(s, pos, 8) && i64_at(s, pos) == w && can_read(s, pos + 8, 1 + w) {
                Some((scalar_value_at(s, pos + 9, tag), pos + 9 + w))
            } else {
                None
            },
            None => None,
        }
    }
}

// ---------------------------------------------------------------------------
// Laws: the readers invert the encoders.
// ---------------------------------------------------------------------------
/// The widths of the integer encodings.
pub proof fn lemma_le_lens()
    ensures
        forall|x: u16| (#[trigger] u16_le(x)).len() == 2,
        forall|x: u32| (#[trigger] u32_le(x)).len() == 4,
        forall|x: u64| (#[trigger] u64_le(x)).len() == 8,
        forall|x: i32| (#[trigger] i32_le(x)).len() == 4,
        forall|x: i64| (#[trigger] i64_le(x)).len() == 8,
{
    vstd::bytes::lemma_auto_spec_u16_to_from_le_bytes();
    vstd::bytes::lemma_auto_spec_u32_to_from_le_bytes();
    vstd::bytes::lemma_auto_spec_u64_to_from_le_bytes();
}

/// Reading a `u16` from where its encoding was placed gives the value back.
pub proof fn lemma_u16_at_le(x: u16, s: Seq<u8>, pos: int)
    requires
        0 <= pos,
        pos + 2 <= s.len(),
        s.subrange(pos, pos + 2) == u16_le(x),
    ensures
        u16_at(s, pos) == x,
{
    vstd::bytes::lemma_auto_spec_u16_to_from_le_bytes();
    assert(spec_u16_to_le_bytes(x).len() == 2);
    assert(spec_u16_from_le_bytes(spec_u16_to_le_bytes(x)) == x);
}

/// Reading a `u32` from where its encoding was placed gives the value back.
pub proof fn lemma_u32_at_le(x: u32, s: Seq<u8>, pos: int)
    requires
        0 <= pos,
        pos + 4 <= s.len(),
        s.subrange(pos, pos + 4) == u32_le(x),
    ensures
        u32_at(s, pos) == x,
{
    vstd::bytes::lemma_auto_spec_u32_to_from_le_bytes();
    assert(spec_u32_to_le_bytes(x).len() == 4);
    assert(spec_u32_from_le_bytes(spec_u32_to_le_bytes(x)) == x);
}

/// Reading an `i32` from where its encoding was placed gives the value back.
pub proof fn lemma_i32_at_le(x: i32, s: Seq<u8>, pos: int)
    requires
        0 <= pos,
        pos + 4 <= s.len(),
        s.subrange(pos, pos + 4) == i32_le(x),
    ensures
        i32_at(s, pos) == x,
{
    lemma_u32_at_le(i32_as_u32(x), s, pos);
    lemma_i32_u32_round_trip(x);
}

/// Reading a `u64` from where its encoding was placed gives the value back.
pub proof fn lemma_u64_at_le(x: u64, s: Seq<u8>, pos: int)
    requires
        0 <= pos,
        pos + 8 <= s.len(),
        s.subrange(pos, pos + 8) == u64_le(x),
    ensures
        u64_at(s, pos) == x,
{
    vstd::bytes::lemma_auto_spec_u64_to_from_le_bytes();
    assert(spec_u64_to_le_bytes(x).len() == 8);
    assert(spec_u64_from_le_bytes(spec_u64_to_le_bytes(x)) == x);
}

/// String round-trip: a UEString written by the encoder reads back as the
/// same characters, wherever it stands in a buffer, and the read stops
/// right after it.
pub proof fn lemma_string_at_le(c: Seq<char>, s: Seq<u8>, pos: int)
    requires
        string_wf(c),
        0 <= pos,
        pos + string_le(c).len() <= s.len(),
        s.subrange(pos, pos + string_le(c).len()) == string_le(c),
    ensures
        string_le(c).len() == 4 + encode_utf8(c).len() + 1,
        string_at(s, pos) == Some((c, pos + string_le(c).len())),
{
    broadcast use vstd::utf8::group_utf8_lib;

    lemma_le_lens();
    let n = encode_utf8(c).len() + 1;
    let full = string_le(c);
    assert(full.len() == 4 + n);
    assert(s.subrange(pos, pos + 4) =~= full.subrange(0, 4));
    assert(full.subrange(0, 4) =~= i32_le(n as i32));
    lemma_i32_at_le(n as i32, s, pos);
    assert(i32_at(s, pos) == n as i32);
    assert(n as i32 >= 1);
    assert(can_read(s, pos + 4, n as int));
    let content = s.subrange(pos + 4, pos + 4 + n - 1);
    assert forall|i: int| 0 <= i < n - 1 implies content[i] == encode_utf8(c)[i] by {
        assert(s.subrange(pos, pos + full.len() as int)[4 + i] == s[pos + 4 + i]);
        assert(full[4 + i] == encode_utf8(c)[i]);
        assert(content[i] == s[pos + 4 + i]);
    }
    assert(content =~= encode_utf8(c));
    assert(valid_utf8(content));
    assert(decode_utf8(content) == c);
}

/// String round-trip for an exactly-sized buffer, with the exact length of
/// the encoding: `4 + utf8_length + 1`.
pub proof fn lemma_string_round_trip(c: Seq<char>)
    requires
        string_wf(c),
    ensures
        string_le(c).len() == 4 + encode_utf8(c).len() + 1,
        string_at(string_le(c), 0) == Some((c, string_le(c).len() as int)),
{
    let s = string_le(c);
    assert(s.subrange(0, s.len() as int) =~= s);
    lemma_string_at_le(c, s, 0);
}

/// Sentinel termination: where a `"None"` UEString stands, the property
/// run ends as an empty map and the read advances by exactly 9 bytes
/// (`i32(5)` plus `"None\0"`).
pub proof fn lemma_sentinel(s: Seq<u8>, pos: int)
    requires
        string_at(s, pos) matches Some((c, p)) && c == "None"@,
    ensures
        string_at(s, pos) matches Some((c, p)) && p == pos + 9,
        props_at(s, pos) == Some((Seq::<(Seq<char>, ValueModel)>::empty(), pos + 9)),
{
    broadcast use vstd::utf8::group_utf8_lib;

    reveal_strlit("None");
    let (c, p) = string_at(s, pos)->Some_0;
    let n = i32_at(s, pos);
    assert(vstd::utf8::is_ascii_chars("None"@));
    assert(encode_utf8("None"@).len() == 4) by {
        vstd::utf8::is_ascii_chars_encode_utf8("None"@);
    }
    if n == 0 {
        assert(c.len() == 0);
        assert(false);
    } else {
        let content = s.subrange(pos + 4, pos + 4 + n - 1);
        assert(valid_utf8(content) && c == decode_utf8(content));
        assert(encode_utf8(decode_utf8(content)) == content);
        assert(content.len() == n - 1);
        assert(n == 5);
    }
}

/// A subrange of a buffer that holds `w` equals the matching subrange of
/// `w`.
proof fn lemma_subrange_of_eq(s: Seq<u8>, pos: int, w: Seq<u8>, a: int, b: int)
    requires
        0 <= pos,
        pos + w.len() <= s.len(),
        s.subrange(pos, pos + w.len() as int) == w,
        0 <= a <= b <= w.len(),
    ensures
        s.subrange(pos + a, pos + b) == w.subrange(a, b),
{
    assert forall|i: int| 0 <= i < b - a implies s.subrange(pos + a, pos + b)[i] == w.subrange(
        a,
        b,
    )[i] by {
        assert(s.subrange(pos, pos + w.len() as int)[a + i] == s[pos + a + i]);
        assert(s.subrange(pos + a, pos + b)[i] == s[pos + a + i]);
    }
    assert(s.subrange(pos + a, pos + b) =~= w.subrange(a, b));
}

/// Reading a GUID from where its encoding was placed gives it back.
proof fn lemma_guid_at_le(g: FGuid, s: Seq<u8>, pos: int)
    requires
        0 <= pos,
        pos + 16 <= s.len(),
        s.subrange(pos, pos + 16) == guid_le(g),
    ensures
        guid_at(s, pos) == g,
{
    lemma_le_lens();
    let w = guid_le(g);
    lemma_subrange_of_eq(s, pos, w, 0, 4);
    lemma_subrange_of_eq(s, pos, w, 4, 8);
    lemma_subrange_of_eq(s, pos, w, 8, 12);
    lemma_subrange_of_eq(s, pos, w, 12, 16);
    assert(w.subrange(0, 4) =~= u32_le(g.a));
    assert(w.subrange(4, 8) =~= u32_le(g.b));
    assert(w.subrange(8, 12) =~= u32_le(g.c));
    assert(w.subrange(12, 16) =~= u32_le(g.d));
    lemma_u32_at_le(g.a, s, pos);
    lemma_u32_at_le(g.b, s, pos + 4);
    lemma_u32_at_le(g.c, s, pos + 8);
    lemma_u32_at_le(g.d, s, pos + 12);
}

/// The custom-version block is 20 bytes per entry.
pub proof fn lemma_custom_versions_le_len(cvs: Seq<FCustomVersion>)
    ensures
        custom_versions_le(cvs).len() == 20 * cvs.len(),
    decreases cvs.len(),
{
    lemma_le_lens();
    if cvs.len() == 0 {
    } else {
        lemma_custom_versions_le_len(cvs.drop_first());
    }
}

/// Reading `n` custom versions from where their encoding was placed gives
/// them back.
proof fn lemma_custom_versions_at_le(cvs: Seq<FCustomVersion>, s: Seq<u8>, pos: int)
    requires
        0 <= pos,
        pos + custom_versions_le(cvs).len() <= s.len(),
        s.subrange(pos, pos + custom_versions_le(cvs).len() as int) == custom_versions_le(cvs),
    ensures
        custom_versions_at(s, pos, cvs.len() as int) == Some(
            (cvs, pos + custom_versions_le(cvs).len()),
        ),
    decreases cvs.len(),
{
    lemma_le_lens();
    lemma_custom_versions_le_len(cvs);
    if cvs.len() == 0 {
    } else {
        let w = custom_versions_le(cvs);
        let head = custom_version_le(cvs[0]);
        let rest = cvs.drop_first();
        lemma_custom_versions_le_len(rest);
        assert(w =~= head + custom_versions_le(rest));
        lemma_subrange_of_eq(s, pos, w, 0, 16);
        lemma_subrange_of_eq(s, pos, w, 16, 20);
        assert(w.subrange(0, 16) =~= guid_le(cvs[0].key));
        assert(w.subrange(16, 20) =~= i32_le(cvs[0].version));
        lemma_guid_at_le(cvs[0].key, s, pos);
        lemma_i32_at_le(cvs[0].version, s, pos + 16);
        lemma_subrange_of_eq(s, pos, w, 20, w.len() as int);
        assert(w.subrange(20, w.len() as int) =~= custom_versions_le(rest));
        lemma_custom_versions_at_le(rest, s, pos + 20);
        assert(seq![cvs[0]] + rest =~= cvs);
    }
}

/// Reading the engine-version record from where its encoding was placed
/// gives it back.
proof fn lemma_engine_version_at_le(e: EngineVersionModel, s: Seq<u8>, pos: int)
    requires
        string_wf(e.branch),
        0 <= pos,
        pos + engine_version_le(e).len() <= s.len(),
        s.subrange(pos, pos + engine_version_le(e).len() as int) == engine_version_le(e),
    ensures
        engine_version_le(e).len() == 10 + string_le(e.branch).len(),
        engine_version_at(s, pos) == Some((e, pos + engine_version_le(e).len())),
{
    lemma_le_lens();
    let w = engine_version_le(e);
    assert(w.len() == 10 + string_le(e.branch).len());
    lemma_subrange_of_eq(s, pos, w, 0, 2);
    lemma_subrange_of_eq(s, pos, w, 2, 4);
    lemma_subrange_of_eq(s, pos, w, 4, 6);
    lemma_subrange_of_eq(s, pos, w, 6, 10);
    lemma_subrange_of_eq(s, pos, w, 10, w.len() as int);
    assert(w.subrange(0, 2) =~= u16_le(e.major));
    assert(w.subrange(2, 4) =~= u16_le(e.minor));
    assert(w.subrange(4, 6) =~= u16_le(e.patch));
    assert(w.subrange(6, 10) =~= u32_le(e.change_list));
    assert(w.subrange(10, w.len() as int) =~= string_le(e.branch));
    lemma_u16_at_le(e.major, s, pos);
    lemma_u16_at_le(e.minor, s, pos + 2);
    lemma_u16_at_le(e.patch, s, pos + 4);
    lemma_u32_at_le(e.change_list, s, pos + 6);
    lemma_string_at_le(e.branch, s, pos + 10);
}

/// Header round-trip, stated for a header standing anywhere in a buffer:
/// reading where the encoding was placed gives the same header back, and
/// the read stops right after it.
pub proof fn lemma_header_at_le(h: HeaderModel, s: Seq<u8>, pos: int)
    requires
        header_wf(h),
        0 <= pos,
        pos + header_le(h).len() <= s.len(),
        s.subrange(pos, pos + header_le(h).len() as int) == header_le(h),
    ensures
        header_at(s, pos) == Some((h, pos + header_le(h).len())),
{
    lemma_le_lens();
    lemma_custom_versions_le_len(h.custom_versions);
    let w = header_le(h);
    let e_len = engine_version_le(h.engine_version).len() as int;
    assert(e_len == 10 + string_le(h.engine_version.branch).len()) by {
        lemma_le_lens();
    }
    let cv_len = custom_versions_le(h.custom_versions).len() as int;
    lemma_subrange_of_eq(s, pos, w, 0, 4);
    lemma_subrange_of_eq(s, pos, w, 4, 8);
    lemma_subrange_of_eq(s, pos, w, 8, 12);
    lemma_subrange_of_eq(s, pos, w, 12, 12 + e_len);
    lemma_subrange_of_eq(s, pos, w, 12 + e_len, 16 + e_len);
    lemma_subrange_of_eq(s, pos, w, 16 + e_len, 20 + e_len);
    lemma_subrange_of_eq(s, pos, w, 20 + e_len, 20 + e_len + cv_len);
    lemma_subrange_of_eq(s, pos, w, 20 + e_len + cv_len, w.len() as int);
    assert(w.subrange(0, 4) =~= i32_le(h.file_type_tag));
    assert(w.subrange(4, 8) =~= i32_le(h.save_game_file_version));
    assert(w.subrange(8, 12) =~= i32_le(h.package_file_ue4_version));
    assert(w.subrange(12, 12 + e_len) =~= engine_version_le(h.engine_version));
    assert(w.subrange(12 + e_len, 16 + e_len) =~= i32_le(h.custom_version_format));
    assert(w.subrange(16 + e_len, 20 + e_len) =~= i32_le(h.custom_versions.len() as i32));
    assert(w.subrange(20 + e_len, 20 + e_len + cv_len) =~= custom_versions_le(h.custom_versions));
    assert(w.subrange(20 + e_len + cv_len, w.len() as int) =~= string_le(h.save_game_class_name));
    lemma_i32_at_le(h.file_type_tag, s, pos);
    lemma_i32_at_le(h.save_game_file_version, s, pos + 4);
    lemma_i32_at_le(h.package_file_ue4_version, s, pos + 8);
    lemma_engine_version_at_le(h.engine_version, s, pos + 12);
    let p1 = pos + 12 + e_len;
    lemma_i32_at_le(h.custom_version_format, s, p1);
    lemma_i32_at_le(h.custom_versions.len() as i32, s, p1 + 4);
    lemma_custom_versions_at_le(h.custom_versions, s, p1 + 8);
    let p2 = p1 + 8 + cv_len;
    lemma_string_at_le(h.save_game_class_name, s, p2);
}

/// Header round-trip: decoding the encoder's output gives the header back
/// and consumes the whole buffer.
pub proof fn lemma_header_round_trip(h: HeaderModel)
    requires
        header_wf(h),
    ensures
        header_at(header_le(h), 0) == Some((h, header_le(h).len() as int)),
{
    let s = header_le(h);
    assert(s.subrange(0, s.len() as int) =~= s);
    lemma_header_at_le(h, s, 0);
}

/// Every successful property run ends right after a `"None"` UEString.
pub proof fn lemma_props_end_at_sentinel(s: Seq<u8>, pos: int)
    requires
        props_at(s, pos) is Some,
    ensures
        exists|q: int|
            pos <= q && ((#[trigger] string_at(s, q)) matches Some((c, p)) && c == "None"@ && p
                == props_at(s, pos)->Some_0.1),
    decreases s.len() - pos, 3int, 0int,
{
    let (name, p1) = string_at(s, pos)->Some_0;
    if name == "None"@ {
        assert(string_at(s, pos) matches Some((c, p)) && c == "None"@ && p == props_at(
            s,
            pos,
        )->Some_0.1);
    } else {
        let (tag, p2) = string_at(s, p1)->Some_0;
        let (v, p3) = value_at(s, p2, tag)->Some_0;
        lemma_props_end_at_sentinel(s, p3);
        let q = choose|q: int|
            p3 <= q && ((#[trigger] string_at(s, q)) matches Some((c, p)) && c == "None"@ && p
                == props_at(s, p3)->Some_0.1);
        assert(pos <= q && (string_at(s, q) matches Some((c, p)) && c == "None"@ && p
            == props_at(s, pos)->Some_0.1));
    }
}

/// Parses `n` array elements at `pos`.  For `StructProperty` elements the
/// struct type `sname` decides the element rule: `DateTime` elements are
/// bare `u64` values, all others are property runs closed by a `"None"`
/// sentinel.  Other element types follow [`bare_at`].
pub open spec fn elems_at(
    s: Seq<u8>,
    pos: int,
    etype: Seq<char>,
    sname: Seq<char>,
    n: int,
) -> Option<(Seq<ValueModel>, int)>
    decreases s.len() - pos, 4int, n,
{
    if n <= 0 {
        Some((Seq::empty(), pos))
    } else {
        let head = if etype == "StructProperty"@ {
            if sname == "DateTime"@ {
                if can_read(s, pos, 8) {
                    Some((ValueModel::DateTime(u64_at(s, pos)), pos + 8))
                } else {
                    None
                }
            } else {
                match props_at(s, pos) {
                    None => None,
                    Some((es, p)) => Some((ValueModel::Struct(es), p)),
                }
            }
        } else {
            bare_at(s, pos, etype)
        };
        match head {
            None => None,
            Some((v, p)) => {
                if pos <= p && p <= s.len() {
                    match elems_at(s, p, etype, sname, n - 1) {
                        None => None,
                        Some((rest, p2)) => Some((seq![v] + rest, p2)),
                    }
                } else {
                    None
                }
            },
        }
    }
}

} // verus!
