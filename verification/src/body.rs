//! The body decoder: a recursive, schema-directed decoder over the
//! post-header stream that reads a run of named, tagged properties into a
//! [`GvasValue`] tree.
//!
//! Every function is specified against the wire model: success happens
//! exactly when the matching `wire` parse function returns `Some`, and the
//! decoded value's model and the final position are the ones that function
//! gives.

use vstd::prelude::*;
use vstd::string::StringExecFns;

use crate::cursor::Cursor;
use crate::error::Error;
use crate::text::is_tag;
use crate::types::FGuid;
use crate::value::{entries_model, lemma_entries_model_push, lemma_values_model_push, values_model,
    GvasValue};
use crate::wire;

verus! {

/// Decodes the property stream that follows the header.
pub struct Deserializer<'a> {
    cur: Cursor<'a>,
}

impl<'a> Deserializer<'a> {
    /// The input bytes.
    pub closed spec fn bytes(self) -> Seq<u8> {
        self.cur.bytes()
    }

    /// The current read position.
    pub closed spec fn spec_pos(self) -> int {
        self.cur.spec_pos()
    }

    /// The position never passes the end of the buffer.
    pub open spec fn wf(self) -> bool {
        self.spec_pos() <= self.bytes().len()
    }

    /// A deserializer at the start of `input`, which holds the body bytes:
    /// the caller slices the file buffer at the header's parsed length.
    pub fn from_bytes(input: &'a [u8]) -> (r: Deserializer<'a>)
        ensures
            r.bytes() == input@,
            r.spec_pos() == 0,
            r.wf(),
    {
        Deserializer { cur: Cursor::new(input) }
    }

    /// The number of bytes consumed so far.
    pub fn parsed_length(&self) -> (r: usize)
        ensures
            r == self.spec_pos(),
    {
        self.cur.position()
    }

    /// Reads a UEString at the current position.
    pub fn parse_string(&mut self) -> (r: Result<String, Error>)
        requires
            old(self).wf(),
        ensures
            final(self).wf(),
            final(self).bytes() == old(self).bytes(),
            final(self).spec_pos() >= old(self).spec_pos(),
            r is Ok <==> wire::string_at(old(self).bytes(), old(self).spec_pos()) is Some,
            r matches Ok(v) ==> {
                &&& wire::string_at(old(self).bytes(), old(self).spec_pos()) matches Some((c, p))
                    && v@ == c && final(self).spec_pos() == p
            },
    {
        self.cur.read_string()
    }

    /// Returns the same value [`Self::parse_string`] would, leaving the
    /// position unchanged on success.
    pub fn peek_string(&mut self) -> (r: Result<String, Error>)
        requires
            old(self).wf(),
        ensures
            final(self).wf(),
            final(self).bytes() == old(self).bytes(),
            final(self).spec_pos() >= old(self).spec_pos(),
            r is Ok <==> wire::string_at(old(self).bytes(), old(self).spec_pos()) is Some,
            r matches Ok(v) ==> {
                &&& wire::string_at(old(self).bytes(), old(self).spec_pos()) matches Some((c, _p))
                    && v@ == c
                &&& final(self).spec_pos() == old(self).spec_pos()
            },
    {
        self.cur.peek_string()
    }

    /// Reads four little-endian `u32` values as a GUID.
    pub fn parse_guid(&mut self) -> (r: Result<FGuid, Error>)
        requires
            old(self).wf(),
        ensures
            final(self).wf(),
            final(self).bytes() == old(self).bytes(),
            final(self).spec_pos() >= old(self).spec_pos(),
            r is Ok <==> wire::can_read(old(self).bytes(), old(self).spec_pos(), 16),
            r matches Ok(g) ==> g == wire::guid_at(old(self).bytes(), old(self).spec_pos())
                && final(self).spec_pos() == old(self).spec_pos() + 16,
            r matches Err(e) ==> e.code is Io,
    {
        let a = match self.cur.read_u32() {
            Ok(v) => v,
            Err(e) => return Err(e),
        };
        let b = match self.cur.read_u32() {
            Ok(v) => v,
            Err(e) => return Err(e),
        };
        let c = match self.cur.read_u32() {
            Ok(v) => v,
            Err(e) => return Err(e),
        };
        let d = match self.cur.read_u32() {
            Ok(v) => v,
            Err(e) => return Err(e),
        };
        Ok(FGuid { a, b, c, d })
    }

    /// Reads the `i64 value_size` of a scalar property, rejects a value
    /// other than `expected` with a `Data` error, and consumes the one
    /// terminator byte that follows.
    fn parse_scalar_prelude(&mut self, expected: u64) -> (r: Result<(), Error>)
        requires
            old(self).wf(),
            expected <= 8,
        ensures
            final(self).wf(),
            final(self).bytes() == old(self).bytes(),
            final(self).spec_pos() >= old(self).spec_pos(),
            r is Ok <==> ({
                let s = old(self).bytes();
                let pos = old(self).spec_pos();
                wire::can_read(s, pos, 8) && wire::i64_at(s, pos) == expected && wire::can_read(
                    s,
                    pos + 8,
                    1,
                )
            }),
            r is Ok ==> final(self).spec_pos() == old(self).spec_pos() + 9,
            r matches Err(e) ==> ({
                let s = old(self).bytes();
                let pos = old(self).spec_pos();
                if wire::can_read(s, pos, 8) && wire::i64_at(s, pos) != expected {
                    e.code is Data
                } else {
                    e.code is Io
                }
            }),
    {
        let size = match self.cur.read_i64() {
            Ok(v) => v,
            Err(e) => return Err(e),
        };
        if size != expected as i64 {
            return Err(Error::make_data(String::from_str("unexpected value size")));
        }
        match self.cur.read_u8() {
            Ok(_) => Ok(()),
            Err(e) => Err(e),
        }
    }

    /// Parses a `ByteProperty` payload: `i64 size` (must be 1), a UEString
    /// enum name that is read and discarded, one terminator byte, the value.
    pub fn parse_u8_property(&mut self) -> (r: Result<u8, Error>)
        requires
            old(self).wf(),
        ensures
            final(self).wf(),
            final(self).bytes() == old(self).bytes(),
            final(self).spec_pos() >= old(self).spec_pos(),
            r is Ok <==> ({
                let s = old(self).bytes();
                let pos = old(self).spec_pos();
                &&& wire::can_read(s, pos, 8)
                &&& wire::i64_at(s, pos) == 1
                &&& wire::string_at(s, pos + 8) is Some
                &&& wire::can_read(s, wire::string_at(s, pos + 8)->Some_0.1, 2)
            }),
            r matches Ok(v) ==> ({
                let s = old(self).bytes();
                let p1 = wire::string_at(s, old(self).spec_pos() + 8)->Some_0.1;
                v == wire::u8_at(s, p1 + 1) && final(self).spec_pos() == p1 + 2
            }),
            ({
                let s = old(self).bytes();
                let pos = old(self).spec_pos();
                wire::can_read(s, pos, 8) && wire::i64_at(s, pos) != 1
            }) ==> (r matches Err(e) && e.code is Data),
    {
        let size = match self.cur.read_i64() {
            Ok(v) => v,
            Err(e) => return Err(e),
        };
        if size != 1 {
            return Err(Error::make_data(String::from_str("unexpected value size")));
        }
        let _enum_name = match self.parse_string() {
            Ok(v) => v,
            Err(e) => return Err(e),
        };
        let _term = match self.cur.read_u8() {
            Ok(v) => v,
            Err(e) => return Err(e),
        };
        self.cur.read_u8()
    }

    /// Parses a `BoolProperty` payload: `i64 size` (must be 0), then a
    /// `u16`; the value is true exactly when that `u16` is positive.
    pub fn parse_bool_property(&mut self) -> (r: Result<bool, Error>)
        requires
            old(self).wf(),
        ensures
            final(self).wf(),
            final(self).bytes() == old(self).bytes(),
            final(self).spec_pos() >= old(self).spec_pos(),
            r is Ok <==> ({
                let s = old(self).bytes();
                let pos = old(self).spec_pos();
                wire::can_read(s, pos, 8) && wire::i64_at(s, pos) == 0 && wire::can_read(
                    s,
                    pos + 8,
                    2,
                )
            }),
            r matches Ok(v) ==> v == (wire::u16_at(old(self).bytes(), old(self).spec_pos() + 8)
                > 0) && final(self).spec_pos() == old(self).spec_pos() + 10,
            ({
                let s = old(self).bytes();
                let pos = old(self).spec_pos();
                wire::can_read(s, pos, 8) && wire::i64_at(s, pos) != 0
            }) ==> (r matches Err(e) && e.code is Data),
    {
        let size = match self.cur.read_i64() {
            Ok(v) => v,
            Err(e) => return Err(e),
        };
        if size != 0 {
            return Err(Error::make_data(String::from_str("unexpected value size")));
        }
        match self.cur.read_u16() {
            Ok(v) => Ok(v > 0),
            Err(e) => Err(e),
        }
    }

    /// Parses a `StrProperty` payload: an `i64 size` that is read and
    /// ignored, one terminator byte, then the UEString value.
    pub fn parse_string_property(&mut self) -> (r: Result<String, Error>)
        requires
            old(self).wf(),
        ensures
            final(self).wf(),
            final(self).bytes() == old(self).bytes(),
            final(self).spec_pos() >= old(self).spec_pos(),
            r is Ok <==> ({
                let s = old(self).bytes();
                let pos = old(self).spec_pos();
                wire::can_read(s, pos, 9) && wire::string_at(s, pos + 9) is Some
            }),
            r matches Ok(v) ==> {
                &&& wire::string_at(old(self).bytes(), old(self).spec_pos() + 9) matches Some(
                    (c, p),
                ) && v@ == c && final(self).spec_pos() == p
            },
    {
        let _value_size = match self.cur.read_i64() {
            Ok(v) => v,
            Err(e) => return Err(e),
        };
        let _term = match self.cur.read_u8() {
            Ok(v) => v,
            Err(e) => return Err(e),
        };
        self.parse_string()
    }

    /// Parses a `Int8Property` payload: `i64 size` (must be 1), one
    /// terminator byte, then the value.
    pub fn parse_i8_property(&mut self) -> (r: Result<i8, Error>)
        requires
            old(self).wf(),
        ensures
            final(self).wf(),
            final(self).bytes() == old(self).bytes(),
            final(self).spec_pos() >= old(self).spec_pos(),
            r is Ok <==> ({
                let s = old(self).bytes();
                let pos = old(self).spec_pos();
                wire::can_read(s, pos, 8) && wire::i64_at(s, pos) == 1 && wire::can_read(
                    s,
                    pos + 8,
                    2,
                )
            }),
            r matches Ok(v) ==> ({
                let s = old(self).bytes();
                let pos = old(self).spec_pos();
                v == wire::u8_as_i8(wire::u8_at(s, pos + 9)) && final(self).spec_pos() == pos + 10
            }),
            ({
                let s = old(self).bytes();
                let pos = old(self).spec_pos();
                wire::can_read(s, pos, 8) && wire::i64_at(s, pos) != 1
            }) ==> (r matches Err(e) && e.code is Data),
    {
        match self.parse_scalar_prelude(1) {
            Ok(()) => (),
            Err(e) => return Err(e),
        };
        self.cur.read_i8()
    }

    /// Parses a `Int16Property` payload: `i64 size` (must be 2), one
    /// terminator byte, then the value.
    pub fn parse_i16_property(&mut self) -> (r: Result<i16, Error>)
        requires
            old(self).wf(),
        ensures
            final(self).wf(),
            final(self).bytes() == old(self).bytes(),
            final(self).spec_pos() >= old(self).spec_pos(),
            r is Ok <==> ({
                let s = old(self).bytes();
                let pos = old(self).spec_pos();
                wire::can_read(s, pos, 8) && wire::i64_at(s, pos) == 2 && wire::can_read(
                    s,
                    pos + 8,
                    3,
                )
            }),
            r matches Ok(v) ==> ({
                let s = old(self).bytes();
                let pos = old(self).spec_pos();
                v == wire::u16_as_i16(wire::u16_at(s, pos + 9)) && final(self).spec_pos() == pos + 11
            }),
            ({
                let s = old(self).bytes();
                let pos = old(self).spec_pos();
                wire::can_read(s, pos, 8) && wire::i64_at(s, pos) != 2
            }) ==> (r matches Err(e) && e.code is Data),
    {
        match self.parse_scalar_prelude(2) {
            Ok(()) => (),
            Err(e) => return Err(e),
        };
        self.cur.read_i16()
    }

    /// Parses a `UInt16Property` payload: `i64 size` (must be 2), one
    /// terminator byte, then the value.
    pub fn parse_u16_property(&mut self) -> (r: Result<u16, Error>)
        requires
            old(self).wf(),
        ensures
            final(self).wf(),
            final(self).bytes() == old(self).bytes(),
            final(self).spec_pos() >= old(self).spec_pos(),
            r is Ok <==> ({
                let s = old(self).bytes();
                let pos = old(self).spec_pos();
                wire::can_read(s, pos, 8) && wire::i64_at(s, pos) == 2 && wire::can_read(
                    s,
                    pos + 8,
                    3,
                )
            }),
            r matches Ok(v) ==> ({
                let s = old(self).bytes();
                let pos = old(self).spec_pos();
                v == wire::u16_at(s, pos + 9) && final(self).spec_pos() == pos + 11
            }),
            ({
                let s = old(self).bytes();
                let pos = old(self).spec_pos();
                wire::can_read(s, pos, 8) && wire::i64_at(s, pos) != 2
            }) ==> (r matches Err(e) && e.code is Data),
    {
        match self.parse_scalar_prelude(2) {
            Ok(()) => (),
            Err(e) => return Err(e),
        };
        self.cur.read_u16()
    }

    /// Parses a `IntProperty` payload: `i64 size` (must be 4), one
    /// terminator byte, then the value.
    pub fn parse_i32_property(&mut self) -> (r: Result<i32, Error>)
        requires
            old(self).wf(),
        ensures
            final(self).wf(),
            final(self).bytes() == old(self).bytes(),
            final(self).spec_pos() >= old(self).spec_pos(),
            r is Ok <==> ({
                let s = old(self).bytes();
                let pos = old(self).spec_pos();
                wire::can_read(s, pos, 8) && wire::i64_at(s, pos) == 4 && wire::can_read(
                    s,
                    pos + 8,
                    5,
                )
            }),
            r matches Ok(v) ==> ({
                let s = old(self).bytes();
                let pos = old(self).spec_pos();
                v == wire::i32_at(s, pos + 9) && final(self).spec_pos() == pos + 13
            }),
            ({
                let s = old(self).bytes();
                let pos = old(self).spec_pos();
                wire::can_read(s, pos, 8) && wire::i64_at(s, pos) != 4
            }) ==> (r matches Err(e) && e.code is Data),
    {
        match self.parse_scalar_prelude(4) {
            Ok(()) => (),
            Err(e) => return Err(e),
        };
        self.cur.read_i32()
    }

    /// Parses a `UInt32Property` payload: `i64 size` (must be 4), one
    /// terminator byte, then the value.
    pub fn parse_u32_property(&mut self) -> (r: Result<u32, Error>)
        requires
            old(self).wf(),
        ensures
            final(self).wf(),
            final(self).bytes() == old(self).bytes(),
            final(self).spec_pos() >= old(self).spec_pos(),
            r is Ok <==> ({
                let s = old(self).bytes();
                let pos = old(self).spec_pos();
                wire::can_read(s, pos, 8) && wire::i64_at(s, pos) == 4 && wire::can_read(
                    s,
                    pos + 8,
                    5,
                )
            }),
            r matches Ok(v) ==> ({
                let s = old(self).bytes();
                let pos = old(self).spec_pos();
                v == wire::u32_at(s, pos + 9) && final(self).spec_pos() == pos + 13
            }),
            ({
                let s = old(self).bytes();
                let pos = old(self).spec_pos();
                wire::can_read(s, pos, 8) && wire::i64_at(s, pos) != 4
            }) ==> (r matches Err(e) && e.code is Data),
    {
        match self.parse_scalar_prelude(4) {
            Ok(()) => (),
            Err(e) => return Err(e),
        };
        self.cur.read_u32()
    }

    /// Parses a `Int64Property` payload: `i64 size` (must be 8), one
    /// terminator byte, then the value.
    pub fn parse_i64_property(&mut self) -> (r: Result<i64, Error>)
        requires
            old(self).wf(),
        ensures
            final(self).wf(),
            final(self).bytes() == old(self).bytes(),
            final(self).spec_pos() >= old(self).spec_pos(),
            r is Ok <==> ({
                let s = old(self).bytes();
                let pos = old(self).spec_pos();
                wire::can_read(s, pos, 8) && wire::i64_at(s, pos) == 8 && wire::can_read(
                    s,
                    pos + 8,
                    9,
                )
            }),
            r matches Ok(v) ==> ({
                let s = old(self).bytes();
                let pos = old(self).spec_pos();
                v == wire::i64_at(s, pos + 9) && final(self).spec_pos() == pos + 17
            }),
            ({
                let s = old(self).bytes();
                let pos = old(self).spec_pos();
                wire::can_read(s, pos, 8) && wire::i64_at(s, pos) != 8
            }) ==> (r matches Err(e) && e.code is Data),
    {
        match self.parse_scalar_prelude(8) {
            Ok(()) => (),
            Err(e) => return Err(e),
        };
        self.cur.read_i64()
    }

    /// Parses a `UInt64Property` payload: `i64 size` (must be 8), one
    /// terminator byte, then the value.
    pub fn parse_u64_property(&mut self) -> (r: Result<u64, Error>)
        requires
            old(self).wf(),
        ensures
            final(self).wf(),
            final(self).bytes() == old(self).bytes(),
            final(self).spec_pos() >= old(self).spec_pos(),
            r is Ok <==> ({
                let s = old(self).bytes();
                let pos = old(self).spec_pos();
                wire::can_read(s, pos, 8) && wire::i64_at(s, pos) == 8 && wire::can_read(
                    s,
                    pos + 8,
                    9,
                )
            }),
            r matches Ok(v) ==> ({
                let s = old(self).bytes();
                let pos = old(self).spec_pos();
                v == wire::u64_at(s, pos + 9) && final(self).spec_pos() == pos + 17
            }),
            ({
                let s = old(self).bytes();
                let pos = old(self).spec_pos();
                wire::can_read(s, pos, 8) && wire::i64_at(s, pos) != 8
            }) ==> (r matches Err(e) && e.code is Data),
    {
        match self.parse_scalar_prelude(8) {
            Ok(()) => (),
            Err(e) => return Err(e),
        };
        self.cur.read_u64()
    }

    /// Parses a `FloatProperty` payload, returning the raw IEEE-754 bits.
    pub fn parse_f32_property(&mut self) -> (r: Result<u32, Error>)
        requires
            old(self).wf(),
        ensures
            final(self).wf(),
            final(self).bytes() == old(self).bytes(),
            final(self).spec_pos() >= old(self).spec_pos(),
            r is Ok <==> ({
                let s = old(self).bytes();
                let pos = old(self).spec_pos();
                wire::can_read(s, pos, 8) && wire::i64_at(s, pos) == 4 && wire::can_read(
                    s,
                    pos + 8,
                    5,
                )
            }),
            r matches Ok(v) ==> ({
                let s = old(self).bytes();
                let pos = old(self).spec_pos();
                v == wire::u32_at(s, pos + 9) && final(self).spec_pos() == pos + 13
            }),
            ({
                let s = old(self).bytes();
                let pos = old(self).spec_pos();
                wire::can_read(s, pos, 8) && wire::i64_at(s, pos) != 4
            }) ==> (r matches Err(e) && e.code is Data),
    {
        match self.parse_scalar_prelude(4) {
            Ok(()) => (),
            Err(e) => return Err(e),
        };
        self.cur.read_u32()
    }

    /// Parses a `DoubleProperty` payload, returning the raw IEEE-754 bits.
    pub fn parse_f64_property(&mut self) -> (r: Result<u64, Error>)
        requires
            old(self).wf(),
        ensures
            final(self).wf(),
            final(self).bytes() == old(self).bytes(),
            final(self).spec_pos() >= old(self).spec_pos(),
            r is Ok <==> ({
                let s = old(self).bytes();
                let pos = old(self).spec_pos();
                wire::can_read(s, pos, 8) && wire::i64_at(s, pos) == 8 && wire::can_read(
                    s,
                    pos + 8,
                    9,
                )
            }),
            r matches Ok(v) ==> ({
                let s = old(self).bytes();
                let pos = old(self).spec_pos();
                v == wire::u64_at(s, pos + 9) && final(self).spec_pos() == pos + 17
            }),
            ({
                let s = old(self).bytes();
                let pos = old(self).spec_pos();
                wire::can_read(s, pos, 8) && wire::i64_at(s, pos) != 8
            }) ==> (r matches Err(e) && e.code is Data),
    {
        match self.parse_scalar_prelude(8) {
            Ok(()) => (),
            Err(e) => return Err(e),
        };
        self.cur.read_u64()
    }

    /// Parses the payload of one property whose type tag is `tag`, starting
    /// at its `i64 value_size` field.
    pub fn parse_value(&mut self, tag: &String) -> (r: Result<GvasValue, Error>)
        requires
            old(self).wf(),
        ensures
            final(self).wf(),
            final(self).bytes() == old(self).bytes(),
            final(self).spec_pos() >= old(self).spec_pos(),
            r is Ok <==> wire::value_at(old(self).bytes(), old(self).spec_pos(), tag@) is Some,
            r matches Ok(v) ==> {
                &&& wire::value_at(old(self).bytes(), old(self).spec_pos(), tag@) matches Some(
                    (m, p),
                ) && v.model() == m && final(self).spec_pos() == p
            },
            !wire::known_tag(tag@) ==> (r matches Err(e) && e.code matches
                crate::error::ErrorCode::Data(msg) && msg@ == "unknown property type "@ + tag@),
            ({
                let s = old(self).bytes();
                let pos = old(self).spec_pos();
                wire::expected_size(tag@) matches Some(w) && wire::can_read(s, pos, 8)
                    && wire::i64_at(s, pos) != w
            }) ==> (r matches Err(e) && e.code is Data),
        decreases old(self).bytes().len() - old(self).spec_pos(), 2int, 0int,
    {
        let ghost s = old(self).bytes();
        let ghost pos0 = old(self).spec_pos();
        proof {
            wire::lemma_tag_distinct();
        }
        if is_tag(tag, "StructProperty") {
            let _value_size = match self.cur.read_i64() {
                Ok(v) => v,
                Err(e) => return Err(e),
            };
            let stype = match self.parse_string() {
                Ok(v) => v,
                Err(e) => return Err(e),
            };
            let _guid = match self.parse_guid() {
                Ok(v) => v,
                Err(e) => return Err(e),
            };
            let _term = match self.cur.read_u8() {
                Ok(v) => v,
                Err(e) => return Err(e),
            };
            if is_tag(&stype, "DateTime") {
                match self.cur.read_u64() {
                    Ok(v) => Ok(GvasValue::DateTime(v)),
                    Err(e) => Err(e),
                }
            } else {
                match self.parse_properties() {
                    Ok(es) => Ok(GvasValue::Struct(es)),
                    Err(e) => Err(e),
                }
            }
        } else if is_tag(tag, "ArrayProperty") {
            let _value_size = match self.cur.read_i64() {
                Ok(v) => v,
                Err(e) => return Err(e),
            };
            let etype = match self.parse_string() {
                Ok(v) => v,
                Err(e) => return Err(e),
            };
            let _term = match self.cur.read_u8() {
                Ok(v) => v,
                Err(e) => return Err(e),
            };
            let count = match self.cur.read_i32() {
                Ok(v) => v,
                Err(e) => return Err(e),
            };
            if count < 0 {
                return Err(Error::make_data(String::from_str("negative array element count")));
            }
            if is_tag(&etype, "StructProperty") {
                let _dup_name = match self.parse_string() {
                    Ok(v) => v,
                    Err(e) => return Err(e),
                };
                let _dup_tag = match self.parse_string() {
                    Ok(v) => v,
                    Err(e) => return Err(e),
                };
                let _dup_size = match self.cur.read_i64() {
                    Ok(v) => v,
                    Err(e) => return Err(e),
                };
                let sname = match self.parse_string() {
                    Ok(v) => v,
                    Err(e) => return Err(e),
                };
                let _guid = match self.parse_guid() {
                    Ok(v) => v,
                    Err(e) => return Err(e),
                };
                let _term2 = match self.cur.read_u8() {
                    Ok(v) => v,
                    Err(e) => return Err(e),
                };
                match self.parse_elements(&etype, &sname, count as usize) {
                    Ok(vs) => Ok(GvasValue::Array(vs)),
                    Err(e) => Err(e),
                }
            } else {
                let sname = String::new();
                match self.parse_elements(&etype, &sname, count as usize) {
                    Ok(vs) => Ok(GvasValue::Array(vs)),
                    Err(e) => Err(e),
                }
            }
        } else if is_tag(tag, "BoolProperty") {
            match self.parse_bool_property() {
                Ok(v) => Ok(GvasValue::Boolean(v)),
                Err(e) => Err(e),
            }
        } else if is_tag(tag, "ByteProperty") {
            match self.parse_u8_property() {
                Ok(v) => Ok(GvasValue::U8(v)),
                Err(e) => Err(e),
            }
        } else if is_tag(tag, "StrProperty") {
            match self.parse_string_property() {
                Ok(v) => Ok(GvasValue::Text(v)),
                Err(e) => Err(e),
            }
        } else if is_tag(tag, "Int8Property") {
            match self.parse_i8_property() {
                Ok(v) => Ok(GvasValue::I8(v)),
                Err(e) => Err(e),
            }
        } else if is_tag(tag, "Int16Property") {
            match self.parse_i16_property() {
                Ok(v) => Ok(GvasValue::I16(v)),
                Err(e) => Err(e),
            }
        } else if is_tag(tag, "UInt16Property") {
            match self.parse_u16_property() {
                Ok(v) => Ok(GvasValue::U16(v)),
                Err(e) => Err(e),
            }
        } else if is_tag(tag, "IntProperty") {
            match self.parse_i32_property() {
                Ok(v) => Ok(GvasValue::I32(v)),
                Err(e) => Err(e),
            }
        } else if is_tag(tag, "UInt32Property") {
            match self.parse_u32_property() {
                Ok(v) => Ok(GvasValue::U32(v)),
                Err(e) => Err(e),
            }
        } else if is_tag(tag, "Int64Property") {
            match self.parse_i64_property() {
                Ok(v) => Ok(GvasValue::I64(v)),
                Err(e) => Err(e),
            }
        } else if is_tag(tag, "UInt64Property") {
            match self.parse_u64_property() {
                Ok(v) => Ok(GvasValue::U64(v)),
                Err(e) => Err(e),
            }
        } else if is_tag(tag, "FloatProperty") {
            match self.parse_f32_property() {
                Ok(v) => Ok(GvasValue::F32Bits(v)),
                Err(e) => Err(e),
            }
        } else if is_tag(tag, "DoubleProperty") {
            match self.parse_f64_property() {
                Ok(v) => Ok(GvasValue::F64Bits(v)),
                Err(e) => Err(e),
            }
        } else {
            let msg = String::from_str("unknown property type ").concat(tag.as_str());
            Err(Error::make_data(msg))
        }
    }

    /// Parses the run of properties at the current position up to and
    /// including the `"None"` sentinel, as [`wire::props_at`] describes.
    #[verifier::loop_isolation(false)]
    pub fn parse_properties(&mut self) -> (r: Result<Vec<(String, GvasValue)>, Error>)
        requires
            old(self).wf(),
        ensures
            final(self).wf(),
            final(self).bytes() == old(self).bytes(),
            final(self).spec_pos() >= old(self).spec_pos(),
            r is Ok <==> wire::props_at(old(self).bytes(), old(self).spec_pos()) is Some,
            r matches Ok(es) ==> {
                &&& wire::props_at(old(self).bytes(), old(self).spec_pos()) matches Some(
                    (items, p),
                ) && entries_model(es@) == items && final(self).spec_pos() == p
            },
        decreases old(self).bytes().len() - old(self).spec_pos(), 3int, 0int,
    {
        let ghost s = old(self).bytes();
        let ghost pos0 = old(self).spec_pos();
        let mut entries: Vec<(String, GvasValue)> = Vec::new();
        loop
            invariant
                self.wf(),
                self.bytes() == s,
                self.spec_pos() >= pos0,
                (match wire::props_at(s, self.spec_pos()) {
                    Some((rest, p)) => wire::props_at(s, pos0) == Some(
                        (entries_model(entries@) + rest, p),
                    ),
                    None => wire::props_at(s, pos0) is None,
                }),
            decreases s.len() - self.spec_pos(),
        {
            let ghost pos_cur = self.spec_pos();
            let name = match self.peek_string() {
                Ok(v) => v,
                Err(e) => return Err(e),
            };
            if is_tag(&name, "None") {
                match self.parse_string() {
                    Ok(_) => (),
                    Err(e) => return Err(e),
                };
                proof {
                    assert(entries_model(entries@) + Seq::<(Seq<char>, crate::value::ValueModel)>::empty()
                        =~= entries_model(entries@));
                }
                return Ok(entries);
            }
            let nm = match self.parse_string() {
                Ok(v) => v,
                Err(e) => return Err(e),
            };
            let tag = match self.parse_string() {
                Ok(v) => v,
                Err(e) => return Err(e),
            };
            let v = match self.parse_value(&tag) {
                Ok(v) => v,
                Err(e) => return Err(e),
            };
            let ghost old_entries = entries@;
            proof {
                lemma_entries_model_push(old_entries, (nm, v));
            }
            entries.push((nm, v));
            proof {
                if let Some((rest2, p2)) = wire::props_at(s, self.spec_pos()) {
                    assert(entries_model(entries@) + rest2 =~= entries_model(old_entries) + (seq![
                        (nm@, v.model())] + rest2));
                }
            }
        }
    }

    /// Parses `count` array elements of element type `etype`; for struct
    /// elements `sname` is the struct type read once from the array header.
    #[verifier::loop_isolation(false)]
    pub fn parse_elements(&mut self, etype: &String, sname: &String, count: usize) -> (r: Result<
        Vec<GvasValue>,
        Error,
    >)
        requires
            old(self).wf(),
        ensures
            final(self).wf(),
            final(self).bytes() == old(self).bytes(),
            final(self).spec_pos() >= old(self).spec_pos(),
            r is Ok <==> wire::elems_at(
                old(self).bytes(),
                old(self).spec_pos(),
                etype@,
                sname@,
                count as int,
            ) is Some,
            r matches Ok(vs) ==> {
                &&& wire::elems_at(
                    old(self).bytes(),
                    old(self).spec_pos(),
                    etype@,
                    sname@,
                    count as int,
                ) matches Some((items, p)) && values_model(vs@) == items && final(self).spec_pos()
                    == p
            },
        decreases old(self).bytes().len() - old(self).spec_pos(), 4int, count as int,
    {
        let ghost s = old(self).bytes();
        let ghost pos0 = old(self).spec_pos();
        let mut vs: Vec<GvasValue> = Vec::new();
        let mut i: usize = 0;
        while i < count
            invariant
                self.wf(),
                self.bytes() == s,
                self.spec_pos() >= pos0,
                i <= count,
                vs@.len() == i,
                (match wire::elems_at(s, self.spec_pos(), etype@, sname@, (count - i) as int) {
                    Some((rest, p)) => wire::elems_at(s, pos0, etype@, sname@, count as int)
                        == Some((values_model(vs@) + rest, p)),
                    None => wire::elems_at(s, pos0, etype@, sname@, count as int) is None,
                }),
            decreases count - i,
        {
            let v = if is_tag(etype, "StructProperty") {
                if is_tag(sname, "DateTime") {
                    match self.cur.read_u64() {
                        Ok(x) => GvasValue::DateTime(x),
                        Err(e) => return Err(e),
                    }
                } else {
                    match self.parse_properties() {
                        Ok(es) => GvasValue::Struct(es),
                        Err(e) => return Err(e),
                    }
                }
            } else {
                match self.parse_bare(etype) {
                    Ok(x) => x,
                    Err(e) => return Err(e),
                }
            };
            let ghost old_vs = vs@;
            proof {
                lemma_values_model_push(old_vs, v);
            }
            vs.push(v);
            i = i + 1;
            proof {
                if let Some((rest2, p2)) = wire::elems_at(
                    s,
                    self.spec_pos(),
                    etype@,
                    sname@,
                    (count - i) as int,
                ) {
                    assert(values_model(vs@) + rest2 =~= values_model(old_vs) + (seq![v.model()]
                        + rest2));
                }
            }
        }
        Ok(vs)
    }

    /// Parses one bare array element: the raw value with no per-element
    /// framing, as [`wire::bare_at`] describes.
    pub fn parse_bare(&mut self, etype: &String) -> (r: Result<GvasValue, Error>)
        requires
            old(self).wf(),
        ensures
            final(self).wf(),
            final(self).bytes() == old(self).bytes(),
            final(self).spec_pos() >= old(self).spec_pos(),
            r is Ok <==> wire::bare_at(old(self).bytes(), old(self).spec_pos(), etype@) is Some,
            r matches Ok(v) ==> {
                &&& wire::bare_at(old(self).bytes(), old(self).spec_pos(), etype@) matches Some(
                    (m, p),
                ) && v.model() == m && final(self).spec_pos() == p
            },
    {
        proof {
            wire::lemma_tag_distinct();
        }
        if is_tag(etype, "StrProperty") {
            match self.parse_string() {
                Ok(v) => Ok(GvasValue::Text(v)),
                Err(e) => Err(e),
            }
        } else if is_tag(etype, "BoolProperty") {
            match self.cur.read_u8() {
                Ok(v) => Ok(GvasValue::Boolean(v == 1)),
                Err(e) => Err(e),
            }
        } else if is_tag(etype, "ByteProperty") {
            match self.cur.read_u8() {
                Ok(v) => Ok(GvasValue::U8(v)),
                Err(e) => Err(e),
            }
        } else if is_tag(etype, "Int8Property") {
            match self.cur.read_i8() {
                Ok(v) => Ok(GvasValue::I8(v)),
                Err(e) => Err(e),
            }
        } else if is_tag(etype, "Int16Property") {
            match self.cur.read_i16() {
                Ok(v) => Ok(GvasValue::I16(v)),
                Err(e) => Err(e),
            }
        } else if is_tag(etype, "UInt16Property") {
            match self.cur.read_u16() {
                Ok(v) => Ok(GvasValue::U16(v)),
                Err(e) => Err(e),
            }
        } else if is_tag(etype, "IntProperty") {
            match self.cur.read_i32() {
                Ok(v) => Ok(GvasValue::I32(v)),
                Err(e) => Err(e),
            }
        } else if is_tag(etype, "UInt32Property") {
            match self.cur.read_u32() {
                Ok(v) => Ok(GvasValue::U32(v)),
                Err(e) => Err(e),
            }
        } else if is_tag(etype, "Int64Property") {
            match self.cur.read_i64() {
                Ok(v) => Ok(GvasValue::I64(v)),
                Err(e) => Err(e),
            }
        } else if is_tag(etype, "UInt64Property") {
            match self.cur.read_u64() {
                Ok(v) => Ok(GvasValue::U64(v)),
                Err(e) => Err(e),
            }
        } else if is_tag(etype, "FloatProperty") {
            match self.cur.read_u32() {
                Ok(v) => Ok(GvasValue::F32Bits(v)),
                Err(e) => Err(e),
            }
        } else if is_tag(etype, "DoubleProperty") {
            match self.cur.read_u64() {
                Ok(v) => Ok(GvasValue::F64Bits(v)),
                Err(e) => Err(e),
            }
        } else {
            let msg = String::from_str("unknown property type ").concat(etype.as_str());
            Err(Error::make_data(msg))
        }
    }
}

/// Decodes a whole body: the properties up to and including the top-level
/// `"None"` sentinel, as a [`GvasValue::Struct`], together with the number
/// of bytes consumed.
pub fn from_bytes(input: &[u8]) -> (r: Result<(GvasValue, usize), Error>)
    ensures
        r is Ok <==> wire::props_at(input@, 0) is Some,
        r matches Ok((v, n)) ==> {
            &&& wire::props_at(input@, 0) matches Some((items, p)) && v.model()
                == crate::value::ValueModel::Struct(items) && n == p
        },
{
    let mut de = Deserializer::from_bytes(input);
    match de.parse_properties() {
        Ok(es) => Ok((GvasValue::Struct(es), de.parsed_length())),
        Err(e) => Err(e),
    }
}

} // verus!
