//! Decoder for the fixed-layout GVAS header.

use vstd::prelude::*;
use vstd::string::StringExecFns;

use crate::cursor::Cursor;
use crate::error::Error;
use crate::types::{FCustomVersion, FEngineVersion, GvasHeader};
use crate::wire;

verus! {

/// Consumes the fields of a [`GvasHeader`] from the front of a byte buffer
/// and remembers how many bytes it took.
pub struct Deserializer<'a> {
    cur: Cursor<'a>,
}

impl<'a> Deserializer<'a> {
    /// The input bytes.
    pub closed spec fn bytes(self) -> Seq<u8> {
        self.cur.bytes()
    }

    /// The current read position.
    pub closed spec fn spec_pos(self) -> int {
        self.cur.spec_pos()
    }

    /// The position never passes the end of the buffer.
    pub open spec fn wf(self) -> bool {
        self.spec_pos() <= self.bytes().len()
    }

    /// A deserializer at the start of `input`.
    pub fn from_bytes(input: &'a [u8]) -> (r: Deserializer<'a>)
        ensures
            r.bytes() == input@,
            r.spec_pos() == 0,
            r.wf(),
    {
        Deserializer { cur: Cursor::new(input) }
    }

    /// The number of bytes consumed so far; after a successful
    /// [`Self::parse_header`] this is the offset of the first body byte.
    pub fn parsed_length(&self) -> (r: usize)
        ensures
            r == self.spec_pos(),
    {
        self.cur.position()
    }

    /// Decodes the header at the current position, leaving the position on
    /// the first byte after it.
    #[verifier::loop_isolation(false)]
    pub fn parse_header(&mut self) -> (r: Result<GvasHeader, Error>)
        requires
            old(self).wf(),
        ensures
            final(self).wf(),
            final(self).bytes() == old(self).bytes(),
            r is Ok <==> wire::header_at(old(self).bytes(), old(self).spec_pos()) is Some,
            r matches Ok(h) ==> {
                &&& wire::header_at(old(self).bytes(), old(self).spec_pos()) matches Some((m, p))
                    && h@ == m && final(self).spec_pos() == p
            },
    {
        let ghost s = old(self).bytes();
        let ghost pos0 = old(self).spec_pos();
        let file_type_tag = match self.cur.read_i32() {
            Ok(v) => v,
            Err(e) => return Err(e),
        };
        let save_game_file_version = match self.cur.read_i32() {
            Ok(v) => v,
            Err(e) => return Err(e),
        };
        let package_file_ue4_version = match self.cur.read_i32() {
            Ok(v) => v,
            Err(e) => return Err(e),
        };
        let major = match self.cur.read_u16() {
            Ok(v) => v,
            Err(e) => return Err(e),
        };
        let minor = match self.cur.read_u16() {
            Ok(v) => v,
            Err(e) => return Err(e),
        };
        let patch = match self.cur.read_u16() {
            Ok(v) => v,
            Err(e) => return Err(e),
        };
        let change_list = match self.cur.read_u32() {
            Ok(v) => v,
            Err(e) => return Err(e),
        };
        let branch = match self.cur.read_string() {
            Ok(v) => v,
            Err(e) => return Err(e),
        };
        let custom_version_format = match self.cur.read_i32() {
            Ok(v) => v,
            Err(e) => return Err(e),
        };
        let count = match self.cur.read_i32() {
            Ok(v) => v,
            Err(e) => return Err(e),
        };
        if count < 0 {
            return Err(Error::make_data(String::from_str("negative custom version count")));
        }
        let n = count as usize;
        let ghost p_start = self.spec_pos();
        let mut custom_versions: Vec<FCustomVersion> = Vec::new();
        let mut i: usize = 0;
        while i < n
            invariant
                self.wf(),
                self.bytes() == s,
                i <= n,
                custom_versions@.len() == i,
                wire::custom_versions_at(s, p_start, n as int) == (match wire::custom_versions_at(
                    s,
                    self.spec_pos(),
                    n - i,
                ) {
                    Some((rest, p)) => Some((custom_versions@ + rest, p)),
                    None => None::<(Seq<FCustomVersion>, int)>,
                }),
            decreases n - i,
        {
            let ghost pos_cur = self.spec_pos();
            let a = match self.cur.read_u32() {
                Ok(v) => v,
                Err(e) => {
                    proof {
                        assert(wire::custom_versions_at(s, pos_cur, n - i) is None);
                    }
                    return Err(e);
                },
            };
            let b = match self.cur.read_u32() {
                Ok(v) => v,
                Err(e) => {
                    proof {
                        assert(wire::custom_versions_at(s, pos_cur, n - i) is None);
                    }
                    return Err(e);
                },
            };
            let c = match self.cur.read_u32() {
                Ok(v) => v,
                Err(e) => {
                    proof {
                        assert(wire::custom_versions_at(s, pos_cur, n - i) is None);
                    }
                    return Err(e);
                },
            };
            let d = match self.cur.read_u32() {
                Ok(v) => v,
                Err(e) => {
                    proof {
                        assert(wire::custom_versions_at(s, pos_cur, n - i) is None);
                    }
                    return Err(e);
                },
            };
            let version = match self.cur.read_i32() {
                Ok(v) => v,
                Err(e) => {
                    proof {
                        assert(wire::custom_versions_at(s, pos_cur, n - i) is None);
                    }
                    return Err(e);
                },
            };
            let cv = FCustomVersion { key: crate::types::FGuid { a, b, c, d }, version };
            custom_versions.push(cv);
            i = i + 1;
            proof {
                assert(wire::custom_versions_at(s, pos_cur, n - (i - 1)) == (
                match wire::custom_versions_at(s, self.spec_pos(), n - i) {
                    Some((rest, p)) => Some(
                        (seq![cv] + rest, p),
                    ),
                    None => None::<(Seq<FCustomVersion>, int)>,
                }));
                assert forall|rest: Seq<FCustomVersion>|
                    true implies custom_versions@.drop_last() + (seq![cv] + rest)
                    =~= custom_versions@ + rest by {}
            }
        }
        let save_game_class_name = match self.cur.read_string() {
            Ok(v) => v,
            Err(e) => return Err(e),
        };
        let h = GvasHeader {
            file_type_tag,
            save_game_file_version,
            package_file_ue4_version,
            engine_version: FEngineVersion { major, minor, patch, change_list, branch },
            custom_version_format,
            custom_versions,
            save_game_class_name,
        };
        Ok(h)
    }
}

/// Decodes a [`GvasHeader`] from the front of `input`; trailing bytes are
/// left for the body decoder.
pub fn from_bytes(input: &[u8]) -> (r: Result<(GvasHeader, usize), Error>)
    ensures
        r is Ok <==> wire::header_at(input@, 0) is Some,
        r matches Ok((h, n)) ==> {
            &&& wire::header_at(input@, 0) matches Some((m, p)) && h@ == m && n == p
        },
{
    let mut de = Deserializer::from_bytes(input);
    match de.parse_header() {
        Ok(h) => Ok((h, de.parsed_length())),
        Err(e) => Err(e),
    }
}

} // verus!
