//! A read position over an immutable byte buffer: little-endian integer
//! reads, raw byte reads, position save/restore, and UEString reads.

use vstd::bytes::{u16_from_le_bytes, u32_from_le_bytes, u64_from_le_bytes};
use vstd::prelude::*;
use vstd::slice::{slice_index_get, slice_subrange};
use vstd::string::StringExecFns;

use crate::error::Error;
use crate::text::utf8_to_string;
use crate::wire;

verus! {

/// A cursor over a borrowed byte buffer.  The buffer never changes; only
/// the position moves, and it never passes the end of the buffer.
pub struct Cursor<'a> {
    data: &'a [u8],
    pos: usize,
}

impl<'a> Cursor<'a> {
    /// The underlying bytes.
    pub closed spec fn bytes(self) -> Seq<u8> {
        self.data@
    }

    /// The current read position.
    pub closed spec fn spec_pos(self) -> int {
        self.pos as int
    }

    /// The position never passes the end of the buffer.
    pub open spec fn wf(self) -> bool {
        self.spec_pos() <= self.bytes().len()
    }

    /// A cursor at the start of `data`.
    pub fn new(data: &'a [u8]) -> (r: Cursor<'a>)
        ensures
            r.bytes() == data@,
            r.spec_pos() == 0,
            r.wf(),
    {
        Cursor { data, pos: 0 }
    }

    /// The current position, for later restore.
    pub fn position(&self) -> (r: usize)
        ensures
            r == self.spec_pos(),
    {
        self.pos
    }

    /// Moves the position to `p`.
    pub fn set_position(&mut self, p: usize)
        requires
            p <= old(self).bytes().len(),
        ensures
            final(self).bytes() == old(self).bytes(),
            final(self).spec_pos() == p,
            final(self).wf(),
    {
        self.pos = p;
    }

    /// How many bytes remain.
    pub fn remaining(&self) -> (r: usize)
        requires
            self.wf(),
        ensures
            r == self.bytes().len() - self.spec_pos(),
    {
        self.data.len() - self.pos
    }

    /// Reads one byte.
    pub fn read_u8(&mut self) -> (r: Result<u8, Error>)
        requires
            old(self).wf(),
        ensures
            final(self).wf(),
            final(self).bytes() == old(self).bytes(),
            r is Ok <==> wire::can_read(old(self).bytes(), old(self).spec_pos(), 1),
            r matches Ok(v) ==> v == wire::u8_at(old(self).bytes(), old(self).spec_pos())
                && final(self).spec_pos() == old(self).spec_pos() + 1,
            r matches Err(e) ==> e.code is Io && *final(self) == *old(self),
    {
        if self.data.len() - self.pos >= 1 {
            let v = *slice_index_get(self.data, self.pos);
            self.pos = self.pos + 1;
            Ok(v)
        } else {
            Err(Error::make_read(String::from_str("unexpected end of input")))
        }
    }

    /// Reads a little-endian `u16`.
    pub fn read_u16(&mut self) -> (r: Result<u16, Error>)
        requires
            old(self).wf(),
        ensures
            final(self).wf(),
            final(self).bytes() == old(self).bytes(),
            r is Ok <==> wire::can_read(old(self).bytes(), old(self).spec_pos(), 2),
            r matches Ok(v) ==> v == wire::u16_at(old(self).bytes(), old(self).spec_pos())
                && final(self).spec_pos() == old(self).spec_pos() + 2,
            r matches Err(e) ==> e.code is Io && *final(self) == *old(self),
    {
        if self.data.len() - self.pos >= 2 {
            let v = u16_from_le_bytes(slice_subrange(self.data, self.pos, self.pos + 2));
            self.pos = self.pos + 2;
            Ok(v)
        } else {
            Err(Error::make_read(String::from_str("unexpected end of input")))
        }
    }

    /// Reads a little-endian `u32`.
    pub fn read_u32(&mut self) -> (r: Result<u32, Error>)
        requires
            old(self).wf(),
        ensures
            final(self).wf(),
            final(self).bytes() == old(self).bytes(),
            r is Ok <==> wire::can_read(old(self).bytes(), old(self).spec_pos(), 4),
            r matches Ok(v) ==> v == wire::u32_at(old(self).bytes(), old(self).spec_pos())
                && final(self).spec_pos() == old(self).spec_pos() + 4,
            r matches Err(e) ==> e.code is Io && *final(self) == *old(self),
    {
        if self.data.len() - self.pos >= 4 {
            let v = u32_from_le_bytes(slice_subrange(self.data, self.pos, self.pos + 4));
            self.pos = self.pos + 4;
            Ok(v)
        } else {
            Err(Error::make_read(String::from_str("unexpected end of input")))
        }
    }

    /// Reads a little-endian `u64`.
    pub fn read_u64(&mut self) -> (r: Result<u64, Error>)
        requires
            old(self).wf(),
        ensures
            final(self).wf(),
            final(self).bytes() == old(self).bytes(),
            r is Ok <==> wire::can_read(old(self).bytes(), old(self).spec_pos(), 8),
            r matches Ok(v) ==> v == wire::u64_at(old(self).bytes(), old(self).spec_pos())
                && final(self).spec_pos() == old(self).spec_pos() + 8,
            r matches Err(e) ==> e.code is Io && *final(self) == *old(self),
    {
        if self.data.len() - self.pos >= 8 {
            let v = u64_from_le_bytes(slice_subrange(self.data, self.pos, self.pos + 8));
            self.pos = self.pos + 8;
            Ok(v)
        } else {
            Err(Error::make_read(String::from_str("unexpected end of input")))
        }
    }

    /// Reads a little-endian `i8`.
    pub fn read_i8(&mut self) -> (r: Result<i8, Error>)
        requires
            old(self).wf(),
        ensures
            final(self).wf(),
            final(self).bytes() == old(self).bytes(),
            r is Ok <==> wire::can_read(old(self).bytes(), old(self).spec_pos(), 1),
            r matches Ok(v) ==> v == wire::u8_as_i8(
                wire::u8_at(old(self).bytes(), old(self).spec_pos()),
            ) && final(self).spec_pos() == old(self).spec_pos() + 1,
            r matches Err(e) ==> e.code is Io && *final(self) == *old(self),
    {
        match self.read_u8() {
            Ok(v) => Ok(u8_to_i8(v)),
            Err(e) => Err(e),
        }
    }

    /// Reads a little-endian `i16`.
    pub fn read_i16(&mut self) -> (r: Result<i16, Error>)
        requires
            old(self).wf(),
        ensures
            final(self).wf(),
            final(self).bytes() == old(self).bytes(),
            r is Ok <==> wire::can_read(old(self).bytes(), old(self).spec_pos(), 2),
            r matches Ok(v) ==> v == wire::u16_as_i16(
                wire::u16_at(old(self).bytes(), old(self).spec_pos()),
            ) && final(self).spec_pos() == old(self).spec_pos() + 2,
            r matches Err(e) ==> e.code is Io && *final(self) == *old(self),
    {
        match self.read_u16() {
            Ok(v) => Ok(u16_to_i16(v)),
            Err(e) => Err(e),
        }
    }

    /// Reads a little-endian `i32`.
    pub fn read_i32(&mut self) -> (r: Result<i32, Error>)
        requires
            old(self).wf(),
        ensures
            final(self).wf(),
            final(self).bytes() == old(self).bytes(),
            r is Ok <==> wire::can_read(old(self).bytes(), old(self).spec_pos(), 4),
            r matches Ok(v) ==> v == wire::i32_at(old(self).bytes(), old(self).spec_pos())
                && final(self).spec_pos() == old(self).spec_pos() + 4,
            r matches Err(e) ==> e.code is Io && *final(self) == *old(self),
    {
        match self.read_u32() {
            Ok(v) => Ok(u32_to_i32(v)),
            Err(e) => Err(e),
        }
    }

    /// Reads a little-endian `i64`.
    pub fn read_i64(&mut self) -> (r: Result<i64, Error>)
        requires
            old(self).wf(),
        ensures
            final(self).wf(),
            final(self).bytes() == old(self).bytes(),
            r is Ok <==> wire::can_read(old(self).bytes(), old(self).spec_pos(), 8),
            r matches Ok(v) ==> v == wire::i64_at(old(self).bytes(), old(self).spec_pos())
                && final(self).spec_pos() == old(self).spec_pos() + 8,
            r matches Err(e) ==> e.code is Io && *final(self) == *old(self),
    {
        match self.read_u64() {
            Ok(v) => Ok(u64_to_i64(v)),
            Err(e) => Err(e),
        }
    }

    /// Reads `n` raw bytes, returning a view into the buffer.
    pub fn read_exact(&mut self, n: usize) -> (r: Result<&'a [u8], Error>)
        requires
            old(self).wf(),
        ensures
            final(self).wf(),
            final(self).bytes() == old(self).bytes(),
            r is Ok <==> wire::can_read(old(self).bytes(), old(self).spec_pos(), n as int),
            r matches Ok(v) ==> v@ == old(self).bytes().subrange(
                old(self).spec_pos(),
                old(self).spec_pos() + n,
            ) && final(self).spec_pos() == old(self).spec_pos() + n,
            r matches Err(e) ==> e.code is Io && *final(self) == *old(self),
    {
        if self.data.len() - self.pos >= n {
            let v = slice_subrange(self.data, self.pos, self.pos + n);
            self.pos = self.pos + n;
            Ok(v)
        } else {
            Err(Error::make_read(String::from_str("unexpected end of input")))
        }
    }

    /// Reads a UEString: an `i32` length counting the NUL terminator, that
    /// many bytes, the decoded text omitting the terminator.
    pub fn read_string(&mut self) -> (r: Result<String, Error>)
        requires
            old(self).wf(),
        ensures
            final(self).wf(),
            final(self).bytes() == old(self).bytes(),
            final(self).spec_pos() >= old(self).spec_pos(),
            r is Ok <==> wire::string_at(old(self).bytes(), old(self).spec_pos()) is Some,
            r matches Ok(v) ==> {
                &&& wire::string_at(old(self).bytes(), old(self).spec_pos()) matches Some((c, p))
                    && v@ == c && final(self).spec_pos() == p
            },
            r matches Err(e) ==> ({
                let s = old(self).bytes();
                let pos = old(self).spec_pos();
                &&& !wire::can_read(s, pos, 4) ==> e.code is Io
                &&& wire::can_read(s, pos, 4) && (wire::i32_at(s, pos) < 0 || !wire::can_read(
                    s,
                    pos + 4,
                    wire::i32_at(s, pos) as int,
                )) ==> e.code is Data
                &&& wire::can_read(s, pos, 4) && wire::i32_at(s, pos) > 0 && wire::can_read(
                    s,
                    pos + 4,
                    wire::i32_at(s, pos) as int,
                ) ==> e.code is StringParse
            }),
    {
        let len = match self.read_i32() {
            Ok(v) => v,
            Err(e) => return Err(e),
        };
        if len < 0 {
            return Err(Error::make_data(String::from_str("negative string length")));
        }
        let n = len as usize;
        if n > self.data.len() - self.pos {
            return Err(Error::make_data(String::from_str("string length exceeds buffer")));
        }
        if n == 0 {
            return Ok(String::new());
        }
        let content = slice_subrange(self.data, self.pos, self.pos + (n - 1));
        self.pos = self.pos + n;
        match utf8_to_string(content) {
            Some(s) => Ok(s),
            None => Err(Error::make_string(String::from_str("string bytes are not valid UTF-8"))),
        }
    }

    /// Returns the same value `read_string` would, leaving the position
    /// unchanged on success.
    pub fn peek_string(&mut self) -> (r: Result<String, Error>)
        requires
            old(self).wf(),
        ensures
            final(self).wf(),
            final(self).bytes() == old(self).bytes(),
            final(self).spec_pos() >= old(self).spec_pos(),
            r is Ok <==> wire::string_at(old(self).bytes(), old(self).spec_pos()) is Some,
            r matches Ok(v) ==> {
                &&& wire::string_at(old(self).bytes(), old(self).spec_pos()) matches Some((c, _p))
                    && v@ == c
                &&& final(self).spec_pos() == old(self).spec_pos()
            },
    {
        let saved = self.position();
        let s = match self.read_string() {
            Ok(v) => v,
            Err(e) => return Err(e),
        };
        self.set_position(saved);
        Ok(s)
    }
}

/// The `i8` with the same byte representation as `x`.
pub fn u8_to_i8(x: u8) -> (r: i8)
    ensures
        r == wire::u8_as_i8(x),
{
    if x < 0x80 {
        x as i8
    } else {
        ((x as i16) - 0x100) as i8
    }
}

/// The `i16` with the same bytes as `x`.
pub fn u16_to_i16(x: u16) -> (r: i16)
    ensures
        r == wire::u16_as_i16(x),
{
    if x < 0x8000 {
        x as i16
    } else {
        ((x as i32) - 0x1_0000) as i16
    }
}

/// The `i32` with the same bytes as `x`.
pub fn u32_to_i32(x: u32) -> (r: i32)
    ensures
        r == wire::u32_as_i32(x),
{
    if x < 0x8000_0000 {
        x as i32
    } else {
        ((x as i64) - 0x1_0000_0000) as i32
    }
}

/// The `i64` with the same bytes as `x`.
pub fn u64_to_i64(x: u64) -> (r: i64)
    ensures
        r == wire::u64_as_i64(x),
{
    if x < 0x8000_0000_0000_0000 {
        x as i64
    } else {
        ((x as i128) - 0x1_0000_0000_0000_0000) as i64
    }
}

} // verus!
