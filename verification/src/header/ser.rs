//! Encoder for the fixed-layout GVAS header, sufficient for round-tripping
//! the prologue.

use vstd::bytes::{u16_to_le_bytes, u32_to_le_bytes};
use vstd::prelude::*;
use vstd::string::{StringExecFns, StringSliceAdditionalSpecFns};

use crate::error::Error;
use crate::types::GvasHeader;
use crate::wire;

verus! {

/// Accumulates the little-endian encoding of header fields.
pub struct Serializer {
    out: Vec<u8>,
}

impl Serializer {
    /// The bytes written so far.
    pub closed spec fn out_bytes(self) -> Seq<u8> {
        self.out@
    }

    /// An empty output.
    pub fn new() -> (r: Serializer)
        ensures
            r.out_bytes() == Seq::<u8>::empty(),
    {
        Serializer { out: Vec::new() }
    }

    /// Hands the accumulated bytes out.
    pub fn into_bytes(self) -> (r: Vec<u8>)
        ensures
            r@ == self.out_bytes(),
    {
        self.out
    }

    /// Appends raw bytes.
    fn write_bytes(&mut self, bytes: &[u8])
        ensures
            final(self).out_bytes() == old(self).out_bytes() + bytes@,
    {
        let n = bytes.len();
        let mut i: usize = 0;
        while i < n
            invariant
                i <= n,
                n == bytes@.len(),
                self.out@ == old(self).out@ + bytes@.subrange(0, i as int),
            decreases n - i,
        {
            let b = *vstd::slice::slice_index_get(bytes, i);
            self.out.push(b);
            i = i + 1;
            proof {
                assert(old(self).out@ + bytes@.subrange(0, i - 1) + seq![bytes@[i - 1]]
                    =~= old(self).out@ + bytes@.subrange(0, i as int));
            }
        }
        proof {
            assert(bytes@.subrange(0, n as int) =~= bytes@);
        }
    }

    /// Writes one byte.
    pub fn serialize_u8(&mut self, x: u8)
        ensures
            final(self).out_bytes() == old(self).out_bytes() + seq![x],
    {
        self.out.push(x);
    }

    /// Writes a `u16` in little-endian order.
    pub fn serialize_u16(&mut self, x: u16)
        ensures
            final(self).out_bytes() == old(self).out_bytes() + wire::u16_le(x),
    {
        let b = u16_to_le_bytes(x);
        self.write_bytes(b.as_slice());
    }

    /// Writes a `u32` in little-endian order.
    pub fn serialize_u32(&mut self, x: u32)
        ensures
            final(self).out_bytes() == old(self).out_bytes() + wire::u32_le(x),
    {
        let b = u32_to_le_bytes(x);
        self.write_bytes(b.as_slice());
    }

    /// Writes an `i32` in little-endian two's-complement order.
    pub fn serialize_i32(&mut self, x: i32)
        ensures
            final(self).out_bytes() == old(self).out_bytes() + wire::i32_le(x),
    {
        self.serialize_u32(i32_to_u32(x));
    }

    /// Writes a UEString: `i32` length counting the terminator, the UTF-8
    /// bytes, one NUL byte.  Fails with `Data` when the length would not
    /// fit the prefix.
    pub fn serialize_str(&mut self, v: &str) -> (r: Result<(), Error>)
        ensures
            r is Ok <==> wire::string_wf(v@),
            r is Ok ==> final(self).out_bytes() == old(self).out_bytes() + wire::string_le(v@),
            r matches Err(e) ==> e.code is Data && final(self).out_bytes() == old(
                self,
            ).out_bytes(),
    {
        let bytes = v.as_bytes();
        if bytes.len() > 0x7FFF_FFFE {
            return Err(
                Error::make_data(String::from_str("string is too long for its length prefix")),
            );
        }
        self.serialize_i32((bytes.len() + 1) as i32);
        self.write_bytes(bytes);
        self.serialize_u8(0);
        proof {
            assert(old(self).out_bytes() + wire::i32_le(((v.spec_bytes().len() + 1) as i32))
                + v.spec_bytes() + seq![0u8] =~= old(self).out_bytes() + wire::string_le(v@));
        }
        Ok(())
    }
}

/// The `u32` with the same byte representation as `x`.
pub fn i32_to_u32(x: i32) -> (r: u32)
    ensures
        r == wire::i32_as_u32(x),
{
    if x >= 0 {
        x as u32
    } else {
        ((x as i64) + 0x1_0000_0000) as u32
    }
}

/// Encodes `h` as the byte prefix a GVAS file would carry, per
/// [`wire::header_le`].  Fails with `Data` exactly when a string or the
/// custom-version count would not fit its `i32` prefix.
pub fn to_vec(h: &GvasHeader) -> (r: Result<Vec<u8>, Error>)
    ensures
        r is Ok <==> wire::header_wf(h@),
        r matches Ok(v) ==> v@ == wire::header_le(h@),
        r matches Err(e) ==> e.code is Data,
{
    let mut ser = Serializer::new();
    ser.serialize_i32(h.file_type_tag);
    ser.serialize_i32(h.save_game_file_version);
    ser.serialize_i32(h.package_file_ue4_version);
    ser.serialize_u16(h.engine_version.major);
    ser.serialize_u16(h.engine_version.minor);
    ser.serialize_u16(h.engine_version.patch);
    ser.serialize_u32(h.engine_version.change_list);
    match ser.serialize_str(h.engine_version.branch.as_str()) {
        Ok(()) => (),
        Err(e) => return Err(e),
    };
    ser.serialize_i32(h.custom_version_format);
    let n = h.custom_versions.len();
    if n > 0x7FFF_FFFF {
        return Err(Error::make_data(String::from_str("too many custom versions")));
    }
    ser.serialize_i32(n as i32);
    let ghost prefix = ser.out_bytes();
    let mut i: usize = 0;
    while i < n
        invariant
            i <= n,
            n == h.custom_versions@.len(),
            ser.out_bytes() == prefix + wire::custom_versions_le(h.custom_versions@.take(i as int)),
        decreases n - i,
    {
        let cv = h.custom_versions[i];
        ser.serialize_u32(cv.key.a);
        ser.serialize_u32(cv.key.b);
        ser.serialize_u32(cv.key.c);
        ser.serialize_u32(cv.key.d);
        ser.serialize_i32(cv.version);
        i = i + 1;
        proof {
            wire::lemma_custom_versions_le_push(
                h.custom_versions@.take(i - 1),
                h.custom_versions@[i - 1],
            );
            assert(h.custom_versions@.take(i - 1).push(h.custom_versions@[i - 1])
                =~= h.custom_versions@.take(i as int));
            assert(ser.out_bytes() =~= prefix + wire::custom_versions_le(
                h.custom_versions@.take(i as int),
            ));
        }
    }
    proof {
        assert(h.custom_versions@.take(n as int) =~= h.custom_versions@);
    }
    match ser.serialize_str(h.save_game_class_name.as_str()) {
        Ok(()) => (),
        Err(e) => return Err(e),
    };
    proof {
        assert(ser.out_bytes() =~= wire::header_le(h@));
    }
    Ok(ser.into_bytes())
}

} // verus!
