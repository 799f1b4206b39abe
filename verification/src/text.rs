//! String helpers: the one trusted bridge from bytes to `String`, and a
//! verified tag comparison.

use vstd::prelude::*;
use vstd::string::StringExecFns;
use vstd::utf8::{decode_utf8, valid_utf8};

verus! {

/// Relies on `std::str::from_utf8`: it returns `Ok` exactly when the bytes
/// are valid UTF-8, and then borrows the same bytes as a string slice.
#[verifier::external_body]
pub fn utf8_to_string(bytes: &[u8]) -> (r: Option<String>)
    ensures
        r is Some <==> valid_utf8(bytes@),
        r matches Some(s) ==> s@ == decode_utf8(bytes@),
{
    match std::str::from_utf8(bytes) {
        Ok(s) => Some(s.to_string()),
        Err(_) => None,
    }
}

/// True when `s` reads as the tag `t`.
pub fn is_tag(s: &String, t: &str) -> (r: bool)
    ensures
        r == (s@ == t@),
{
    let tt = String::from_str(t);
    *s == tt
}

} // verus!
