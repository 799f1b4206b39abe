//! Header decoding and encoding.

pub mod de;
pub mod ser;
