//! Reader and partial writer for the GVAS save-file format of Unreal Engine 4
//! games.
//!
//! A GVAS file is a little-endian binary stream: a fixed header with engine
//! and versioning metadata, then a self-describing sequence of tagged
//! properties closed by a `"None"` sentinel.  The byte-level format is
//! modelled by the spec functions in [`wire`]; the decoders and the header
//! encoder are proved against that model.

pub mod body;
pub mod cursor;
pub mod error;
pub mod header;
pub mod text;
pub mod types;
pub mod value;
pub mod wire;
