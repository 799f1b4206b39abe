//! Error values reported by the decoders and the header encoder.

use vstd::prelude::*;

verus! {

/// What went wrong, as a tagged sum mirroring the stages of decoding.
#[derive(Debug)]
pub enum ErrorCode {
    /// A read ran past the end of the input buffer.
    Io(String),
    /// Bytes inside a UEString are not valid UTF-8.
    StringParse(String),
    /// Well-formed bytes that violate a format invariant: size mismatches,
    /// unknown property types, negative lengths.
    Data(String),
    /// Anything else.
    Other(String),
}

/// An error of this library; wraps an [`ErrorCode`].
#[derive(Debug)]
pub struct Error {
    pub code: ErrorCode,
}

impl Error {
    /// Wraps a message as an `Other` error.
    pub fn make_other(msg: String) -> (r: Error)
        ensures
            r.code == ErrorCode::Other(msg),
    {
        Error { code: ErrorCode::Other(msg) }
    }

    /// Wraps a message as a `Data` error.
    pub fn make_data(msg: String) -> (r: Error)
        ensures
            r.code == ErrorCode::Data(msg),
    {
        Error { code: ErrorCode::Data(msg) }
    }

    /// Wraps a message as an `Io` error.
    pub fn make_read(msg: String) -> (r: Error)
        ensures
            r.code == ErrorCode::Io(msg),
    {
        Error { code: ErrorCode::Io(msg) }
    }

    /// Wraps a message as a `StringParse` error.
    pub fn make_string(msg: String) -> (r: Error)
        ensures
            r.code == ErrorCode::StringParse(msg),
    {
        Error { code: ErrorCode::StringParse(msg) }
    }

    /// True when the code is `Io`.
    pub fn is_io(&self) -> (r: bool)
        ensures
            r == (self.code is Io),
    {
        match self.code {
            ErrorCode::Io(_) => true,
            _ => false,
        }
    }

    /// True when the code is `StringParse`.
    pub fn is_string_parse(&self) -> (r: bool)
        ensures
            r == (self.code is StringParse),
    {
        match self.code {
            ErrorCode::StringParse(_) => true,
            _ => false,
        }
    }

    /// True when the code is `Data`.
    pub fn is_data(&self) -> (r: bool)
        ensures
            r == (self.code is Data),
    {
        match self.code {
            ErrorCode::Data(_) => true,
            _ => false,
        }
    }

    /// True when the code is `Other`.
    pub fn is_other(&self) -> (r: bool)
        ensures
            r == (self.code is Other),
    {
        match self.code {
            ErrorCode::Other(_) => true,
            _ => false,
        }
    }

    /// The message carried by the code, whichever variant it is.
    pub fn message(&self) -> (r: &String)
        ensures
            self.code matches ErrorCode::Io(m) ==> r == m,
            self.code matches ErrorCode::StringParse(m) ==> r == m,
            self.code matches ErrorCode::Data(m) ==> r == m,
            self.code matches ErrorCode::Other(m) ==> r == m,
    {
        match &self.code {
            ErrorCode::Io(m) => m,
            ErrorCode::StringParse(m) => m,
            ErrorCode::Data(m) => m,
            ErrorCode::Other(m) => m,
        }
    }
}

} // verus!
