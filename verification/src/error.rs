//! The ways in which reading a stream of sections can fail.

use crate::text::{append_decimal, spec_decimal};
use vstd::prelude::*;
use vstd::string::StringExecFns;

verus! {

/// Why a section or a record could not be read. The end of the stream at the boundary between
/// two sections is not among them: that is how a stream is meant to end.
#[derive(Copy, Clone, Debug, Eq, Hash, PartialEq)]
pub enum ReadError {
    /// The stream ended inside a header: at least one byte of it was there, but fewer than a
    /// whole header.
    TruncatedHeader,
    /// The stream ended before a record that the header had announced was complete.
    TruncatedRecord,
    /// A buffer did not have the exact size of the layout it was to be read as.
    LayoutMismatch,
    /// The header does not start with the ASCII letters "ILDA".
    InvalidMagic,
    /// The header's format code, given here, is none of the five that are defined.
    UnknownFormat(u8),
}

impl ReadError {
    /// What [`ReadError::to_string`] says of this error.
    pub open spec fn spec_message(self) -> Seq<char> {
        match self {
            ReadError::TruncatedHeader => "unexpected end of stream inside a `Header`"@,
            ReadError::TruncatedRecord => "unexpected end of stream inside a record"@,
            ReadError::LayoutMismatch => "could not verify the layout"@,
            ReadError::InvalidMagic => "could not verify `Header` due to invalid ILDA ascii"@,
            ReadError::UnknownFormat(code) => "could not verify `Header` due to unknown format "@
                + spec_decimal(code as nat),
        }
    }

    /// The error in words. An unknown format code is named in decimal.
    pub fn to_string(&self) -> (message: String)
        ensures
            message@ == self.spec_message(),
    {
        match self {
            ReadError::TruncatedHeader => String::from_str(
                "unexpected end of stream inside a `Header`",
            ),
            ReadError::TruncatedRecord => String::from_str(
                "unexpected end of stream inside a record",
            ),
            ReadError::LayoutMismatch => String::from_str("could not verify the layout"),
            ReadError::InvalidMagic => String::from_str(
                "could not verify `Header` due to invalid ILDA ascii",
            ),
            ReadError::UnknownFormat(code) => {
                let mut message = String::from_str(
                    "could not verify `Header` due to unknown format ",
                );
                append_decimal(&mut message, *code);
                message
            },
        }
    }
}

} // verus!
