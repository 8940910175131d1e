//! What this crate takes on trust about `core`: UTF-8 validation, and how a string is shown
//! by `{:?}`.

use vstd::prelude::*;
use vstd::string::StringSliceAdditionalSpecFns;
use vstd::utf8::valid_utf8;

verus! {

/// `core::str::Utf8Error`, carried through as an opaque value.
#[verifier::external_type_specification]
#[verifier::external_body]
pub struct ExUtf8Error(core::str::Utf8Error);

/// `core::str::from_utf8` accepts a slice exactly when it is valid UTF-8, and the string it
/// returns is made of the very bytes that were passed in.
pub assume_specification[ core::str::from_utf8 ](v: &[u8]) -> (text: Result<
    &str,
    core::str::Utf8Error,
>)
    ensures
        text is Ok <==> valid_utf8(v@),
        text matches Ok(s) ==> s.spec_bytes() == v@,
;

/// The text that `{:?}` shows of a string: the string in double quotes, with the characters
/// that cannot stand for themselves there written as escapes.
pub uninterp spec fn spec_debug_str(text: Seq<char>) -> Seq<char>;

/// Shows `text` as `{:?}` does, through `<str as core::fmt::Debug>::fmt`. The contract gives
/// the result its name and claims nothing more about it.
#[verifier::external_body]
pub(crate) fn debug_str(text: &str) -> (shown: String)
    ensures
        shown@ == spec_debug_str(text@),
{
    format!("{:?}", text)
}

} // verus!
