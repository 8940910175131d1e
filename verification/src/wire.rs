//! The two byte-level primitives every layout is built from: a length-checked
//! view of a slice as a fixed-size array, and big-endian 16-bit scalars.
//!
//! Both are performed by `zerocopy`; the contracts in this module are the only
//! statements in the crate that are taken on trust from that crate.

use vstd::prelude::*;

verus! {

/// The unsigned value of two bytes in big-endian order.
pub open spec fn spec_be_u16(hi: u8, lo: u8) -> u16 {
    (hi as int * 256 + lo as int) as u16
}

/// The two's-complement value of two bytes in big-endian order.
pub open spec fn spec_be_i16(hi: u8, lo: u8) -> i16 {
    if hi < 128 {
        (hi as int * 256 + lo as int) as i16
    } else {
        (hi as int * 256 + lo as int - 65536) as i16
    }
}

/// Views `bytes` as an array of exactly `N` bytes without copying.
///
/// Calls `zerocopy::LayoutVerified::new` followed by
/// `zerocopy::LayoutVerified::into_ref`, at the target type `[u8; N]`. The
/// contract claims what `new` documents: the view exists exactly when the
/// slice is `N` bytes long (a byte array has alignment one, so the alignment
/// test always passes), and then it shows the very same bytes.
#[verifier::external_body]
pub(crate) fn verify_layout<const N: usize>(bytes: &[u8]) -> (view: Option<&[u8; N]>)
    ensures
        view is Some <==> bytes@.len() == N,
        view matches Some(array) ==> array@ == bytes@,
{
    match zerocopy::LayoutVerified::<&[u8], [u8; N]>::new(bytes) {
        Some(verified) => Some(verified.into_ref()),
        None => None,
    }
}

/// Reads a big-endian `u16`.
///
/// Calls `zerocopy::byteorder::U16::<byteorder::BigEndian>::get` on a value
/// made from `bytes` by `U16::from_bytes`. The contract claims that the first
/// byte is the most significant one.
#[verifier::external_body]
pub(crate) fn be_u16(bytes: [u8; 2]) -> (value: u16)
    ensures
        value == spec_be_u16(bytes[0], bytes[1]),
{
    zerocopy::byteorder::U16::<byteorder::BigEndian>::from_bytes(bytes).get()
}

/// Reads a big-endian `i16`.
///
/// Calls `zerocopy::byteorder::I16::<byteorder::BigEndian>::get` on a value
/// made from `bytes` by `I16::from_bytes`. The contract claims that the first
/// byte is the most significant one and that the sign is two's complement.
#[verifier::external_body]
pub(crate) fn be_i16(bytes: [u8; 2]) -> (value: i16)
    ensures
        value == spec_be_i16(bytes[0], bytes[1]),
{
    zerocopy::byteorder::I16::<byteorder::BigEndian>::from_bytes(bytes).get()
}

} // verus!
