//! Trusted boundary for UTF-8 decoding. Validity of a byte sequence and the
//! lossy decoding of an arbitrary one are functions of the bytes alone, so
//! each gets a name; everything the rest of the crate proves about decoded
//! text goes through these two names.

use vstd::prelude::*;

verus! {

/// Whether a byte sequence is valid UTF-8, exactly as `std::str::from_utf8`
/// decides it.
pub uninterp spec fn utf8_valid(b: Seq<u8>) -> bool;

/// The bytes of `String::from_utf8_lossy` applied to `b`: `b` itself when it
/// is valid UTF-8, otherwise `b` with each invalid sequence replaced.
pub uninterp spec fn utf8_lossy(b: Seq<u8>) -> Seq<u8>;

/// `b` when it is valid UTF-8, the empty sequence otherwise.
pub open spec fn utf8_or_empty(b: Seq<u8>) -> Seq<u8> {
    if utf8_valid(b) {
        b
    } else {
        Seq::<u8>::empty()
    }
}

/// Relies on std::str::from_utf8, which returns `Ok` exactly when the bytes
/// are valid UTF-8.
#[verifier::external_body]
pub fn bytes_if_utf8(b: Vec<u8>) -> (r: Vec<u8>)
    ensures
        r@ == utf8_or_empty(b@),
{
    if std::str::from_utf8(&b).is_ok() {
        b
    } else {
        Vec::new()
    }
}

/// Relies on String::from_utf8_lossy: a pure function of the bytes that
/// returns them unchanged when they are valid UTF-8 (std documents that the
/// borrowed original is returned in that case).
#[verifier::external_body]
pub fn lossy_utf8(b: Vec<u8>) -> (r: Vec<u8>)
    ensures
        r@ == utf8_lossy(b@),
        utf8_valid(b@) ==> r@ == b@,
{
    String::from_utf8_lossy(&b).into_owned().into_bytes()
}

} // verus!
