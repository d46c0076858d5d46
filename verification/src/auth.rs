//! The authentication gate: a request is authorized exactly when some header
//! is named `Authorization` (case-sensitively) and its value equals the
//! configured shared secret, byte for byte — no scheme prefix.

use vstd::prelude::*;
use crate::bytes::bytes_eq;

verus! {

/// The bytes of the header name `Authorization`.
pub open spec fn auth_header_name() -> Seq<u8> {
    seq![0x41u8, 0x75, 0x74, 0x68, 0x6f, 0x72, 0x69, 0x7a, 0x61, 0x74, 0x69, 0x6f, 0x6e]
}

/// A header list, seen as a sequence of (name, value) byte sequences.
pub open spec fn headers_view(h: Seq<(Vec<u8>, Vec<u8>)>) -> Seq<(Seq<u8>, Seq<u8>)> {
    h.map_values(|p: (Vec<u8>, Vec<u8>)| (p.0@, p.1@))
}

/// Whether some header is named `Authorization` and carries exactly `apikey`.
pub open spec fn spec_authorized(headers: Seq<(Seq<u8>, Seq<u8>)>, apikey: Seq<u8>) -> bool {
    exists|i: int|
        0 <= i < headers.len() && headers[i].0 == auth_header_name() && headers[i].1 == apikey
}

/// The bytes of `Authorization`, as a vector.
pub fn auth_header_bytes() -> (r: Vec<u8>)
    ensures
        r@ == auth_header_name(),
{
    let mut v: Vec<u8> = Vec::new();
    v.push(0x41);
    v.push(0x75);
    v.push(0x74);
    v.push(0x68);
    v.push(0x6f);
    v.push(0x72);
    v.push(0x69);
    v.push(0x7a);
    v.push(0x61);
    v.push(0x74);
    v.push(0x69);
    v.push(0x6f);
    v.push(0x6e);
    proof {
        assert(v@ =~= auth_header_name());
    }
    v
}

/// Whether the request's headers authorize it against the configured secret.
pub fn check_auth(headers: &Vec<(Vec<u8>, Vec<u8>)>, apikey: &Vec<u8>) -> (r: bool)
    ensures
        r == spec_authorized(headers_view(headers@), apikey@),
{
    let name = auth_header_bytes();
    let mut i: usize = 0;
    while i < headers.len()
        invariant
            0 <= i <= headers@.len(),
            name@ == auth_header_name(),
            forall|j: int|
                0 <= j < i ==> !(headers_view(headers@)[j].0 == auth_header_name()
                    && headers_view(headers@)[j].1 == apikey@),
        decreases headers@.len() - i,
    {
        let h = &headers[i];
        if bytes_eq(&h.0, &name) && bytes_eq(&h.1, apikey) {
            assert(headers_view(headers@)[i as int].0 == auth_header_name()
                && headers_view(headers@)[i as int].1 == apikey@);
            return true;
        }
        assert(headers_view(headers@)[i as int] == (headers@[i as int].0@, headers@[i as int].1@));
        i = i + 1;
    }
    false
}

} // verus!
