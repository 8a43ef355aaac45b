//! Correlation identifiers for requests.
//!
//! Every request is answered with an identity header. A request that already
//! carries one has its value echoed back unchanged; a request without one is
//! given a freshly minted ULID in its canonical 26-character string form.

use vstd::prelude::*;

verus! {

/// A character of Crockford's base32 alphabet, the alphabet ULID strings are
/// written in: the ten digits and the uppercase letters except I, L, O and U.
pub open spec fn is_crockford_char(c: char) -> bool {
    ('0' <= c && c <= '9') || ('A' <= c && c <= 'Z' && c != 'I' && c != 'L' && c != 'O' && c != 'U')
}

/// A well-formed request identifier: the string form of a ULID, exactly 26
/// characters of Crockford's base32 alphabet.
pub open spec fn is_request_id(s: Seq<char>) -> bool {
    &&& s.len() == 26
    &&& forall|i: int| 0 <= i < s.len() ==> is_crockford_char(s[i])
}

/// Relies on ulid::Ulid::generate and Ulid::to_string: the string form of a
/// ULID is exactly 26 characters, each drawn from Crockford's base32 alphabet
/// "0123456789ABCDEFGHJKMNPQRSTVWXYZ". The value itself depends on the clock
/// and on randomness, so nothing more is promised of it.
#[verifier::external_body]
fn fresh_ulid_string() -> (r: String)
    ensures
        is_request_id(r@),
{
    ulid::Ulid::generate().to_string()
}

/// The identifier the response to a request carries: an inbound identity
/// header is echoed unchanged, and a request without one gets a freshly
/// minted, well-formed ULID string.
pub fn assign_request_id(inbound: Option<String>) -> (r: String)
    ensures
        inbound matches Some(v) ==> r@ == v@,
        inbound is None ==> is_request_id(r@),
{
    match inbound {
        Some(v) => v,
        None => fresh_ulid_string(),
    }
}

} // verus!
