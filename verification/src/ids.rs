//! Fresh identifiers and the current time.

use vstd::prelude::*;

verus! {

/// Whether `c` is a hexadecimal digit in lower case.
pub open spec fn is_lower_hex(c: char) -> bool {
    ('0' <= c <= '9') || ('a' <= c <= 'f')
}

/// The shape of an identifier: 36 characters, hyphens at positions 8, 13, 18
/// and 23, lower-case hexadecimal digits elsewhere.
pub open spec fn is_id_text(s: Seq<char>) -> bool {
    &&& s.len() == 36
    &&& forall|i: int|
        0 <= i < 36 ==> if i == 8 || i == 13 || i == 18 || i == 23 {
            #[trigger] s[i] == '-'
        } else {
            is_lower_hex(s[i])
        }
}

/// A fresh random identifier.
///
/// Trusted: `uuid::Uuid::new_v4` followed by `to_string`. Which identifier
/// comes back is left open; only its hyphenated lower-case shape is claimed.
#[verifier::external_body]
pub(crate) fn random_id() -> (r: String)
    ensures
        is_id_text(r@),
{
    uuid::Uuid::new_v4().to_string()
}

/// The current time in seconds since the Unix epoch.
///
/// Trusted: `chrono::Utc::now` followed by `timestamp`. Nothing is claimed
/// of the value.
#[verifier::external_body]
pub(crate) fn unix_now() -> i64 {
    chrono::Utc::now().timestamp()
}

} // verus!
