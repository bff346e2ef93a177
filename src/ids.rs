//! Identifiers and the wall clock.

use vstd::prelude::*;
use crate::model::UtcInstant;

verus! {

/// An ASCII lowercase hexadecimal digit.
pub open spec fn is_lower_hex_digit(c: char) -> bool {
    ('0' <= c && c <= '9') || ('a' <= c && c <= 'f')
}

/// The hyphenated textual form of a 128-bit identifier: 8-4-4-4-12 lowercase
/// hexadecimal digits.
pub open spec fn is_hyphenated_uuid(s: Seq<char>) -> bool {
    &&& s.len() == 36
    &&& forall|i: int|
        0 <= i < 36 ==> if i == 8 || i == 13 || i == 18 || i == 23 {
            s[i] == '-'
        } else {
            is_lower_hex_digit(#[trigger] s[i])
        }
}

/// The 128-bit value that uuid's parser reads from `s`, if it accepts it.
pub uninterp spec fn uuid_value_of(s: Seq<char>) -> Option<u128>;

/// Relies on `uuid::Uuid::new_v4` for a fresh random identifier, and on its
/// `Display`, which writes the lowercase hyphenated form.
#[verifier::external_body]
pub(crate) fn new_uuid_text() -> (r: String)
    ensures
        is_hyphenated_uuid(r@),
        uuid_value_of(r@) is Some,
{
    uuid::Uuid::new_v4().to_string()
}

/// Relies on `uuid::Uuid::parse_str`, read back through `Uuid::as_u128`; it
/// accepts the hyphenated form.
#[verifier::external_body]
pub(crate) fn parse_uuid(s: &str) -> (r: Option<u128>)
    ensures
        r == uuid_value_of(s@),
        is_hyphenated_uuid(s@) ==> r is Some,
{
    match uuid::Uuid::parse_str(s) {
        Ok(u) => Some(u.as_u128()),
        Err(_) => None,
    }
}

/// Relies on chrono's `DateTime<Utc>: From<SystemTime>` applied to the system
/// clock (before the epoch too), read as whole seconds since the epoch
/// (`timestamp`) and the nanoseconds past them (`timestamp_subsec_nanos`).
#[verifier::external_body]
pub(crate) fn now_utc() -> (r: UtcInstant) {
    let t = chrono::DateTime::<chrono::Utc>::from(std::time::SystemTime::now());
    UtcInstant { secs: t.timestamp(), nanos: t.timestamp_subsec_nanos() }
}

} // verus!
