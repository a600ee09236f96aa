//! Fresh identifiers and timestamps for new records.

use vstd::prelude::*;

verus! {

/// Whether `c` is a lowercase hexadecimal digit (`0-9`, `a-f`).
pub open spec fn is_lower_hex(c: char) -> bool {
    ('0' <= c && c <= '9') || ('a' <= c && c <= 'f')
}

/// The shape of a hyphenated, lowercase version-4 UUID string:
/// `xxxxxxxx-xxxx-4xxx-xxxx-xxxxxxxxxxxx`.
pub open spec fn is_uuid_v4_text(s: Seq<char>) -> bool {
    &&& s.len() == 36
    &&& s[8] == '-' && s[13] == '-' && s[18] == '-' && s[23] == '-'
    &&& forall|i: int|
        0 <= i < 36 && i != 8 && i != 13 && i != 18 && i != 23 ==> is_lower_hex(#[trigger] s[i])
    &&& s[14] == '4'
}

/// Calls `uuid::Uuid::new_v4()` and renders it with its `Display` impl.
///
/// Trusted: the value is random, so only its shape is claimed. `Display` for
/// `Uuid` writes the hyphenated lowercase form (36 characters, hyphens at 8, 13,
/// 18 and 23, lowercase hex elsewhere), and `new_v4` sets the version nibble,
/// which lands at position 14, to 4.
#[verifier::external_body]
pub fn new_uuid_v4() -> (id: String)
    ensures
        is_uuid_v4_text(id@),
{
    uuid::Uuid::new_v4().to_string()
}

/// The shape every RFC 3339 text of a UTC time that chrono writes has: at
/// least `YYYY-MM-DDTHH:MM:SS` (19 characters) followed by the offset `+00:00`.
pub open spec fn is_utc_rfc3339_stamp(s: Seq<char>) -> bool {
    s.len() >= 25 && s.subrange(s.len() - 6, s.len() as int) == "+00:00"@
}

/// Calls `chrono::Utc::now().to_rfc3339()`.
///
/// Trusted. The date and time are read from the machine's clock, so only the
/// shape is claimed: `to_rfc3339` writes the date (a year of at least four
/// digits), `T`, the time with seconds, and the offset, which for `Utc` is
/// zero and is written `+00:00` (minutes precision, colon, no `Z`).
#[verifier::external_body]
pub fn now_rfc3339() -> (stamp: String)
    ensures
        is_utc_rfc3339_stamp(stamp@),
{
    chrono::Utc::now().to_rfc3339()
}

} // verus!
