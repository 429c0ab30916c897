//! Points in time as text.

use crate::text::{is_digit, opt};
use vstd::prelude::*;

verus! {

/// The pattern of a time stamp: the date and the time of day without separators.
pub const STAMP: &'static str = "%Y%m%dT%H%M%SZ";

/// The pattern of a date without separators.
pub const DAY: &'static str = "%Y%m%d";

/// The pattern of a date.
pub const DATE: &'static str = "%Y-%m-%d";

/// The last second of the year 9999.
pub const LAST_SECOND: i64 = 253402300799;

/// A point in time, in seconds since 1970, in a notation, as
/// `chrono::DateTime::format` writes it. There is none for times that
/// `chrono::DateTime::from_timestamp` does not cover.
pub uninterp spec fn utc_formatted(secs: i64, pattern: Seq<char>) -> Option<Seq<char>>;

/// Whether a text has the form of [`STAMP`].
pub open spec fn is_stamp(s: Seq<char>) -> bool {
    &&& s.len() == 16
    &&& forall|i: int| 0 <= i < 8 ==> is_digit(#[trigger] s[i])
    &&& s[8] == 'T'
    &&& forall|i: int| 9 <= i < 15 ==> is_digit(#[trigger] s[i])
    &&& s[15] == 'Z'
}

/// `chrono::DateTime::from_timestamp`, then `format` and `to_string`: the text is a
/// function of the seconds and the pattern. From 1970 to 9999 there is one, and a
/// time stamp has eight digits, a `T`, six digits and a `Z`.
#[verifier::external_body]
pub(crate) fn format_utc(secs: i64, pattern: &str) -> (r: Option<String>)
    requires
        pattern@ == STAMP@ || pattern@ == DAY@ || pattern@ == DATE@,
    ensures
        opt(r) == utc_formatted(secs, pattern@),
        0 <= secs <= LAST_SECOND ==> r is Some,
        0 <= secs <= LAST_SECOND && pattern@ == STAMP@ ==> is_stamp(r->0@),
{
    chrono::DateTime::from_timestamp(secs, 0).map(|t| t.format(pattern).to_string())
}

} // verus!
