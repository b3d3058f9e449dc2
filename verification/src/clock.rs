//! The local wall clock, read through `chrono`.
//!
//! What the clock says is not known in advance, so the functions here
//! promise only the shape of what comes back; the rules that build on a
//! reading take it as an argument.

use vstd::prelude::*;

verus! {

/// A decimal digit.
pub open spec fn is_digit(c: char) -> bool {
    48 <= (c as u32) <= 57
}

/// The number that the two digits of `s` at `at` and `at + 1` spell.
pub open spec fn two_digit_value(s: Seq<char>, at: int) -> int {
    ((s[at] as u32) - 48) * 10 + ((s[at + 1] as u32) - 48)
}

/// At `at` and `at + 1`, `s` holds two digits that spell a number from `low`
/// to `high`.
pub open spec fn two_digits(s: Seq<char>, at: int, low: int, high: int) -> bool {
    &&& is_digit(s[at])
    &&& is_digit(s[at + 1])
    &&& low <= two_digit_value(s, at) <= high
}

/// A year as it is written in a stamp: four digits, or a sign and at least
/// four digits.
pub open spec fn is_year_text(y: Seq<char>) -> bool {
    ||| y.len() == 4 && forall|i: int| 0 <= i < y.len() ==> is_digit(#[trigger] y[i])
    ||| {
        &&& y.len() >= 5
        &&& (y[0] == '+' || y[0] == '-')
        &&& forall|i: int| 1 <= i < y.len() ==> is_digit(#[trigger] y[i])
    }
}

/// A point in time written as year, month, day, hour, minute and second in
/// the pattern `%Y-%m-%d_%H-%M-%S`, as in `2024-03-09_17-05-42`.
pub open spec fn is_stamp(s: Seq<char>) -> bool {
    let y = s.len() - 15;
    &&& y >= 4
    &&& is_year_text(s.subrange(0, y))
    &&& s[y] == '-'
    &&& two_digits(s, y + 1, 1, 12)
    &&& s[y + 3] == '-'
    &&& two_digits(s, y + 4, 1, 31)
    &&& s[y + 6] == '_'
    &&& two_digits(s, y + 7, 0, 23)
    &&& s[y + 9] == '-'
    &&& two_digits(s, y + 10, 0, 59)
    &&& s[y + 12] == '-'
    &&& two_digits(s, y + 13, 0, 60)
}

/// A character that a stamp may hold.
pub open spec fn is_stamp_char(c: char) -> bool {
    is_digit(c) || c == '-' || c == '_' || c == '+'
}

/// A stamp holds digits, hyphens, underscores and at most a sign, and
/// nothing else.
pub proof fn lemma_stamp_chars(s: Seq<char>)
    requires
        is_stamp(s),
    ensures
        s.len() >= 19,
        forall|i: int| 0 <= i < s.len() ==> is_stamp_char(#[trigger] s[i]),
{
    let y = s.len() - 15;
    let year = s.subrange(0, y);
    assert forall|i: int| 0 <= i < s.len() implies is_stamp_char(#[trigger] s[i]) by {
        if i < y {
            assert(s[i] == year[i]);
        }
    }
}

/// The pattern of a stamp, as `chrono` takes it.
pub open spec fn stamp_pattern() -> Seq<char> {
    "%Y-%m-%d_%H-%M-%S"@
}

/// The current local time as a stamp.
///
/// Calls `chrono::Local::now()`, `DateTime::format` with `pattern` and
/// `to_string` on the result. Not proved: that with the stamp pattern the
/// text has the shape of [`is_stamp`], which is what `chrono` documents for
/// `%Y`, `%m`, `%d`, `%H`, `%M` and `%S`. Which time it shows is left open.
/// `chrono` panics if the system clock stands before 1970.
#[verifier::external_body]
pub(crate) fn local_time_text(pattern: &str) -> (r: String)
    requires
        pattern@ == stamp_pattern(),
    ensures
        is_stamp(r@),
{
    chrono::Local::now().format(pattern).to_string()
}

/// The current local time in RFC 3339, as in `2024-03-09T17:05:42.123+01:00`.
///
/// Calls `chrono::Local::now()` and `DateTime::to_rfc3339`. Nothing is
/// claimed of the text. `chrono` panics if the system clock stands before
/// 1970.
#[verifier::external_body]
pub(crate) fn local_now_rfc3339() -> String {
    chrono::Local::now().to_rfc3339()
}

/// A moment from the start of 1970 to the end of the year 9999 in UTC,
/// given as seconds and nanoseconds since the start of 1970.
pub open spec fn is_calendar_time(secs: i64, nanos: u32) -> bool {
    0 <= secs < 253_402_300_800 && nanos < 1_000_000_000
}

/// The local time, in RFC 3339, of the moment `secs` seconds and `nanos`
/// nanoseconds after the start of 1970 in UTC, or `None` where `chrono`
/// cannot represent that moment.
///
/// Calls `chrono::DateTime::from_timestamp`, `DateTime::with_timezone` with
/// `chrono::Local`, and `DateTime::to_rfc3339`. Not proved: that a moment
/// up to the year 9999 has a text; `from_timestamp` gives `None` only for
/// days beyond its calendar or nanoseconds that are no fraction of a second.
/// Nothing is claimed of the text itself: it depends on the machine's time
/// zone. `chrono` panics where the machine's time zone data gives no offset
/// for the moment.
#[verifier::external_body]
pub(crate) fn local_rfc3339(secs: i64, nanos: u32) -> (r: Option<String>)
    ensures
        is_calendar_time(secs, nanos) ==> r is Some,
{
    match chrono::DateTime::from_timestamp(secs, nanos) {
        Some(utc) => Some(utc.with_timezone(&chrono::Local).to_rfc3339()),
        None => None,
    }
}

} // verus!
