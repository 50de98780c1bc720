//! Readings of the machine's clock and fresh identifiers.

use vstd::prelude::*;

verus! {

/// Reads `std::time::SystemTime::now` as nanoseconds since the Unix epoch (zero for a
/// clock set before the epoch, `u64::MAX` past the year 2554). Nothing is stated of the
/// value: it is whatever the machine's clock reads.
#[verifier::external_body]
pub(crate) fn system_now_nanos() -> u64 {
    match std::time::SystemTime::now().duration_since(std::time::UNIX_EPOCH) {
        Ok(d) => u64::try_from(d.as_nanos()).unwrap_or(u64::MAX),
        Err(_) => 0,
    }
}

/// The UTC clock as a signed count of nanoseconds since the Unix epoch, as task and
/// notification timestamps hold it: the system clock's reading, zero for a clock set
/// before the epoch, and `i64::MAX` for a reading past the year 2262 that no `i64`
/// holds.
pub(crate) fn utc_now_nanos() -> (r: i64)
    ensures
        r >= 0,
{
    let n = system_now_nanos();
    if n > 9_223_372_036_854_775_807u64 {
        i64::MAX
    } else {
        n as i64
    }
}

/// Whether a text has the hyphenated form of a UUID: 36 characters, hyphens at
/// positions 8, 13, 18 and 23, lower-case hexadecimal digits everywhere else.
pub open spec fn is_hyphenated_uuid(s: Seq<char>) -> bool {
    &&& s.len() == 36
    &&& forall|i: int| 0 <= i < 36 ==> {
        if i == 8 || i == 13 || i == 18 || i == 23 {
            s[i] == '-'
        } else {
            ('0' <= #[trigger] s[i] && s[i] <= '9') || ('a' <= s[i] && s[i] <= 'f')
        }
    }
}

/// A fresh random identifier from `uuid::Uuid::new_v4`, in its hyphenated text form
/// (`Display` writes the 36-character lower-case hyphenated layout). Which digits it
/// holds is not stated: they are random.
#[verifier::external_body]
pub(crate) fn new_uuid_v4() -> (s: String)
    ensures
        is_hyphenated_uuid(s@),
{
    uuid::Uuid::new_v4().to_string()
}

/// The text that chrono renders for a time given in nanoseconds since the Unix epoch,
/// in the layout `%Y-%m-%d %H:%M:%S UTC`.
pub uninterp spec fn utc_timestamp_text(nanos: i64) -> Seq<char>;

/// Renders a time with `chrono::DateTime::format` in the layout
/// `%Y-%m-%d %H:%M:%S UTC`. The text is named by `utc_timestamp_text`; the calendar
/// arithmetic that chrono performs is not restated here.
#[verifier::external_body]
pub(crate) fn format_utc_timestamp(nanos: i64) -> (s: String)
    ensures
        s@ == utc_timestamp_text(nanos),
{
    chrono::DateTime::from_timestamp_nanos(nanos).format("%Y-%m-%d %H:%M:%S UTC").to_string()
}

} // verus!
