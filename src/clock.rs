use vstd::prelude::*;

use chrono::Datelike;

verus! {

/// An instant in UTC: whole seconds since the Unix epoch and the nanoseconds
/// past that second (a leap second carries 1_000_000_000 or more).
#[derive(Clone, Copy, Debug, PartialEq, Eq, Structural)]
pub struct Timestamp {
    pub secs: i64,
    pub nanos: u32,
}

/// `a` lies strictly after `b`.
pub open spec fn is_after(a: Timestamp, b: Timestamp) -> bool {
    a.secs > b.secs || (a.secs == b.secs && a.nanos > b.nanos)
}

/// Whether `a` lies strictly after `b`.
pub fn later_than(a: Timestamp, b: Timestamp) -> (r: bool)
    ensures
        r == is_after(a, b),
{
    a.secs > b.secs || (a.secs == b.secs && a.nanos > b.nanos)
}

/// The instant that an RFC 3339 date-time text denotes, as seconds since the
/// epoch and nanoseconds past them, or `None` when the text is not one.
pub uninterp spec fn rfc3339_instant(s: Seq<char>) -> Option<(i64, u32)>;

/// The instant denoted by `s`, as a `Timestamp`.
pub open spec fn parsed_instant(s: Seq<char>) -> Option<Timestamp> {
    match rfc3339_instant(s) {
        Some((secs, nanos)) => Some(Timestamp { secs, nanos }),
        None => None,
    }
}

/// Relies on `chrono::DateTime::parse_from_rfc3339`, `timestamp` and
/// `timestamp_subsec_nanos`: the instant that the text denotes, if it is one.
#[verifier::external_body]
pub(crate) fn parse_rfc3339(s: &str) -> (r: Option<Timestamp>)
    ensures
        match rfc3339_instant(s@) {
            Some((secs, nanos)) => r == Some(Timestamp { secs, nanos }),
            None => r is None,
        },
{
    match chrono::DateTime::parse_from_rfc3339(s) {
        Ok(t) => Some(Timestamp { secs: t.timestamp(), nanos: t.timestamp_subsec_nanos() }),
        Err(_) => None,
    }
}

/// Relies on `chrono::Utc::now`: the current instant.
#[verifier::external_body]
pub(crate) fn utc_now() -> (r: Timestamp) {
    let t = chrono::Utc::now();
    Timestamp { secs: t.timestamp(), nanos: t.timestamp_subsec_nanos() }
}

/// Relies on `chrono::Utc::now` with `Datelike::year` and `Datelike::month`:
/// today's year and month in UTC; the month is 1 to 12.
#[verifier::external_body]
pub(crate) fn utc_year_month_now() -> (r: (i32, u32))
    ensures
        1 <= r.1 <= 12,
{
    let t = chrono::Utc::now();
    (t.year(), t.month())
}

} // verus!
