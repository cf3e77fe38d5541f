//! Absolute points in time, held as plain numbers, and the calendar
//! operations on them.

use crate::text::text_of;
use std::fmt::Write;
use vstd::prelude::*;

verus! {

/// An absolute point in time together with the offset from UTC under which
/// it is shown.
///
/// `secs` counts non-leap seconds since 1970-01-01T00:00:00Z, `nanos` the
/// nanoseconds within that second (one thousand million or more inside a leap
/// second), and `offset` the seconds that local time is ahead of UTC.
#[derive(Clone, Copy, Debug)]
pub struct Timestamp {
    pub secs: i64,
    pub nanos: u32,
    pub offset: i32,
}

/// What an RFC 3339 date-and-time text denotes, if it is one.
pub uninterp spec fn rfc3339_reading(text: Seq<char>) -> Option<Timestamp>;

/// What a date-and-time text without zone denotes under a strftime layout,
/// taken as UTC, if the text follows the layout.
pub uninterp spec fn naive_utc_reading(text: Seq<char>, layout: Seq<char>) -> Option<Timestamp>;

/// The point in time a number of minutes after `t` (before it, if negative),
/// if the calendar can hold both.
pub uninterp spec fn shifted_by_minutes(t: Timestamp, minutes: int) -> Option<Timestamp>;

/// The whole minutes, rounded towards zero, from `earlier` to `later`, if
/// the calendar can hold both.
pub uninterp spec fn whole_minutes_between(later: Timestamp, earlier: Timestamp) -> Option<i64>;

/// The text of `t` under a strftime layout, if the calendar can hold `t`
/// and the layout is valid.
pub uninterp spec fn instant_text(t: Timestamp, layout: Seq<char>) -> Option<Seq<char>>;

/// Calls `chrono::DateTime::parse_from_rfc3339` and takes the result apart
/// into its Unix seconds, its nanoseconds and its offset east of UTC.
/// Trusted: the result is a function of the text alone, named
/// `rfc3339_reading`; a text that chrono rejects gives `None`.
#[verifier::external_body]
pub(crate) fn read_rfc3339(text: &str) -> (res: Option<Timestamp>)
    ensures
        res == rfc3339_reading(text@),
{
    let parsed = chrono::DateTime::parse_from_rfc3339(text).ok()?;
    Some(Timestamp {
        secs: parsed.timestamp(),
        nanos: parsed.timestamp_subsec_nanos(),
        offset: parsed.offset().local_minus_utc(),
    })
}

/// Calls `chrono::NaiveDateTime::parse_from_str` with the given layout and
/// reads the result as a time in UTC. Trusted: the result is a function of
/// text and layout alone, named `naive_utc_reading`; a text that chrono
/// rejects gives `None`.
#[verifier::external_body]
pub(crate) fn read_naive_utc(text: &str, layout: &str) -> (res: Option<Timestamp>)
    ensures
        res == naive_utc_reading(text@, layout@),
{
    let parsed = chrono::NaiveDateTime::parse_from_str(text, layout).ok()?.and_utc();
    Some(Timestamp {
        secs: parsed.timestamp(),
        nanos: parsed.timestamp_subsec_nanos(),
        offset: chrono::Offset::fix(parsed.offset()).local_minus_utc(),
    })
}

/// Calls `chrono::DateTime::checked_add_signed` with
/// `chrono::TimeDelta::try_minutes(minutes)`. Trusted: the result is a
/// function of the arguments alone, named `shifted_by_minutes`; `None` where
/// chrono cannot hold `t`, the span or the sum.
#[verifier::external_body]
pub(crate) fn shift_minutes(t: Timestamp, minutes: i64) -> (res: Option<Timestamp>)
    ensures
        res == shifted_by_minutes(t, minutes as int),
{
    let zone = chrono::FixedOffset::east_opt(t.offset)?;
    let start = chrono::DateTime::from_timestamp(t.secs, t.nanos)?.with_timezone(&zone);
    let moved = start.checked_add_signed(chrono::TimeDelta::try_minutes(minutes)?)?;
    Some(Timestamp {
        secs: moved.timestamp(),
        nanos: moved.timestamp_subsec_nanos(),
        offset: moved.offset().local_minus_utc(),
    })
}

/// Calls `chrono::DateTime::signed_duration_since` and
/// `chrono::TimeDelta::num_minutes` on the result. Trusted: the result is a
/// function of the arguments alone, named `whole_minutes_between`; `None`
/// where chrono cannot hold one of the two times.
#[verifier::external_body]
pub(crate) fn minutes_between(later: Timestamp, earlier: Timestamp) -> (res: Option<i64>)
    ensures
        res == whole_minutes_between(later, earlier),
{
    let a = chrono::DateTime::from_timestamp(later.secs, later.nanos)?;
    let b = chrono::DateTime::from_timestamp(earlier.secs, earlier.nanos)?;
    Some(a.signed_duration_since(b).num_minutes())
}

/// Calls `chrono::DateTime::format` with the given layout and writes the
/// result out. Trusted: the text is a function of the arguments alone, named
/// `instant_text`; `None` where chrono cannot hold `t` or rejects the layout.
#[verifier::external_body]
fn write_instant(t: Timestamp, layout: &str) -> (res: Option<String>)
    ensures
        text_of(res) == instant_text(t, layout@),
{
    let zone = chrono::FixedOffset::east_opt(t.offset)?;
    let shown = chrono::DateTime::from_timestamp(t.secs, t.nanos)?.with_timezone(&zone);
    let mut out = String::new();
    write!(out, "{}", shown.format(layout)).ok()?;
    Some(out)
}

impl Timestamp {
    /// Whether `self` is strictly earlier than `other`, whatever their offsets.
    pub open spec fn precedes(self, other: Timestamp) -> bool {
        self.secs < other.secs || (self.secs == other.secs && self.nanos < other.nanos)
    }

    /// Whether `self` and `other` are the same point in time.
    pub open spec fn coincides(self, other: Timestamp) -> bool {
        self.secs == other.secs && self.nanos == other.nanos
    }

    /// Whether `self` is not later than `other`.
    pub open spec fn not_after(self, other: Timestamp) -> bool {
        self.precedes(other) || self.coincides(other)
    }

    /// Strictly earlier than `other`, by true time.
    pub fn is_before(&self, other: &Timestamp) -> (b: bool)
        ensures
            b == self.precedes(*other),
    {
        self.secs < other.secs || (self.secs == other.secs && self.nanos < other.nanos)
    }

    /// Not later than `other`, by true time.
    pub fn is_not_after(&self, other: &Timestamp) -> (b: bool)
        ensures
            b == self.not_after(*other),
    {
        self.secs < other.secs || (self.secs == other.secs && self.nanos <= other.nanos)
    }

    /// The text of this time under a strftime layout.
    pub fn format(&self, layout: &str) -> (res: Option<String>)
        ensures
            text_of(res) == instant_text(*self, layout@),
    {
        write_instant(*self, layout)
    }
}

} // verus!
