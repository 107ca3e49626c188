//! Instants on the UTC time line, held as plain integers.

use crate::path::text_of;
use vstd::prelude::*;

verus! {

/// An instant in UTC: whole seconds since 1970-01-01 00:00:00 and the
/// nanoseconds into that second.
///
/// Instants are ordered by `secs`, then by `nanos`.
#[derive(Clone, Copy, Debug, PartialEq, Eq, Structural)]
pub struct Timestamp {
    pub secs: i64,
    pub nanos: u32,
}

impl Timestamp {
    /// `self` is the same instant as `other` or an earlier one.
    pub open spec fn at_or_before(self, other: Timestamp) -> bool {
        self.secs < other.secs || (self.secs == other.secs && self.nanos <= other.nanos)
    }

    /// Makes the instant `nanos` nanoseconds into second `secs`.
    pub fn new(secs: i64, nanos: u32) -> (t: Timestamp)
        ensures
            t.secs == secs,
            t.nanos == nanos,
    {
        Timestamp { secs, nanos }
    }

    /// Tells whether `self` is the same instant as `other` or an earlier one.
    pub fn is_at_or_before(&self, other: &Timestamp) -> (r: bool)
        ensures
            r == self.at_or_before(*other),
    {
        self.secs < other.secs || (self.secs == other.secs && self.nanos <= other.nanos)
    }

    /// The text shown for this instant: its calendar rendering, or
    /// `UNPRINTABLE_INSTANT` where the calendar cannot hold it.
    pub open spec fn text(self) -> Seq<char> {
        instant_text(utc_rendering(self.secs as int, self.nanos as int))
    }

    /// Renders the instant as calendar text, such as
    /// `2015-05-15 00:00:00 UTC`.
    pub fn to_text(&self) -> (r: String)
        ensures
            r@ == self.text(),
    {
        shown_instant(render_utc(self.secs, self.nanos))
    }
}

/// Shown in place of an instant that lies outside the calendar.
pub const UNPRINTABLE_INSTANT: &'static str = "(outside the calendar)";

/// The text shown for an instant, given its calendar rendering.
pub open spec fn instant_text(rendering: Option<Seq<char>>) -> Seq<char> {
    match rendering {
        Some(text) => text,
        None => UNPRINTABLE_INSTANT@,
    }
}

/// Picks the text shown for an instant: the calendar rendering where there
/// is one, `UNPRINTABLE_INSTANT` otherwise.
pub fn shown_instant(rendering: Option<String>) -> (r: String)
    ensures
        r@ == instant_text(text_of(rendering)),
{
    match rendering {
        Some(text) => text,
        None => UNPRINTABLE_INSTANT.to_string(),
    }
}

/// The calendar rendering of the instant `nanos` nanoseconds into second
/// `secs`, where the calendar holds that instant.
pub uninterp spec fn utc_rendering(secs: int, nanos: int) -> Option<Seq<char>>;

/// Calls `chrono::DateTime::from_timestamp` and renders the date it gives
/// with `to_string`. There is no date for seconds outside the calendar or
/// nanoseconds that name no instant; the rendering is a function of the two
/// numbers alone.
#[verifier::external_body]
pub(crate) fn render_utc(secs: i64, nanos: u32) -> (r: Option<String>)
    ensures
        text_of(r) == utc_rendering(secs as int, nanos as int),
{
    match chrono::DateTime::from_timestamp(secs, nanos) {
        Some(date) => Some(date.to_string()),
        None => None,
    }
}

/// Reads the system clock and has chrono turn the reading into a UTC date
/// (`DateTime::<Utc>::from` on a `SystemTime`), of which it takes the
/// seconds and nanoseconds. Nothing is promised of the reading: two calls
/// may differ in any way.
#[verifier::external_body]
pub(crate) fn clock() -> (now: Timestamp) {
    let now = chrono::DateTime::<chrono::Utc>::from(std::time::SystemTime::now());
    Timestamp { secs: now.timestamp(), nanos: now.timestamp_subsec_nanos() }
}

/// The order of instants is a total order: any two instants compare, and
/// the comparison is transitive and antisymmetric.
pub proof fn lemma_instants_are_ordered(a: Timestamp, b: Timestamp, c: Timestamp)
    ensures
        a.at_or_before(a),
        a.at_or_before(b) || b.at_or_before(a),
        a.at_or_before(b) && b.at_or_before(c) ==> a.at_or_before(c),
        a.at_or_before(b) && b.at_or_before(a) ==> a == b,
{
}

} // verus!
