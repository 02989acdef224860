//! Points in time and the reading of the server's timestamps.
//!
//! The server writes the moment of a reading event as text, in more than one
//! format. Reading that text is left to `chrono`; what is decided from the
//! readings is decided here.

use crate::text::{first_segment, leading_segment};
use vstd::prelude::*;

verus! {

/// Minutes of silence after which a reading event no longer counts as
/// activity, where the configuration names no timeout.
pub const DEFAULT_ACTIVITY_WINDOW_MINUTES: u64 = 15;

/// Minutes without a resolved session after which a shown status is
/// withdrawn, where the configuration names no timeout. A configured timeout
/// sets both windows; without one this window is twice the activity window.
pub const DEFAULT_CONTACT_WINDOW_MINUTES: u64 = 30;

/// A point in time: whole seconds since the Unix epoch, in UTC, and the
/// nanoseconds after that second.
#[derive(Clone, Copy, Debug, PartialEq, Eq)]
pub struct Timestamp {
    pub secs: i64,
    pub nanos: u32,
}

/// Which reading of an event's text gave its time.
#[derive(Clone, Copy, Debug, PartialEq, Eq)]
pub enum TimeSource {
    /// The text was a date and time with an offset.
    WithOffset,
    /// The text before its first full stop was a date and time without offset,
    /// taken as UTC.
    WithoutOffset,
    /// Neither reading succeeded; the current time stands in, so the event
    /// counts as having just happened.
    Clock,
}

impl Timestamp {
    /// Nanoseconds since the Unix epoch.
    pub open spec fn epoch_nanos(self) -> int {
        self.secs * 1_000_000_000 + self.nanos
    }
}

/// The whole seconds in a span of nanoseconds, rounded toward zero.
pub open spec fn whole_seconds(nanos: int) -> int {
    if nanos >= 0 {
        nanos / 1_000_000_000
    } else {
        -((-nanos) / 1_000_000_000)
    }
}

/// Whole seconds from `earlier` to `later`; negative when `later` is the
/// earlier of the two.
pub open spec fn seconds_between(later: Timestamp, earlier: Timestamp) -> int {
    whole_seconds(later.epoch_nanos() - earlier.epoch_nanos())
}

/// `then` lies strictly less than `window_minutes` minutes before `now`.
pub open spec fn within_window(now: Timestamp, then: Timestamp, window_minutes: u64) -> bool {
    seconds_between(now, then) < window_minutes * 60
}

/// More than `window_minutes` minutes have passed from `then` to `now`.
pub open spec fn window_exceeded(now: Timestamp, then: Timestamp, window_minutes: u64) -> bool {
    seconds_between(now, then) > window_minutes * 60
}

/// What `chrono::DateTime::parse_from_rfc3339` reads from a text: the seconds
/// since the epoch and the nanoseconds of the moment, or `None` where it
/// rejects the text.
pub uninterp spec fn offset_reading(text: Seq<char>) -> Option<(i64, u32)>;

/// What `chrono::NaiveDateTime::parse_from_str` reads from a text under a
/// format, taken as UTC.
pub uninterp spec fn plain_reading(text: Seq<char>, format: Seq<char>) -> Option<(i64, u32)>;

/// The time an event is given, from the two readings of its text.
pub open spec fn chosen_time(
    with_offset: Option<(i64, u32)>,
    without_offset: Option<(i64, u32)>,
    now: Timestamp,
) -> (Timestamp, TimeSource) {
    match with_offset {
        Some(t) => (Timestamp { secs: t.0, nanos: t.1 }, TimeSource::WithOffset),
        None => match without_offset {
            Some(t) => (Timestamp { secs: t.0, nanos: t.1 }, TimeSource::WithoutOffset),
            None => (now, TimeSource::Clock),
        },
    }
}

/// The time of an event whose text is `text`, read at the moment `now`.
pub open spec fn event_time_of(text: Seq<char>, now: Timestamp) -> (Timestamp, TimeSource) {
    chosen_time(
        offset_reading(text),
        plain_reading(leading_segment(text, '.'), "%Y-%m-%dT%H:%M:%S"@),
        now,
    )
}

/// Calls `chrono::DateTime::parse_from_rfc3339` and hands out the moment it
/// read as seconds and nanoseconds since the epoch. The claim is only that the
/// result is a function of the text.
#[verifier::external_body]
fn read_with_offset(text: &str) -> (r: Option<(i64, u32)>)
    ensures
        r == offset_reading(text@),
{
    match chrono::DateTime::parse_from_rfc3339(text) {
        Ok(t) => Some((t.timestamp(), t.timestamp_subsec_nanos())),
        Err(_) => None,
    }
}

/// Calls `chrono::NaiveDateTime::parse_from_str` and hands out the moment it
/// read, taken as UTC, as seconds and nanoseconds since the epoch. The claim
/// is only that the result is a function of the text and the format.
#[verifier::external_body]
fn read_without_offset(text: &str, format: &str) -> (r: Option<(i64, u32)>)
    ensures
        r == plain_reading(text@, format@),
{
    match chrono::NaiveDateTime::parse_from_str(text, format) {
        Ok(t) => Some((t.and_utc().timestamp(), t.and_utc().timestamp_subsec_nanos())),
        Err(_) => None,
    }
}

/// Picks the time of an event from the two readings of its text: the reading
/// with an offset first, then the one without, then the clock.
pub fn choose_event_time(
    with_offset: Option<(i64, u32)>,
    without_offset: Option<(i64, u32)>,
    now: Timestamp,
) -> (r: (Timestamp, TimeSource))
    ensures
        r == chosen_time(with_offset, without_offset, now),
{
    match with_offset {
        Some(t) => (Timestamp { secs: t.0, nanos: t.1 }, TimeSource::WithOffset),
        None => match without_offset {
            Some(t) => (Timestamp { secs: t.0, nanos: t.1 }, TimeSource::WithoutOffset),
            None => (now, TimeSource::Clock),
        },
    }
}

/// Reads the time of an event from its text. A text that no format fits gives
/// the current time, and says so in the source it reports.
pub fn event_time(text: &str, now: Timestamp) -> (r: (Timestamp, TimeSource))
    ensures
        r == event_time_of(text@, now),
{
    let with_offset = read_with_offset(text);
    let head = first_segment(text, '.');
    let without_offset = read_without_offset(head.as_str(), "%Y-%m-%dT%H:%M:%S");
    choose_event_time(with_offset, without_offset, now)
}

/// Whole seconds from `earlier` to `later`, rounded toward zero.
pub fn seconds_since(later: Timestamp, earlier: Timestamp) -> (s: i128)
    ensures
        s == seconds_between(later, earlier),
{
    let a: i128 = (later.secs as i128) * 1_000_000_000 + (later.nanos as i128);
    let b: i128 = (earlier.secs as i128) * 1_000_000_000 + (earlier.nanos as i128);
    let span: i128 = a - b;
    if span >= 0 {
        span / 1_000_000_000
    } else {
        -((-span) / 1_000_000_000)
    }
}

/// Whether `then` lies strictly less than `window_minutes` minutes before `now`.
pub fn is_recent(now: Timestamp, then: Timestamp, window_minutes: u64) -> (recent: bool)
    ensures
        recent == within_window(now, then, window_minutes),
{
    seconds_since(now, then) < (window_minutes as i128) * 60
}

/// Whether more than `window_minutes` minutes have passed from `then` to `now`.
pub fn has_lapsed(now: Timestamp, then: Timestamp, window_minutes: u64) -> (lapsed: bool)
    ensures
        lapsed == window_exceeded(now, then, window_minutes),
{
    seconds_since(now, then) > (window_minutes as i128) * 60
}

} // verus!
