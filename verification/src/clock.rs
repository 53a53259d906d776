//! Points in time, spans between them, and the clock that reads them.

use vstd::prelude::*;

verus! {

pub const NANOS_PER_SECOND: u32 = 1_000_000_000;

/// The first and last whole second that a calendar date can be given to
/// (1 January -262143 and 31 December 262142).
pub const FIRST_SECOND: i64 = -8_334_601_228_800;

pub const LAST_SECOND: i64 = 8_210_266_876_799;

/// The longest span that can be represented, in whole milliseconds, either way.
pub const LONGEST_SPAN_MILLIS: i64 = 9_223_372_036_854_775_807;

/// A point in time: whole seconds since the Unix epoch and the nanoseconds
/// within the second.
#[derive(Clone, Copy, Debug, PartialEq, Eq, Hash, Structural)]
pub struct Timestamp {
    pub seconds: i64,
    pub nanos: u32,
}

/// A span of time: whole seconds, rounded down, and the nanoseconds above them.
#[derive(Clone, Copy, Debug, PartialEq, Eq, Hash, Structural)]
pub struct TimeSpan {
    pub seconds: i64,
    pub nanos: u32,
}

impl Timestamp {
    /// The date is within the calendar's range and the nanoseconds stay below
    /// one second.
    pub open spec fn valid(self) -> bool {
        FIRST_SECOND <= self.seconds <= LAST_SECOND && self.nanos < NANOS_PER_SECOND
    }

    /// Nanoseconds since the Unix epoch.
    pub open spec fn total(self) -> int {
        self.seconds * 1_000_000_000 + self.nanos
    }
}

impl TimeSpan {
    pub open spec fn valid(self) -> bool {
        &&& self.nanos < NANOS_PER_SECOND
        &&& -LONGEST_SPAN_MILLIS * 1_000_000 <= self.total() <= LONGEST_SPAN_MILLIS * 1_000_000
    }

    /// The span in nanoseconds.
    pub open spec fn total(self) -> int {
        self.seconds * 1_000_000_000 + self.nanos
    }
}

/// Whether a number of nanoseconds since the epoch has a calendar date.
pub open spec fn has_date(total: int) -> bool {
    FIRST_SECOND * 1_000_000_000 <= total < (LAST_SECOND + 1) * 1_000_000_000
}

/// `chrono::DateTime::checked_add_signed`, on a point in time and a span handed
/// over by their seconds and nanoseconds: the sum where it has a date, and
/// nothing otherwise.
#[verifier::external_body]
pub(crate) fn add_span(start: Timestamp, span: TimeSpan) -> (r: Option<Timestamp>)
    requires
        start.valid(),
        span.valid(),
    ensures
        r is Some <==> has_date(start.total() + span.total()),
        r matches Some(end) ==> end.valid() && end.total() == start.total() + span.total(),
{
    let from = chrono::DateTime::<chrono::Utc>::from_timestamp(start.seconds, start.nanos)?;
    let by = chrono::TimeDelta::new(span.seconds, span.nanos)?;
    let end = from.checked_add_signed(by)?;
    Some(Timestamp { seconds: end.timestamp(), nanos: end.timestamp_subsec_nanos() })
}

/// `chrono::DateTime::from_timestamp_millis`: the point in time that lies this
/// many milliseconds from the epoch, where it has a date.
#[verifier::external_body]
pub(crate) fn from_millis(millis: i64) -> (r: Option<Timestamp>)
    ensures
        r is Some <==> has_date(millis * 1_000_000),
        r matches Some(at) ==> at.valid() && at.total() == millis * 1_000_000,
{
    let at = chrono::DateTime::<chrono::Utc>::from_timestamp_millis(millis)?;
    Some(Timestamp { seconds: at.timestamp(), nanos: at.timestamp_subsec_nanos() })
}

/// `chrono::Utc::now`. Nothing is claimed of when it is, only that what it
/// returns is a date.
#[verifier::external_body]
fn utc_now() -> (r: Timestamp)
    ensures
        r.valid(),
{
    let now = chrono::Utc::now();
    Timestamp { seconds: now.timestamp(), nanos: now.timestamp_subsec_nanos() }
}

/// The last point in time that has a date.
pub open spec fn last_timestamp() -> Timestamp {
    Timestamp { seconds: LAST_SECOND, nanos: 999_999_999 }
}

/// The point in time at which something issued at `start` runs out.
pub fn expiry(start: Timestamp, ttl: TimeSpan) -> (r: Timestamp)
    requires
        start.valid(),
        ttl.valid(),
        has_date(start.total() + ttl.total()),
    ensures
        r.valid(),
        r.total() == start.total() + ttl.total(),
{
    match add_span(start, ttl) {
        Some(end) => end,
        None => start,
    }
}

/// Whether something issued at `start` has a point in time at which it runs out:
/// what [`expiry`] asks for.
pub fn has_expiry(start: Timestamp, ttl: TimeSpan) -> (r: bool)
    ensures
        r == (start.valid() && ttl.valid() && has_date(start.total() + ttl.total())),
{
    if start.seconds < FIRST_SECOND || start.seconds > LAST_SECOND || start.nanos
        >= NANOS_PER_SECOND || ttl.nanos >= NANOS_PER_SECOND {
        return false;
    }
    let span: i128 = ttl.seconds as i128 * 1_000_000_000 + ttl.nanos as i128;
    let longest: i128 = LONGEST_SPAN_MILLIS as i128 * 1_000_000;
    if span < -longest || span > longest {
        return false;
    }
    add_span(start, ttl).is_some()
}

/// The nearest value to `millis` that fits 64 bits.
pub open spec fn clamped_millis(millis: int) -> int {
    if millis < i64::MIN {
        i64::MIN as int
    } else if millis > i64::MAX {
        i64::MAX as int
    } else {
        millis
    }
}

/// The point in time `millis` after the epoch; the last one with a date where
/// `millis`, brought into 64 bits, has none.
pub fn deadline_from_millis(millis: i128) -> (r: Timestamp)
    ensures
        r.valid(),
        has_date(clamped_millis(millis as int) * 1_000_000) ==> r.total() == clamped_millis(
            millis as int,
        ) * 1_000_000,
        !has_date(clamped_millis(millis as int) * 1_000_000) ==> r == last_timestamp(),
{
    let clamped: i64 = if millis < i64::MIN as i128 {
        i64::MIN
    } else if millis > i64::MAX as i128 {
        i64::MAX
    } else {
        millis as i64
    };
    match from_millis(clamped) {
        Some(at) => at,
        None => Timestamp { seconds: LAST_SECOND, nanos: 999_999_999 },
    }
}

/// Wall-clock abstraction. Decisions take the time at which they are made as an
/// argument; whoever makes them reads it from a clock at that moment, not
/// earlier.
pub trait Clock {
    fn now(&self) -> (r: Timestamp)
        ensures
            r.valid(),
    ;
}

/// Real wall-clock time.
pub struct SystemClock;

impl Clock for SystemClock {
    fn now(&self) -> (r: Timestamp) {
        utc_now()
    }
}

/// What is issued runs out its lifetime later, to the nanosecond.
pub proof fn lifetime_runs_from_the_issue(start: Timestamp, ttl: TimeSpan, r: Timestamp)
    requires
        call_ensures(expiry, (start, ttl), r),
    ensures
        r.seconds * 1_000_000_000 + r.nanos == start.seconds * 1_000_000_000 + start.nanos
            + ttl.seconds * 1_000_000_000 + ttl.nanos,
        r.nanos < 1_000_000_000,
{
}

/// A longer lifetime runs out later, and a later issue too.
pub proof fn later_issue_runs_out_later(
    first_start: Timestamp,
    first_ttl: TimeSpan,
    first: Timestamp,
    second_start: Timestamp,
    second_ttl: TimeSpan,
    second: Timestamp,
)
    requires
        call_ensures(expiry, (first_start, first_ttl), first),
        call_ensures(expiry, (second_start, second_ttl), second),
    ensures
        first_start == second_start && first_ttl.total() < second_ttl.total() ==> first.total()
            < second.total(),
        first_ttl == second_ttl && first_start.total() < second_start.total() ==> first.total()
            < second.total(),
{
}

/// A lifetime has an end exactly where both the start and the span are well formed and
/// their sum is a date between the first and the last.
pub proof fn lifetime_ends_within_the_calendar(start: Timestamp, ttl: TimeSpan, r: bool)
    requires
        call_ensures(has_expiry, (start, ttl), r),
    ensures
        r <==> {
            let span = ttl.seconds * 1_000_000_000 + ttl.nanos;
            let end = start.seconds * 1_000_000_000 + start.nanos + span;
            &&& -8_334_601_228_800 <= start.seconds <= 8_210_266_876_799
            &&& start.nanos < 1_000_000_000
            &&& ttl.nanos < 1_000_000_000
            &&& -9_223_372_036_854_775_807_000_000 <= span <= 9_223_372_036_854_775_807_000_000
            &&& -8_334_601_228_800_000_000_000 <= end < 8_210_266_876_800_000_000_000
        },
{
}

/// A number of milliseconds is the moment that far from the epoch where that has a
/// date, and the last moment with a date otherwise.
pub proof fn deadline_is_the_moment_or_the_last(millis: i128, r: Timestamp)
    requires
        call_ensures(deadline_from_millis, (millis,), r),
    ensures
        r.nanos < 1_000_000_000,
        -8_334_601_228_800_000 <= millis < 8_210_266_876_800_000 ==> r.seconds * 1_000_000_000
            + r.nanos == millis * 1_000_000,
        !(-8_334_601_228_800_000 <= millis < 8_210_266_876_800_000) ==> r.seconds
            == 8_210_266_876_799 && r.nanos == 999_999_999,
{
}

} // verus!
