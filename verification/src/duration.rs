//! Elapsed time as whole seconds and nanoseconds, and its conversion from
//! what a clock reports.

use vstd::prelude::*;

verus! {

pub const NANOS_PER_SECOND: i32 = 1_000_000_000;

pub const SECONDS_PER_MINUTE: i64 = 60;

pub const SECONDS_PER_HOUR: i64 = 3_600;

pub const SECONDS_PER_DAY: i64 = 86_400;

pub const SECONDS_PER_WEEK: i64 = 604_800;

/// Whether the two parts can stand together: the nanoseconds are less than a
/// second in magnitude and do not point the other way than the seconds.
pub open spec fn parts_agree(seconds: int, nanoseconds: int) -> bool {
    &&& -NANOS_PER_SECOND < nanoseconds < NANOS_PER_SECOND
    &&& seconds > 0 ==> nanoseconds >= 0
    &&& seconds < 0 ==> nanoseconds <= 0
}

/// Division that rounds toward zero, as integer division does in compiled
/// code.
pub open spec fn div_toward_zero(a: int, b: int) -> int
    recommends
        b > 0,
{
    if a >= 0 {
        a / b
    } else {
        -((-a) / b)
    }
}

/// A signed span of time. It holds the same two numbers as `time::Duration`
/// and keeps them in the form that type keeps them in.
#[derive(Clone, Copy, Debug, PartialEq, Eq)]
pub struct Duration {
    seconds: i64,
    nanoseconds: i32,
}

impl Duration {
    #[verifier::type_invariant]
    pub closed spec fn well_formed(self) -> bool {
        parts_agree(self.seconds as int, self.nanoseconds as int)
    }

    /// The whole seconds of the span.
    pub closed spec fn secs(self) -> int {
        self.seconds as int
    }

    /// The nanoseconds beyond the whole seconds.
    pub closed spec fn nanos(self) -> int {
        self.nanoseconds as int
    }

    /// The span that holds the given parts.
    pub closed spec fn of_parts(seconds: i64, nanoseconds: i32) -> Duration {
        Duration { seconds, nanoseconds }
    }

    /// A span is the one that its parts make, and only that one.
    pub proof fn lemma_of_parts(self, seconds: i64, nanoseconds: i32)
        ensures
            self == Duration::of_parts(seconds, nanoseconds) <==> self.secs() == seconds
                && self.nanos() == nanoseconds,
    {
    }

    /// The span with the given parts, if they can stand together.
    pub fn from_parts(seconds: i64, nanoseconds: i32) -> (made: Option<Duration>)
        ensures
            made == if parts_agree(seconds as int, nanoseconds as int) {
                Some(Duration::of_parts(seconds, nanoseconds))
            } else {
                None
            },
    {
        if -NANOS_PER_SECOND < nanoseconds && nanoseconds < NANOS_PER_SECOND && (seconds <= 0
            || nanoseconds >= 0) && (seconds >= 0 || nanoseconds <= 0) {
            Some(Duration { seconds, nanoseconds })
        } else {
            None
        }
    }

    pub fn whole_seconds(&self) -> (seconds: i64)
        ensures
            seconds == self.secs(),
    {
        self.seconds
    }

    pub fn subsec_nanoseconds(&self) -> (nanoseconds: i32)
        ensures
            nanoseconds == self.nanos(),
    {
        self.nanoseconds
    }
}

/// Converts what `std::time::Duration::new(secs, nanos)` holds with
/// `time::Duration::try_from`. That conversion fails exactly when the seconds
/// exceed `i64::MAX`; otherwise it keeps both parts as they are.
#[verifier::external_body]
fn convert_elapsed(secs: u64, nanos: u32) -> (converted: Option<Duration>)
    requires
        nanos < NANOS_PER_SECOND,
    ensures
        converted is Some <==> secs <= i64::MAX,
        converted matches Some(d) ==> d.secs() == secs && d.nanos() == nanos,
{
    match time::Duration::try_from(std::time::Duration::new(secs, nanos)) {
        Ok(d) => Some(Duration { seconds: d.whole_seconds(), nanoseconds: d.subsec_nanoseconds() }),
        Err(_) => None,
    }
}

/// `time::Duration::whole_weeks`: the seconds divided by those of a week,
/// rounded toward zero.
#[verifier::external_body]
pub(crate) fn weeks_in(span: &Duration) -> (weeks: i64)
    requires
        span.well_formed(),
    ensures
        weeks == div_toward_zero(span.secs(), SECONDS_PER_WEEK as int),
{
    time::Duration::new(span.seconds, span.nanoseconds).whole_weeks()
}

/// `time::Duration::whole_days`: the seconds divided by those of a day,
/// rounded toward zero.
#[verifier::external_body]
pub(crate) fn days_in(span: &Duration) -> (days: i64)
    requires
        span.well_formed(),
    ensures
        days == div_toward_zero(span.secs(), SECONDS_PER_DAY as int),
{
    time::Duration::new(span.seconds, span.nanoseconds).whole_days()
}

/// `time::Duration::whole_hours`: the seconds divided by those of an hour,
/// rounded toward zero.
#[verifier::external_body]
pub(crate) fn hours_in(span: &Duration) -> (hours: i64)
    requires
        span.well_formed(),
    ensures
        hours == div_toward_zero(span.secs(), SECONDS_PER_HOUR as int),
{
    time::Duration::new(span.seconds, span.nanoseconds).whole_hours()
}

/// `time::Duration::whole_minutes`: the seconds divided by those of a
/// minute, rounded toward zero.
#[verifier::external_body]
pub(crate) fn minutes_in(span: &Duration) -> (minutes: i64)
    requires
        span.well_formed(),
    ensures
        minutes == div_toward_zero(span.secs(), SECONDS_PER_MINUTE as int),
{
    time::Duration::new(span.seconds, span.nanoseconds).whole_minutes()
}

/// `time::Duration::whole_seconds`: the seconds themselves.
#[verifier::external_body]
pub(crate) fn seconds_in(span: &Duration) -> (seconds: i64)
    requires
        span.well_formed(),
    ensures
        seconds == span.secs(),
{
    time::Duration::new(span.seconds, span.nanoseconds).whole_seconds()
}

/// The span for a count of elapsed nanoseconds: its whole seconds and the
/// nanoseconds left over, or nothing where the seconds do not fit the signed
/// range that a span can hold.
pub open spec fn elapsed_span(total: u128) -> Option<Duration> {
    if total / 1_000_000_000 <= i64::MAX {
        Some(Duration::of_parts((total / 1_000_000_000) as i64, (total % 1_000_000_000) as i32))
    } else {
        None
    }
}

/// Turns a count of elapsed nanoseconds into a span.
pub fn age_from_nanos(total: u128) -> (age: Option<Duration>)
    ensures
        age == elapsed_span(total),
{
    let secs: u128 = total / 1_000_000_000;
    let nanos: u128 = total % 1_000_000_000;
    if secs > 0xffff_ffff_ffff_ffff {
        None
    } else {
        convert_elapsed(secs as u64, nanos as u32)
    }
}

/// How long ago, in the largest unit that counts at least one: weeks, days,
/// hours, minutes, else seconds. Between an hour and a day the number shown
/// is that of whole days, so it is zero.
pub open spec fn age_text(seconds: int) -> Seq<char> {
    if seconds >= SECONDS_PER_WEEK {
        crate::text::decimal_text(seconds / (SECONDS_PER_WEEK as int)) + " weeks ago"@
    } else if seconds >= SECONDS_PER_DAY {
        crate::text::decimal_text(seconds / (SECONDS_PER_DAY as int)) + " days ago"@
    } else if seconds >= SECONDS_PER_HOUR {
        crate::text::decimal_text(seconds / (SECONDS_PER_DAY as int)) + " hours ago"@
    } else if seconds >= SECONDS_PER_MINUTE {
        crate::text::decimal_text(seconds / (SECONDS_PER_MINUTE as int)) + " minutes ago"@
    } else {
        crate::text::decimal_text(seconds) + " seconds ago"@
    }
}

} // verus!
