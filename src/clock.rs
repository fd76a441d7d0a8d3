use chrono::Datelike;
use vstd::prelude::*;

verus! {

pub const NANOS_PER_SECOND: i128 = 1_000_000_000;

/// Nanoseconds in one day.
pub const NANOS_PER_DAY: i128 = 86_400_000_000_000;

/// An instant: whole seconds since the Unix epoch (UTC), plus nanoseconds.
#[derive(Debug, Clone, Copy, PartialEq, Eq, Structural)]
pub struct Timestamp {
    pub secs: i64,
    pub nanos: u32,
}

impl Timestamp {
    /// The instant in nanoseconds since the epoch.
    pub open spec fn instant(self) -> int {
        self.secs * 1_000_000_000 + self.nanos
    }
}

/// A calendar date in local time.
#[derive(Debug, Clone, Copy, PartialEq, Eq, Structural)]
pub struct CivilDate {
    pub year: i32,
    pub month: u32,
    pub day: u32,
}

impl CivilDate {
    pub open spec fn wf(self) -> bool {
        1 <= self.month <= 12 && 1 <= self.day <= 31
    }
}

/// The age threshold, in nanoseconds, for a limit given in days.
pub open spec fn limit_nanos(days: u8) -> int {
    days * 86_400_000_000_000
}

/// A file modified at `modified` is old enough to archive at `now`:
/// its age is strictly greater than the limit.
pub open spec fn spec_qualifies(now: Timestamp, modified: Timestamp, days: u8) -> bool {
    now.instant() - modified.instant() > limit_nanos(days)
}

/// The instant of `t` in nanoseconds since the epoch.
pub fn instant_nanos(t: Timestamp) -> (r: i128)
    ensures
        r == t.instant(),
{
    assert(-9_223_372_036_854_775_808 * 1_000_000_000 <= t.secs * 1_000_000_000
        <= 9_223_372_036_854_775_807 * 1_000_000_000) by (nonlinear_arith)
        requires
            -9_223_372_036_854_775_808 <= t.secs <= 9_223_372_036_854_775_807,
    ;
    t.secs as i128 * NANOS_PER_SECOND + t.nanos as i128
}

/// The length of `days` whole days, in nanoseconds.
pub fn days_to_nanos(days: u8) -> (r: i128)
    ensures
        r == limit_nanos(days),
{
    days as i128 * NANOS_PER_DAY
}

/// Decides whether a file modified at `modified` is older than `days` days
/// at the instant `now`. A file exactly at the limit does not qualify.
pub fn qualifies(now: Timestamp, modified: Timestamp, days: u8) -> (r: bool)
    ensures
        r == spec_qualifies(now, modified, days),
{
    let a = instant_nanos(now);
    let b = instant_nanos(modified);
    let limit = days_to_nanos(days);
    a - b > limit
}

/// A file exactly `days` days old is kept; one a day older is archived.
pub proof fn lemma_threshold_boundary(now: Timestamp, at_limit: Timestamp, older: Timestamp, days: u8)
    requires
        now.instant() - at_limit.instant() == limit_nanos(days),
        now.instant() - older.instant() == limit_nanos(days) + NANOS_PER_DAY,
    ensures
        !spec_qualifies(now, at_limit, days),
        spec_qualifies(now, older, days),
{
}

/// Relies on chrono::Local::now: the current instant, read from the system clock.
/// Nothing is promised of its value.
#[verifier::external_body]
pub(crate) fn local_now() -> (r: Timestamp)
{
    let n = chrono::Local::now();
    Timestamp { secs: n.timestamp(), nanos: n.timestamp_subsec_nanos() }
}

/// Relies on chrono::DateTime::from_timestamp and DateTime::with_timezone(&Local):
/// the calendar date of an instant in the machine's time zone, with a month
/// counted from 1 to 12 and a day of the month from 1 to 31. `None` where chrono
/// cannot represent the instant.
#[verifier::external_body]
pub(crate) fn local_date(t: Timestamp) -> (r: Option<CivilDate>)
    ensures
        r matches Some(d) ==> d.wf(),
{
    match chrono::DateTime::from_timestamp(t.secs, t.nanos) {
        Some(u) => {
            let l = u.with_timezone(&chrono::Local);
            Some(CivilDate { year: l.year(), month: l.month(), day: l.day() })
        },
        None => None,
    }
}

} // verus!
