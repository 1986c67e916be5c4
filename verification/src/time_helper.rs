use std::sync::Arc;
use vstd::prelude::*;
use chrono::TimeZone;

verus! {

/// A point in time in UTC: whole seconds since 1970-01-01 00:00:00 and the
/// nanoseconds past that second (past a billion only inside a leap second).
#[derive(Clone, Copy, Debug, PartialEq, Eq, Structural)]
pub struct Timestamp {
    pub secs: i64,
    pub nanos: u32,
}

/// The first year that chrono's calendar dates accept.
pub open spec fn min_calendar_year() -> int {
    -262143
}

/// The last year that chrono's calendar dates accept.
pub open spec fn max_calendar_year() -> int {
    262142
}

/// Leap years of the proleptic Gregorian calendar.
pub open spec fn is_leap_year(y: int) -> bool {
    (y % 4 == 0 && y % 100 != 0) || y % 400 == 0
}

/// The number of days of month `m` (1 to 12) in year `y`.
pub open spec fn days_in_month(y: int, m: int) -> int {
    if m == 2 {
        if is_leap_year(y) { 29 } else { 28 }
    } else if m == 4 || m == 6 || m == 9 || m == 11 {
        30
    } else {
        31
    }
}

/// A calendar date and a time of day (without leap second) that exist.
pub open spec fn valid_civil(y: int, mo: int, d: int, h: int, mi: int, s: int) -> bool {
    &&& min_calendar_year() <= y <= max_calendar_year()
    &&& 1 <= mo <= 12
    &&& 1 <= d <= days_in_month(y, mo)
    &&& 0 <= h < 24
    &&& 0 <= mi < 60
    &&& 0 <= s < 60
}

/// The number of days from 1970-01-01 to the given date of the proleptic
/// Gregorian calendar (negative before it).
pub open spec fn days_from_civil(y: int, m: int, d: int) -> int {
    let yy = if m <= 2 { y - 1 } else { y };
    let era = yy / 400;
    let yoe = yy - era * 400;
    let mp = if m > 2 { m - 3 } else { m + 9 };
    let doy = (153 * mp + 2) / 5 + d - 1;
    let doe = yoe * 365 + yoe / 4 - yoe / 100 + doy;
    era * 146097 + doe - 719468
}

/// The seconds since 1970-01-01 00:00:00 UTC of a calendar date and time.
pub open spec fn unix_seconds(y: int, mo: int, d: int, h: int, mi: int, s: int) -> int {
    days_from_civil(y, mo, d) * 86400 + h * 3600 + mi * 60 + s
}

/// 1970-01-01 00:00:00 UTC.
pub open spec fn unix_epoch() -> Timestamp {
    Timestamp { secs: 0, nanos: 0 }
}

/// The system clock's time: `std::time::SystemTime::now()` turned into a
/// `chrono::DateTime<Utc>` by chrono's `From<SystemTime>`, read as a `Timestamp`
/// through `DateTime::timestamp` and `DateTime::timestamp_subsec_nanos`. That
/// conversion counts a clock before 1970 in negative seconds instead of failing,
/// and always gives nanoseconds below a billion (`Duration::subsec_nanos`, or a
/// billion minus it before 1970). It reads the system clock, so nothing is stated
/// of the instant. The conversion unwraps chrono's range of about 262,000 years
/// either side of year 0, far beyond the years a system clock can be set to.
#[verifier::external_body]
fn utc_now() -> (t: Timestamp)
    ensures
        t.nanos < 1_000_000_000,
{
    let now = chrono::DateTime::<chrono::Utc>::from(std::time::SystemTime::now());
    Timestamp { secs: now.timestamp(), nanos: now.timestamp_subsec_nanos() }
}

/// `chrono::Utc.with_ymd_and_hms(y, mo, d, h, mi, s)`, read through
/// `MappedLocalTime::single` and as a `Timestamp`. Claimed: the date and time exist
/// (chrono's year range, months 1 to 12, the month's days, hours below 24,
/// minutes and seconds below 60) exactly when a single instant comes back, and that
/// instant is the count of seconds of the proleptic Gregorian calendar since
/// 1970-01-01 00:00:00 with no nanoseconds (UTC has no ambiguous local times).
#[verifier::external_body]
fn utc_with_ymd_and_hms(y: i32, mo: u32, d: u32, h: u32, mi: u32, s: u32) -> (t: Option<Timestamp>)
    ensures
        t is Some <==> valid_civil(y as int, mo as int, d as int, h as int, mi as int, s as int),
        t is Some ==> t->0 == (Timestamp {
            secs: unix_seconds(y as int, mo as int, d as int, h as int, mi as int, s as int) as i64,
            nanos: 0,
        }),
{
    match chrono::Utc.with_ymd_and_hms(y, mo, d, h, mi, s).single() {
        Some(dt) => Some(Timestamp { secs: dt.timestamp(), nanos: dt.timestamp_subsec_nanos() }),
        None => None,
    }
}

/// A source of the current time.
pub trait IntoTimerHelper {
    /// `t` is a reading that this clock can give.
    spec fn can_read(&self, t: Timestamp) -> bool;

    /// The clock's reading: one it can give, with nanoseconds below two billion
    /// (a leap second reads past one billion).
    fn now(&self) -> (t: Timestamp)
        ensures
            self.can_read(t),
            t.nanos < 2_000_000_000,
    ;
}

/// The clocks the service offers: the system clock, or a fixed one for tests.
#[derive(Clone, Copy, Debug, PartialEq, Eq, Structural)]
pub enum TimerHelper {
    Directly,
    Mock,
}

impl TimerHelper {
    /// A shared handle on this clock.
    pub fn creation(&self) -> (res: Arc<TimerHelper>)
        ensures
            *res == *self,
    {
        match self {
            TimerHelper::Directly => Arc::new(TimerHelper::Directly),
            TimerHelper::Mock => Arc::new(TimerHelper::Mock),
        }
    }
}

impl IntoTimerHelper for TimerHelper {
    /// The system clock reads any time with fewer than a billion nanoseconds;
    /// `Mock` reads only the Unix epoch.
    open spec fn can_read(&self, t: Timestamp) -> bool {
        match self {
            TimerHelper::Directly => t.nanos < 1_000_000_000,
            TimerHelper::Mock => t == unix_epoch(),
        }
    }

    /// The system clock's current time, or, for `Mock`, always the Unix epoch.
    fn now(&self) -> (t: Timestamp)
        ensures
            *self == TimerHelper::Mock ==> t == unix_epoch(),
            t.nanos < 1_000_000_000,
    {
        match self {
            TimerHelper::Directly => utc_now(),
            TimerHelper::Mock => {
                proof {
                    lemma_epoch_is_day_zero();
                }
                match utc_with_ymd_and_hms(1970, 1, 1, 0, 0, 0) {
                    Some(t) => t,
                    None => vstd::pervasive::unreached(),
                }
            },
        }
    }
}

impl<T: IntoTimerHelper> IntoTimerHelper for Arc<T> {
    /// A shared clock gives the readings of the clock it shares.
    open spec fn can_read(&self, t: Timestamp) -> bool {
        (**self).can_read(t)
    }

    /// The reading of the shared clock.
    fn now(&self) -> (t: Timestamp)
        ensures
            self.can_read(t),
    {
        (**self).now()
    }
}

/// 1970-01-01 is day zero of the count, so its midnight is second zero.
pub proof fn lemma_epoch_is_day_zero()
    ensures
        days_from_civil(1970, 1, 1) == 0,
        unix_seconds(1970, 1, 1, 0, 0, 0) == 0,
        valid_civil(1970, 1, 1, 0, 0, 0),
{
    assert(1969int / 400 == 4);
    assert(369int / 4 == 92);
    assert(369int / 100 == 3);
    assert((153 * 10 + 2) / 5 == 306int);
}

} // verus!
