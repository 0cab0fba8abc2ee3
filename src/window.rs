//! Hourly trading windows. Windows start on the hour in US Eastern time,
//! taken as a fixed UTC-5; since that offset is a whole number of hours, a
//! window starts on the hour in UTC too.
use vstd::prelude::*;
use crate::amount::div_mod_floor;
use chrono::Datelike;

verus! {

/// Seconds in one window.
pub const WINDOW_SECS: i64 = 3600;

/// Nanoseconds in one second.
pub const NANOS_PER_SEC: i64 = 1_000_000_000;

/// A point in UTC time: whole seconds since the Unix epoch and the
/// nanoseconds past that second.
#[derive(Clone, Copy, Debug, PartialEq, Eq, Structural)]
pub struct UtcInstant {
    pub secs: i64,
    pub nanos: u32,
}

impl UtcInstant {
    pub open spec fn wf(&self) -> bool {
        self.nanos < NANOS_PER_SEC
    }
}

/// Start of the window holding `secs`.
pub open spec fn window_start(secs: int) -> int {
    secs - secs % (WINDOW_SECS as int)
}

/// Start of the first window that begins at or after the whole second `secs`.
pub open spec fn next_window_start(secs: int) -> int {
    if secs % (WINDOW_SECS as int) == 0 {
        secs
    } else {
        window_start(secs) + WINDOW_SECS
    }
}

/// Nanoseconds to wait from `now` until `advance_secs` seconds before the
/// next window starts; zero when that moment has passed.
pub open spec fn wait_nanos(now: UtcInstant, advance_secs: int) -> int {
    let until = next_window_start(now.secs as int) * NANOS_PER_SEC - (now.secs * NANOS_PER_SEC + now.nanos);
    let until = if until < 0 { 0 } else { until };
    let advance = advance_secs * NANOS_PER_SEC;
    if until > advance { until - advance } else { 0 }
}

/// Seconds in one day.
pub const DAY_SECS: i64 = 86_400;

/// Eastern time's offset from UTC, in seconds (UTC-5).
pub const EASTERN_OFFSET_SECS: i64 = -18_000;

/// Largest magnitude of a timestamp that the calendar is asked about: some
/// 250,000 years, inside the calendar's range.
pub const CALENDAR_LIMIT_SECS: i64 = 8_000_000_000_000;

/// Month (0 for January) and day of the month, in UTC, of the instant `secs`
/// seconds after the Unix epoch.
pub uninterp spec fn utc_month_day(secs: int) -> (int, int);

/// Relies on chrono's `DateTime::from_timestamp`, `month0` and `day`: the UTC
/// month (0 to 11) and day (1 to 31) of the instant.
#[verifier::external_body]
fn utc_calendar(secs: i64) -> (r: (u32, u32))
    requires
        -CALENDAR_LIMIT_SECS <= secs <= CALENDAR_LIMIT_SECS,
    ensures
        (r.0 as int, r.1 as int) == utc_month_day(secs as int),
        r.0 < 12,
        1 <= r.1 <= 31,
{
    let t = chrono::DateTime::from_timestamp(secs, 0).expect("timestamp in range");
    (t.month0(), t.day())
}

/// Hour of the day (0 to 23) in Eastern time of the instant `secs`.
pub open spec fn eastern_hour(secs: int) -> int {
    ((secs + EASTERN_OFFSET_SECS) % (DAY_SECS as int)) / 3600
}

/// The parts of a window's name: Eastern month and day, and the hour on a
/// twelve-hour clock.
#[derive(Clone, Copy, Debug, PartialEq, Eq, Structural)]
pub struct SlugTime {
    pub month0: u32,
    pub day: u32,
    pub hour12: u32,
    pub pm: bool,
}

/// The Eastern date and twelve-hour time of the instant `timestamp`:
/// midnight is 12am, noon 12pm. The Eastern date of an instant is the UTC
/// date of the instant five hours earlier.
pub fn slug_time(timestamp: i64) -> (r: SlugTime)
    requires
        -CALENDAR_LIMIT_SECS - EASTERN_OFFSET_SECS <= timestamp <= CALENDAR_LIMIT_SECS - EASTERN_OFFSET_SECS,
    ensures
        (r.month0 as int, r.day as int) == utc_month_day(timestamp + EASTERN_OFFSET_SECS),
        r.pm == (eastern_hour(timestamp as int) >= 12),
        r.hour12 == (if eastern_hour(timestamp as int) == 0 {
            12
        } else if eastern_hour(timestamp as int) <= 12 {
            eastern_hour(timestamp as int)
        } else {
            eastern_hour(timestamp as int) - 12
        }),
{
    let eastern: i64 = timestamp + EASTERN_OFFSET_SECS;
    let (month0, day) = utc_calendar(eastern);
    let (_days, secs_of_day) = div_mod_floor(eastern, DAY_SECS);
    let hour: u32 = (secs_of_day / 3600) as u32;
    let hour12: u32 = if hour == 0 {
        12
    } else if hour <= 12 {
        hour
    } else {
        hour - 12
    };
    SlugTime { month0, day, hour12, pm: hour >= 12 }
}

/// English name of month `month0` (0 for January), lower case.
pub open spec fn month_name_of(month0: int) -> Seq<char> {
    if month0 == 0 { "january"@ }
    else if month0 == 1 { "february"@ }
    else if month0 == 2 { "march"@ }
    else if month0 == 3 { "april"@ }
    else if month0 == 4 { "may"@ }
    else if month0 == 5 { "june"@ }
    else if month0 == 6 { "july"@ }
    else if month0 == 7 { "august"@ }
    else if month0 == 8 { "september"@ }
    else if month0 == 9 { "october"@ }
    else if month0 == 10 { "november"@ }
    else if month0 == 11 { "december"@ }
    else { "january"@ }
}

/// English name of month `month0`, lower case; January past the end.
pub fn month_name(month0: u32) -> (r: &'static str)
    ensures
        r@ == month_name_of(month0 as int),
{
    if month0 == 0 { "january" }
    else if month0 == 1 { "february" }
    else if month0 == 2 { "march" }
    else if month0 == 3 { "april" }
    else if month0 == 4 { "may" }
    else if month0 == 5 { "june" }
    else if month0 == 6 { "july" }
    else if month0 == 7 { "august" }
    else if month0 == 8 { "september" }
    else if month0 == 9 { "october" }
    else if month0 == 10 { "november" }
    else if month0 == 11 { "december" }
    else { "january" }
}

/// Finds the markets of each window.
pub struct MarketDiscoverer {
    crypto_symbols: Vec<String>,
}

impl MarketDiscoverer {
    pub closed spec fn symbols(&self) -> Seq<String> {
        self.crypto_symbols@
    }

    pub fn new(crypto_symbols: Vec<String>) -> (r: Self)
        ensures
            r.symbols() == crypto_symbols@,
    {
        MarketDiscoverer { crypto_symbols }
    }

    /// The symbols whose markets are looked up.
    pub fn crypto_symbols(&self) -> (r: &Vec<String>)
        ensures
            r@ == self.symbols(),
    {
        &self.crypto_symbols
    }

    /// Start, in Unix seconds, of the window that holds `now`.
    pub fn calculate_current_window_timestamp(now: UtcInstant) -> (r: i64)
        requires
            i64::MIN + WINDOW_SECS <= now.secs,
        ensures
            r == window_start(now.secs as int),
    {
        let (_q, rem) = div_mod_floor(now.secs, WINDOW_SECS);
        now.secs - rem
    }

    /// Start, in Unix seconds, of the next window: `now`'s own when `now` is
    /// on the hour (to the second), the following one otherwise.
    pub fn calculate_next_window_timestamp(now: UtcInstant) -> (r: i64)
        requires
            i64::MIN + WINDOW_SECS <= now.secs <= i64::MAX - WINDOW_SECS,
        ensures
            r == next_window_start(now.secs as int),
    {
        let (_q, rem) = div_mod_floor(now.secs, WINDOW_SECS);
        if rem == 0 {
            now.secs
        } else {
            now.secs - rem + WINDOW_SECS
        }
    }
}

/// Schedules market lookups a little ahead of each window.
pub struct MarketScheduler {
    discoverer: MarketDiscoverer,
    refresh_advance_secs: u64,
}

impl MarketScheduler {
    pub closed spec fn advance(&self) -> int {
        self.refresh_advance_secs as int
    }

    pub fn new(discoverer: MarketDiscoverer, refresh_advance_secs: u64) -> (r: Self)
        ensures
            r.advance() == refresh_advance_secs,
    {
        MarketScheduler { discoverer, refresh_advance_secs }
    }

    pub fn discoverer(&self) -> &MarketDiscoverer {
        &self.discoverer
    }

    /// Nanoseconds to wait from `now` until the configured number of seconds
    /// before the next window starts; zero when that moment has passed.
    pub fn calculate_wait_time(&self, now: UtcInstant) -> (r: u64)
        requires
            now.wf(),
            i64::MIN + WINDOW_SECS <= now.secs <= i64::MAX - WINDOW_SECS,
        ensures
            r == wait_nanos(now, self.advance()),
    {
        let next = MarketDiscoverer::calculate_next_window_timestamp(now);
        proof {
            assert(now.secs <= next <= now.secs + WINDOW_SECS);
        }
        let until: i128 = (next as i128 - now.secs as i128) * NANOS_PER_SEC as i128 - now.nanos as i128;
        proof {
            assert((next - now.secs) * NANOS_PER_SEC <= WINDOW_SECS * NANOS_PER_SEC) by (nonlinear_arith)
                requires 0 <= next - now.secs <= WINDOW_SECS;
            assert((next - now.secs) * NANOS_PER_SEC == next * NANOS_PER_SEC - now.secs * NANOS_PER_SEC) by (nonlinear_arith);
        }
        let until: i128 = if until < 0 { 0 } else { until };
        let advance: i128 = self.refresh_advance_secs as i128 * NANOS_PER_SEC as i128;
        if until > advance {
            (until - advance) as u64
        } else {
            0
        }
    }
}

} // verus!
