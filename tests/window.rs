use arb_core::window::{month_name, slug_time, MarketDiscoverer, MarketScheduler, SlugTime, UtcInstant};

// 2024-01-16 08:00:00 UTC, 3am in Eastern time
const ON_THE_HOUR: i64 = 1_705_392_000;

#[test]
fn current_window_starts_on_the_hour() {
    let now = UtcInstant { secs: ON_THE_HOUR + 1_234, nanos: 5 };
    assert_eq!(MarketDiscoverer::calculate_current_window_timestamp(now), ON_THE_HOUR);
    let now = UtcInstant { secs: ON_THE_HOUR, nanos: 0 };
    assert_eq!(MarketDiscoverer::calculate_current_window_timestamp(now), ON_THE_HOUR);
}

#[test]
fn next_window_is_this_hour_only_on_the_hour() {
    let now = UtcInstant { secs: ON_THE_HOUR, nanos: 500 };
    assert_eq!(MarketDiscoverer::calculate_next_window_timestamp(now), ON_THE_HOUR);
    let now = UtcInstant { secs: ON_THE_HOUR + 1, nanos: 0 };
    assert_eq!(MarketDiscoverer::calculate_next_window_timestamp(now), ON_THE_HOUR + 3600);
}

#[test]
fn wait_time_stops_short_of_the_window() {
    let s = MarketScheduler::new(MarketDiscoverer::new(vec!["bitcoin".to_string()]), 5);
    let now = UtcInstant { secs: ON_THE_HOUR + 3000, nanos: 0 };
    assert_eq!(s.calculate_wait_time(now), 595 * 1_000_000_000);
    let now = UtcInstant { secs: ON_THE_HOUR + 3597, nanos: 250_000_000 };
    assert_eq!(s.calculate_wait_time(now), 0);
    let now = UtcInstant { secs: ON_THE_HOUR + 3000, nanos: 250_000_000 };
    assert_eq!(s.calculate_wait_time(now), 594_750_000_000);
    assert_eq!(s.discoverer().crypto_symbols(), &vec!["bitcoin".to_string()]);
}

#[test]
fn slug_time_is_eastern_twelve_hour() {
    // 08:00 UTC is 3am Eastern on the same day
    assert_eq!(slug_time(ON_THE_HOUR), SlugTime { month0: 0, day: 16, hour12: 3, pm: false });
    // 05:00 UTC is midnight Eastern
    assert_eq!(slug_time(ON_THE_HOUR - 3 * 3600), SlugTime { month0: 0, day: 16, hour12: 12, pm: false });
    // 04:00 UTC is 11pm Eastern the day before
    assert_eq!(slug_time(ON_THE_HOUR - 4 * 3600), SlugTime { month0: 0, day: 15, hour12: 11, pm: true });
    // 17:00 UTC is noon Eastern
    assert_eq!(slug_time(ON_THE_HOUR + 9 * 3600), SlugTime { month0: 0, day: 16, hour12: 12, pm: true });
    // 20:00 UTC is 3pm Eastern
    assert_eq!(slug_time(ON_THE_HOUR + 12 * 3600), SlugTime { month0: 0, day: 16, hour12: 3, pm: true });
    // 1970-01-01 02:00 UTC is 9pm Eastern on the last day of 1969
    assert_eq!(slug_time(7200), SlugTime { month0: 11, day: 31, hour12: 9, pm: true });
}

#[test]
fn month_names() {
    assert_eq!(month_name(0), "january");
    assert_eq!(month_name(4), "may");
    assert_eq!(month_name(11), "december");
    assert_eq!(month_name(12), "january");
}
