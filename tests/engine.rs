use weekend_weather::cache::{BasicWeekendForecast, RefreshCache};
use weekend_weather::config::Location;
use weekend_weather::elapsed::{last_fetch_words, time_diff_in_words};
use weekend_weather::provider::{days_from_response, DailyBlock, FetchError, ForecastResponse};
use weekend_weather::scheduler::{
    is_due, whole_minutes_between, Action, Scheduler, FETCH_EVERY_MINUTES,
};
use weekend_weather::weekend::{weekend_days, BasicWeather, RawDay};

// 2019-06-13 00:00:00 UTC, a Thursday.
const THU: u64 = 1_560_384_000;
const DAY: u64 = 86_400;

fn raw(time: u64, low: Option<f64>, high: Option<f64>, summary: Option<&str>) -> RawDay {
    RawDay {
        time,
        temperature_low: low.map(|v| v.to_bits()),
        temperature_high: high.map(|v| v.to_bits()),
        summary: summary.map(|s| s.to_string()),
    }
}

fn location(name: &str, lat: f64, lon: f64) -> Location {
    Location {
        name: name.to_string(),
        lat_bits: lat.to_bits(),
        lon_bits: lon.to_bits(),
        link: format!("https://example.org/{}", name),
    }
}

fn two_days(label: &str) -> Vec<BasicWeather> {
    vec![
        BasicWeather {
            time: format!("Sat {}", label),
            temperature_low: 50.0f64.to_bits(),
            temperature_high: 70.0f64.to_bits(),
            summary: "Clear".to_string(),
        },
        BasicWeather {
            time: format!("Sun {}", label),
            temperature_low: 51.0f64.to_bits(),
            temperature_high: 71.5f64.to_bits(),
            summary: "Rain".to_string(),
        },
    ]
}

#[test]
fn weekend_filter_keeps_complete_weekend_days_in_order() {
    let days = vec![
        raw(THU, Some(40.0), Some(60.0), Some("Thu")),
        raw(THU + DAY, Some(41.0), Some(61.0), Some("Fri")),
        raw(THU + 2 * DAY, None, Some(62.0), Some("Sat")),
        raw(THU + 3 * DAY + 3600, Some(43.0), Some(63.0), Some("Sun")),
        raw(THU + 4 * DAY, Some(44.0), Some(64.0), Some("Mon")),
        raw(THU + 8 * DAY, Some(45.0), Some(65.0), None),
        raw(THU + 9 * DAY, Some(46.0), Some(66.0), Some("Sat2")),
    ];
    let r = weekend_days(&days);
    assert_eq!(r.len(), 3);
    assert_eq!(r[0].time, "Fri Jun 14");
    assert_eq!(r[0].summary, "Fri");
    assert_eq!(f64::from_bits(r[0].temperature_low), 41.0);
    assert_eq!(f64::from_bits(r[0].temperature_high), 61.0);
    assert_eq!(r[1].time, "Sun Jun 16");
    assert_eq!(r[1].summary, "Sun");
    assert_eq!(r[2].time, "Sat Jun 22");
    assert_eq!(r[2].summary, "Sat2");
}

#[test]
fn weekend_filter_pads_single_digit_days() {
    // 2019-06-07 is a Friday.
    let days = vec![raw(THU - 6 * DAY, Some(1.0), Some(2.0), Some("x"))];
    let r = weekend_days(&days);
    assert_eq!(r.len(), 1);
    assert_eq!(r[0].time, "Fri Jun  7");
}

#[test]
fn weekend_filter_of_nothing_is_empty() {
    assert!(weekend_days(&Vec::new()).is_empty());
}

#[test]
fn response_without_daily_block_fails() {
    let r = days_from_response(&ForecastResponse { daily: None });
    assert!(matches!(r, Err(FetchError::MissingDaily)));
}

#[test]
fn response_without_data_fails() {
    let r = days_from_response(&ForecastResponse { daily: Some(DailyBlock { data: None }) });
    assert!(matches!(r, Err(FetchError::MissingData)));
}

#[test]
fn response_with_data_is_filtered() {
    let data = vec![
        raw(THU, Some(40.0), Some(60.0), Some("Thu")),
        raw(THU + DAY, Some(41.0), Some(61.0), Some("Fri")),
    ];
    let r = days_from_response(&ForecastResponse { daily: Some(DailyBlock { data: Some(data) }) });
    match r {
        Ok(days) => {
            assert_eq!(days.len(), 1);
            assert_eq!(days[0].time, "Fri Jun 14");
        }
        Err(_) => panic!("expected forecasts"),
    }
}

#[test]
fn fetch_error_messages() {
    assert_eq!(
        FetchError::ClientBuild("no tls".to_string()).message(),
        "Failed to build client (no tls)"
    );
    assert_eq!(FetchError::Request("timeout".to_string()).message(), "Request failed (timeout)");
    assert_eq!(FetchError::MissingDaily.message(), "No daily forecast");
    assert_eq!(FetchError::MissingData.message(), "No Data");
}

#[test]
fn due_check_boundary() {
    let now: i64 = 1_700_000_000;
    assert!(!is_due(Some(now - 59 * 60), now, FETCH_EVERY_MINUTES));
    assert!(is_due(Some(now - 60 * 60), now, FETCH_EVERY_MINUTES));
    assert!(!is_due(Some(now - 60 * 60 + 1), now, FETCH_EVERY_MINUTES));
    assert!(is_due(None, now, FETCH_EVERY_MINUTES));
    assert!(!is_due(Some(now + 7200), now, FETCH_EVERY_MINUTES));
}

#[test]
fn whole_minutes_round_toward_zero() {
    assert_eq!(whole_minutes_between(0, 119), 1);
    assert_eq!(whole_minutes_between(119, 0), -1);
    assert_eq!(whole_minutes_between(0, 3600), 60);
    assert_eq!(whole_minutes_between(i64::MIN, i64::MAX), 307_445_734_561_825_860);
}

#[test]
fn elapsed_time_in_words() {
    assert_eq!(time_diff_in_words(1000, 1000), "less than 1 minute");
    assert_eq!(time_diff_in_words(1000, 1059), "less than 1 minute");
    assert_eq!(time_diff_in_words(1000, 1060), "1 minute");
    assert_eq!(time_diff_in_words(0, 45 * 60), "45 minutes");
    assert_eq!(time_diff_in_words(0, 61 * 60), "1 hour");
    assert_eq!(time_diff_in_words(0, 125 * 60), "2 hours");
    assert_eq!(time_diff_in_words(5000, 0), "less than 1 minute");
}

#[test]
fn last_fetch_words_without_fetch() {
    assert_eq!(last_fetch_words(None, 10), "an unknowable amount of time");
    assert_eq!(last_fetch_words(Some(0), 120), "2 minutes");
}

#[test]
fn cache_commit_replaces_everything() {
    let mut cache = RefreshCache::new();
    assert!(cache.forecasts().is_empty());
    assert_eq!(cache.last_fetch(), None);
    cache.commit(
        vec![BasicWeekendForecast { location: location("A", 0.0, 0.0), days: two_days("x") }],
        10,
    );
    assert_eq!(cache.forecasts().len(), 1);
    assert_eq!(cache.last_fetch(), Some(10));
    let (batch, at) = cache.read();
    assert_eq!(batch.len(), 1);
    assert_eq!(batch[0].location.name, "A");
    assert_eq!(at, Some(10));
    cache.commit(Vec::new(), 20);
    assert!(cache.forecasts().is_empty());
    assert_eq!(cache.last_fetch(), Some(20));
}

#[test]
fn stop_before_first_tick_exits_without_fetching() {
    let mut s = Scheduler::new(vec![location("A", 0.0, 0.0)], FETCH_EVERY_MINUTES);
    let a = s.on_tick(1000, true);
    assert!(matches!(a, Action::Exit));
    assert!(s.is_stopped());
    assert_eq!(s.last_fetch(), None);
}

#[test]
fn failed_batch_leaves_cache_untouched() {
    let locs = vec![location("A", 0.0, 0.0), location("B", 1.0, 1.0)];
    let mut cache = RefreshCache::new();
    let mut s = Scheduler::new(locs, FETCH_EVERY_MINUTES);
    assert!(matches!(s.on_tick(100, false), Action::Fetch(0)));
    assert!(matches!(s.on_fetched(&mut cache, Ok(two_days("a")), 101, false), Action::Fetch(1)));
    assert!(matches!(s.on_fetched(&mut cache, Ok(two_days("b")), 102, false), Action::Sleep));
    assert_eq!(cache.last_fetch(), Some(102));

    // An hour later: the first location succeeds, the second fails.
    assert!(matches!(s.on_tick(102 + 3599, false), Action::Sleep));
    assert!(matches!(s.on_tick(102 + 3600, false), Action::Fetch(0)));
    assert!(matches!(s.on_fetched(&mut cache, Ok(two_days("c")), 3701, false), Action::Fetch(1)));
    let a = s.on_fetched(&mut cache, Err(FetchError::Request("down".to_string())), 3702, false);
    assert!(matches!(a, Action::Sleep));
    assert_eq!(cache.last_fetch(), Some(102));
    assert_eq!(cache.forecasts().len(), 2);
    assert_eq!(cache.forecasts()[0].days[0].time, "Sat a");
    assert_eq!(cache.forecasts()[1].days[0].time, "Sat b");
    assert_eq!(s.last_fetch(), Some(102));
    // The whole batch is retried at the next tick.
    assert!(matches!(s.on_tick(3703, false), Action::Fetch(0)));
}

#[test]
fn first_failure_on_empty_cache_keeps_it_empty() {
    let locs = vec![location("A", 0.0, 0.0), location("B", 1.0, 1.0)];
    let mut cache = RefreshCache::new();
    let mut s = Scheduler::new(locs, FETCH_EVERY_MINUTES);
    assert!(matches!(s.on_tick(5, false), Action::Fetch(0)));
    assert!(matches!(s.on_fetched(&mut cache, Ok(two_days("a")), 6, false), Action::Fetch(1)));
    assert!(matches!(s.on_fetched(&mut cache, Err(FetchError::MissingData), 7, false), Action::Sleep));
    assert!(cache.forecasts().is_empty());
    assert_eq!(cache.last_fetch(), None);
}

#[test]
fn one_successful_cycle_fills_cache_in_order() {
    let locs = vec![location("A", 0.0, 0.0), location("B", 1.0, 1.0)];
    let mut cache = RefreshCache::new();
    let mut s = Scheduler::new(locs, FETCH_EVERY_MINUTES);
    let start: i64 = 1_560_470_400;
    let fetch_time: i64 = start + 2;
    assert!(matches!(s.on_tick(start, false), Action::Fetch(0)));
    assert!(matches!(s.on_fetched(&mut cache, Ok(two_days("a")), start + 1, false), Action::Fetch(1)));
    assert!(matches!(s.on_fetched(&mut cache, Ok(two_days("b")), fetch_time, false), Action::Sleep));
    let f = cache.forecasts();
    assert_eq!(f.len(), 2);
    assert_eq!(f[0].location.name, "A");
    assert_eq!(f[1].location.name, "B");
    assert_eq!(f[1].location.lat_bits, 1.0f64.to_bits());
    assert_eq!(f[0].days.len(), 2);
    assert_eq!(f[1].days.len(), 2);
    assert_eq!(f[1].days[1].time, "Sun b");
    assert_eq!(cache.last_fetch(), Some(fetch_time));
    // Within the hour nothing is fetched.
    assert!(matches!(s.on_tick(fetch_time + 59 * 60, false), Action::Sleep));
    assert!(matches!(s.on_tick(fetch_time + 60 * 60, false), Action::Fetch(0)));
}

#[test]
fn stop_between_locations_drops_the_batch() {
    let locs = vec![location("A", 0.0, 0.0), location("B", 1.0, 1.0)];
    let mut cache = RefreshCache::new();
    let mut s = Scheduler::new(locs, FETCH_EVERY_MINUTES);
    assert!(matches!(s.on_tick(7, false), Action::Fetch(0)));
    assert!(matches!(s.on_fetched(&mut cache, Ok(two_days("a")), 8, true), Action::Exit));
    assert!(s.is_stopped());
    assert!(cache.forecasts().is_empty());
    assert_eq!(cache.last_fetch(), None);
}
