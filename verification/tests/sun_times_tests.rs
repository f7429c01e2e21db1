use chrono::{TimeZone, Utc};
use suntheme::mode::ThemeMode;
use suntheme::sun_times::SunTimes;
use suntheme::time::{CivilDate, Instant};

const DAY_START: i64 = 1_709_251_200; // 2024-03-01T00:00:00Z

fn at(hour: i64, minute: i64) -> Instant {
    Instant::new(DAY_START + hour * 3600 + minute * 60, 0).unwrap()
}

fn march_first() -> CivilDate {
    CivilDate { year: 2024, month: 3, day: 1 }
}

fn sample() -> SunTimes {
    SunTimes::new(at(6, 30), at(18, 45), march_first()).unwrap()
}

#[test]
fn day_start_matches_the_calendar() {
    let midnight = Utc.with_ymd_and_hms(2024, 3, 1, 0, 0, 0).unwrap();
    assert_eq!(midnight.timestamp(), DAY_START);
}

#[test]
fn noon_is_light_and_switches_to_dark_at_sunset() {
    let st = sample();
    let now = at(12, 0);
    assert_eq!(st.current_mode(&now), ThemeMode::Light);
    assert!(st.is_daytime(&now));
    let next = st.next_switch(&now);
    assert!(next.instant.is_same(&at(18, 45)));
    assert_eq!(next.mode, ThemeMode::Dark);
}

#[test]
fn evening_is_dark_and_switches_to_light_next_morning() {
    let st = sample();
    let now = at(20, 0);
    assert_eq!(st.current_mode(&now), ThemeMode::Dark);
    assert!(!st.is_daytime(&now));
    let next = st.next_switch(&now);
    assert!(next.instant.is_same(&at(24 + 6, 30)));
    assert_eq!(next.instant.timestamp(), DAY_START + 86_400 + 23_400);
    assert_eq!(next.mode, ThemeMode::Light);
}

#[test]
fn early_morning_is_dark_and_switches_to_light_at_sunrise() {
    let st = sample();
    let now = at(3, 0);
    assert_eq!(st.current_mode(&now), ThemeMode::Dark);
    let next = st.next_switch(&now);
    assert!(next.instant.is_same(&at(6, 30)));
    assert_eq!(next.mode, ThemeMode::Light);
}

#[test]
fn sunrise_itself_is_light() {
    let st = sample();
    let now = at(6, 30);
    assert_eq!(st.current_mode(&now), ThemeMode::Light);
    let next = st.next_switch(&now);
    assert!(next.instant.is_same(&at(18, 45)));
    assert_eq!(next.mode, ThemeMode::Dark);
}

#[test]
fn sunset_itself_is_dark() {
    let st = sample();
    let now = at(18, 45);
    assert_eq!(st.current_mode(&now), ThemeMode::Dark);
    let next = st.next_switch(&now);
    assert!(next.instant.is_same(&at(30, 30)));
    assert_eq!(next.mode, ThemeMode::Light);
}

#[test]
fn a_nanosecond_before_sunrise_is_still_dark() {
    let st = sample();
    let now = Instant::new(DAY_START + 23_399, 999_999_999).unwrap();
    assert_eq!(st.current_mode(&now), ThemeMode::Dark);
    let just_before_sunset = Instant::new(DAY_START + 67_499, 999_999_999).unwrap();
    assert_eq!(st.current_mode(&just_before_sunset), ThemeMode::Light);
}

#[test]
fn sunrise_must_come_before_sunset() {
    assert!(SunTimes::new(at(18, 45), at(6, 30), march_first()).is_none());
    assert!(SunTimes::new(at(6, 30), at(6, 30), march_first()).is_none());
    assert!(SunTimes::new(at(6, 30), at(6, 31), march_first()).is_some());
}

#[test]
fn sunrise_too_late_for_a_next_day_is_refused() {
    let late = Instant::new(i64::MAX - 10, 0).unwrap();
    let later = Instant::new(i64::MAX - 5, 0).unwrap();
    assert!(SunTimes::new(late, later, march_first()).is_none());
    let ok = Instant::new(i64::MAX - 86_400, 0).unwrap();
    assert!(SunTimes::new(ok, later, march_first()).is_some());
}

#[test]
fn getters_return_the_parts() {
    let st = sample();
    assert!(st.sunrise().is_same(&at(6, 30)));
    assert!(st.sunset().is_same(&at(18, 45)));
    assert_eq!(st.date(), march_first());
    assert!(st.is_same(&sample()));
    let other = SunTimes::new(at(6, 30), at(18, 45), CivilDate { year: 2024, month: 3, day: 2 });
    assert!(!st.is_same(&other.unwrap()));
}

#[test]
fn a_reading_of_the_real_clock_is_after_that_sunset() {
    let st = sample();
    // 2024-03-01 lies in the past, so any reading of the clock is after sunset.
    let reading = Utc::now();
    let now = Instant::from_timestamp(reading.timestamp(), reading.timestamp_subsec_nanos());
    assert_eq!(now.timestamp(), reading.timestamp());
    assert_eq!(st.current_mode(&now), ThemeMode::Dark);
    assert!(!st.is_daytime(&now));
    let next = st.next_switch(&now);
    assert_eq!(next.mode, ThemeMode::Light);
    assert!(next.instant.is_same(&at(30, 30)));
}

#[test]
fn instants_order_by_seconds_then_nanoseconds() {
    let a = Instant::new(10, 5).unwrap();
    let b = Instant::new(10, 6).unwrap();
    let c = Instant::new(11, 0).unwrap();
    let d = Instant::new(-1, 999_999_999).unwrap();
    assert!(a.is_before(&b));
    assert!(b.is_before(&c));
    assert!(!b.is_before(&a));
    assert!(!a.is_before(&a));
    assert!(d.is_before(&a));
    assert!(a.is_same(&Instant::new(10, 5).unwrap()));
    assert!(!a.is_same(&b));
}

#[test]
fn instant_rejects_a_sub_second_part_of_a_full_second() {
    assert!(Instant::new(0, 1_000_000_000).is_none());
    assert!(Instant::new(0, 999_999_999).is_some());
    let folded = Instant::from_timestamp(7, 1_500_000_000);
    assert_eq!(folded.timestamp(), 7);
    assert_eq!(folded.subsec_nanos(), 999_999_999);
    let plain = Instant::from_timestamp(-7, 25);
    assert_eq!(plain.timestamp(), -7);
    assert_eq!(plain.subsec_nanos(), 25);
}

#[test]
fn distance_between_instants_is_exact() {
    let a = Instant::new(10, 900_000_000).unwrap();
    let b = Instant::new(12, 100_000_000).unwrap();
    assert_eq!(a.nanos_until(&b), 1_200_000_000);
    assert_eq!(b.nanos_until(&a), -1_200_000_000);
    let lo = Instant::new(i64::MIN, 0).unwrap();
    let hi = Instant::new(i64::MAX, 999_999_999).unwrap();
    assert_eq!(
        lo.nanos_until(&hi),
        (i64::MAX as i128 - i64::MIN as i128) * 1_000_000_000 + 999_999_999
    );
}

#[test]
fn next_day_adds_exactly_24_hours() {
    let a = Instant::new(100, 7).unwrap();
    let b = a.next_day().unwrap();
    assert_eq!(b.timestamp(), 86_500);
    assert_eq!(b.subsec_nanos(), 7);
    assert_eq!(a.nanos_until(&b), 86_400_000_000_000);
    assert!(Instant::new(i64::MAX - 86_399, 0).unwrap().next_day().is_none());
    assert!(Instant::new(i64::MAX - 86_400, 0).unwrap().next_day().is_some());
}
