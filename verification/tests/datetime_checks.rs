use quack_rs::datetime::{
    decimal_is_valid, is_leap_year, is_valid_date, time_decomposes, time_micros, time_tz_encodable,
    time_tz_fields, timestamp_days, timestamp_decomposes, timestamp_from_parts, Date, Decimal, Time,
    MICROS_PER_DAY, TIMESTAMP_INFINITY_MICROS, TIMESTAMP_NEGATIVE_INFINITY_MICROS,
    TIME_TZ_MAX_OFFSET_SECONDS,
};
use std::collections::HashSet;

const fn date(year: i32, month: i8, day: i8) -> Date {
    Date { year, month, day }
}

#[test]
fn months_and_days_out_of_range_are_invalid() {
    assert!(is_valid_date(date(2026, 1, 31)));
    assert!(!is_valid_date(date(2026, 13, 1)));
    assert!(!is_valid_date(date(2026, 0, 1)));
    assert!(!is_valid_date(date(2026, -1, 1)));
    assert!(!is_valid_date(date(2026, 4, 31)));
    assert!(!is_valid_date(date(2026, 1, 0)));
    assert!(!is_valid_date(date(2026, 1, 32)));
    assert!(!is_valid_date(date(2026, 1, -5)));
    // The inclusive ends of each field range: December and the 1st exist.
    assert!(is_valid_date(date(2026, 12, 1)));
    assert!(is_valid_date(date(2026, 12, 31)));
    assert!(is_valid_date(date(2026, 1, 1)));
}

#[test]
fn february_follows_the_gregorian_leap_rule() {
    assert!(is_valid_date(date(2024, 2, 29)));
    assert!(!is_valid_date(date(2026, 2, 29)));
    assert!(is_valid_date(date(2000, 2, 29)));
    assert!(!is_valid_date(date(1900, 2, 29)));
    // Proleptic and BCE years follow the same rule.
    assert!(is_valid_date(date(-400, 2, 29)));
    assert!(!is_valid_date(date(-100, 2, 29)));
}

#[test]
fn the_representable_range_ends_exactly_where_duckdb_says() {
    assert!(is_valid_date(date(-5_877_641, 6, 25)));
    assert!(!is_valid_date(date(-5_877_641, 6, 24)));
    assert!(!is_valid_date(date(-5_877_641, 5, 30)));
    assert!(!is_valid_date(date(-5_877_642, 12, 31)));
    assert!(!is_valid_date(date(i32::MIN, 1, 1)));
    assert!(is_valid_date(date(5_881_580, 7, 10)));
    assert!(!is_valid_date(date(5_881_580, 7, 11)));
    assert!(!is_valid_date(date(5_881_580, 8, 1)));
    assert!(!is_valid_date(date(5_881_581, 1, 1)));
    assert!(!is_valid_date(date(i32::MAX, 1, 1)));
}

#[test]
fn timestamp_days_floors_toward_negative_infinity() {
    assert_eq!(timestamp_days(0), 0);
    assert_eq!(timestamp_days(1), 0);
    assert_eq!(timestamp_days(MICROS_PER_DAY - 1), 0);
    assert_eq!(timestamp_days(MICROS_PER_DAY), 1);
    assert_eq!(timestamp_days(-1), -1);
    assert_eq!(timestamp_days(-MICROS_PER_DAY), -1);
    assert_eq!(timestamp_days(-MICROS_PER_DAY - 1), -2);
}

#[test]
fn timestamps_that_duckdb_cannot_decompose_are_caught() {
    assert!(timestamp_decomposes(0));
    assert!(timestamp_decomposes(-1));
    assert!(timestamp_decomposes(i64::MAX - 1));
    // The earliest instant whose day survives the multiply-back; one
    // microsecond earlier (and everything down to `i64::MIN`, ~4 hours of
    // the range) floors to a day whose micros overflow.
    assert!(timestamp_decomposes(-106_751_991 * MICROS_PER_DAY));
    assert!(!timestamp_decomposes(-106_751_991 * MICROS_PER_DAY - 1));
    assert!(!timestamp_decomposes(-i64::MAX + 1));
    assert!(!timestamp_decomposes(TIMESTAMP_INFINITY_MICROS));
    assert!(!timestamp_decomposes(TIMESTAMP_NEGATIVE_INFINITY_MICROS));
    // Finite, but its floor-divided day overflows when multiplied back.
    assert!(!timestamp_decomposes(i64::MIN));
}

#[test]
fn timestamp_composition_rejects_overflow_and_the_sentinels() {
    assert_eq!(timestamp_from_parts(1, 5), Some(MICROS_PER_DAY + 5));
    assert_eq!(timestamp_from_parts(-1, 0), Some(-MICROS_PER_DAY));
    assert_eq!(timestamp_from_parts(i32::MAX, 0), None);
    assert_eq!(timestamp_from_parts(i32::MIN, 0), None);
    // The last day that fits, pushed over the edge by its time.
    let last_day = i32::try_from(i64::MAX / MICROS_PER_DAY).unwrap();
    assert!(timestamp_from_parts(last_day, 0).is_some());
    assert_eq!(
        timestamp_from_parts(last_day, i64::MAX % MICROS_PER_DAY + 1),
        None
    );
    // Landing exactly on infinity is refused too.
    assert_eq!(
        timestamp_from_parts(last_day, i64::MAX % MICROS_PER_DAY),
        None
    );
}

#[test]
fn time_micros_matches_duckdb_from_time() {
    let t = Time {
        hour: 23,
        min: 59,
        sec: 59,
        micros: 999_999,
    };
    assert_eq!(time_micros(t), MICROS_PER_DAY - 1);
}

/// `Time::Convert` followed by `Time::IsValidTime`: truncating division
/// into hours, minutes, seconds and microseconds, then the range checks.
fn duckdb_convert_is_valid(micros: i64) -> bool {
    let mut time = micros;
    let hour = time / 3_600_000_000;
    time -= hour * 3_600_000_000;
    let min = time / 60_000_000;
    time -= min * 60_000_000;
    let sec = time / 1_000_000;
    time -= sec * 1_000_000;
    let micros = time;
    if !(0..24).contains(&hour) {
        return hour == 24 && min == 0 && sec == 0 && micros == 0;
    }
    (0..60).contains(&min) && (0..=60).contains(&sec) && (0..=1_000_000).contains(&micros)
}

#[test]
fn time_decomposes_is_exactly_what_duckdb_asserts() {
    let mut probes = vec![i64::MIN, i64::MIN + 1, i64::MAX, i64::MAX - 1];
    for edge in [0, MICROS_PER_DAY, 3_600_000_000, 60_000_000, 1_000_000] {
        for delta in -2..=2 {
            probes.push(edge + delta);
            probes.push(-edge + delta);
        }
    }
    // Every hour boundary of the day and the one after it.
    for hour in -1..=26 {
        probes.push(hour * 3_600_000_000);
        probes.push(hour * 3_600_000_000 - 1);
    }
    for micros in probes {
        assert_eq!(
            time_decomposes(micros),
            duckdb_convert_is_valid(micros),
            "{micros}"
        );
    }
    assert!(time_decomposes(0));
    assert!(time_decomposes(MICROS_PER_DAY));
    assert!(!time_decomposes(-1));
    assert!(!time_decomposes(MICROS_PER_DAY + 1));
}

#[test]
fn time_tz_max_offset_is_duckdbs_plus_15_59_59() {
    assert_eq!(TIME_TZ_MAX_OFFSET_SECONDS, 57_599);
    assert_eq!(TIME_TZ_MAX_OFFSET_SECONDS, 15 * 3_600 + 59 * 60 + 59);
}

#[test]
fn time_tz_bounds() {
    assert!(time_tz_encodable(0, 0));
    assert!(time_tz_encodable(MICROS_PER_DAY, TIME_TZ_MAX_OFFSET_SECONDS));
    assert!(time_tz_encodable(0, -TIME_TZ_MAX_OFFSET_SECONDS));
    assert!(!time_tz_encodable(0, TIME_TZ_MAX_OFFSET_SECONDS + 1));
    assert!(!time_tz_encodable(0, -TIME_TZ_MAX_OFFSET_SECONDS - 1));
    assert!(!time_tz_encodable(-1, 0));
    assert!(!time_tz_encodable(MICROS_PER_DAY + 1, 0));
}

#[test]
fn decimal_bounds() {
    assert!(decimal_is_valid(38, 38));
    assert!(decimal_is_valid(18, 3));
    assert!(!decimal_is_valid(39, 0));
    assert!(!decimal_is_valid(10, 11));
    assert!(!decimal_is_valid(38, 40));
}

fn decimal_is_ordered_and_hashable_body() {
    let a = Decimal {
        width: 18,
        scale: 3,
        value: 1_500,
    };
    let b = Decimal {
        width: 18,
        scale: 3,
        value: 2_500,
    };
    assert!(a < b);
    let set: HashSet<Decimal> = [a, b, a].into_iter().collect();
    assert_eq!(set.len(), 2);
}

#[test]
fn datetime_decimal_is_ordered_and_hashable() {
    decimal_is_ordered_and_hashable_body();
}

#[test]
fn tests_decimal_is_ordered_and_hashable() {
    decimal_is_ordered_and_hashable_body();
}

#[test]
fn leap_years_follow_the_gregorian_rule() {
    assert!(is_leap_year(2024));
    assert!(is_leap_year(2000));
    assert!(!is_leap_year(1900));
    assert!(!is_leap_year(2026));
    assert!(is_leap_year(-400));
    assert!(!is_leap_year(-100));
    assert!(is_leap_year(0));
}

#[test]
fn time_tz_fields_split_the_encoding() {
    // The time of day in the high 40 bits, MAX_OFFSET minus the offset in the
    // low 24.
    let encode = |micros: i64, offset: i32| -> u64 {
        ((micros as u64) << 24) | ((TIME_TZ_MAX_OFFSET_SECONDS - offset) as u64)
    };
    assert_eq!(time_tz_fields(encode(0, 0)), Some((0, 0)));
    assert_eq!(
        time_tz_fields(encode(MICROS_PER_DAY, TIME_TZ_MAX_OFFSET_SECONDS)),
        Some((MICROS_PER_DAY, TIME_TZ_MAX_OFFSET_SECONDS))
    );
    assert_eq!(
        time_tz_fields(encode(3_600_000_000, -TIME_TZ_MAX_OFFSET_SECONDS)),
        Some((3_600_000_000, -TIME_TZ_MAX_OFFSET_SECONDS))
    );
    // A time of day past 24:00:00 fits the 40-bit field but is refused.
    assert_eq!(time_tz_fields(encode(MICROS_PER_DAY + 1, 0)), None);
    // An offset field past twice the maximum decodes below -15:59:59.
    assert_eq!(time_tz_fields(0x00FF_FFFF), None);
}
