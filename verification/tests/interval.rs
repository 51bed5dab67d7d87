use quack_rs::interval::{
    interval_to_micros, interval_to_micros_saturating, DuckInterval, MICROS_PER_DAY,
    MICROS_PER_MONTH,
};

#[test]
fn size_of_duck_interval() {
    assert_eq!(std::mem::size_of::<DuckInterval>(), 16);
}

#[test]
fn zero_interval() {
    let iv = DuckInterval::zero();
    assert_eq!(interval_to_micros(iv), Some(0));
}

#[test]
fn default_interval() {
    let iv = DuckInterval::default();
    assert_eq!(iv, DuckInterval::zero());
}

#[test]
fn one_day() {
    let iv = DuckInterval {
        months: 0,
        days: 1,
        micros: 0,
    };
    assert_eq!(interval_to_micros(iv), Some(MICROS_PER_DAY));
}

#[test]
fn one_month() {
    let iv = DuckInterval {
        months: 1,
        days: 0,
        micros: 0,
    };
    assert_eq!(interval_to_micros(iv), Some(MICROS_PER_MONTH));
}

#[test]
fn combined_interval() {
    let iv = DuckInterval {
        months: 0,
        days: 1,
        micros: 500_000,
    };
    let expected = MICROS_PER_DAY + 500_000;
    assert_eq!(interval_to_micros(iv), Some(expected));
}

#[test]
fn negative_interval() {
    let iv = DuckInterval {
        months: -1,
        days: 0,
        micros: 0,
    };
    assert_eq!(interval_to_micros(iv), Some(-MICROS_PER_MONTH));
}

#[test]
fn overflow_returns_none() {
    let iv = DuckInterval {
        months: i32::MAX,
        days: i32::MAX,
        micros: i64::MAX,
    };
    assert_eq!(interval_to_micros(iv), None);
}

#[test]
fn saturating_on_overflow() {
    let iv = DuckInterval {
        months: i32::MAX,
        days: i32::MAX,
        micros: i64::MAX,
    };
    assert_eq!(interval_to_micros_saturating(iv), i64::MAX);
}

#[test]
fn saturating_no_overflow() {
    let iv = DuckInterval {
        months: 0,
        days: 0,
        micros: 42,
    };
    assert_eq!(interval_to_micros_saturating(iv), 42);
}

#[test]
fn to_micros_method() {
    let iv = DuckInterval {
        months: 0,
        days: 0,
        micros: 12345,
    };
    assert_eq!(iv.to_micros(), Some(12345));
}

#[test]
fn to_micros_saturating_method() {
    let iv = DuckInterval {
        months: 0,
        days: 0,
        micros: 12345,
    };
    assert_eq!(iv.to_micros_saturating(), 12345);
}

#[test]
fn exactly_max_i64_micros_no_overflow() {
    // If all overflow is in micros only (months=0, days=0), no overflow
    let iv = DuckInterval {
        months: 0,
        days: 0,
        micros: i64::MAX,
    };
    assert_eq!(interval_to_micros(iv), Some(i64::MAX));
}

#[test]
fn months_calculation() {
    // 12 months = 12 * 30 days * 86400 * 1_000_000 us
    let iv = DuckInterval {
        months: 12,
        days: 0,
        micros: 0,
    };
    let expected = 12_i64 * MICROS_PER_MONTH;
    assert_eq!(interval_to_micros(iv), Some(expected));
}

/// `DuckDB`'s `Interval::MICROS_PER_MONTH` is 30 days: `epoch_us(interval
/// '1 month')` is `2_592_000_000_000`. Spelled out as a literal so the
/// constant is checked, not reused.
#[test]
fn one_month_is_thirty_days_of_micros() {
    assert_eq!(MICROS_PER_MONTH, 2_592_000_000_000);
    let iv = DuckInterval {
        months: 1,
        days: 0,
        micros: 0,
    };
    assert_eq!(interval_to_micros(iv), Some(2_592_000_000_000));
    assert_eq!(
        interval_to_micros(iv),
        interval_to_micros(DuckInterval {
            months: 0,
            days: 30,
            micros: 0,
        })
    );
}


/// When only the final micros addition overflows, the true total has the
/// sign of the micros, even though the days component is far smaller in
/// magnitude: one day plus `i64::MAX` micros saturates up, minus one day
/// plus `i64::MIN` micros saturates down.
#[test]
fn saturation_direction_follows_micros_when_micros_overflow() {
    let up = DuckInterval {
        months: 0,
        days: 1,
        micros: i64::MAX,
    };
    assert_eq!(interval_to_micros(up), None);
    assert_eq!(interval_to_micros_saturating(up), i64::MAX);

    let down = DuckInterval {
        months: 0,
        days: -1,
        micros: i64::MIN,
    };
    assert_eq!(interval_to_micros(down), None);
    assert_eq!(interval_to_micros_saturating(down), i64::MIN);
}

#[test]
fn saturating_positive_overflow_with_negative_days() {
    // months = i32::MAX overflows to massive positive; days = -1 is tiny negative.
    // True result is still massively positive → should saturate to i64::MAX.
    let iv = DuckInterval {
        months: i32::MAX,
        days: -1,
        micros: 0,
    };
    assert_eq!(interval_to_micros(iv), None); // confirm it overflows
    assert_eq!(interval_to_micros_saturating(iv), i64::MAX);
}

#[test]
fn saturating_negative_overflow_with_positive_days() {
    // months = i32::MIN overflows to massive negative; days = 1 is tiny positive.
    // True result is still massively negative → should saturate to i64::MIN.
    let iv = DuckInterval {
        months: i32::MIN,
        days: 1,
        micros: 0,
    };
    assert_eq!(interval_to_micros(iv), None);
    assert_eq!(interval_to_micros_saturating(iv), i64::MIN);
}

#[test]
fn saturating_positive_overflow_negative_micros() {
    // Months alone overflow positive; negative micros doesn't change sign.
    let iv = DuckInterval {
        months: i32::MAX,
        days: 0,
        micros: -1_000_000,
    };
    assert_eq!(interval_to_micros(iv), None);
    assert_eq!(interval_to_micros_saturating(iv), i64::MAX);
}

/// The days term alone decides the direction: it overflows, outweighs
/// months and micros of the other sign, and is itself far past `i64`.
/// Only the randomized `saturating_direction_matches_i128` reached this
/// case before, so CI's mutation job caught `days * MICROS_PER_DAY` ->
/// `days + MICROS_PER_DAY` on some runs and not others.
#[test]
fn saturation_direction_follows_days_when_days_dominate() {
    let down = DuckInterval {
        months: 1_000_000,
        days: i32::MIN,
        micros: i64::MAX,
    };
    assert_eq!(interval_to_micros(down), None);
    assert_eq!(interval_to_micros_saturating(down), i64::MIN);

    let up = DuckInterval {
        months: -1_000_000,
        days: i32::MAX,
        micros: i64::MIN,
    };
    assert_eq!(interval_to_micros(up), None);
    assert_eq!(interval_to_micros_saturating(up), i64::MAX);
}

#[test]
fn saturating_negative_overflow_all_negative() {
    let iv = DuckInterval {
        months: i32::MIN,
        days: i32::MIN,
        micros: i64::MIN,
    };
    assert_eq!(interval_to_micros(iv), None);
    assert_eq!(interval_to_micros_saturating(iv), i64::MIN);
}

#[test]
fn saturating_agrees_with_checked_whenever_checked_succeeds() {
    for iv in [
        DuckInterval { months: 3, days: -40, micros: 17 },
        DuckInterval { months: -2, days: 5, micros: -1 },
        DuckInterval { months: 0, days: 0, micros: i64::MIN },
        DuckInterval { months: 100, days: 1000, micros: 123_456_789 },
    ] {
        let checked = interval_to_micros(iv).expect("in range");
        assert_eq!(interval_to_micros_saturating(iv), checked);
        assert_eq!(iv.to_micros(), Some(checked));
        assert_eq!(iv.to_micros_saturating(), checked);
    }
}

#[test]
fn the_total_is_months_days_and_micros_in_microseconds() {
    let iv = DuckInterval { months: 2, days: -3, micros: 7 };
    assert_eq!(
        interval_to_micros(iv),
        Some(2 * 2_592_000_000_000 - 3 * 86_400_000_000 + 7)
    );
}
