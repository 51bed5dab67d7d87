//! Calendar types for `DuckDB`'s temporal values, and the checks `DuckDB`
//! makes before it throws.
//!
//! `DuckDB` stores `DATE` as days since 1970-01-01, `TIME` as microseconds
//! since midnight and `TIMESTAMP` as microseconds since the epoch. Several of
//! its C API conversions throw a C++ exception on bad input, which would abort
//! the process; the predicates here decide, before any such call, whether
//! `DuckDB` accepts a value.

use vstd::prelude::*;

verus! {

/// A calendar date, as `DuckDB` decomposes a `DATE`.
///
/// `month` is 1–12 and `day` is 1–31; `year` may be negative (BCE).
#[derive(Debug, Clone, Copy, PartialEq, Eq, Structural, PartialOrd, Ord, Hash)]
pub struct Date {
    /// Proleptic Gregorian year. Negative values are BCE.
    pub year: i32,
    /// Month of year, 1–12.
    pub month: i8,
    /// Day of month, 1–31.
    pub day: i8,
}

/// A wall-clock time, as `DuckDB` decomposes a `TIME`.
#[derive(Debug, Clone, Copy, PartialEq, Eq, Structural, PartialOrd, Ord, Hash)]
pub struct Time {
    /// Hour of day, 0–23.
    pub hour: i8,
    /// Minute of hour, 0–59.
    pub min: i8,
    /// Second of minute, 0–59.
    pub sec: i8,
    /// Microseconds within the second, 0–999999.
    pub micros: i32,
}

/// A `TIME WITH TIME ZONE`, decomposed into wall-clock time plus UTC offset.
#[derive(Debug, Clone, Copy, PartialEq, Eq, Structural, PartialOrd, Ord, Hash)]
pub struct TimeTz {
    /// The wall-clock time.
    pub time: Time,
    /// Offset from UTC in seconds.
    pub offset_seconds: i32,
}

/// A `TIMESTAMP`, decomposed into date and time parts.
#[derive(Debug, Clone, Copy, PartialEq, Eq, Structural, PartialOrd, Ord, Hash)]
pub struct Timestamp {
    /// The calendar date.
    pub date: Date,
    /// The wall-clock time.
    pub time: Time,
}

/// A `DECIMAL` value: an unscaled `i128` plus its declared width and scale.
#[derive(Debug, Clone, Copy, PartialEq, Eq, Structural, PartialOrd, Ord, Hash)]
pub struct Decimal {
    /// Total number of significant digits.
    pub width: u8,
    /// Number of digits after the decimal point.
    pub scale: u8,
    /// The unscaled value: the represented number is `value / 10^scale`.
    pub value: i128,
}

/// The `DATE` value `DuckDB` uses for `infinity`, in days since 1970-01-01.
pub const DATE_INFINITY_DAYS: i32 = 2147483647;

/// The `DATE` value `DuckDB` uses for `-infinity`: `-i32::MAX`, so `i32::MIN`
/// itself is a finite date.
pub const DATE_NEGATIVE_INFINITY_DAYS: i32 = -2147483647;

/// The `TIMESTAMP` value `DuckDB` uses for `infinity`, in microseconds.
pub const TIMESTAMP_INFINITY_MICROS: i64 = 9223372036854775807;

/// The `TIMESTAMP` value `DuckDB` uses for `-infinity`: `-i64::MAX`.
pub const TIMESTAMP_NEGATIVE_INFINITY_MICROS: i64 = -9223372036854775807;

/// Microseconds in a day.
pub const MICROS_PER_DAY: i64 = 86_400_000_000;

/// The largest `TIME WITH TIME ZONE` offset `DuckDB` can encode, in seconds:
/// `+15:59:59`. The smallest is its negation.
pub const TIME_TZ_MAX_OFFSET_SECONDS: i32 = 57_599;

/// The widest `DECIMAL` `DuckDB` supports.
pub const DECIMAL_MAX_WIDTH: u8 = 38;

/// The proleptic Gregorian leap-year rule.
pub open spec fn spec_is_leap_year(year: int) -> bool {
    year % 4 == 0 && (year % 100 != 0 || year % 400 == 0)
}

/// The number of days of `month` (1–12) in `year`.
pub open spec fn days_in_month(year: int, month: int) -> int {
    if month == 2 {
        if spec_is_leap_year(year) { 29 } else { 28 }
    } else if month == 4 || month == 6 || month == 9 || month == 11 {
        30
    } else {
        31
    }
}

/// `(year, month, day)` is not before 5877642-06-25 BC (year -5877641).
pub open spec fn not_before_min_date(year: int, month: int, day: int) -> bool {
    year > -5_877_641 || (year == -5_877_641 && (month > 6 || (month == 6 && day >= 25)))
}

/// `(year, month, day)` is not after 5881580-07-10.
pub open spec fn not_after_max_date(year: int, month: int, day: int) -> bool {
    year < 5_881_580 || (year == 5_881_580 && (month < 7 || (month == 7 && day <= 10)))
}

/// `DuckDB`'s `Date::IsValid`: the month is 1–12, the day exists in that month
/// of that year, and the date lies in `DuckDB`'s representable range.
pub open spec fn spec_is_valid_date(date: Date) -> bool {
    let (y, m, d) = (date.year as int, date.month as int, date.day as int);
    &&& 1 <= m <= 12
    &&& 1 <= d
    &&& d <= days_in_month(y, m)
    &&& not_before_min_date(y, m, d)
    &&& not_after_max_date(y, m, d)
}

/// The Gregorian month lengths: January, March, May, July, August,
/// October and December have 31 days; April, June, September and November
/// have 30; February has 29 in a year divisible by 4 but not by 100, or by
/// 400, and 28 otherwise.
pub proof fn lemma_month_lengths(year: int)
    ensures
        days_in_month(year, 1) == 31,
        days_in_month(year, 2) == (if year % 4 == 0 && (year % 100 != 0 || year % 400 == 0) {
            29int
        } else {
            28int
        }),
        days_in_month(year, 3) == 31,
        days_in_month(year, 4) == 30,
        days_in_month(year, 5) == 31,
        days_in_month(year, 6) == 30,
        days_in_month(year, 7) == 31,
        days_in_month(year, 8) == 31,
        days_in_month(year, 9) == 30,
        days_in_month(year, 10) == 31,
        days_in_month(year, 11) == 30,
        days_in_month(year, 12) == 31,
{
}

/// Which dates exist: the 31st only in January, March, May, July, August,
/// October and December; the 30th in every month but February; February
/// 29th only in a leap year; and every day from the 1st to the 28th of every
/// month — each within `DuckDB`'s range of dates.
pub proof fn lemma_valid_days(date: Date)
    requires
        not_before_min_date(date.year as int, date.month as int, date.day as int),
        not_after_max_date(date.year as int, date.month as int, date.day as int),
    ensures
        date.day == 31 ==> (spec_is_valid_date(date) <==> (date.month == 1 || date.month == 3
            || date.month == 5 || date.month == 7 || date.month == 8 || date.month == 10
            || date.month == 12)),
        date.day == 30 ==> (spec_is_valid_date(date) <==> (1 <= date.month <= 12 && date.month
            != 2)),
        (date.day == 29 && date.month == 2) ==> (spec_is_valid_date(date) <==> (date.year % 4 == 0
            && (date.year % 100 != 0 || date.year % 400 == 0))),
        (1 <= date.day <= 28 && 1 <= date.month <= 12) ==> spec_is_valid_date(date),
        date.day > 31 || date.day < 1 || date.month < 1 || date.month > 12 ==> !spec_is_valid_date(date),
{
}

/// `DuckDB`'s range of dates runs from 5877642-06-25 BC (year -5877641)
/// to 5881580-07-10: both ends are valid dates, and the days just outside
/// them are not.
pub proof fn lemma_date_range_ends()
    ensures
        spec_is_valid_date(Date { year: -5_877_641i32, month: 6, day: 25 }),
        !spec_is_valid_date(Date { year: -5_877_641i32, month: 6, day: 24 }),
        !spec_is_valid_date(Date { year: -5_877_642i32, month: 12, day: 31 }),
        spec_is_valid_date(Date { year: 5_881_580, month: 7, day: 10 }),
        !spec_is_valid_date(Date { year: 5_881_580, month: 7, day: 11 }),
        !spec_is_valid_date(Date { year: 5_881_581, month: 1, day: 1 }),
{
}

/// `Time::FromTime`: `((hour * 60 + min) * 60 + sec) * 1_000_000 + micros`.
pub open spec fn spec_time_micros(time: Time) -> int {
    ((time.hour * 60 + time.min) * 60 + time.sec) * 1_000_000 + time.micros
}

/// The day a timestamp falls on: microseconds divided by a day, rounded
/// toward negative infinity.
pub open spec fn spec_timestamp_days(micros: int) -> int {
    micros / (MICROS_PER_DAY as int)
}

/// `Timestamp::Convert` decomposes `micros` without throwing: it is not a
/// sentinel and its day, multiplied back into microseconds, fits an `i64`.
pub open spec fn spec_timestamp_decomposes(micros: i64) -> bool {
    &&& micros != TIMESTAMP_INFINITY_MICROS
    &&& micros != TIMESTAMP_NEGATIVE_INFINITY_MICROS
    &&& i64::MIN <= spec_timestamp_days(micros as int) * MICROS_PER_DAY <= i64::MAX
}

/// What `Timestamp::TryFromDatetime` computes, or `None` where `DuckDB`
/// throws: on overflow or when the result is a sentinel.
pub open spec fn spec_timestamp_from_parts(days: i32, time_micros: i64) -> Option<i64> {
    let day_micros = days * MICROS_PER_DAY;
    let total = day_micros + time_micros;
    if !(i64::MIN <= day_micros <= i64::MAX) || !(i64::MIN <= total <= i64::MAX)
        || total == TIMESTAMP_INFINITY_MICROS || total == TIMESTAMP_NEGATIVE_INFINITY_MICROS {
        None
    } else {
        Some(total as i64)
    }
}

/// `DuckDB`'s `TIME` range: `00:00:00` to `24:00:00` inclusive.
pub open spec fn spec_time_decomposes(micros: i64) -> bool {
    0 <= micros <= MICROS_PER_DAY
}

/// A time and offset that `dtime_tz_t` can encode without corrupting either.
pub open spec fn spec_time_tz_encodable(micros: i64, offset_seconds: i32) -> bool {
    spec_time_decomposes(micros) && -TIME_TZ_MAX_OFFSET_SECONDS <= offset_seconds
        <= TIME_TZ_MAX_OFFSET_SECONDS
}

/// The proleptic Gregorian leap-year rule (`Date::IsLeapYear`).
pub fn is_leap_year(year: i32) -> (r: bool)
    ensures
        r == spec_is_leap_year(year as int),
{
    year % 4 == 0 && (year % 100 != 0 || year % 400 == 0)
}

fn month_length(year: i32, month: i8) -> (r: i8)
    requires
        1 <= month <= 12,
    ensures
        r == days_in_month(year as int, month as int),
{
    if month == 2 {
        if is_leap_year(year) { 29 } else { 28 }
    } else if month == 4 || month == 6 || month == 9 || month == 11 {
        30
    } else {
        31
    }
}

/// Returns `true` if `DuckDB` can represent `date` as a `DATE` (its own
/// `Date::IsValid`): the month is 1–12, the day exists in that month of that
/// proleptic Gregorian year, and the date lies between 5877642-06-25 BC and
/// 5881580-07-10.
pub fn is_valid_date(date: Date) -> (r: bool)
    ensures
        r == spec_is_valid_date(date),
{
    let year = date.year;
    let month = date.month;
    let day = date.day;
    if month < 1 || month > 12 || day < 1 {
        return false;
    }
    if year < -5_877_641 || (year == -5_877_641 && (month < 6 || (month == 6 && day < 25))) {
        return false;
    }
    if year > 5_881_580 || (year == 5_881_580 && (month > 7 || (month == 7 && day > 10))) {
        return false;
    }
    day <= month_length(year, month)
}

/// `Time::FromTime`: the time of day in microseconds, with no range check.
pub fn time_micros(time: Time) -> (r: i64)
    ensures
        r == spec_time_micros(time),
{
    let mut micros: i64 = time.hour as i64;
    micros = micros * 60 + time.min as i64;
    micros = micros * 60 + time.sec as i64;
    micros * 1_000_000 + time.micros as i64
}

/// Returns `true` if `micros` is in `DuckDB`'s `TIME` range, `00:00:00` to
/// `24:00:00` inclusive, outside which `Time::Convert` fails its assertion.
pub fn time_decomposes(micros: i64) -> (r: bool)
    ensures
        r == spec_time_decomposes(micros),
{
    micros >= 0 && micros <= MICROS_PER_DAY
}

/// The day `Timestamp::GetDate` assigns a timestamp to (floor division).
pub fn timestamp_days(micros: i64) -> (r: i64)
    ensures
        r == spec_timestamp_days(micros as int),
{
    let negative: i64 = if micros < 0 { 1 } else { 0 };
    let q = (micros + negative) / MICROS_PER_DAY;
    proof {
        lemma_floor_division(micros as int, negative as int, q as int);
    }
    q - negative
}

proof fn lemma_floor_division(m: int, neg: int, q: int)
    requires
        neg == (if m < 0 { 1int } else { 0int }),
        m >= 0 ==> q == m / 86_400_000_000,
        m < 0 ==> q == -((-(m + 1)) / 86_400_000_000),
    ensures
        q - neg == m / 86_400_000_000,
{
    if m < 0 {
        let a = -(m + 1);
        assert(a >= 0);
        let k = a / 86_400_000_000;
        let r = a % 86_400_000_000;
        assert(a == k * 86_400_000_000 + r && 0 <= r < 86_400_000_000);
        assert(m == -(k + 1) * 86_400_000_000 + (86_400_000_000 - 1 - r));
        assert(m / 86_400_000_000 == -(k + 1)) by (nonlinear_arith)
            requires
                m == -(k + 1) * 86_400_000_000 + (86_400_000_000 - 1 - r),
                0 <= 86_400_000_000 - 1 - r < 86_400_000_000,
        ;
    }
}

/// Returns `true` if `Timestamp::Convert` decomposes `micros` without
/// throwing: not one of the infinity sentinels, and its floor-divided day
/// multiplied back into microseconds fits an `i64`.
pub fn timestamp_decomposes(micros: i64) -> (r: bool)
    ensures
        r == spec_timestamp_decomposes(micros),
{
    micros != TIMESTAMP_INFINITY_MICROS && micros != TIMESTAMP_NEGATIVE_INFINITY_MICROS
        && timestamp_days(micros).checked_mul(MICROS_PER_DAY).is_some()
}

/// `days * MICROS_PER_DAY + time_micros`, or `None` where `DuckDB`'s
/// `FromDatetime` would throw: on overflow, or when the result is one of the
/// infinity sentinels.
pub fn timestamp_from_parts(days: i32, time_micros: i64) -> (r: Option<i64>)
    ensures
        r == spec_timestamp_from_parts(days, time_micros),
{
    let day_micros = match (days as i64).checked_mul(MICROS_PER_DAY) {
        Some(v) => v,
        None => return None,
    };
    let micros = match day_micros.checked_add(time_micros) {
        Some(v) => v,
        None => return None,
    };
    if micros == TIMESTAMP_INFINITY_MICROS || micros == TIMESTAMP_NEGATIVE_INFINITY_MICROS {
        return None;
    }
    Some(micros)
}

/// Returns `true` if `dtime_tz_t` can encode this time and offset: the time
/// is in `00:00:00`–`24:00:00` and the offset within ±15:59:59.
pub fn time_tz_encodable(micros: i64, offset_seconds: i32) -> (r: bool)
    ensures
        r == spec_time_tz_encodable(micros, offset_seconds),
{
    time_decomposes(micros) && offset_seconds >= -TIME_TZ_MAX_OFFSET_SECONDS
        && offset_seconds <= TIME_TZ_MAX_OFFSET_SECONDS
}

/// Returns `true` if `duckdb_decimal_to_double` can convert this width and
/// scale without reading past its powers-of-ten tables.
pub fn decimal_is_valid(width: u8, scale: u8) -> (r: bool)
    ensures
        r == (width <= DECIMAL_MAX_WIDTH && scale <= width),
{
    width <= DECIMAL_MAX_WIDTH && scale <= width
}

/// The time field of a `dtime_tz_t` bit pattern: its high 40 bits.
pub open spec fn tz_bits_micros(bits: u64) -> int {
    bits as int / 0x100_0000
}

/// The offset field of a `dtime_tz_t` bit pattern: `MAX_OFFSET` minus its
/// low 24 bits.
pub open spec fn tz_bits_offset(bits: u64) -> int {
    TIME_TZ_MAX_OFFSET_SECONDS - bits as int % 0x100_0000
}

/// Splits `DuckDB`'s `TIME WITH TIME ZONE` bit pattern into its time of day
/// (microseconds) and UTC offset (seconds), or `None` unless it is an
/// encoding of a time in `00:00:00`–`24:00:00` with an offset within
/// ±15:59:59 — the only encodings `DuckDB` can decompose safely.
pub fn time_tz_fields(bits: u64) -> (r: Option<(i64, i32)>)
    ensures
        r is Some <==> (0 <= tz_bits_micros(bits) <= MICROS_PER_DAY
            && -TIME_TZ_MAX_OFFSET_SECONDS <= tz_bits_offset(bits) <= TIME_TZ_MAX_OFFSET_SECONDS),
        r matches Some((micros, offset)) ==> micros == tz_bits_micros(bits)
            && offset == tz_bits_offset(bits),
{
    let high: u64 = bits >> 24u64;
    let low: u64 = bits & 0xFF_FFFFu64;
    assert(high == bits / 0x100_0000 && low == bits % 0x100_0000 && high < 0x100_0000_0000)
        by (bit_vector)
        requires
            high == bits >> 24u64,
            low == bits & 0xFF_FFFFu64,
    ;
    let micros: i64 = high as i64;
    let offset_seconds: i32 = TIME_TZ_MAX_OFFSET_SECONDS - low as i32;
    if time_tz_encodable(micros, offset_seconds) {
        Some((micros, offset_seconds))
    } else {
        None
    }
}

/// The `dtime_tz_t` bit pattern of a time of day and an offset: the time
/// in the high 40 bits, `MAX_OFFSET` minus the offset in the low 24.
pub open spec fn tz_bits_of(micros: int, offset_seconds: int) -> int {
    micros * 0x100_0000 + (TIME_TZ_MAX_OFFSET_SECONDS - offset_seconds)
}

/// Decoding undoes encoding: every time and offset that `dtime_tz_t` can
/// encode is read back unchanged by [`time_tz_fields`].
pub proof fn lemma_time_tz_fields_invert_the_encoding(micros: i64, offset_seconds: i32)
    requires
        spec_time_tz_encodable(micros, offset_seconds),
    ensures
        0 <= tz_bits_of(micros as int, offset_seconds as int) <= u64::MAX,
        tz_bits_micros(tz_bits_of(micros as int, offset_seconds as int) as u64) == micros,
        tz_bits_offset(tz_bits_of(micros as int, offset_seconds as int) as u64) == offset_seconds,
{
    let low: int = TIME_TZ_MAX_OFFSET_SECONDS - offset_seconds;
    let bits: int = tz_bits_of(micros as int, offset_seconds as int);
    assert(0 <= low < 0x100_0000);
    assert(0 <= micros <= 86_400_000_000);
    assert(0 <= bits <= u64::MAX) by (nonlinear_arith)
        requires
            bits == micros * 0x100_0000 + low,
            0 <= micros <= 86_400_000_000,
            0 <= low < 0x100_0000,
    ;
    assert(bits / 0x100_0000 == micros && bits % 0x100_0000 == low) by (nonlinear_arith)
        requires
            bits == micros * 0x100_0000 + low,
            0 <= micros,
            0 <= low < 0x100_0000,
    ;
}

} // verus!
