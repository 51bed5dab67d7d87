//! `DuckDB` `INTERVAL` values and their conversion to microseconds.
//!
//! An `INTERVAL` is `{ months: i32, days: i32, micros: i64 }`. Converting one
//! to a single unit uses `DuckDB`'s own approximation of one month as thirty
//! days (`Interval::MICROS_PER_MONTH`), which is what `DuckDB` uses to compare
//! intervals and in `epoch_us(interval)`.

use vstd::prelude::*;

verus! {

/// Microseconds per day.
pub const MICROS_PER_DAY: i64 = 86_400_000_000;

/// Microseconds per month, taken as thirty days.
pub const MICROS_PER_MONTH: i64 = 2_592_000_000_000;

/// A `DuckDB` `INTERVAL` value, laid out like the C struct `duckdb_interval`.
///
/// Equality compares the three fields: one month and thirty days are
/// different values here even though SQL compares them equal.
#[derive(Debug, Clone, Copy, PartialEq, Eq, Structural, Hash)]
pub struct DuckInterval {
    /// Calendar months component.
    pub months: i32,
    /// Calendar days component.
    pub days: i32,
    /// Sub-day microseconds component.
    pub micros: i64,
}

/// Whether `x` is representable as an `i64`.
pub open spec fn fits_i64(x: int) -> bool {
    i64::MIN <= x <= i64::MAX
}

/// The months component in microseconds, as an exact integer.
pub open spec fn months_micros(iv: DuckInterval) -> int {
    iv.months * MICROS_PER_MONTH
}

/// The days component in microseconds, as an exact integer.
pub open spec fn days_micros(iv: DuckInterval) -> int {
    iv.days * MICROS_PER_DAY
}

/// The exact total length of `iv` in microseconds (one month = 30 days).
pub open spec fn total_micros(iv: DuckInterval) -> int {
    months_micros(iv) + days_micros(iv) + iv.micros
}

/// What the checked conversion returns: the total, unless one of the steps
/// `months * MICROS_PER_MONTH`, `days * MICROS_PER_DAY`, their sum, or that
/// sum plus `micros` leaves the `i64` range.
pub open spec fn checked_micros(iv: DuckInterval) -> Option<i64> {
    if fits_i64(months_micros(iv)) && fits_i64(days_micros(iv))
        && fits_i64(months_micros(iv) + days_micros(iv)) && fits_i64(total_micros(iv)) {
        Some(total_micros(iv) as i64)
    } else {
        None
    }
}

/// What the saturating conversion returns: the checked result, or the `i64`
/// bound on the side of the exact total's sign.
pub open spec fn saturating_micros(iv: DuckInterval) -> i64 {
    match checked_micros(iv) {
        Some(v) => v,
        None => if total_micros(iv) >= 0 { i64::MAX } else { i64::MIN },
    }
}

impl DuckInterval {
    /// A zero-valued interval (0 months, 0 days, 0 microseconds).
    pub fn zero() -> (iv: Self)
        ensures
            iv.months == 0,
            iv.days == 0,
            iv.micros == 0,
    {
        DuckInterval { months: 0, days: 0, micros: 0 }
    }

    /// This interval in microseconds, or `None` on `i64` overflow.
    pub fn to_micros(self) -> (r: Option<i64>)
        ensures
            r == checked_micros(self),
    {
        interval_to_micros(self)
    }

    /// This interval in microseconds, saturating on overflow.
    pub fn to_micros_saturating(self) -> (r: i64)
        ensures
            r == saturating_micros(self),
    {
        interval_to_micros_saturating(self)
    }
}

impl Default for DuckInterval {
    fn default() -> (iv: Self)
        ensures
            iv.months == 0,
            iv.days == 0,
            iv.micros == 0,
    {
        DuckInterval::zero()
    }
}

/// Converts an interval to total microseconds with overflow checking
/// (one month = 30 days).
///
/// Returns `None` when any intermediate product or sum overflows `i64`.
pub fn interval_to_micros(iv: DuckInterval) -> (r: Option<i64>)
    ensures
        r == checked_micros(iv),
{
    let months_us = match (iv.months as i64).checked_mul(MICROS_PER_MONTH) {
        Some(v) => v,
        None => return None,
    };
    let days_us = match (iv.days as i64).checked_mul(MICROS_PER_DAY) {
        Some(v) => v,
        None => return None,
    };
    let sum = match months_us.checked_add(days_us) {
        Some(v) => v,
        None => return None,
    };
    sum.checked_add(iv.micros)
}

/// Converts an interval to total microseconds, saturating to `i64::MAX` or
/// `i64::MIN` by the sign of the exact total when it does not fit.
pub fn interval_to_micros_saturating(iv: DuckInterval) -> (r: i64)
    ensures
        r == saturating_micros(iv),
{
    match interval_to_micros(iv) {
        Some(v) => v,
        None => {
            let months_us: i128 = (iv.months as i128) * (MICROS_PER_MONTH as i128);
            let days_us: i128 = (iv.days as i128) * (MICROS_PER_DAY as i128);
            let total: i128 = months_us + days_us + (iv.micros as i128);
            if total >= 0 {
                i64::MAX
            } else {
                i64::MIN
            }
        },
    }
}

/// Where the checked conversion succeeds, the saturating one returns the
/// same value; where it fails, the exact total lies outside the `i64` range
/// or an intermediate step does, and the saturating result is the bound on
/// the side of the exact total's sign.
pub proof fn lemma_saturating_agrees_with_checked(iv: DuckInterval)
    ensures
        checked_micros(iv) matches Some(v) ==> saturating_micros(iv) == v,
        checked_micros(iv) is None && total_micros(iv) >= 0 ==> saturating_micros(iv) == i64::MAX,
        checked_micros(iv) is None && total_micros(iv) < 0 ==> saturating_micros(iv) == i64::MIN,
{
}

/// An interval of microseconds alone never overflows: its total is its
/// `micros` field.
pub proof fn lemma_micros_only_is_exact(micros: i64)
    ensures
        checked_micros(DuckInterval { months: 0, days: 0, micros }) == Some(micros),
{
}

} // verus!
