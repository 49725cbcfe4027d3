//! From a window of pulses to a count rate and a dose rate.
//!
//! With `count` pulses in a window that spans `span_ms` milliseconds, the tube
//! counts `count / (span_ms / 1000)` pulses per second. Less the tube's
//! background rate, divided by its sensitivity, that is a dose rate in mR/h;
//! times 8.76 it is one in µSv/h.

use crate::fraction::Fraction;
use vstd::prelude::*;

verus! {

/// Milliseconds in a second.
pub const MS_PER_SECOND: u64 = 1000;

/// Seconds in a minute.
pub const SECONDS_PER_MINUTE: u64 = 60;

/// The tube's background rate, in pulses per minute.
pub const BACKGROUND_PER_MINUTE: u64 = 25;

/// The tube's sensitivity: pulses per second at 1 mR/h.
pub const SENSITIVITY: u64 = 44;

/// One mR/h is 8.76 µSv/h: this is the numerator of 876 / 100.
pub const USV_PER_MR_NUM: u64 = 876;

/// The denominator of 876 / 100.
pub const USV_PER_MR_DEN: u64 = 100;

/// Counts per minute: sixty times `count / (span_ms / 1000)`.
pub open spec fn cpm_of(count: u64, span_ms: u64) -> Fraction {
    Fraction {
        num: (count * MS_PER_SECOND * SECONDS_PER_MINUTE) as i128,
        den: span_ms as u128,
    }
}

/// The dose rate in µSv/h:
/// `(count / (span_ms / 1000) - 25 / 60) / 44 * 8.76`, over the common
/// denominator `span_ms * 60 * 44 * 100`.
pub open spec fn dose_of(count: u64, span_ms: u64) -> Fraction {
    Fraction {
        num: ((count * MS_PER_SECOND * SECONDS_PER_MINUTE - BACKGROUND_PER_MINUTE * span_ms)
            * USV_PER_MR_NUM) as i128,
        den: (span_ms * SECONDS_PER_MINUTE * SENSITIVITY * USV_PER_MR_DEN) as u128,
    }
}

/// The count rate of `count` pulses over `span_ms` milliseconds, in counts
/// per minute.
pub fn counts_per_minute(count: u64, span_ms: u64) -> (cpm: Fraction)
    ensures
        cpm == cpm_of(count, span_ms),
        cpm.num == count * 60_000,
        cpm.den == span_ms,
{
    let per_minute: i128 = (MS_PER_SECOND * SECONDS_PER_MINUTE) as i128;
    Fraction { num: count as i128 * per_minute, den: span_ms as u128 }
}

/// The dose rate that `count` pulses over `span_ms` milliseconds stand for,
/// in µSv/h. It is negative where the tube counts less than its background.
pub fn dose_rate(count: u64, span_ms: u64) -> (val: Fraction)
    ensures
        val == dose_of(count, span_ms),
        val.num == (count * 60_000 - 25 * span_ms) * 876,
        val.den == span_ms * 264_000,
{
    let per_minute: i128 = (MS_PER_SECOND * SECONDS_PER_MINUTE) as i128;
    let background: i128 = BACKGROUND_PER_MINUTE as i128;
    let net: i128 = count as i128 * per_minute - background * span_ms as i128;
    let to_usv: i128 = USV_PER_MR_NUM as i128;
    let scale: u128 = (SECONDS_PER_MINUTE * SENSITIVITY * USV_PER_MR_DEN) as u128;
    Fraction { num: net * to_usv, den: span_ms as u128 * scale }
}

/// Over a window that spans some time both rates are numbers, and they are
/// the formulas of this module with the divisions cleared: the count rate is
/// `60_000 * count / span_ms`, and `60 * 44 * 100` times the dose rate is
/// `876` times the count rate less the background of 25 per minute.
pub proof fn lemma_rate_formulas(count: u64, span_ms: u64)
    requires
        span_ms > 0,
    ensures
        cpm_of(count, span_ms).is_finite(),
        dose_of(count, span_ms).is_finite(),
        cpm_of(count, span_ms).num * span_ms == 60_000 * count * cpm_of(count, span_ms).den,
        dose_of(count, span_ms).num * (60 * 44 * 100) * cpm_of(count, span_ms).den == (cpm_of(
            count,
            span_ms,
        ).num - 25 * cpm_of(count, span_ms).den) * 876 * dose_of(count, span_ms).den,
{
    let c = count as int;
    let s = span_ms as int;
    assert(cpm_of(count, span_ms).num == c * 60_000);
    assert(dose_of(count, span_ms).num == (c * 60_000 - 25 * s) * 876);
    assert(dose_of(count, span_ms).den == s * 264_000);
    assert((c * 60_000) * s == 60_000 * c * s) by (nonlinear_arith);
    assert(((c * 60_000 - 25 * s) * 876) * (60 * 44 * 100) * s == (c * 60_000 - 25 * s) * 876 * (s
        * 264_000)) by (nonlinear_arith);
}

/// The dose rate is zero exactly where the tube counts its background rate,
/// and negative exactly where it counts less.
pub proof fn lemma_dose_sign(count: u64, span_ms: u64)
    ensures
        dose_of(count, span_ms).num == 0 <==> count * 60_000 == 25 * span_ms,
        dose_of(count, span_ms).num < 0 <==> count * 60_000 < 25 * span_ms,
{
}

} // verus!
