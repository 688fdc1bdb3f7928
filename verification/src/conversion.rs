use crate::types::{Gain, IntegrationTime};
use vstd::arithmetic::div_mod::{
    lemma_div_is_ordered, lemma_div_pos_is_pos, lemma_fundamental_div_mod,
    lemma_hoist_over_denominator, lemma_mod_division_less_than_divisor,
};
use vstd::arithmetic::mul::{lemma_mul_nonnegative, lemma_mul_upper_bound};
use vstd::prelude::*;

verus! {

// The device resolves one raw count to between 0.0036 lux (gain 2,
// 800 ms) and 1.8432 lux (gain 1/8, 25 ms). All illuminance values in
// this module are integers in microlux, which represents every entry of
// the resolution table exactly.

/// The largest linear value a 16-bit reading can produce:
/// 65535 counts at 1.8432 lux per count.
pub const MAX_ALS_MICROLUX: u64 = 120_794_112_000;

/// Above this linear value (1000 lux), readings taken at 1/4 or 1/8 gain
/// are compensated for photodiode response compression.
pub const CORRECTION_THRESHOLD_MICROLUX: u64 = 1_000_000_000;

// The published compensation polynomial is
//   corrected = 6.0135e-13·lux⁴ − 9.3924e-9·lux³ + 8.1488e-5·lux² + 1.0023·lux.
// Evaluated on a value `m` in millilux, each coefficient below is the
// published one scaled so that `poly(m) / POLY_SCALE` is the corrected
// value in millilux again.

/// Scaled quartic coefficient (6.0135e-13).
pub const POLY_QUARTIC: u128 = 60_135;

/// Scaled cubic coefficient (9.3924e-9); this term is subtracted.
pub const POLY_CUBIC: u128 = 939_240_000_000;

/// Scaled square coefficient (8.1488e-5).
pub const POLY_SQUARE: u128 = 8_148_800_000_000_000_000;

/// Scaled linear coefficient (1.0023).
pub const POLY_LINEAR: u128 = 100_230_000_000_000_000_000_000_000;

/// Common denominator of the scaled coefficients.
pub const POLY_SCALE: u128 = 100_000_000_000_000_000_000_000_000;

/// How many times finer than gain 2 a gain resolves: the factor the
/// resolution is multiplied by relative to the gain-2 row of the table.
pub open spec fn spec_gain_factor(gain: Gain) -> int {
    match gain {
        Gain::Two => 1,
        Gain::One => 2,
        Gain::OneQuarter => 8,
        Gain::OneEighth => 16,
    }
}

/// The factor the resolution is multiplied by relative to the 800 ms row
/// of the table.
pub open spec fn spec_it_factor(it: IntegrationTime) -> int {
    match it {
        IntegrationTime::_800ms => 1,
        IntegrationTime::_400ms => 2,
        IntegrationTime::_200ms => 4,
        IntegrationTime::_100ms => 8,
        IntegrationTime::_50ms => 16,
        IntegrationTime::_25ms => 32,
    }
}

/// Eight times the gain as an integer: 1 for gain 1/8 up to 16 for
/// gain 2.
pub open spec fn spec_gain_times_8(gain: Gain) -> int {
    match gain {
        Gain::OneEighth => 1,
        Gain::OneQuarter => 2,
        Gain::One => 8,
        Gain::Two => 16,
    }
}

/// Whether the gain is one of the reduced settings (1/4 or 1/8) whose
/// high readings are compensated.
pub open spec fn spec_gain_is_low(gain: Gain) -> bool {
    gain is OneQuarter || gain is OneEighth
}

/// Microlux represented by one raw count at the given settings: the
/// device's published resolution table.
pub open spec fn spec_resolution_factor_microlux(it: IntegrationTime, gain: Gain) -> int {
    3600 * spec_gain_factor(gain) * spec_it_factor(it)
}

/// The uncompensated conversion: raw count times resolution factor.
pub open spec fn spec_linear_microlux(it: IntegrationTime, gain: Gain, raw: int) -> int {
    raw * spec_resolution_factor_microlux(it, gain)
}

/// The scaled compensation polynomial on a value in millilux.
pub open spec fn spec_correction_poly(m: int) -> int {
    (POLY_QUARTIC as int) * m * m * m * m - (POLY_CUBIC as int) * m * m * m + (
    POLY_SQUARE as int) * m * m + (POLY_LINEAR as int) * m
}

/// The compensated value, in microlux, of a linear value in microlux:
/// the polynomial is evaluated in millilux and the result carried back
/// to microlux.
pub open spec fn spec_corrected_microlux(linear: int) -> int {
    1000 * (spec_correction_poly(linear / 1000) / (POLY_SCALE as int))
}

/// What a raw reading measures in microlux: the linear value, except
/// that at 1/4 or 1/8 gain a linear value over the 1000 lux threshold is
/// compensated.
pub open spec fn spec_convert_microlux(it: IntegrationTime, gain: Gain, raw: int) -> int {
    let linear = spec_linear_microlux(it, gain, raw);
    if spec_gain_is_low(gain) && linear > CORRECTION_THRESHOLD_MICROLUX {
        spec_corrected_microlux(linear)
    } else {
        linear
    }
}

/// Microlux represented by one raw count at the given settings.
pub fn resolution_factor_microlux(it: IntegrationTime, gain: Gain) -> (factor: u64)
    ensures
        factor == spec_resolution_factor_microlux(it, gain),
        3600 <= factor <= 1_843_200,
{
    let by_it: u64 = match it {
        IntegrationTime::_800ms => 3600,
        IntegrationTime::_400ms => 7200,
        IntegrationTime::_200ms => 14400,
        IntegrationTime::_100ms => 28800,
        IntegrationTime::_50ms => 57600,
        IntegrationTime::_25ms => 115200,
    };
    match gain {
        Gain::Two => by_it,
        Gain::One => 2 * by_it,
        Gain::OneQuarter => 8 * by_it,
        Gain::OneEighth => 16 * by_it,
    }
}

/// Every entry of the table, spelled out so that all products fold to
/// constants.
proof fn lemma_table_cases(it: IntegrationTime, gain: Gain)
    ensures
        spec_resolution_factor_microlux(it, gain) * it.spec_ms() * spec_gain_times_8(gain)
            == 46_080_000,
        3600 <= spec_resolution_factor_microlux(it, gain) <= 1_843_200,
        spec_gain_is_low(gain) ==> spec_resolution_factor_microlux(it, gain) >= 28_800,
{
    match gain {
        Gain::Two => match it {
            IntegrationTime::_25ms => {},
            IntegrationTime::_50ms => {},
            IntegrationTime::_100ms => {},
            IntegrationTime::_200ms => {},
            IntegrationTime::_400ms => {},
            IntegrationTime::_800ms => {},
        },
        Gain::One => match it {
            IntegrationTime::_25ms => {},
            IntegrationTime::_50ms => {},
            IntegrationTime::_100ms => {},
            IntegrationTime::_200ms => {},
            IntegrationTime::_400ms => {},
            IntegrationTime::_800ms => {},
        },
        Gain::OneQuarter => match it {
            IntegrationTime::_25ms => {},
            IntegrationTime::_50ms => {},
            IntegrationTime::_100ms => {},
            IntegrationTime::_200ms => {},
            IntegrationTime::_400ms => {},
            IntegrationTime::_800ms => {},
        },
        Gain::OneEighth => match it {
            IntegrationTime::_25ms => {},
            IntegrationTime::_50ms => {},
            IntegrationTime::_100ms => {},
            IntegrationTime::_200ms => {},
            IntegrationTime::_400ms => {},
            IntegrationTime::_800ms => {},
        },
    }
}

/// Law: the resolution table scales inversely with both settings. For
/// every pair, factor · integration-time(ms) · (8 · gain) is one and the
/// same constant, so doubling the gain or the integration time halves
/// the factor. The gain-1, 100 ms baseline is 0.0576 lux per count.
pub proof fn lemma_resolution_factor_table(it: IntegrationTime, gain: Gain)
    ensures
        spec_resolution_factor_microlux(it, gain) * it.spec_ms() * spec_gain_times_8(gain)
            == 46_080_000,
        spec_resolution_factor_microlux(IntegrationTime::_100ms, Gain::One) == 57600,
        spec_resolution_factor_microlux(IntegrationTime::_100ms, Gain::Two) == 28800,
        spec_resolution_factor_microlux(IntegrationTime::_800ms, Gain::One) == 7200,
{
    lemma_table_cases(it, gain);
}

/// Bounds of the resolution table, and the finest low-gain factor.
pub proof fn lemma_factor_bounds(it: IntegrationTime, gain: Gain)
    ensures
        3600 <= spec_resolution_factor_microlux(it, gain) <= 1_843_200,
        spec_gain_is_low(gain) ==> spec_resolution_factor_microlux(it, gain) >= 28_800,
{
    lemma_table_cases(it, gain);
}

/// A 16-bit reading's linear value lies within the representable range.
pub proof fn lemma_linear_bounds(it: IntegrationTime, gain: Gain, raw: int)
    requires
        0 <= raw <= 65535,
    ensures
        0 <= spec_linear_microlux(it, gain, raw) <= MAX_ALS_MICROLUX,
{
    lemma_factor_bounds(it, gain);
    let factor = spec_resolution_factor_microlux(it, gain);
    lemma_mul_nonnegative(raw, factor);
    lemma_mul_upper_bound(raw, 65535, factor, 1_843_200);
}

/// On nonnegative millilux the polynomial sits on or above its linear
/// term: the quartic and square terms outweigh the subtracted cubic one.
proof fn lemma_poly_at_least_linear(m: int)
    requires
        0 <= m,
    ensures
        spec_correction_poly(m) >= (POLY_LINEAR as int) * m,
{
    assert(60_135 * m * m * m * m - 939_240_000_000 * m * m * m + 8_148_800_000_000_000_000 * m
        * m >= 0) by (nonlinear_arith)
        requires
            0 <= m,
    ;
}

/// Each further millilux of input raises the polynomial by at least its
/// denominator, so the scaled-down value never loses a full step.
proof fn lemma_poly_step(m: int)
    requires
        0 <= m,
    ensures
        spec_correction_poly(m + 1) >= spec_correction_poly(m) + (POLY_SCALE as int),
{
    assert(60_135 * (m + 1) * (m + 1) * (m + 1) * (m + 1) - 939_240_000_000 * (m + 1) * (m + 1) * (
    m + 1) + 8_148_800_000_000_000_000 * (m + 1) * (m + 1) + 100_230_000_000_000_000_000_000_000 * (
    m + 1) >= 60_135 * m * m * m * m - 939_240_000_000 * m * m * m + 8_148_800_000_000_000_000 * m
        * m + 100_230_000_000_000_000_000_000_000 * m + 100_000_000_000_000_000_000_000_000)
        by (nonlinear_arith)
        requires
            0 <= m,
    ;
}

/// The polynomial grows by at least one denominator per millilux over
/// any interval of nonnegative inputs.
proof fn lemma_poly_mono(m1: int, m2: int)
    requires
        0 <= m1 <= m2,
    ensures
        spec_correction_poly(m2) >= spec_correction_poly(m1) + (m2 - m1) * (POLY_SCALE as int),
    decreases m2 - m1,
{
    if m1 < m2 {
        lemma_poly_mono(m1, m2 - 1);
        lemma_poly_step(m2 - 1);
    }
}

/// The compensated value strictly exceeds any linear value over the
/// 1000 lux threshold.
proof fn lemma_corrected_exceeds_value(linear: int)
    requires
        linear > CORRECTION_THRESHOLD_MICROLUX,
    ensures
        spec_corrected_microlux(linear) > linear,
{
    let e = POLY_SCALE as int;
    let m = linear / 1000;
    let p = spec_correction_poly(m);
    lemma_div_is_ordered(1_000_000_001, linear, 1000);
    assert(m >= 1_000_000);
    lemma_poly_at_least_linear(m);
    // POLY_LINEAR * m == e * m + 2.3e23 * m, and m >= 1e6
    assert(p >= e * m + 230_000_000_000_000_000_000_000_000_000);
    // hence p / e >= m + 2300
    lemma_hoist_over_denominator(230_000_000_000_000_000_000_000_000_000, m, POLY_SCALE as nat);
    lemma_div_is_ordered(230_000_000_000_000_000_000_000_000_000 + m * e, p, e);
    assert(p / e >= m + 2300);
    // and the input itself is under 1000 * (m + 1)
    lemma_fundamental_div_mod(linear, 1000);
    lemma_mod_division_less_than_divisor(linear, 1000);
    assert(linear < 1000 * m + 1000);
}

/// Millilux steps survive the scaling division: the compensated value
/// grows by at least 1000 microlux for every whole millilux between two
/// linear values.
proof fn lemma_corrected_gap(linear1: int, linear2: int)
    requires
        0 <= linear1 <= linear2,
    ensures
        spec_corrected_microlux(linear2) - spec_corrected_microlux(linear1) >= 1000 * (linear2
            / 1000 - linear1 / 1000),
{
    let e = POLY_SCALE as int;
    let m1 = linear1 / 1000;
    let m2 = linear2 / 1000;
    lemma_div_is_ordered(linear1, linear2, 1000);
    lemma_div_pos_is_pos(linear1, 1000);
    lemma_poly_mono(m1, m2);
    let p1 = spec_correction_poly(m1);
    let p2 = spec_correction_poly(m2);
    lemma_hoist_over_denominator(p1, m2 - m1, POLY_SCALE as nat);
    lemma_div_is_ordered(p1 + (m2 - m1) * e, p2, e);
    assert(p2 / e >= p1 / e + (m2 - m1));
}

/// Law: at 1/4 or 1/8 gain, once the linear value passes the 1000 lux
/// threshold the conversion returns strictly more than
/// raw · resolution-factor would.
pub proof fn lemma_corrected_exceeds_linear(it: IntegrationTime, gain: Gain, raw: int)
    requires
        spec_gain_is_low(gain),
        0 <= raw,
        spec_linear_microlux(it, gain, raw) > CORRECTION_THRESHOLD_MICROLUX,
    ensures
        spec_convert_microlux(it, gain, raw) > spec_linear_microlux(it, gain, raw),
{
    lemma_corrected_exceeds_value(spec_linear_microlux(it, gain, raw));
}

/// Law: at full gain (1 or 2), or at or below the 1000 lux threshold, no
/// compensation is applied: the conversion is exactly linear.
pub proof fn lemma_low_lux_is_linear(it: IntegrationTime, gain: Gain, raw: int)
    requires
        !spec_gain_is_low(gain) || spec_linear_microlux(it, gain, raw)
            <= CORRECTION_THRESHOLD_MICROLUX,
    ensures
        spec_convert_microlux(it, gain, raw) == spec_linear_microlux(it, gain, raw),
{
}

/// Law: the conversion grows strictly with the raw count, whatever the
/// settings; in particular the compensated branch never flattens.
pub proof fn lemma_convert_strictly_increasing(
    it: IntegrationTime,
    gain: Gain,
    raw1: int,
    raw2: int,
)
    requires
        0 <= raw1 < raw2 <= 65535,
    ensures
        spec_convert_microlux(it, gain, raw1) < spec_convert_microlux(it, gain, raw2),
{
    lemma_factor_bounds(it, gain);
    let f = spec_resolution_factor_microlux(it, gain);
    let u1 = spec_linear_microlux(it, gain, raw1);
    let u2 = spec_linear_microlux(it, gain, raw2);
    lemma_mul_nonnegative(raw1, f);
    assert(u2 - u1 >= f) by (nonlinear_arith)
        requires
            raw1 < raw2,
            f >= 1,
            u1 == raw1 * f,
            u2 == raw2 * f,
    ;
    let threshold = CORRECTION_THRESHOLD_MICROLUX as int;
    if spec_gain_is_low(gain) {
        if u1 > threshold {
            // both values are compensated, 28.8 lux apart at least
            lemma_hoist_over_denominator(u1, 28, 1000);
            lemma_div_is_ordered(u1 + 28 * 1000, u2, 1000);
            assert(u2 / 1000 - u1 / 1000 >= 28);
            lemma_corrected_gap(u1, u2);
        } else if u2 > threshold {
            // the first value stays linear, the second is compensated
            lemma_corrected_exceeds_value(u2);
        }
    }
}

/// Law: the conversion never shrinks as the raw count grows.
pub proof fn lemma_convert_monotone(it: IntegrationTime, gain: Gain, raw1: int, raw2: int)
    requires
        0 <= raw1 <= raw2 <= 65535,
    ensures
        spec_convert_microlux(it, gain, raw1) <= spec_convert_microlux(it, gain, raw2),
{
    if raw1 < raw2 {
        lemma_convert_strictly_increasing(it, gain, raw1, raw2);
    }
}

/// Compensate a linear value over the 1000 lux threshold for photodiode
/// response compression, by the published polynomial evaluated exactly
/// in integer arithmetic.
fn correct_high_lux(linear: u64) -> (corrected: u64)
    requires
        linear <= MAX_ALS_MICROLUX,
    ensures
        corrected == spec_corrected_microlux(linear as int),
{
    let m: u128 = (linear / 1000) as u128;
    proof {
        lemma_div_is_ordered(linear as int, MAX_ALS_MICROLUX as int, 1000);
        lemma_div_pos_is_pos(linear as int, 1000);
        assert(m <= 120_794_112);
        assert(m * m <= 14_600_000_000_000_000) by (nonlinear_arith)
            requires
                0 <= m <= 120_794_112,
        ;
    }
    let m2: u128 = m * m;
    proof {
        assert(m2 * m <= 1_770_000_000_000_000_000_000_000 && m2 * m2
            <= 220_000_000_000_000_000_000_000_000_000_000) by (nonlinear_arith)
            requires
                0 <= m <= 120_794_112,
                0 <= m2 <= 14_600_000_000_000_000,
        ;
    }
    let m3: u128 = m2 * m;
    let m4: u128 = m2 * m2;
    let positive: u128 = POLY_QUARTIC * m4 + POLY_SQUARE * m2 + POLY_LINEAR * m;
    let negative: u128 = POLY_CUBIC * m3;
    proof {
        assert(60_135 * m * m * m * m - 939_240_000_000 * m * m * m + 8_148_800_000_000_000_000 * m
            * m + 100_230_000_000_000_000_000_000_000 * m == 60_135 * m4 - 939_240_000_000 * m3
            + 8_148_800_000_000_000_000 * m2 + 100_230_000_000_000_000_000_000_000 * m)
            by (nonlinear_arith)
            requires
                m2 == m * m,
                m3 == m2 * m,
                m4 == m2 * m2,
        ;
        lemma_poly_at_least_linear(m as int);
        lemma_mul_nonnegative(POLY_LINEAR as int, m as int);
        assert(positive - negative == spec_correction_poly(m as int));
    }
    let value: u128 = positive - negative;
    let scaled: u128 = value / POLY_SCALE;
    proof {
        lemma_div_is_ordered(
            value as int,
            14_000_000_000_000_000_000_000_000_000_000_000_000,
            POLY_SCALE as int,
        );
        assert(scaled <= 140_000_000_000);
    }
    (1000 * scaled) as u64
}

/// Calculate the microlux value for a raw measurement of the ambient
/// light channel.
///
/// This takes into consideration the given integration time and gain
/// and compensates the value if necessary: at 1/4 or 1/8 gain, values
/// over 1000 lux are corrected for photodiode response compression.
pub fn convert_raw_als_to_lux(it: IntegrationTime, gain: Gain, raw_als: u16) -> (lux: u64)
    ensures
        lux == spec_convert_microlux(it, gain, raw_als as int),
{
    let factor = resolution_factor_microlux(it, gain);
    proof {
        lemma_linear_bounds(it, gain, raw_als as int);
    }
    let linear: u64 = (raw_als as u64) * factor;
    let low_gain = matches!(gain, Gain::OneQuarter | Gain::OneEighth);
    if low_gain && linear > CORRECTION_THRESHOLD_MICROLUX {
        correct_high_lux(linear)
    } else {
        linear
    }
}

} // verus!
