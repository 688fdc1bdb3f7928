use crate::conversion::{
    convert_raw_als_to_lux, lemma_convert_monotone, lemma_factor_bounds, resolution_factor_microlux,
    spec_convert_microlux, spec_gain_is_low, spec_linear_microlux, spec_resolution_factor_microlux,
    CORRECTION_THRESHOLD_MICROLUX,
};
use crate::types::{Gain, IntegrationTime};
use vstd::arithmetic::div_mod::{
    lemma_div_is_ordered, lemma_div_is_strictly_smaller, lemma_div_multiples_vanish_fancy,
    lemma_div_pos_is_pos, lemma_fundamental_div_mod, lemma_mod_division_less_than_divisor,
};
use vstd::arithmetic::mul::{lemma_mul_basics, lemma_mul_is_distributive_add};
use vstd::prelude::*;

verus! {

/// Division rounded half up instead of floored.
pub open spec fn spec_round_div(x: int, d: int) -> int {
    (x + d / 2) / d
}

/// The raw threshold value when no compensation is involved: the
/// microlux target divided by the resolution factor, rounded, and
/// clamped to the 16-bit register range.
pub open spec fn spec_threshold_linear(it: IntegrationTime, gain: Gain, lux: int) -> int {
    let rounded = spec_round_div(lux, spec_resolution_factor_microlux(it, gain));
    if rounded > 65535 {
        65535
    } else {
        rounded
    }
}

/// What the raw threshold value for a microlux target is. At gain 1 or
/// 2, or for targets at or below the 1000 lux correction threshold, it
/// is the direct rounded division. Otherwise the compensation must be
/// inverted: the value is the least raw count whose compensated
/// conversion reaches the target, or the register maximum when none
/// does.
pub open spec fn spec_is_raw_threshold(
    it: IntegrationTime,
    gain: Gain,
    lux: int,
    raw: int,
) -> bool {
    if !spec_gain_is_low(gain) || lux <= CORRECTION_THRESHOLD_MICROLUX {
        raw == spec_threshold_linear(it, gain, lux)
    } else {
        &&& (spec_convert_microlux(it, gain, raw) >= lux || raw == 65535)
        &&& forall|r: int| 0 <= r < raw ==> #[trigger] spec_convert_microlux(it, gain, r) < lux
    }
}

/// Calculate the raw register value for a threshold given in microlux,
/// applying compensation if necessary.
///
/// This takes into consideration the given integration time and gain.
/// For targets over 1000 lux at 1/4 or 1/8 gain, the compensation
/// polynomial is inverted by a bounded search for the least raw count
/// that reaches the target; everywhere else the target is divided by
/// the resolution factor directly, rounding to the nearest count. The
/// result is clamped to the 16-bit register range.
pub fn calculate_raw_threshold_value(it: IntegrationTime, gain: Gain, lux: u64) -> (raw: u16)
    ensures
        spec_is_raw_threshold(it, gain, lux as int, raw as int),
{
    let low_gain = matches!(gain, Gain::OneQuarter | Gain::OneEighth);
    if !low_gain || lux <= CORRECTION_THRESHOLD_MICROLUX {
        let factor = resolution_factor_microlux(it, gain);
        let q = lux / factor;
        let r = lux % factor;
        let half = factor / 2;
        proof {
            lemma_round_div_parts(lux as int, factor as int);
        }
        if q >= 65535 {
            proof {
                lemma_div_is_ordered(lux as int, lux as int + (factor / 2) as int, factor as int);
            }
            65535
        } else {
            if r >= factor - half {
                (q + 1) as u16
            } else {
                q as u16
            }
        }
    } else {
        let top = convert_raw_als_to_lux(it, gain, 65535);
        if top < lux {
            proof {
                assert forall|r: int| 0 <= r < 65535 implies #[trigger] spec_convert_microlux(
                    it,
                    gain,
                    r,
                ) < lux by {
                    lemma_convert_monotone(it, gain, r, 65535);
                }
            }
            65535
        } else {
            let mut lo: u32 = 0;
            let mut hi: u32 = 65535;
            while lo < hi
                invariant
                    lo <= hi <= 65535,
                    spec_convert_microlux(it, gain, hi as int) >= lux,
                    forall|r: int|
                        0 <= r < lo ==> #[trigger] spec_convert_microlux(it, gain, r) < lux,
                decreases hi - lo,
            {
                let mid: u32 = lo + (hi - lo) / 2;
                let value = convert_raw_als_to_lux(it, gain, mid as u16);
                if value >= lux {
                    hi = mid;
                } else {
                    proof {
                        assert forall|r: int| 0 <= r <= mid as int implies #[trigger]
                        spec_convert_microlux(it, gain, r) < lux by {
                            lemma_convert_monotone(it, gain, r, mid as int);
                        }
                    }
                    lo = mid + 1;
                }
            }
            lo as u16
        }
    }
}

/// How the floored quotient and remainder make up the rounded division:
/// the round-half-up quotient is the floored one, plus one when the
/// remainder reaches half the divisor.
proof fn lemma_round_div_parts(x: int, d: int)
    requires
        0 <= x,
        2 <= d,
    ensures
        x % d >= d - d / 2 ==> spec_round_div(x, d) == x / d + 1,
        x % d < d - d / 2 ==> spec_round_div(x, d) == x / d,
        spec_round_div(x, d) >= x / d,
{
    let q = x / d;
    let r = x % d;
    let h = d / 2;
    lemma_fundamental_div_mod(x, d);
    lemma_mod_division_less_than_divisor(x, d);
    lemma_div_pos_is_pos(x, d);
    lemma_div_is_strictly_smaller(d, 2);
    lemma_div_pos_is_pos(d, 2);
    if r >= d - h {
        assert(d * (q + 1) == d * q + d) by {
            lemma_mul_is_distributive_add(d, q, 1);
            lemma_mul_basics(d);
        }
        lemma_div_multiples_vanish_fancy(q + 1, r + h - d, d);
        assert(x + h == d * (q + 1) + (r + h - d));
    } else {
        lemma_div_multiples_vanish_fancy(q, r + h, d);
        assert(x + h == d * q + (r + h));
    }
}

/// Law: at gain 1 or 2 the conversion applies no compensation, and
/// inverting it recovers the raw count exactly: converting a count to
/// microlux and that value back to a threshold is the identity.
pub proof fn lemma_raw_lux_round_trip(it: IntegrationTime, gain: Gain, raw: int)
    requires
        gain is One || gain is Two,
        0 <= raw <= 65535,
    ensures
        spec_convert_microlux(it, gain, raw) == spec_linear_microlux(it, gain, raw),
        spec_is_raw_threshold(it, gain, spec_convert_microlux(it, gain, raw), raw),
{
    lemma_factor_bounds(it, gain);
    let f = spec_resolution_factor_microlux(it, gain);
    let u = spec_linear_microlux(it, gain, raw);
    lemma_div_is_strictly_smaller(f, 2);
    lemma_div_pos_is_pos(f, 2);
    assert(u == f * raw) by (nonlinear_arith)
        requires
            u == raw * f,
    ;
    lemma_div_multiples_vanish_fancy(raw, f / 2, f);
    assert(spec_round_div(u, f) == raw);
}

/// Law: at 1/4 or 1/8 gain a target at or below the 1000 lux threshold
/// inverts by direct division, exactly as at full gain: nothing else is
/// a valid result for it.
pub proof fn lemma_low_threshold_divides_directly(it: IntegrationTime, gain: Gain, lux: int)
    requires
        spec_gain_is_low(gain),
        lux <= CORRECTION_THRESHOLD_MICROLUX,
    ensures
        forall|raw: int|
            spec_is_raw_threshold(it, gain, lux, raw) <==> raw == spec_threshold_linear(
                it,
                gain,
                lux,
            ),
{
}

} // verus!
