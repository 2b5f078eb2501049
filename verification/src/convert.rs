//! Conversions between color temperature in Kelvin and the device's
//! native unit.
//!
//! The device expects temperature as an integer in `[143, 344]`, related
//! to Kelvin by the affine map `unit = round(a * kelvin + b)` with
//! `a = -0.04902439` and `b = 486.1951`, clamped to the device range;
//! the reverse direction is `kelvin = round((unit - b) / a)` clamped to
//! `[2900, 7000]`. Both maps are stated here exactly, over integers, by
//! scaling the coefficients by `10^8`.

use vstd::prelude::*;

verus! {

/// `a` scaled by `-10^8`: the slope of the Kelvin-to-unit map.
pub const SLOPE_SCALED: u64 = 4902439;

/// `b` scaled by `10^8`: the offset of the Kelvin-to-unit map.
pub const OFFSET_SCALED: u64 = 48619510000;

/// Lowest temperature the device accepts, in its native unit.
pub const UNIT_MIN: u16 = 143;

/// Highest temperature the device accepts, in its native unit.
pub const UNIT_MAX: u16 = 344;

/// Lowest color temperature the light supports, in Kelvin.
pub const KELVIN_MIN: u16 = 2900;

/// Highest color temperature the light supports, in Kelvin.
pub const KELVIN_MAX: u16 = 7000;

/// The integer nearest to `n / d` (for `d > 0`), ties rounded upward.
pub open spec fn round_ratio(n: int, d: int) -> int
    recommends
        d > 0,
{
    (2 * n + d) / (2 * d)
}

/// `x` forced into `[lo, hi]`.
pub open spec fn clamp_int(x: int, lo: int, hi: int) -> int {
    if x < lo {
        lo
    } else if x > hi {
        hi
    } else {
        x
    }
}

/// The device unit for `k` Kelvin: `round(a * k + b)` clamped to the
/// device range, with the coefficients scaled by `10^8`.
pub open spec fn spec_kelvin_to_unit(k: int) -> int {
    clamp_int(
        round_ratio(OFFSET_SCALED - SLOPE_SCALED * k, 100000000),
        UNIT_MIN as int,
        UNIT_MAX as int,
    )
}

/// The Kelvin value for device unit `v`: `round((v - b) / a)` clamped to
/// the supported Kelvin range, with the coefficients scaled by `10^8`.
pub open spec fn spec_unit_to_kelvin(v: int) -> int {
    clamp_int(
        round_ratio(OFFSET_SCALED - 100000000 * v, SLOPE_SCALED as int),
        KELVIN_MIN as int,
        KELVIN_MAX as int,
    )
}

/// Converts a color temperature in Kelvin to the device's native unit.
pub fn kelvin_to_api_temp(kelvin: u16) -> (r: u16)
    ensures
        r as int == spec_kelvin_to_unit(kelvin as int),
        UNIT_MIN <= r <= UNIT_MAX,
{
    let prod: u64 = SLOPE_SCALED * (kelvin as u64);
    if prod >= OFFSET_SCALED {
        proof {
            let n = OFFSET_SCALED - SLOPE_SCALED * (kelvin as int);
            assert(2 * n + 100000000 <= 100000000);
            vstd::arithmetic::div_mod::lemma_div_is_ordered(
                2 * n + 100000000,
                100000000,
                200000000,
            );
            assert(round_ratio(n, 100000000) <= 0);
        }
        UNIT_MIN
    } else {
        let num: u64 = OFFSET_SCALED - prod;
        let r64: u64 = (2 * num + 100000000) / 200000000;
        assert(r64 as int == round_ratio(num as int, 100000000));
        if r64 < UNIT_MIN as u64 {
            UNIT_MIN
        } else if r64 > UNIT_MAX as u64 {
            UNIT_MAX
        } else {
            r64 as u16
        }
    }
}

/// Converts a temperature in the device's native unit back to Kelvin.
pub fn api_temp_to_kelvin(api_value: u16) -> (r: u16)
    ensures
        r as int == spec_unit_to_kelvin(api_value as int),
        KELVIN_MIN <= r <= KELVIN_MAX,
{
    let scaled: u64 = 100000000 * (api_value as u64);
    if scaled >= OFFSET_SCALED {
        proof {
            let n = OFFSET_SCALED - 100000000 * (api_value as int);
            assert(2 * n + SLOPE_SCALED <= SLOPE_SCALED);
            vstd::arithmetic::div_mod::lemma_div_is_ordered(
                2 * n + SLOPE_SCALED as int,
                SLOPE_SCALED as int,
                2 * SLOPE_SCALED as int,
            );
            assert(round_ratio(n, SLOPE_SCALED as int) <= 0);
        }
        KELVIN_MIN
    } else {
        let num: u64 = OFFSET_SCALED - scaled;
        let r64: u64 = (2 * num + SLOPE_SCALED) / (2 * SLOPE_SCALED);
        assert(r64 as int == round_ratio(num as int, SLOPE_SCALED as int));
        if r64 < KELVIN_MIN as u64 {
            KELVIN_MIN
        } else if r64 > KELVIN_MAX as u64 {
            KELVIN_MAX
        } else {
            r64 as u16
        }
    }
}

/// The round trip through the device unit is lossy but bounded: for
/// any supported Kelvin value, converting to the device unit and back
/// lands within half a quantization step (the unit spans about 20 K; the
/// round trip stays within 10 K) of where it started.
pub proof fn lemma_round_trip_within_quantization(k: int)
    requires
        KELVIN_MIN <= k <= KELVIN_MAX,
    ensures
        spec_unit_to_kelvin(spec_kelvin_to_unit(k)) - k <= 10,
        k - spec_unit_to_kelvin(spec_kelvin_to_unit(k)) <= 10,
{
    let n1 = OFFSET_SCALED - SLOPE_SCALED * k;
    let u = round_ratio(n1, 100000000);
    vstd::arithmetic::div_mod::lemma_fundamental_div_mod(2 * n1 + 100000000, 200000000);
    vstd::arithmetic::div_mod::lemma_mod_bound(2 * n1 + 100000000, 200000000);
    assert(UNIT_MIN <= u <= UNIT_MAX);
    assert(spec_kelvin_to_unit(k) == u);
    let n2 = OFFSET_SCALED - 100000000 * u;
    let back = round_ratio(n2, SLOPE_SCALED as int);
    vstd::arithmetic::div_mod::lemma_fundamental_div_mod(
        2 * n2 + SLOPE_SCALED,
        2 * SLOPE_SCALED as int,
    );
    vstd::arithmetic::div_mod::lemma_mod_bound(2 * n2 + SLOPE_SCALED, 2 * SLOPE_SCALED as int);
    assert(KELVIN_MIN <= back <= KELVIN_MAX);
    assert(spec_unit_to_kelvin(u) == back);
}

} // verus!
