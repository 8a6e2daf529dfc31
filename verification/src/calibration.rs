//! From raw counts to physical units.
//!
//! Both calibrations are pure: the result depends on the raw count and the
//! constants alone. Results are rounded to the nearest hundredth, a tie going
//! up.

use crate::measure::Measure;
use vstd::prelude::*;

verus! {

/// Hundredths in 100 %.
pub const FULL_SCALE: i32 = 10_000;

/// The accuracy divisor of the light sensor in its high-resolution mode, in
/// tenths: a raw count is 1.2 times the lux.
pub const ACCURACY_TENTHS: i32 = 12;

/// For a positive `d`: `n / d + 1 / 2`, rounded down.
pub open spec fn half_up(n: int, d: int) -> int
    recommends
        d > 0,
{
    (n + n + d) / (d + d)
}

/// `n / d` rounded to the nearest integer, a tie going up.
pub open spec fn rounded_quotient(n: int, d: int) -> int
    recommends
        d != 0,
{
    if d > 0 {
        half_up(n, d)
    } else {
        half_up(-n, -d)
    }
}

/// `x` brought into `lo ..= hi`.
pub open spec fn clamped(x: int, lo: int, hi: int) -> int
    recommends
        lo <= hi,
{
    if x < lo {
        lo
    } else if x > hi {
        hi
    } else {
        x
    }
}

/// The soil moisture, in hundredths of a percent, that the raw count `raw`
/// stands for when `wet` is the count in water and `dry` the count in air:
/// the share `(dry - raw) / (dry - wet)` as a percentage, rounded to the
/// hundredth and brought into 0 to 100.
pub open spec fn moisture_hundredths(raw: int, wet: int, dry: int) -> int
    recommends
        wet != dry,
{
    clamped(rounded_quotient(10_000 * (dry - raw), dry - wet), 0, 10_000)
}

/// The light intensity, in hundredths of a lux, that the register value `raw`
/// stands for: `raw / 1.2`, which is `raw * 1000 / 12` hundredths, rounded to
/// the hundredth.
pub open spec fn light_hundredths(raw: int) -> int {
    half_up(raw * 1000, 12)
}

/// For a positive divisor the rounded quotient `q` is the one integer with
/// `2 * d * q <= 2 * n + d < 2 * d * (q + 1)`.
pub proof fn lemma_rounded_quotient_bounds(n: int, d: int)
    requires
        d > 0,
    ensures
        2 * d * rounded_quotient(n, d) <= 2 * n + d < 2 * d * (rounded_quotient(n, d) + 1),
{
    let q = (n + n + d) / (d + d);
    assert(2 * d * q <= 2 * n + d < 2 * d * (q + 1)) by (nonlinear_arith)
        requires
            d > 0,
            q == (n + n + d) / (d + d),
    ;
}

/// Any integer that meets the two bounds is the rounded quotient.
pub proof fn lemma_rounded_quotient_unique(n: int, d: int, q: int)
    requires
        d > 0,
        2 * d * q <= 2 * n + d < 2 * d * (q + 1),
    ensures
        rounded_quotient(n, d) == q,
{
    let r = (n + n + d) / (d + d);
    assert(r == q) by (nonlinear_arith)
        requires
            d > 0,
            r == (n + n + d) / (d + d),
            2 * d * q <= 2 * n + d < 2 * d * (q + 1),
    ;
}

/// Swapping the signs of both sides leaves the rounded quotient as it is.
pub proof fn lemma_rounded_quotient_negated(n: int, d: int)
    requires
        d != 0,
    ensures
        rounded_quotient(-n, -d) == rounded_quotient(n, d),
{
    assert(-(-n) == n && -(-d) == d);
}

/// With a positive divisor the rounded quotient does not fall when the
/// dividend grows.
pub proof fn lemma_rounded_quotient_monotone(n1: int, n2: int, d: int)
    requires
        d > 0,
        n1 <= n2,
    ensures
        rounded_quotient(n1, d) <= rounded_quotient(n2, d),
{
    lemma_rounded_quotient_bounds(n1, d);
    lemma_rounded_quotient_bounds(n2, d);
    let q1 = rounded_quotient(n1, d);
    let q2 = rounded_quotient(n2, d);
    assert(q1 <= q2) by (nonlinear_arith)
        requires
            d > 0,
            n1 <= n2,
            2 * d * q1 <= 2 * n1 + d,
            2 * n2 + d < 2 * d * (q2 + 1),
    ;
}

/// A dividend that is a multiple of the divisor is divided exactly.
pub proof fn lemma_rounded_quotient_exact(k: int, d: int)
    requires
        d > 0,
    ensures
        rounded_quotient(k * d, d) == k,
{
    assert(2 * d * k <= 2 * (k * d) + d < 2 * d * (k + 1)) by (nonlinear_arith)
        requires
            d > 0,
    ;
    lemma_rounded_quotient_unique(k * d, d, k);
}

/// Soil moisture never leaves 0 to 100 %, whatever the count and the bounds.
pub proof fn law_moisture_in_range(raw: int, wet: int, dry: int)
    ensures
        0 <= moisture_hundredths(raw, wet, dry) <= 10_000,
{
}

/// With the wet bound below the dry bound, a higher count never stands for
/// more moisture: between the bounds and beyond them.
pub proof fn law_moisture_monotone(lower: int, higher: int, wet: int, dry: int)
    requires
        wet < dry,
        lower <= higher,
    ensures
        moisture_hundredths(lower, wet, dry) >= moisture_hundredths(higher, wet, dry),
{
    assert(10_000 * (dry - higher) <= 10_000 * (dry - lower));
    lemma_rounded_quotient_monotone(
        10_000 * (dry - higher),
        10_000 * (dry - lower),
        dry - wet,
    );
}

/// From the wet bound to the dry bound the soil moisture never rises with the
/// count, and it stays within 0 to 100 %.
pub proof fn law_moisture_falls_between_bounds(lower: int, higher: int, wet: int, dry: int)
    requires
        wet <= lower <= higher <= dry,
    ensures
        moisture_hundredths(lower, wet, dry) >= moisture_hundredths(higher, wet, dry),
        0 <= moisture_hundredths(higher, wet, dry) <= 10_000,
        0 <= moisture_hundredths(lower, wet, dry) <= 10_000,
{
    if wet < dry {
        law_moisture_monotone(lower, higher, wet, dry);
    }
}

/// With the bounds the other way round, a higher count never stands for less
/// moisture.
pub proof fn law_moisture_monotone_inverted(lower: int, higher: int, wet: int, dry: int)
    requires
        dry < wet,
        lower <= higher,
    ensures
        moisture_hundredths(lower, wet, dry) <= moisture_hundredths(higher, wet, dry),
{
    lemma_rounded_quotient_negated(10_000 * (dry - lower), dry - wet);
    lemma_rounded_quotient_negated(10_000 * (dry - higher), dry - wet);
    assert(-(10_000 * (dry - lower)) <= -(10_000 * (dry - higher)));
    lemma_rounded_quotient_monotone(
        -(10_000 * (dry - lower)),
        -(10_000 * (dry - higher)),
        -(dry - wet),
    );
}

/// A count at the wet bound, or beyond it on the side away from the dry
/// bound, is exactly 100 %; a count at the dry bound, or beyond it on the
/// side away from the wet bound, is exactly 0 %.
pub proof fn law_moisture_saturates(raw: int, wet: int, dry: int)
    requires
        wet != dry,
    ensures
        wet < dry && raw <= wet ==> moisture_hundredths(raw, wet, dry) == 10_000,
        wet < dry && raw >= dry ==> moisture_hundredths(raw, wet, dry) == 0,
        dry < wet && raw >= wet ==> moisture_hundredths(raw, wet, dry) == 10_000,
        dry < wet && raw <= dry ==> moisture_hundredths(raw, wet, dry) == 0,
{
    let n = 10_000 * (dry - raw);
    let d = dry - wet;
    if d > 0 {
        lemma_rounded_quotient_exact(10_000, d);
        lemma_rounded_quotient_exact(0, d);
        assert(0 * d == 0);
        if raw <= wet {
            assert(10_000 * d <= n) by (nonlinear_arith)
                requires
                    n == 10_000 * (dry - raw),
                    d == dry - wet,
                    raw <= wet,
            ;
            lemma_rounded_quotient_monotone(10_000 * d, n, d);
        }
        if raw >= dry {
            lemma_rounded_quotient_monotone(n, 0, d);
        }
    } else {
        lemma_rounded_quotient_negated(n, d);
        lemma_rounded_quotient_exact(10_000, -d);
        lemma_rounded_quotient_exact(0, -d);
        assert(0 * (-d) == 0);
        if raw >= wet {
            assert(10_000 * (-d) <= -n) by (nonlinear_arith)
                requires
                    n == 10_000 * (dry - raw),
                    d == dry - wet,
                    raw >= wet,
            ;
            lemma_rounded_quotient_monotone(10_000 * (-d), -n, -d);
        }
        if raw <= dry {
            lemma_rounded_quotient_monotone(-n, 0, -d);
        }
    }
}

/// Between the bounds the soil moisture is the hundredth nearest to the
/// share `10000 * (dry - raw) / (dry - wet)`: the two differ by half a
/// hundredth at the most. The bound is written without the division.
pub proof fn law_moisture_nearest(raw: int, wet: int, dry: int)
    requires
        wet < dry,
        wet <= raw <= dry,
    ensures
        ({
            let pct = moisture_hundredths(raw, wet, dry);
            (2 * pct - 1) * (dry - wet) <= 20_000 * (dry - raw) < (2 * pct + 1) * (dry - wet)
        }),
{
    let n = 10_000 * (dry - raw);
    let d = dry - wet;
    let q = rounded_quotient(n, d);
    lemma_rounded_quotient_bounds(n, d);
    assert(0 <= q <= 10_000) by (nonlinear_arith)
        requires
            d > 0,
            0 <= n <= 10_000 * d,
            2 * d * q <= 2 * n + d < 2 * d * (q + 1),
    ;
    assert((2 * q - 1) * d <= 2 * n < (2 * q + 1) * d) by (nonlinear_arith)
        requires
            2 * d * q <= 2 * n + d < 2 * d * (q + 1),
    ;
}

/// The other way round: a percentage within half a hundredth of the share is
/// the soil moisture. This is how a value is checked by hand.
pub proof fn law_moisture_value(raw: int, wet: int, dry: int, pct: int)
    requires
        wet < dry,
        0 <= pct <= 10_000,
        (2 * pct - 1) * (dry - wet) <= 20_000 * (dry - raw) < (2 * pct + 1) * (dry - wet),
    ensures
        moisture_hundredths(raw, wet, dry) == pct,
{
    let n = 10_000 * (dry - raw);
    let d = dry - wet;
    assert(2 * d * pct <= 2 * n + d < 2 * d * (pct + 1)) by (nonlinear_arith)
        requires
            (2 * pct - 1) * d <= 2 * n < (2 * pct + 1) * d,
    ;
    lemma_rounded_quotient_unique(n, d, pct);
}

/// No light is zero lux.
pub proof fn law_light_origin()
    ensures
        light_hundredths(0) == 0,
{
    lemma_light_exact(0);
}

/// The light intensity follows the line of slope 1/1.2 through the origin:
/// 1.2 times the result is the raw count, to within half a hundredth.
pub proof fn law_light_slope(raw: int)
    ensures
        -6 < 12 * light_hundredths(raw) - 1000 * raw <= 6,
{
    lemma_rounded_quotient_bounds(raw * 1000, 12);
}

/// The light intensity is linear in the raw count as far as hundredths can
/// be: the result for a sum differs from the sum of the results by at most
/// one hundredth, and not at all where both counts are multiples of three.
pub proof fn law_light_linear(a: int, b: int)
    ensures
        -1 <= light_hundredths(a + b) - light_hundredths(a) - light_hundredths(b) <= 1,
        a % 3 == 0 && b % 3 == 0 ==> light_hundredths(a + b) == light_hundredths(a)
            + light_hundredths(b),
{
    law_light_slope(a);
    law_light_slope(b);
    law_light_slope(a + b);
    if a % 3 == 0 && b % 3 == 0 {
        lemma_light_exact(a / 3);
        lemma_light_exact(b / 3);
        lemma_light_exact(a / 3 + b / 3);
    }
}

/// Three raw counts are exactly two and a half lux.
pub proof fn lemma_light_exact(k: int)
    ensures
        light_hundredths(3 * k) == 250 * k,
{
    lemma_rounded_quotient_exact(250 * k, 12);
    assert((250 * k) * 12 == (3 * k) * 1000);
}

/// The soil moisture that the raw count `raw` stands for between the bounds
/// `wet` and `dry`. A count at `wet`, or beyond it, is 100 %; a count at
/// `dry`, or beyond it, is 0 %.
pub fn calibrate_moisture(raw: i16, wet: i16, dry: i16) -> (pct: Measure)
    requires
        wet != dry,
    ensures
        pct.hundredths == moisture_hundredths(raw as int, wet as int, dry as int),
        0 <= pct.hundredths <= FULL_SCALE,
        raw == wet ==> pct.hundredths == FULL_SCALE,
        raw == dry ==> pct.hundredths == 0,
{
    proof {
        law_moisture_saturates(raw as int, wet as int, dry as int);
    }
    let span: i64 = dry as i64 - wet as i64;
    let drop: i64 = dry as i64 - raw as i64;
    // The same fraction with a positive divisor.
    let d: i64 = if span > 0 {
        span
    } else {
        -span
    };
    let n: i64 = if span > 0 {
        FULL_SCALE as i64 * drop
    } else {
        -(FULL_SCALE as i64 * drop)
    };
    proof {
        if span > 0 {
        } else {
            lemma_rounded_quotient_negated(10_000 * (dry - raw), dry - wet);
        }
        assert(rounded_quotient(n as int, d as int) == rounded_quotient(
            10_000 * (dry - raw),
            dry - wet,
        ));
        lemma_rounded_quotient_bounds(n as int, d as int);
    }
    let ghost q = rounded_quotient(n as int, d as int);
    if n <= 0 {
        assert(q <= 0) by (nonlinear_arith)
            requires
                d > 0,
                n <= 0,
                2 * d * q <= 2 * n + d,
        ;
        Measure { hundredths: 0 }
    } else if n >= FULL_SCALE as i64 * d {
        assert(q >= FULL_SCALE) by (nonlinear_arith)
            requires
                d > 0,
                n >= FULL_SCALE * d,
                2 * n + d < 2 * d * (q + 1),
        ;
        Measure { hundredths: FULL_SCALE }
    } else {
        assert(0 <= q <= FULL_SCALE) by (nonlinear_arith)
            requires
                d > 0,
                0 < n < FULL_SCALE * d,
                2 * d * q <= 2 * n + d < 2 * d * (q + 1),
        ;
        let rounded: i64 = (2 * n + d) / (2 * d);
        Measure { hundredths: rounded as i32 }
    }
}

/// The light intensity that the register value `raw` stands for.
pub fn calibrate_light(raw: u16) -> (lux: Measure)
    ensures
        lux.hundredths == light_hundredths(raw as int),
{
    let n: i64 = raw as i64 * 1000;
    let d: i64 = ACCURACY_TENTHS as i64;
    let rounded: i64 = (2 * n + d) / (2 * d);
    Measure { hundredths: rounded as i32 }
}

} // verus!
