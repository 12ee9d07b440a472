//! Q20 fixed-point arithmetic: every value is an `i64` holding
//! `round(x * 2^20)` for some real quantity `x`. Products and quotients
//! truncate toward zero, and the saturating operations keep results inside
//! `[-FX_SAT, FX_SAT]` so that downstream arithmetic can never overflow.
//!
//! The transcendental kernels (sine, cosine, base-2 exponential and
//! logarithm, square root) are polynomial or iterative approximations whose
//! exec code is mirrored exactly by spec functions, so that every caller's
//! contract can speak of the computed value in closed form. Intermediates
//! are clamped into their mathematical ranges; the clamps never bind on
//! real inputs but make the range of every value a stated fact.

use vstd::prelude::*;

verus! {

/// The fixed-point unit: 1.0 in Q20.
pub const FX_ONE: i64 = 1048576;

/// Saturation bound for samples and filter state (2^40, about 2^20 in
/// linear units — vast headroom over the nominal [-1, 1] sample range).
pub const FX_SAT: i64 = 1099511627776;

/// pi in Q20.
pub const FX_PI: i64 = 3294199;

/// pi / 2 in Q20.
pub const FX_HALF_PI: i64 = 1647099;

/// 2 * pi in Q20.
pub const FX_TWO_PI: i64 = 6588397;

/// log2(10) in Q20.
pub const FX_LOG2_10: i64 = 3483294;

/// 10 * log10(2) in Q20 (decibels per factor of two in power).
pub const FX_DB10_PER_LOG2: i64 = 3156528;

/// 20 * log10(2) in Q20 (decibels per factor of two in amplitude).
pub const FX_DB20_PER_LOG2: i64 = 6313057;

/// log2(1000) in Q20: the span of the audible band 20 Hz .. 20 kHz in
/// octaves.
pub const FX_LOG2_1000: i64 = 10449882;

/// Margin kept between |cos| and 1 so that strict stability margins
/// survive fixed-point truncation in the coefficient formulas.
pub const FX_COS_MAX: i64 = 1048512;

/// Smallest angle accepted by the trig kernel (keeps sin positive).
pub const FX_W_MIN: i64 = 100;

/// Largest angle accepted by the trig kernel (just under pi).
pub const FX_W_MAX: i64 = 3294099;

/// Truncating (round toward zero) integer division, the semantics of
/// Rust's `/` on machine integers, expressed over mathematical integers.
pub open spec fn tdiv(a: int, b: int) -> int
    recommends b > 0
{
    if a >= 0 { a / b } else { -((-a) / b) }
}

/// Clamp an integer into [lo, hi].
pub open spec fn spec_clamp(x: int, lo: int, hi: int) -> int {
    if x < lo { lo } else if x > hi { hi } else { x }
}

/// Fixed-point product truncated toward zero, then saturated.
pub open spec fn fx_mul_spec(a: int, b: int) -> int {
    spec_clamp(tdiv(a * b, FX_ONE as int), -FX_SAT as int, FX_SAT as int)
}

/// Fixed-point quotient (a / b with b positive), truncated then saturated.
pub open spec fn fx_div_spec(a: int, b: int) -> int {
    spec_clamp(tdiv(a * FX_ONE, b), -FX_SAT as int, FX_SAT as int)
}

/// Saturating sum.
pub open spec fn fx_add_spec(a: int, b: int) -> int {
    spec_clamp(a + b, -FX_SAT as int, FX_SAT as int)
}

/// Clamp a value into [lo, hi].
pub fn clamp_i64(x: i64, lo: i64, hi: i64) -> (r: i64)
    requires lo <= hi,
    ensures r == spec_clamp(x as int, lo as int, hi as int),
{
    if x < lo { lo } else if x > hi { hi } else { x }
}

/// Saturating fixed-point multiply.
pub fn fx_mul(a: i64, b: i64) -> (r: i64)
    ensures
        r == fx_mul_spec(a as int, b as int),
        -FX_SAT <= r <= FX_SAT,
{
    proof {
        assert((a as int) * (b as int) <= 0x8000000000000000 * 0x8000000000000000
            && (a as int) * (b as int) >= -(0x8000000000000000 * 0x8000000000000000))
            by (nonlinear_arith)
            requires -0x8000000000000000 <= a <= 0x7fffffffffffffff
                && -0x8000000000000000 <= b <= 0x7fffffffffffffff;
    }
    let wide: i128 = (a as i128) * (b as i128);
    let q: i128 = wide / (FX_ONE as i128);
    assert(q == tdiv(a as int * b as int, FX_ONE as int));
    if q < -(FX_SAT as i128) {
        -FX_SAT
    } else if q > FX_SAT as i128 {
        FX_SAT
    } else {
        q as i64
    }
}

/// Saturating fixed-point division by a positive divisor.
pub fn fx_div(a: i64, b: i64) -> (r: i64)
    requires b >= 1,
    ensures
        r == fx_div_spec(a as int, b as int),
        -FX_SAT <= r <= FX_SAT,
{
    let wide: i128 = (a as i128) * (FX_ONE as i128);
    let q: i128 = wide / (b as i128);
    assert(q == tdiv(a as int * FX_ONE, b as int));
    if q < -(FX_SAT as i128) {
        -FX_SAT
    } else if q > FX_SAT as i128 {
        FX_SAT
    } else {
        q as i64
    }
}

/// Saturating fixed-point addition.
pub fn fx_add(a: i64, b: i64) -> (r: i64)
    ensures
        r == fx_add_spec(a as int, b as int),
        -FX_SAT <= r <= FX_SAT,
{
    let wide: i128 = (a as i128) + (b as i128);
    if wide < -(FX_SAT as i128) {
        -FX_SAT
    } else if wide > FX_SAT as i128 {
        FX_SAT
    } else {
        wide as i64
    }
}

/// Saturating fixed-point subtraction.
pub fn fx_sub(a: i64, b: i64) -> (r: i64)
    ensures
        r == fx_add_spec(a as int, -(b as int)),
        -FX_SAT <= r <= FX_SAT,
{
    let wide: i128 = (a as i128) - (b as i128);
    if wide < -(FX_SAT as i128) {
        -FX_SAT
    } else if wide > FX_SAT as i128 {
        FX_SAT
    } else {
        wide as i64
    }
}

/// Truncating division is exact to within one divisor: the quotient
/// scaled back up lies within d of the dividend.
pub proof fn lemma_tdiv_err(y: int, d: int)
    requires d >= 1,
    ensures
        y - d < d * tdiv(y, d),
        d * tdiv(y, d) <= y + d - 1,
        y >= 0 ==> d * tdiv(y, d) <= y,
        y <= 0 ==> d * tdiv(y, d) >= y,
{
    if y >= 0 {
        vstd::arithmetic::div_mod::lemma_fundamental_div_mod(y, d);
        vstd::arithmetic::div_mod::lemma_remainder_lower(y, d);
        vstd::arithmetic::div_mod::lemma_remainder_upper(y, d);
        assert(y == d * (y / d) + y % d);
        assert(0 <= y % d < d);
    } else {
        let z = -y;
        vstd::arithmetic::div_mod::lemma_fundamental_div_mod(z, d);
        assert(z == d * (z / d) + z % d);
        assert(0 <= z % d < d);
        let q = z / d;
        assert(d * (-q) == -(d * q)) by (nonlinear_arith);
        assert(d * tdiv(y, d) == -(d * q));
    }
}

// ───────────────────────── trigonometric kernel ─────────────────────────

/// Taylor sine on [0, pi/2]: x - x^3/6 + x^5/120 - x^7/5040, clamped
/// into [0, 1]. The powers are clamped into their ranges on [0, pi/2].
pub open spec fn sin_half_spec(x: int) -> int {
    let x2 = spec_clamp(fx_mul_spec(x, x), 0, 3 * FX_ONE as int);
    let x3 = spec_clamp(fx_mul_spec(x2, x), 0, 4 * FX_ONE as int);
    let x5 = spec_clamp(fx_mul_spec(x3, x2), 0, 10 * FX_ONE as int);
    let x7 = spec_clamp(fx_mul_spec(x5, x2), 0, 24 * FX_ONE as int);
    spec_clamp(x - tdiv(x3, 6) + tdiv(x5, 120) - tdiv(x7, 5040), 0, FX_ONE as int)
}

/// Taylor cosine on [0, pi/2]: 1 - x^2/2 + x^4/24 - x^6/720, clamped
/// into [-FX_COS_MAX, FX_COS_MAX].
pub open spec fn cos_half_spec(x: int) -> int {
    let x2 = spec_clamp(fx_mul_spec(x, x), 0, 3 * FX_ONE as int);
    let x4 = spec_clamp(fx_mul_spec(x2, x2), 0, 9 * FX_ONE as int);
    let x6 = spec_clamp(fx_mul_spec(x4, x2), 0, 27 * FX_ONE as int);
    spec_clamp(
        FX_ONE as int - tdiv(x2, 2) + tdiv(x4, 24) - tdiv(x6, 720),
        -FX_COS_MAX as int,
        FX_COS_MAX as int,
    )
}

/// Sine of an angle in [0, pi], by quadrant folding.
pub open spec fn sin_pi_spec(w: int) -> int {
    if w <= FX_HALF_PI as int {
        sin_half_spec(w)
    } else {
        sin_half_spec(FX_PI as int - w)
    }
}

/// Cosine of an angle in [0, pi], by quadrant folding.
pub open spec fn cos_pi_spec(w: int) -> int {
    if w <= FX_HALF_PI as int {
        cos_half_spec(w)
    } else {
        -cos_half_spec(FX_PI as int - w)
    }
}

fn sin_cos_half(x: i64) -> (r: (i64, i64))
    requires 0 <= x <= FX_HALF_PI,
    ensures
        r.0 == sin_half_spec(x as int),
        r.1 == cos_half_spec(x as int),
        0 <= r.0 <= FX_ONE,
        -FX_COS_MAX <= r.1 <= FX_COS_MAX,
{
    let x2 = clamp_i64(fx_mul(x, x), 0, 3 * FX_ONE);
    let x3 = clamp_i64(fx_mul(x2, x), 0, 4 * FX_ONE);
    let x4 = clamp_i64(fx_mul(x2, x2), 0, 9 * FX_ONE);
    let x5 = clamp_i64(fx_mul(x3, x2), 0, 10 * FX_ONE);
    let x6 = clamp_i64(fx_mul(x4, x2), 0, 27 * FX_ONE);
    let x7 = clamp_i64(fx_mul(x5, x2), 0, 24 * FX_ONE);
    let s_raw = x - x3 / 6 + x5 / 120 - x7 / 5040;
    let c_raw = FX_ONE - x2 / 2 + x4 / 24 - x6 / 720;
    let s = clamp_i64(s_raw, 0, FX_ONE);
    let c = clamp_i64(c_raw, -FX_COS_MAX, FX_COS_MAX);
    (s, c)
}

/// Sine and cosine of an angle in [0, pi], in Q20.
pub fn fx_sin_cos(w: i64) -> (r: (i64, i64))
    requires 0 <= w <= FX_PI,
    ensures
        r.0 == sin_pi_spec(w as int),
        r.1 == cos_pi_spec(w as int),
        0 <= r.0 <= FX_ONE,
        -FX_COS_MAX <= r.1 <= FX_COS_MAX,
{
    if w <= FX_HALF_PI {
        sin_cos_half(w)
    } else {
        let (s, c) = sin_cos_half(FX_PI - w);
        (s, -c)
    }
}

/// Normalized angular frequency 2*pi*freq/rate, clamped into
/// [FX_W_MIN, FX_W_MAX] so that it always lies strictly inside (0, pi).
pub open spec fn angle_spec(freq: int, rate: int) -> int {
    spec_clamp(
        tdiv(fx_mul_spec(FX_TWO_PI as int, freq), rate),
        FX_W_MIN as int,
        FX_W_MAX as int,
    )
}

/// Compute the normalized angular frequency for a band, from its centre
/// frequency (Q20 Hz) and the sample rate (plain Hz).
pub fn fx_angle(freq: i64, rate: u32) -> (r: i64)
    requires rate >= 1,
    ensures
        r == angle_spec(freq as int, rate as int),
        FX_W_MIN <= r <= FX_W_MAX,
{
    let scaled = fx_mul(FX_TWO_PI, freq);
    let w = scaled / (rate as i64);
    assert(w == tdiv(scaled as int, rate as int));
    clamp_i64(w, FX_W_MIN, FX_W_MAX)
}

// ───────────────────────────── square root ─────────────────────────────

/// The integer square root, characterized as the unique r with
/// r^2 <= v < (r+1)^2.
pub open spec fn sqrt_floor(v: int) -> int
    recommends v >= 0
{
    choose|r: int| 0 <= r && #[trigger] (r * r) <= v < (r + 1) * (r + 1)
}

/// Any two integers satisfying the square-root characterization of the
/// same value are equal.
pub proof fn lemma_sqrt_unique(v: int, r1: int, r2: int)
    requires
        0 <= r1, r1 * r1 <= v < (r1 + 1) * (r1 + 1),
        0 <= r2, r2 * r2 <= v < (r2 + 1) * (r2 + 1),
    ensures r1 == r2,
{
    if r1 < r2 {
        assert((r1 + 1) * (r1 + 1) <= r2 * r2) by (nonlinear_arith)
            requires 0 <= r1 < r2;
    }
    if r2 < r1 {
        assert((r2 + 1) * (r2 + 1) <= r1 * r1) by (nonlinear_arith)
            requires 0 <= r2 < r1;
    }
}

/// Integer square root by bisection.
pub fn fx_isqrt(v: i64) -> (r: i64)
    requires 0 <= v <= 4000000000000,
    ensures
        r == sqrt_floor(v as int),
        0 <= r <= 2000000,
        r * r <= v < (r + 1) * (r + 1),
{
    let mut lo: i64 = 0;
    let mut hi: i64 = 2000001;
    proof {
        assert(2000001i64 * 2000001i64 > 4000000000000) by (nonlinear_arith);
    }
    while lo + 1 < hi
        invariant
            0 <= lo < hi <= 2000001,
            lo * lo <= v,
            v < hi * hi,
        decreases hi - lo,
    {
        let mid = lo + (hi - lo) / 2;
        assert(lo < mid < hi);
        proof {
            assert(mid * mid <= 2000001 * 2000001) by (nonlinear_arith)
                requires 0 <= mid <= 2000001;
        }
        if mid * mid <= v {
            lo = mid;
        } else {
            hi = mid;
        }
    }
    proof {
        let ghost l: int = lo as int;
        let ghost vv: int = v as int;
        assert((l + 1) * (l + 1) == hi * hi);
        assert(0 <= l && l * l <= vv < (l + 1) * (l + 1));
        let w = sqrt_floor(vv);
        assert(w == l) by {
            assert(exists|r: int| 0 <= r && #[trigger] (r * r) <= vv < (r + 1) * (r + 1)) by {
                assert(0 <= l && l * l <= vv < (l + 1) * (l + 1));
            };
            assert(0 <= w && w * w <= vv < (w + 1) * (w + 1));
            lemma_sqrt_unique(vv, w, l);
        };
    }
    lo
}

/// Square root of a Q20 value, in Q20: floor(sqrt(a * 2^20)).
pub open spec fn fx_sqrt_spec(a: int) -> int {
    sqrt_floor(a * FX_ONE)
}

/// Fixed-point square root for values up to about 3.8 (covers the
/// amplitude range of the shelf designs).
pub fn fx_sqrt(a: i64) -> (r: i64)
    requires 0 <= a <= 3814000,
    ensures
        r == fx_sqrt_spec(a as int),
        0 <= r <= 2000000,
        r * r <= a * FX_ONE < (r + 1) * (r + 1),
{
    fx_isqrt(a * FX_ONE)
}

// ─────────────────────── base-2 exponential kernel ──────────────────────

/// 2^k for natural k.
pub open spec fn pow2(k: nat) -> int
    decreases k
{
    if k == 0 { 1 } else { 2 * pow2((k - 1) as nat) }
}

/// 2^k is positive.
pub proof fn lemma_pow2_pos(k: nat)
    ensures pow2(k) >= 1,
    decreases k
{
    if k > 0 {
        lemma_pow2_pos((k - 1) as nat);
    }
}

/// Cubic approximation of 2^f for f in [0, 1), in Q20; accurate to about
/// 1e-4 and always inside [1, 2).
pub open spec fn exp2_frac_spec(f: int) -> int {
    let t1 = spec_clamp(fx_mul_spec(f, 83273), 0, 83273);
    let t2 = spec_clamp(fx_mul_spec(f, 235399 + t1), 0, 318672);
    let t3 = spec_clamp(fx_mul_spec(f, 729784 + t2), 0, FX_ONE as int - 1);
    FX_ONE as int + t3
}

/// 2^(z / 2^20) in Q20, for z in [-32, 32] (Q20); results saturate
/// at FX_SAT above and truncate toward zero below one ulp.
pub open spec fn exp2_spec(z: int) -> int {
    let n = z / (FX_ONE as int);
    let f = z % (FX_ONE as int);
    let p = exp2_frac_spec(f);
    if n >= 0 {
        spec_clamp(p * pow2(n as nat), 0, FX_SAT as int)
    } else {
        p / pow2((-n) as nat)
    }
}

fn exp2_frac(f: i64) -> (r: i64)
    requires 0 <= f < FX_ONE,
    ensures
        r == exp2_frac_spec(f as int),
        FX_ONE <= r < 2 * FX_ONE,
{
    let t1 = clamp_i64(fx_mul(f, 83273), 0, 83273);
    let t2 = clamp_i64(fx_mul(f, 235399 + t1), 0, 318672);
    let t3 = clamp_i64(fx_mul(f, 729784 + t2), 0, FX_ONE - 1);
    FX_ONE + t3
}

/// Base-2 exponential of a Q20 exponent in [-32, 32].
pub fn fx_exp2(z: i64) -> (r: i64)
    requires -32 * FX_ONE <= z <= 32 * FX_ONE,
    ensures
        r == exp2_spec(z as int),
        0 <= r <= FX_SAT,
{
    let (n, f) = if z >= 0 {
        (z / FX_ONE, z % FX_ONE)
    } else {
        let m = (-z - 1) / FX_ONE;
        (-m - 1, z + (m + 1) * FX_ONE)
    };
    proof {
        vstd::arithmetic::div_mod::lemma_fundamental_div_mod(z as int, FX_ONE as int);
    }
    assert(n == z as int / (FX_ONE as int));
    assert(f == z as int % (FX_ONE as int));
    let p = exp2_frac(f);
    if n >= 0 {
        let mut r: i64 = p;
        let mut i: i64 = 0;
        while i < n
            invariant
                0 <= i <= n <= 32,
                0 <= r <= FX_SAT,
                r == spec_clamp(p as int * pow2(i as nat), 0, FX_SAT as int),
                FX_ONE <= p < 2 * FX_ONE,
            decreases n - i,
        {
            proof {
                assert(pow2((i + 1) as nat) == 2 * pow2(i as nat));
                assert(p as int * (2 * pow2(i as nat)) == 2 * (p as int * pow2(i as nat)))
                    by (nonlinear_arith);
                lemma_pow2_pos(i as nat);
                assert(p as int * pow2(i as nat) >= p as int) by (nonlinear_arith)
                    requires pow2(i as nat) >= 1 && p as int >= 0;
            }
            if r > FX_SAT / 2 {
                r = FX_SAT;
            } else {
                r = r * 2;
            }
            i = i + 1;
        }
        r
    } else {
        let mut r: i64 = p;
        let mut i: i64 = 0;
        let k = -n;
        while i < k
            invariant
                0 <= i <= k <= 32,
                0 <= r < 2 * FX_ONE,
                FX_ONE <= p < 2 * FX_ONE,
                r == p as int / pow2(i as nat),
            decreases k - i,
        {
            proof {
                lemma_pow2_pos(i as nat);
                assert(pow2((i + 1) as nat) == pow2(i as nat) * 2);
                vstd::arithmetic::div_mod::lemma_div_denominator(
                    p as int, pow2(i as nat), 2);
            }
            r = r / 2;
            i = i + 1;
        }
        assert(r == p as int / pow2((-(n as int)) as nat));
        r
    }
}

/// The linear amplitude 10^(g / 40) used by the peaking and shelf designs,
/// clamped into its exact mathematical range for gains in [-20, 20] dB.
pub open spec fn amp_spec(gain: int) -> int {
    let z = spec_clamp(
        fx_mul_spec(tdiv(gain, 40), FX_LOG2_10 as int),
        -32 * FX_ONE as int,
        32 * FX_ONE as int,
    );
    spec_clamp(exp2_spec(z), 331000, 3320000)
}

/// Compute 10^(gain/40) in Q20 for a gain in dB (Q20).
pub fn fx_amp(gain: i64) -> (r: i64)
    ensures
        r == amp_spec(gain as int),
        331000 <= r <= 3320000,
{
    let e = gain / 40;
    assert(e == tdiv(gain as int, 40));
    let z = clamp_i64(fx_mul(e, FX_LOG2_10), -32 * FX_ONE, 32 * FX_ONE);
    let a = fx_exp2(z);
    clamp_i64(a, 331000, 3320000)
}

/// 10^(db / 20) in Q20: decibels to linear gain, with the input clamped
/// to [-60, 20] dB and the output into [0, 16].
pub open spec fn db_to_linear_spec(db: int) -> int {
    let c = spec_clamp(db, -60 * FX_ONE as int, 20 * FX_ONE as int);
    let z = spec_clamp(
        fx_mul_spec(tdiv(c, 20), FX_LOG2_10 as int),
        -32 * FX_ONE as int,
        32 * FX_ONE as int,
    );
    spec_clamp(exp2_spec(z), 0, 16 * FX_ONE as int)
}

/// Convert a gain in dB (Q20) to a linear factor (Q20).
pub fn fx_db_to_linear(db: i64) -> (r: i64)
    ensures
        r == db_to_linear_spec(db as int),
        0 <= r <= 16 * FX_ONE,
{
    let c = clamp_i64(db, -60 * FX_ONE, 20 * FX_ONE);
    let e = c / 20;
    assert(e == tdiv(c as int, 20));
    let z = clamp_i64(fx_mul(e, FX_LOG2_10), -32 * FX_ONE, 32 * FX_ONE);
    let a = fx_exp2(z);
    clamp_i64(a, 0, 16 * FX_ONE)
}

// ───────────────────────── base-2 logarithm kernel ──────────────────────

/// Count of halvings needed to bring v below 2 * FX_ONE.
pub open spec fn norm_down_steps(v: int) -> nat
    recommends v >= 1
    decreases v when v >= 1
{
    if v >= 2 * FX_ONE as int { 1 + norm_down_steps(v / 2) } else { 0 }
}

/// Count of doublings needed to bring v up to FX_ONE.
pub open spec fn norm_up_steps(v: int) -> nat
    recommends 1 <= v
    decreases 2 * FX_ONE as int - v when 1 <= v
{
    if 1 <= v < FX_ONE as int { 1 + norm_up_steps(2 * v) } else { 0 }
}

/// The normalized mantissa after shifting v into [FX_ONE, 2 * FX_ONE).
pub open spec fn norm_mantissa(v: int) -> int
    recommends v >= 1
    decreases v when v >= 1
{
    if v >= 2 * FX_ONE as int {
        norm_mantissa(v / 2)
    } else if v < FX_ONE as int {
        norm_mantissa_up(v)
    } else {
        v
    }
}

/// Helper for norm_mantissa on the upward side.
pub open spec fn norm_mantissa_up(v: int) -> int
    recommends 1 <= v
    decreases 2 * FX_ONE as int - v when 1 <= v
{
    if 1 <= v < FX_ONE as int { norm_mantissa_up(2 * v) } else { v }
}

/// Fractional bits of log2 of a mantissa in [FX_ONE, 2*FX_ONE), extracted
/// by k successive squarings (each contributing one binary digit).
pub open spec fn log2_frac_spec(m: int, k: nat, add: int) -> int
    decreases k
{
    if k == 0 {
        0
    } else {
        let t = spec_clamp(fx_mul_spec(m, m), FX_ONE as int, 4 * FX_ONE as int - 4);
        if t >= 2 * FX_ONE as int {
            add + log2_frac_spec(t / 2, (k - 1) as nat, add / 2)
        } else {
            log2_frac_spec(t, (k - 1) as nat, add / 2)
        }
    }
}

/// log2(v / 2^20) in Q20 for v >= 1, to 20 fractional bits.
pub open spec fn log2_spec(v: int) -> int {
    let e = norm_down_steps(v) as int - norm_up_steps(v) as int;
    let m = norm_mantissa(v);
    e * FX_ONE as int + log2_frac_spec(m, 20, FX_ONE as int / 2)
}

/// Base-2 logarithm of a positive Q20 value, in Q20.
pub fn fx_log2(v: i64) -> (r: i64)
    requires 1 <= v,
    ensures
        r == log2_spec(v as int),
        -21 * FX_ONE <= r <= 64 * FX_ONE,
{
    let mut m: i64 = v;
    let mut e: i64 = 0;
    proof {
        assert(pow2(0) == 1);
    }
    while m >= 2 * FX_ONE
        invariant
            1 <= m <= v,
            0 <= e <= 62,
            m as int * pow2(e as nat) <= v as int,
            e > 0 ==> m >= FX_ONE,
            e == 0 ==> m == v,
            norm_down_steps(v as int) == e + norm_down_steps(m as int),
            norm_mantissa(v as int) == norm_mantissa(m as int),
        decreases m,
    {
        proof {
            lemma_pow2_pos(e as nat);
            assert(norm_down_steps(m as int) == 1 + norm_down_steps(m as int / 2));
            assert(norm_mantissa(m as int) == norm_mantissa(m as int / 2));
            assert(pow2((e + 1) as nat) == 2 * pow2(e as nat));
            assert((m as int / 2) * (2 * pow2(e as nat)) <= m as int * pow2(e as nat))
                by (nonlinear_arith)
                requires m as int >= 1 && pow2(e as nat) >= 1;
            // e stays small: otherwise pow2 alone would exceed v
            if e >= 43 {
                lemma_pow2_mono(43, e as nat);
                assert(pow2(43) == 0x80000000000) by {
                    reveal_with_fuel(pow2, 44);
                };
                assert(m as int * pow2(e as nat) >= 2 * FX_ONE as int * 0x80000000000)
                    by (nonlinear_arith)
                    requires m as int >= 2 * FX_ONE as int && pow2(e as nat) >= 0x80000000000;
                assert(false);
            }
        }
        m = m / 2;
        e = e + 1;
    }
    if m < FX_ONE {
        proof {
            assert(e == 0);
            assert(m == v);
            assert(norm_down_steps(v as int) == 0);
            assert(norm_mantissa(v as int) == norm_mantissa_up(m as int));
        }
        while m < FX_ONE
            invariant
                1 <= m < 2 * FX_ONE,
                -20 <= e <= 0,
                e < 0 ==> m as int >= pow2((-e) as nat),
                norm_down_steps(v as int) == 0,
                norm_up_steps(v as int) as int == e as int * -1 + norm_up_steps(m as int) as int,
                norm_mantissa(v as int) == norm_mantissa_up(m as int),
            decreases 2 * FX_ONE - m,
        {
            proof {
                assert(norm_up_steps(m as int) == 1 + norm_up_steps(2 * m as int));
                assert(norm_mantissa_up(m as int) == norm_mantissa_up(2 * m as int));
                assert(pow2(1nat) == 2) by {
                    reveal_with_fuel(pow2, 2);
                };
                if e < 0 {
                    assert(pow2((-(e - 1)) as nat) == 2 * pow2((-e) as nat));
                }
                if e <= -20 {
                    lemma_pow2_mono(20, (-e) as nat);
                    assert(pow2(20) == 0x100000) by {
                        reveal_with_fuel(pow2, 21);
                    };
                    assert(false);
                }
            }
            m = m * 2;
            e = e - 1;
        }
        proof {
            assert(norm_up_steps(m as int) == 0);
            assert(norm_mantissa_up(m as int) == m as int);
        }
    } else {
        proof {
            assert(norm_down_steps(m as int) == 0);
            assert(norm_mantissa(m as int) == m as int);
            assert(norm_up_steps(v as int) == 0) by {
                assert(v >= FX_ONE);
            };
        }
    }
    assert(FX_ONE <= m < 2 * FX_ONE);
    assert(norm_mantissa(v as int) == m as int);
    assert(norm_down_steps(v as int) as int - norm_up_steps(v as int) as int == e as int);

    // Extract 20 fractional bits by repeated squaring.
    let ghost m0 = m as int;
    let mut frac: i64 = 0;
    let mut add: i64 = FX_ONE / 2;
    let mut k: i64 = 20;
    while k > 0
        invariant
            0 <= k <= 20,
            FX_ONE <= m < 2 * FX_ONE,
            0 <= frac,
            frac as int <= FX_ONE as int - 2 * add as int,
            add >= 0,
            frac as int + log2_frac_spec(m as int, k as nat, add as int)
                == log2_frac_spec(m0, 20, FX_ONE as int / 2),
        decreases k,
    {
        let t = clamp_i64(fx_mul(m, m), FX_ONE, 4 * FX_ONE - 4);
        if t >= 2 * FX_ONE {
            m = t / 2;
            frac = frac + add;
        } else {
            m = t;
        }
        add = add / 2;
        k = k - 1;
    }
    assert(log2_frac_spec(m as int, 0, add as int) == 0);
    e * FX_ONE + frac
}

/// pow2 is monotone.
pub proof fn lemma_pow2_mono(a: nat, b: nat)
    requires a <= b,
    ensures pow2(a) <= pow2(b),
    decreases b
{
    if a < b {
        lemma_pow2_mono(a, (b - 1) as nat);
        lemma_pow2_pos((b - 1) as nat);
    }
}

} // verus!
