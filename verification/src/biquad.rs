//! One second-order filter section in Direct-Form II Transposed, with its
//! coefficient design following the standard closed-form recipes for
//! peaking, low/high pass, shelving, bandpass and notch responses.
//!
//! Coefficients are designed from a band description (centre frequency,
//! gain, Q, type) at a given sample rate, normalized by the raw `a0`, and
//! written in place without touching the two state registers — preserving
//! state across retunes is what keeps live parameter changes click-free.

use vstd::prelude::*;
use crate::fixed::{
    FX_ONE, FX_SAT, FX_COS_MAX, FX_W_MIN, FX_W_MAX,
    tdiv, spec_clamp, fx_mul_spec, fx_div_spec, fx_add_spec,
    clamp_i64, fx_mul, fx_div, fx_add, fx_sub,
    sin_pi_spec, cos_pi_spec, fx_sin_cos, angle_spec, fx_angle,
    fx_sqrt_spec, fx_sqrt, amp_spec, fx_amp,
};
use crate::eq::{FilterType, FilterNode};

verus! {

/// Largest alpha value (sin/(2*Q) with Q clamped at 0.1): about 5.01.
pub const ALPHA_MAX: i64 = 5252880;

/// Bounds kept on sqrt(A) for the shelf designs.
pub const SQRT_A_MIN: i64 = 589000;
pub const SQRT_A_MAX: i64 = 1866000;

/// Cap on the product sqrt(A) * alpha.
pub const SQRT_A_ALPHA_MAX: i64 = 9350000;

/// One biquad section: normalized coefficients and the two Direct-Form II
/// Transposed state registers.
#[derive(Clone, Debug)]
pub struct Biquad {
    pub b0: i64,
    pub b1: i64,
    pub b2: i64,
    pub a1: i64,
    pub a2: i64,
    pub z1: i64,
    pub z2: i64,
}

impl Biquad {
    /// State registers stay inside the saturation range.
    pub open spec fn wf(self) -> bool {
        -FX_SAT <= self.z1 <= FX_SAT && -FX_SAT <= self.z2 <= FX_SAT
    }

    /// A fresh section: zero state, identity-like coefficients.
    pub open spec fn zero_spec() -> Biquad {
        Biquad { b0: FX_ONE, b1: 0, b2: 0, a1: 0, a2: 0, z1: 0, z2: 0 }
    }

    pub fn zeroed() -> (r: Biquad)
        ensures r == Biquad::zero_spec(), r.wf(),
    {
        Biquad { b0: FX_ONE, b1: 0, b2: 0, a1: 0, a2: 0, z1: 0, z2: 0 }
    }
}

/// alpha = sin(w0) / (2 Q), clamped positive.
pub open spec fn alpha_spec(sinw: int, q: int) -> int {
    spec_clamp(fx_div_spec(sinw, 2 * q), 1, ALPHA_MAX as int)
}

/// sqrt(A) clamped into the range it takes for A in [10^-0.5, 10^0.5].
pub open spec fn sqrt_amp_spec(amp: int) -> int {
    spec_clamp(fx_sqrt_spec(amp), SQRT_A_MIN as int, SQRT_A_MAX as int)
}

/// The raw (unnormalized) coefficients (b0, b1, b2, a0, a1, a2) of one
/// section, as functions of cos(w0), alpha and the linear amplitude A.
pub open spec fn raw_coeffs_spec(ft: FilterType, c: int, alpha: int, amp: int)
    -> (int, int, int, int, int, int)
{
    match ft {
        FilterType::Peaking => {
            let aa = spec_clamp(fx_mul_spec(alpha, amp), 1, FX_SAT as int);
            let ad = spec_clamp(fx_div_spec(alpha, amp), 1, FX_SAT as int);
            (FX_ONE as int + aa, -2 * c, FX_ONE as int - aa,
             FX_ONE as int + ad, -2 * c, FX_ONE as int - ad)
        }
        FilterType::LowPass => {
            let g = FX_ONE as int - c;
            (tdiv(g, 2), g, tdiv(g, 2),
             FX_ONE as int + alpha, -2 * c, FX_ONE as int - alpha)
        }
        FilterType::HighPass => {
            let g = FX_ONE as int + c;
            (tdiv(g, 2), -g, tdiv(g, 2),
             FX_ONE as int + alpha, -2 * c, FX_ONE as int - alpha)
        }
        FilterType::LowShelf => {
            let s2 = spec_clamp(fx_mul_spec(sqrt_amp_spec(amp), alpha), 1, SQRT_A_ALPHA_MAX as int);
            let ap1 = amp + FX_ONE as int;
            let am1 = amp - FX_ONE as int;
            let cp = fx_mul_spec(ap1, c);
            let cm = fx_mul_spec(am1, c);
            let mb = ap1 - cm;
            let ma = ap1 + cm;
            (fx_mul_spec(amp, mb + 2 * s2), 2 * fx_mul_spec(amp, am1 - cp),
             fx_mul_spec(amp, mb - 2 * s2),
             ma + 2 * s2, -2 * (am1 + cp), ma - 2 * s2)
        }
        FilterType::HighShelf => {
            let s2 = spec_clamp(fx_mul_spec(sqrt_amp_spec(amp), alpha), 1, SQRT_A_ALPHA_MAX as int);
            let ap1 = amp + FX_ONE as int;
            let am1 = amp - FX_ONE as int;
            let cp = fx_mul_spec(ap1, c);
            let cm = fx_mul_spec(am1, c);
            let mb = ap1 + cm;
            let ma = ap1 - cm;
            (fx_mul_spec(amp, mb + 2 * s2), -2 * fx_mul_spec(amp, am1 + cp),
             fx_mul_spec(amp, mb - 2 * s2),
             ma + 2 * s2, 2 * (am1 - cp), ma - 2 * s2)
        }
        FilterType::BandPass => {
            (alpha, 0, -alpha,
             FX_ONE as int + alpha, -2 * c, FX_ONE as int - alpha)
        }
        FilterType::Notch => {
            (FX_ONE as int, -2 * c, FX_ONE as int,
             FX_ONE as int + alpha, -2 * c, FX_ONE as int - alpha)
        }
    }
}

/// The normalized coefficients (b0, b1, b2, a1, a2) a section is retuned
/// to for a band description and sample rate.
pub open spec fn design_spec(f: FilterNode, rate: int) -> (int, int, int, int, int) {
    let w = angle_spec(f.freq as int, rate);
    let s = sin_pi_spec(w);
    let c = cos_pi_spec(w);
    let alpha = alpha_spec(s, f.q as int);
    let amp = amp_spec(f.gain as int);
    let raw = raw_coeffs_spec(f.filter_type, c, alpha, amp);
    (fx_div_spec(raw.0, raw.3), fx_div_spec(raw.1, raw.3), fx_div_spec(raw.2, raw.3),
     fx_div_spec(raw.4, raw.3), fx_div_spec(raw.5, raw.3))
}

/// |fx_mul_spec(x, c)| <= |x| when |c| <= 1, and the product is then the
/// bare truncated product (the saturation clamp cannot bind).
pub proof fn lemma_fx_mul_small(x: int, c: int)
    requires
        -FX_SAT <= x <= FX_SAT,
        -FX_ONE <= c <= FX_ONE,
    ensures
        fx_mul_spec(x, c) == tdiv(x * c, FX_ONE as int),
        -(if x >= 0 { x } else { -x }) <= fx_mul_spec(x, c) <= (if x >= 0 { x } else { -x }),
{
    let ax = if x >= 0 { x } else { -x };
    assert(-(ax * FX_ONE) <= x * c <= ax * FX_ONE) by (nonlinear_arith)
        requires -FX_ONE <= c <= FX_ONE && (x >= 0 ==> ax == x) && (x < 0 ==> ax == -x)
            && ax >= 0;
    if x * c >= 0 {
        assert(tdiv(x * c, FX_ONE as int) == (x * c) / (FX_ONE as int));
        assert((x * c) / (FX_ONE as int) <= (ax * FX_ONE) / (FX_ONE as int)) by {
            vstd::arithmetic::div_mod::lemma_div_is_ordered(x * c, ax * FX_ONE, FX_ONE as int);
        };
        assert((ax * FX_ONE) / (FX_ONE as int) == ax) by {
            vstd::arithmetic::div_mod::lemma_div_by_multiple(ax, FX_ONE as int);
        };
        assert((x * c) / (FX_ONE as int) >= 0) by {
            vstd::arithmetic::div_mod::lemma_div_pos_is_pos(x * c, FX_ONE as int);
        };
    } else {
        assert(tdiv(x * c, FX_ONE as int) == -((-(x * c)) / (FX_ONE as int)));
        assert((-(x * c)) / (FX_ONE as int) <= (ax * FX_ONE) / (FX_ONE as int)) by {
            vstd::arithmetic::div_mod::lemma_div_is_ordered(-(x * c), ax * FX_ONE, FX_ONE as int);
        };
        assert((ax * FX_ONE) / (FX_ONE as int) == ax) by {
            vstd::arithmetic::div_mod::lemma_div_by_multiple(ax, FX_ONE as int);
        };
        assert((-(x * c)) / (FX_ONE as int) >= 0) by {
            vstd::arithmetic::div_mod::lemma_div_pos_is_pos(-(x * c), FX_ONE as int);
        };
    }
}

/// Stability of the designed denominator: for any band description within
/// its parameter bounds, the normalized feedback coefficients satisfy
/// |a1| < 2 and |a2| < 1 — every designed section lies strictly inside
/// the stability triangle of second-order filters.
pub proof fn lemma_design_stable(f: FilterNode, rate: int)
    requires f.wf(), rate >= 1,
    ensures
        ({
            let na1 = (design_spec(f, rate)).3;
            let na2 = (design_spec(f, rate)).4;
            (-2 * FX_ONE as int) < na1 && na1 < 2 * FX_ONE as int
                && (-FX_ONE as int) < na2 && na2 < FX_ONE as int
        }),
{
    let w = angle_spec(f.freq as int, rate);
    let s = sin_pi_spec(w);
    let c = cos_pi_spec(w);
    let alpha = alpha_spec(s, f.q as int);
    let amp = amp_spec(f.gain as int);
    let raw = raw_coeffs_spec(f.filter_type, c, alpha, amp);
    let a0 = raw.3;
    let a1 = raw.4;
    let a2 = raw.5;
    assert(-FX_COS_MAX as int <= c <= FX_COS_MAX as int) by {
        lemma_sin_cos_range(w);
    };
    assert(1 <= alpha <= ALPHA_MAX as int);
    assert(331000 <= amp <= 3320000);

    // establish a0 >= 1, |a1| < 2 a0 and |a2| < a0, per filter type
    match f.filter_type {
        FilterType::Peaking => {
            let ad = spec_clamp(fx_div_spec(alpha, amp), 1, FX_SAT as int);
            assert(a0 == FX_ONE as int + ad && a2 == FX_ONE as int - ad && a1 == -2 * c);
            assert(1 <= ad);
            lemma_stable_from_margins(a0, a1, a2);
        }
        FilterType::LowPass | FilterType::HighPass | FilterType::BandPass
            | FilterType::Notch => {
            assert(a0 == FX_ONE as int + alpha && a2 == FX_ONE as int - alpha
                && a1 == -2 * c);
            lemma_stable_from_margins(a0, a1, a2);
        }
        FilterType::LowShelf => {
            lemma_shelf_stable(c, alpha, amp, false);
            lemma_stable_from_margins(a0, a1, a2);
        }
        FilterType::HighShelf => {
            lemma_shelf_stable(c, alpha, amp, true);
            lemma_stable_from_margins(a0, a1, a2);
        }
    }
}

/// From the integer margins |a1| < 2 a0 and |a2| < a0 (a0 >= 1), the
/// normalized coefficients stay strictly inside the stability bounds.
proof fn lemma_stable_from_margins(a0: int, a1: int, a2: int)
    requires
        a0 >= 1,
        -2 * a0 < a1 < 2 * a0,
        -a0 < a2 < a0,
    ensures
        (-2 * FX_ONE as int) < fx_div_spec(a1, a0) < 2 * FX_ONE as int,
        (-FX_ONE as int) < fx_div_spec(a2, a0) < FX_ONE as int,
{
    assert(a1 * FX_ONE < (2 * FX_ONE as int) * a0 && -((2 * FX_ONE as int) * a0) < a1 * FX_ONE)
        by (nonlinear_arith)
        requires a0 >= 1 && -2 * a0 < a1 < 2 * a0;
    assert(a2 * FX_ONE < (FX_ONE as int) * a0 && -((FX_ONE as int) * a0) < a2 * FX_ONE)
        by (nonlinear_arith)
        requires a0 >= 1 && -a0 < a2 < a0;
    lemma_tdiv_ratio_lt(a1, a0, 2 * FX_ONE as int);
    lemma_tdiv_ratio_lt(a2, a0, FX_ONE as int);
}

/// If |x| < h * d / FX then |tdiv(x * FX, d)| < h.
proof fn lemma_tdiv_ratio_lt(x: int, d: int, h: int)
    requires
        d >= 1,
        h >= 1,
        x * FX_ONE < h * d,
        -(h * d) < x * FX_ONE,
    ensures
        -h < fx_div_spec(x, d) < h,
{
    if x >= 0 {
        assert(tdiv(x * FX_ONE, d) == (x * FX_ONE) / d);
        assert((x * FX_ONE) / d < h) by {
            assert(x * FX_ONE < d * h) by (nonlinear_arith)
                requires x * FX_ONE < h * d;
            vstd::arithmetic::div_mod::lemma_multiply_divide_lt(x * FX_ONE, d, h);
        };
        assert((x * FX_ONE) / d >= 0) by {
            vstd::arithmetic::div_mod::lemma_div_pos_is_pos(x * FX_ONE, d);
        };
        assert(x * FX_ONE >= 0) by (nonlinear_arith) requires x >= 0;
    } else {
        assert(x * FX_ONE < 0) by (nonlinear_arith) requires x < 0;
        assert(tdiv(x * FX_ONE, d) == -((-(x * FX_ONE)) / d));
        assert((-(x * FX_ONE)) / d < h) by {
            assert(-(x * FX_ONE) < d * h) by (nonlinear_arith)
                requires -(h * d) < x * FX_ONE;
            vstd::arithmetic::div_mod::lemma_multiply_divide_lt(-(x * FX_ONE), d, h);
        };
        assert((-(x * FX_ONE)) / d >= 0) by {
            vstd::arithmetic::div_mod::lemma_div_pos_is_pos(-(x * FX_ONE), d);
        };
    }
}

/// The computed sine and cosine of a clamped angle stay in range.
proof fn lemma_sin_cos_range(w: int)
    ensures
        0 <= sin_pi_spec(w) <= FX_ONE as int,
        -FX_COS_MAX as int <= cos_pi_spec(w) <= FX_COS_MAX as int,
{
}

/// Margins for the shelf denominators: with |cos| bounded away from 1 and
/// the sqrt(A)*alpha term bounded away from 0, |a1| < 2 a0 and |a2| < a0.
proof fn lemma_shelf_stable(c: int, alpha: int, amp: int, high: bool)
    requires
        -FX_COS_MAX as int <= c <= FX_COS_MAX as int,
        1 <= alpha <= ALPHA_MAX as int,
        331000 <= amp <= 3320000,
    ensures
        ({
            let raw = raw_coeffs_spec(
                if high { FilterType::HighShelf } else { FilterType::LowShelf },
                c, alpha, amp);
            raw.3 >= 1 && -2 * raw.3 < raw.4 < 2 * raw.3 && -raw.3 < raw.5 < raw.3
        }),
{
    let ft = if high { FilterType::HighShelf } else { FilterType::LowShelf };
    let raw = raw_coeffs_spec(ft, c, alpha, amp);
    let s2 = spec_clamp(fx_mul_spec(sqrt_amp_spec(amp), alpha), 1, SQRT_A_ALPHA_MAX as int);
    let ap1 = amp + FX_ONE as int;
    let am1 = amp - FX_ONE as int;
    let cp = fx_mul_spec(ap1, c);
    let cm = fx_mul_spec(am1, c);
    // the effective cosine for the denominator: +c for low shelf, -c for high
    let ce = if high { -c } else { c };
    let cpe = if high { -cp } else { cp };
    let cme = if high { -cm } else { cm };
    let ma = ap1 + cme;
    assert(raw.3 == ma + 2 * s2 && raw.5 == ma - 2 * s2);
    // raw.4 is -2*(am1 + cpe) for the low shelf and +2*(am1 + cpe) for
    // the high shelf; the bound below covers both signs.
    assert(raw.4 == -2 * (am1 + cpe) || raw.4 == 2 * (am1 + cpe));
    lemma_fx_mul_small(ap1, c);
    lemma_fx_mul_small(am1, c);
    assert(cp == tdiv(ap1 * c, FX_ONE as int));
    assert(cm == tdiv(am1 * c, FX_ONE as int));
    crate::fixed::lemma_tdiv_err(ap1 * c, FX_ONE as int);
    crate::fixed::lemma_tdiv_err(am1 * c, FX_ONE as int);
    assert((cpe * FX_ONE as int - ap1 * ce) < FX_ONE as int
        && (ap1 * ce - cpe * FX_ONE as int) < FX_ONE as int) by (nonlinear_arith)
        requires
            (if high { cpe == -cp && ce == -c } else { cpe == cp && ce == c }),
            (ap1 * c - FX_ONE as int) < FX_ONE as int * cp <= ap1 * c + FX_ONE as int - 1,
            FX_ONE as int * cp == cp * FX_ONE as int;
    assert((cme * FX_ONE as int - am1 * ce) < FX_ONE as int
        && (am1 * ce - cme * FX_ONE as int) < FX_ONE as int) by (nonlinear_arith)
        requires
            (if high { cme == -cm && ce == -c } else { cme == cm && ce == c }),
            (am1 * c - FX_ONE as int) < FX_ONE as int * cm <= am1 * c + FX_ONE as int - 1,
            FX_ONE as int * cm == cm * FX_ONE as int;

    // ma > 0: ma * FX > ap1 * FX + am1 * ce - FX >= 2 min(A, 1) * FX - ... > 0
    assert(ma * FX_ONE as int > 0) by (nonlinear_arith)
        requires
            ma == ap1 + cme,
            cme * FX_ONE as int > am1 * ce - FX_ONE as int,
            ap1 == amp + FX_ONE as int,
            am1 == amp - FX_ONE as int,
            (-FX_ONE as int) < ce < FX_ONE as int,
            331000 <= amp <= 3320000;
    assert(ma >= 1) by (nonlinear_arith) requires ma * FX_ONE as int > 0;
    assert(raw.3 >= 1 && -raw.3 < raw.5 < raw.3);

    // |am1 + cpe| < ma + 2 s2:
    // (ma - am1 - cpe) * FX = (ap1 - am1)(FX - ce) + err > 0
    assert((ma - (am1 + cpe)) * FX_ONE as int > 0) by (nonlinear_arith)
        requires
            ma == ap1 + cme,
            cme * FX_ONE as int > am1 * ce - FX_ONE as int,
            (cpe * FX_ONE as int) < ap1 * ce + FX_ONE as int,
            ap1 == amp + FX_ONE as int,
            am1 == amp - FX_ONE as int,
            -FX_COS_MAX as int <= ce <= FX_COS_MAX as int,
            331000 <= amp <= 3320000;
    // (ma + am1 + cpe) * FX = (ap1 + am1)(FX + ce) + err > 0
    assert((ma + (am1 + cpe)) * FX_ONE as int > 0) by (nonlinear_arith)
        requires
            ma == ap1 + cme,
            cme * FX_ONE as int > am1 * ce - FX_ONE as int,
            cpe * FX_ONE as int > ap1 * ce - FX_ONE as int,
            ap1 == amp + FX_ONE as int,
            am1 == amp - FX_ONE as int,
            -FX_COS_MAX as int <= ce <= FX_COS_MAX as int,
            331000 <= amp <= 3320000;
    assert(ma - (am1 + cpe) > 0 && ma + (am1 + cpe) > 0) by (nonlinear_arith)
        requires (ma - (am1 + cpe)) * FX_ONE as int > 0
            && (ma + (am1 + cpe)) * FX_ONE as int > 0;
    assert(-2 * raw.3 < raw.4 < 2 * raw.3);
}

impl Biquad {
    /// Result and state evolution of one Direct-Form II Transposed step.
    pub open spec fn step_spec(self, x: int) -> (int, int, int) {
        let y = fx_add_spec(fx_mul_spec(self.b0 as int, x), self.z1 as int);
        let nz1 = fx_add_spec(
            fx_add_spec(fx_mul_spec(self.b1 as int, x), -fx_mul_spec(self.a1 as int, y)),
            self.z2 as int,
        );
        let nz2 = fx_add_spec(fx_mul_spec(self.b2 as int, x), -fx_mul_spec(self.a2 as int, y));
        (y, nz1, nz2)
    }

    /// Feed one sample through the section, updating the state registers.
    pub fn process(&mut self, x: i64) -> (y: i64)
        ensures
            y == (old(self).step_spec(x as int)).0,
            final(self).z1 == (old(self).step_spec(x as int)).1,
            final(self).z2 == (old(self).step_spec(x as int)).2,
            final(self).b0 == old(self).b0,
            final(self).b1 == old(self).b1,
            final(self).b2 == old(self).b2,
            final(self).a1 == old(self).a1,
            final(self).a2 == old(self).a2,
            -FX_SAT <= y <= FX_SAT,
            final(self).wf(),
    {
        let y = fx_add(fx_mul(self.b0, x), self.z1);
        let t1 = fx_mul(self.b1, x);
        let t2 = fx_mul(self.a1, y);
        self.z1 = fx_add(fx_sub(t1, t2), self.z2);
        let t3 = fx_mul(self.b2, x);
        let t4 = fx_mul(self.a2, y);
        self.z2 = fx_sub(t3, t4);
        y
    }

    /// Retune the section to a band description, preserving both state
    /// registers (clearing them would produce audible clicks).
    pub fn update(&mut self, f: &FilterNode, rate: u32) -> (nothing: ())
        requires rate >= 1, f.wf(),
        ensures
            final(self).b0 == (design_spec(*f, rate as int)).0,
            final(self).b1 == (design_spec(*f, rate as int)).1,
            final(self).b2 == (design_spec(*f, rate as int)).2,
            final(self).a1 == (design_spec(*f, rate as int)).3,
            final(self).a2 == (design_spec(*f, rate as int)).4,
            final(self).z1 == old(self).z1,
            final(self).z2 == old(self).z2,
    {
        let w = fx_angle(f.freq, rate);
        let (s, c) = fx_sin_cos(w);
        let alpha = clamp_i64(fx_div(s, 2 * f.q), 1, ALPHA_MAX);
        let amp = fx_amp(f.gain);
        let (rb0, rb1, rb2, ra0, ra1, ra2) = raw_coeffs(f.filter_type, c, alpha, amp);
        self.b0 = fx_div(rb0, ra0);
        self.b1 = fx_div(rb1, ra0);
        self.b2 = fx_div(rb2, ra0);
        self.a1 = fx_div(ra1, ra0);
        self.a2 = fx_div(ra2, ra0);
    }
}

/// Compute the raw coefficients for one section; the returned a0 (fourth
/// component) is always at least 1, so normalizing by it is well-defined.
pub fn raw_coeffs(ft: FilterType, c: i64, alpha: i64, amp: i64) -> (r: (i64, i64, i64, i64, i64, i64))
    requires
        -FX_COS_MAX <= c <= FX_COS_MAX,
        1 <= alpha <= ALPHA_MAX,
        331000 <= amp <= 3320000,
    ensures
        r.0 == (raw_coeffs_spec(ft, c as int, alpha as int, amp as int)).0,
        r.1 == (raw_coeffs_spec(ft, c as int, alpha as int, amp as int)).1,
        r.2 == (raw_coeffs_spec(ft, c as int, alpha as int, amp as int)).2,
        r.3 == (raw_coeffs_spec(ft, c as int, alpha as int, amp as int)).3,
        r.4 == (raw_coeffs_spec(ft, c as int, alpha as int, amp as int)).4,
        r.5 == (raw_coeffs_spec(ft, c as int, alpha as int, amp as int)).5,
        r.3 >= 1,
{
    match ft {
        FilterType::Peaking => {
            let aa = clamp_i64(fx_mul(alpha, amp), 1, FX_SAT);
            let ad = clamp_i64(fx_div(alpha, amp), 1, FX_SAT);
            (FX_ONE + aa, -(2 * c), FX_ONE - aa, FX_ONE + ad, -(2 * c), FX_ONE - ad)
        }
        FilterType::LowPass => {
            let g = FX_ONE - c;
            (g / 2, g, g / 2, FX_ONE + alpha, -(2 * c), FX_ONE - alpha)
        }
        FilterType::HighPass => {
            let g = FX_ONE + c;
            (g / 2, -g, g / 2, FX_ONE + alpha, -(2 * c), FX_ONE - alpha)
        }
        FilterType::LowShelf => {
            let s2 = clamp_i64(fx_mul(fx_sqrt_clamped(amp), alpha), 1, SQRT_A_ALPHA_MAX);
            let ap1 = amp + FX_ONE;
            let am1 = amp - FX_ONE;
            let cp = fx_mul(ap1, c);
            let cm = fx_mul(am1, c);
            let mb = ap1 - cm;
            let ma = ap1 + cm;
            proof { lemma_shelf_stable(c as int, alpha as int, amp as int, false); }
            (fx_mul(amp, mb + 2 * s2), 2 * fx_mul(amp, am1 - cp),
             fx_mul(amp, mb - 2 * s2),
             ma + 2 * s2, -(2 * (am1 + cp)), ma - 2 * s2)
        }
        FilterType::HighShelf => {
            let s2 = clamp_i64(fx_mul(fx_sqrt_clamped(amp), alpha), 1, SQRT_A_ALPHA_MAX);
            let ap1 = amp + FX_ONE;
            let am1 = amp - FX_ONE;
            let cp = fx_mul(ap1, c);
            let cm = fx_mul(am1, c);
            let mb = ap1 + cm;
            let ma = ap1 - cm;
            proof { lemma_shelf_stable(c as int, alpha as int, amp as int, true); }
            (fx_mul(amp, mb + 2 * s2), -(2 * fx_mul(amp, am1 + cp)),
             fx_mul(amp, mb - 2 * s2),
             ma + 2 * s2, 2 * (am1 - cp), ma - 2 * s2)
        }
        FilterType::BandPass => {
            (alpha, 0, -alpha, FX_ONE + alpha, -(2 * c), FX_ONE - alpha)
        }
        FilterType::Notch => {
            (FX_ONE, -(2 * c), FX_ONE, FX_ONE + alpha, -(2 * c), FX_ONE - alpha)
        }
    }
}

/// sqrt(A) for the shelf designs, clamped into its range.
fn fx_sqrt_clamped(amp: i64) -> (r: i64)
    requires 331000 <= amp <= 3320000,
    ensures
        r == sqrt_amp_spec(amp as int),
        SQRT_A_MIN <= r <= SQRT_A_MAX,
{
    clamp_i64(fx_sqrt(amp), SQRT_A_MIN, SQRT_A_MAX)
}

} // verus!
