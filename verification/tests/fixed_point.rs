//! The fixed-point kernels against double-precision references.

use audido_core::fixed::{
    fx_mul, fx_add, fx_div, fx_sin_cos, fx_exp2, fx_log2, fx_sqrt, fx_amp,
    fx_db_to_linear, clamp_i64, FX_ONE, FX_PI, FX_HALF_PI, FX_SAT,
};

const ONE: f64 = 1048576.0;

fn to_fx(x: f64) -> i64 {
    (x * ONE).round() as i64
}

fn from_fx(v: i64) -> f64 {
    v as f64 / ONE
}

#[test]
fn multiply_matches_reference() {
    let cases = [(0.5, 0.5), (1.25, -2.0), (-3.0, -3.0), (0.0, 7.0), (19.9, 0.1)];
    for (a, b) in cases {
        let r = from_fx(fx_mul(to_fx(a), to_fx(b)));
        assert!((r - a * b).abs() < 1e-4, "mul {a} * {b} gave {r}");
    }
}

#[test]
fn multiply_saturates() {
    assert_eq!(fx_mul(i64::MAX, i64::MAX), FX_SAT);
    assert_eq!(fx_mul(i64::MAX, -i64::MAX), -FX_SAT);
}

#[test]
fn add_and_divide_match_reference() {
    assert_eq!(fx_add(to_fx(1.5), to_fx(2.25)), to_fx(3.75));
    let r = from_fx(fx_div(to_fx(1.0), to_fx(3.0)));
    assert!((r - 1.0 / 3.0).abs() < 1e-5);
}

#[test]
fn clamp_works() {
    assert_eq!(clamp_i64(5, 0, 10), 5);
    assert_eq!(clamp_i64(-5, 0, 10), 0);
    assert_eq!(clamp_i64(50, 0, 10), 10);
}

#[test]
fn sine_and_cosine_match_reference() {
    for k in 0..=16 {
        let w = FX_PI as f64 * (k as f64 / 16.0);
        let (s, c) = fx_sin_cos(w.round() as i64);
        let wr = from_fx(w.round() as i64);
        assert!((from_fx(s) - wr.sin()).abs() < 1e-3, "sin at {wr}");
        assert!((from_fx(c) - wr.cos()).abs() < 1e-3, "cos at {wr}");
    }
    // exact anchors
    let (s0, c0) = fx_sin_cos(0);
    assert_eq!(s0, 0);
    assert!((from_fx(c0) - 1.0).abs() < 1e-4);
    let (s1, _c1) = fx_sin_cos(FX_HALF_PI);
    assert!((from_fx(s1) - 1.0).abs() < 5e-4);
}

#[test]
fn exp2_matches_reference() {
    for k in -8..=8 {
        let z = to_fx(k as f64 / 2.0);
        let r = from_fx(fx_exp2(z));
        let expect = (k as f64 / 2.0).exp2();
        assert!(
            (r - expect).abs() / expect < 2e-3,
            "exp2({}) = {r}, want {expect}",
            k as f64 / 2.0
        );
    }
}

#[test]
fn log2_matches_reference() {
    for &v in &[0.001, 0.5, 1.0, 2.0, 3.0, 1000.0, 1048575.0] {
        let x = to_fx(v);
        let r = from_fx(fx_log2(x));
        let expect = from_fx(x).log2();
        assert!((r - expect).abs() < 1e-4, "log2({v}) = {r}, want {expect}");
    }
    // an exact anchor: log2(1) == 0
    assert_eq!(fx_log2(FX_ONE), 0);
}

#[test]
fn sqrt_matches_reference() {
    for &v in &[0.3163, 1.0, 2.0, 3.1623] {
        let r = from_fx(fx_sqrt(to_fx(v)));
        assert!((r - v.sqrt()).abs() < 1e-3, "sqrt({v}) = {r}");
    }
    assert_eq!(fx_sqrt(FX_ONE), FX_ONE);
}

#[test]
fn amplitude_matches_reference() {
    // A = 10^(g/40): at +6 dB, about 1.4125
    let a = from_fx(fx_amp(to_fx(6.0)));
    assert!((a - 10f64.powf(6.0 / 40.0)).abs() < 3e-3, "amp(+6dB) = {a}");
    let a2 = from_fx(fx_amp(to_fx(-20.0)));
    assert!((a2 - 10f64.powf(-0.5)).abs() < 2e-3, "amp(-20dB) = {a2}");
}

#[test]
fn db_to_linear_matches_reference() {
    // +6 dB is a factor of about 1.9953
    let g = from_fx(fx_db_to_linear(to_fx(6.0)));
    assert!((g - 1.9953).abs() < 5e-3, "+6 dB gave {g}");
    let unity = from_fx(fx_db_to_linear(0));
    assert!((unity - 1.0).abs() < 1e-3);
    let minus20 = from_fx(fx_db_to_linear(to_fx(-20.0)));
    assert!((minus20 - 0.1).abs() < 1e-3);
}

#[test]
fn master_gain_round_trip_is_identity_within_precision() {
    // encoding a gain in dB to linear, then decoding back with
    // 20*log10(linear), reproduces the dB value within fixed-point
    // precision
    for &db in &[-12.0, -6.0, -1.5, 0.0, 1.5, 6.0, 12.0, 19.5] {
        let linear = fx_db_to_linear(to_fx(db));
        let back = from_fx(fx_mul(fx_log2(linear), 6313057));
        assert!((back - db).abs() < 0.02, "round trip {db} dB gave {back}");
    }
}
