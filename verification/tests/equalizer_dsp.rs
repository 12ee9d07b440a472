//! The equalizer: clamping, structure, stability, response curve,
//! pass-through and state preservation.

use audido_core::eq::{FilterNode, FilterType, EqPreset, MAX_EQ_FILTERS};
use audido_core::equalizer::Equalizer;
use audido_core::fixed::{FX_ONE, fx_mul, fx_log2};

const ONE: f64 = 1048576.0;

fn to_fx(x: f64) -> i64 {
    (x * ONE).round() as i64
}

fn from_fx(v: i64) -> f64 {
    v as f64 / ONE
}

#[test]
fn parameters_clamp_to_documented_ranges() {
    let mut f = FilterNode::new(0, to_fx(1000.0));
    f.set_freq(to_fx(5.0));
    assert_eq!(f.freq, to_fx(20.0));
    f.set_freq(to_fx(90000.0));
    assert_eq!(f.freq, to_fx(20000.0));
    f.set_gain(to_fx(35.0));
    assert_eq!(f.gain, to_fx(20.0));
    f.set_gain(to_fx(-35.0));
    assert_eq!(f.gain, to_fx(-20.0));
    f.set_q_factor(to_fx(0.0));
    assert_eq!(f.q, 104858);
    f.set_q_factor(to_fx(99.0));
    assert_eq!(f.q, to_fx(10.0));
    assert_eq!(f.set_order(0), 1);
    assert_eq!(f.set_order(200), 16);
}

#[test]
fn default_node_is_one_kilohertz_peaking() {
    let f = FilterNode::default();
    assert_eq!(f.freq, to_fx(1000.0));
    assert_eq!(f.gain, 0);
    assert_eq!(f.q, 741343);
    assert_eq!(f.order, 2);
    assert!(matches!(f.filter_type, FilterType::Peaking));
}

#[test]
fn filter_type_next_prev_are_inverse() {
    let mut t = FilterType::Peaking;
    for _ in 0..7 {
        assert!(t.next().prev() == t);
        assert!(t.prev().next() == t);
        t = t.next();
    }
    assert!(matches!(t, FilterType::Peaking));
}

#[test]
fn processor_tensor_matches_band_list() {
    let mut eq = Equalizer::new(44100, 2);
    // two channels, eight flat bands, order 2 -> one section each
    assert_eq!(eq.processors.len(), 2);
    for ch in &eq.processors {
        assert_eq!(ch.len(), eq.filters.len());
        for (band, chain) in eq.filters.iter().zip(ch.iter()) {
            let want = if band.order <= 1 { 1 } else { ((band.order as usize) + 1) / 2 };
            assert_eq!(chain.len(), want);
        }
    }
    // raise one band's order to 5 -> ceil(5/2) == 3 sections
    let mut f = eq.filters[2];
    f.set_order(5);
    eq.filters[2] = f;
    eq.parameters_changed();
    for ch in &eq.processors {
        assert_eq!(ch[2].len(), 3);
        assert_eq!(ch[0].len(), 1);
    }
}

#[test]
fn designed_sections_are_stable() {
    // sweep every type over a grid of parameters: |a1| < 2 and |a2| < 1
    let types = [
        FilterType::Peaking, FilterType::LowPass, FilterType::HighPass,
        FilterType::LowShelf, FilterType::HighShelf, FilterType::BandPass,
        FilterType::Notch,
    ];
    for ty in types {
        for &freq in &[20.0, 100.0, 1000.0, 10000.0, 20000.0] {
            for &gain in &[-20.0, -6.0, 0.0, 6.0, 20.0] {
                for &q in &[0.1, 0.707, 10.0] {
                    let mut eq = Equalizer::new(44100, 1);
                    let mut f = FilterNode::new(0, to_fx(freq));
                    f.set_filter_type(ty);
                    f.set_gain(to_fx(gain));
                    f.set_q_factor(to_fx(q));
                    let mut filters = Vec::new();
                    filters.push(f);
                    eq.filters = filters;
                    eq.parameters_changed();
                    let bq = &eq.processors[0][0][0];
                    assert!(bq.a1.abs() < 2 * FX_ONE, "{ty:?} {freq} {gain} {q}: a1");
                    assert!(bq.a2.abs() < FX_ONE, "{ty:?} {freq} {gain} {q}: a2");
                }
            }
        }
    }
}

#[test]
fn zero_channels_is_a_no_op() {
    let mut eq = Equalizer::new(44100, 0);
    eq.master_gain = to_fx(2.0);
    let mut frame: Vec<i64> = vec![to_fx(0.5), to_fx(-0.25), to_fx(0.125)];
    let before = frame.clone();
    eq.process_frame(&mut frame);
    assert_eq!(frame, before);
}

#[test]
fn empty_filters_unit_gain_is_pass_through() {
    let mut eq = Equalizer::new(44100, 1);
    eq.filters = Vec::new();
    eq.parameters_changed();
    assert_eq!(eq.master_gain, FX_ONE);
    let mut frame: Vec<i64> = (0..1000).map(|i| to_fx(((i as f64) * 0.7).sin())).collect();
    let before = frame.clone();
    eq.process_frame(&mut frame);
    assert_eq!(frame, before);
}

#[test]
fn master_gain_scales_samples() {
    // +6 dB is a linear factor of about 1.9953
    let mut eq = Equalizer::new(44100, 1);
    eq.filters = Vec::new();
    eq.parameters_changed();
    eq.master_gain = to_fx(1.9953);
    let input: Vec<i64> = (0..500).map(|i| to_fx(((i as f64) * 0.31).sin() * 0.4)).collect();
    let mut frame = input.clone();
    eq.process_frame(&mut frame);
    for (x, y) in input.iter().zip(frame.iter()) {
        let want = from_fx(*x) * 1.9953;
        assert!((from_fx(*y) - want).abs() < 1e-5);
    }
}

#[test]
fn peaking_band_boosts_its_centre_frequency() {
    // a +12 dB peaking band at 1 kHz on a 1 kHz tone raises its level
    let mut eq = Equalizer::new(44100, 1);
    let mut f = FilterNode::new(0, to_fx(1000.0));
    f.set_gain(to_fx(12.0));
    f.set_q_factor(to_fx(1.0));
    let mut filters = Vec::new();
    filters.push(f);
    eq.filters = filters;
    eq.parameters_changed();
    let n = 8820; // 0.2 s
    let w = 2.0 * std::f64::consts::PI * 1000.0 / 44100.0;
    let input: Vec<i64> = (0..n).map(|i| to_fx((w * i as f64).sin() * 0.25)).collect();
    let mut frame = input.clone();
    eq.process_frame(&mut frame);
    // compare peak levels over the second half (after transients settle)
    let peak_in = input[n / 2..].iter().map(|v| v.abs()).max().unwrap();
    let peak_out = frame[n / 2..].iter().map(|v| v.abs()).max().unwrap();
    let ratio = peak_out as f64 / peak_in as f64;
    let want = 10f64.powf(12.0 / 20.0);
    assert!((ratio - want).abs() / want < 0.1, "gain ratio {ratio}, want {want}");
}

#[test]
fn retune_preserves_section_state() {
    // feeding samples, then growing the order, keeps the first section's
    // registers; the appended section starts cleared
    let mut eq = Equalizer::new(44100, 1);
    let mut f = FilterNode::new(0, to_fx(1000.0));
    f.set_gain(to_fx(6.0));
    let mut filters = Vec::new();
    filters.push(f);
    eq.filters = filters;
    eq.parameters_changed();
    let mut frame: Vec<i64> = (0..64).map(|i| to_fx(((i as f64) * 0.5).sin())).collect();
    eq.process_frame(&mut frame);
    let z1 = eq.processors[0][0][0].z1;
    let z2 = eq.processors[0][0][0].z2;
    assert!(z1 != 0 || z2 != 0);
    let mut f2 = eq.filters[0];
    f2.set_order(4);
    eq.filters[0] = f2;
    eq.parameters_changed();
    assert_eq!(eq.processors[0][0].len(), 2);
    assert_eq!(eq.processors[0][0][0].z1, z1);
    assert_eq!(eq.processors[0][0][0].z2, z2);
    assert_eq!(eq.processors[0][0][1].z1, 0);
    assert_eq!(eq.processors[0][0][1].z2, 0);
}

#[test]
fn retune_produces_no_click() {
    // raising a band's gain mid-stream must not produce a sample step
    // larger than 0.5
    let mut eq = Equalizer::new(44100, 1);
    let mut f = FilterNode::new(0, to_fx(1000.0));
    f.set_gain(to_fx(6.0));
    f.set_q_factor(to_fx(1.0));
    let mut filters = Vec::new();
    filters.push(f);
    eq.filters = filters;
    eq.parameters_changed();
    let n = 4410;
    let w = 2.0 * std::f64::consts::PI * 1000.0 / 44100.0;
    let mut first: Vec<i64> = (0..n).map(|i| to_fx((w * i as f64).sin() * 0.25)).collect();
    eq.process_frame(&mut first);
    let mut f2 = eq.filters[0];
    f2.set_gain(to_fx(9.0));
    eq.filters[0] = f2;
    eq.parameters_changed();
    let mut second: Vec<i64> = (n..2 * n).map(|i| to_fx((w * i as f64).sin() * 0.25)).collect();
    eq.process_frame(&mut second);
    let boundary = (from_fx(second[0]) - from_fx(first[n - 1])).abs();
    assert!(boundary < 0.5, "click of {boundary} across the retune");
    for w in second.windows(2) {
        assert!((from_fx(w[1]) - from_fx(w[0])).abs() < 0.5);
    }
}

#[test]
fn response_curve_is_sum_of_band_magnitudes() {
    let mut eq = Equalizer::new(44100, 2);
    let mut f = eq.filters[3];
    f.set_gain(to_fx(6.0));
    eq.filters[3] = f;
    eq.parameters_changed();
    eq.master_gain = to_fx(2.0);
    let width = 32;
    let curve = eq.get_response_curve(width);
    assert_eq!(curve.len(), width);
    // the curve spans 20 Hz .. 20 kHz
    assert!((from_fx(curve[0].0) - 20.0).abs() < 0.1);
    assert!((from_fx(curve[width - 1].0) - 20000.0).abs() < 80.0);
    // exact decomposition: each curve value is the master gain in dB
    // plus the sum of the bands' magnitudes at that frequency
    let master_db = fx_mul(fx_log2(eq.master_gain), 6313057);
    for &(freq, db) in &curve {
        let mut want: i64 = master_db;
        for band in &eq.filters {
            want += band.magnitude_db(freq, eq.sample_rate);
        }
        assert_eq!(db, want, "at {} Hz", from_fx(freq));
    }
}

#[test]
fn magnitude_at_centre_reflects_band_gain() {
    let mut f = FilterNode::new(0, to_fx(1000.0));
    f.set_gain(to_fx(6.0));
    f.set_q_factor(to_fx(1.0));
    let db = from_fx(f.magnitude_db(to_fx(1000.0), 44100));
    assert!((db - 6.0).abs() < 0.1, "peak magnitude {db} dB, want 6");
    // out-of-range frequencies report 0 dB
    assert_eq!(f.magnitude_db(0, 44100), 0);
    assert_eq!(f.magnitude_db(to_fx(30000.0), 44100), 0);
}

#[test]
fn presets_install_their_band_lists() {
    let flat = EqPreset::Flat.set_filters();
    assert_eq!(flat.len(), MAX_EQ_FILTERS);
    let boosted = EqPreset::BassBoosted.set_filters();
    assert_eq!(boosted.len(), 1);
    assert!(matches!(boosted[0].filter_type, FilterType::LowShelf));
    assert_eq!(boosted[0].gain, to_fx(6.0));

    let mut eq = Equalizer::new(48000, 2);
    eq.update_preset(EqPreset::BassBoosted);
    assert_eq!(eq.filters.len(), 1);
    eq.reset_parameters();
    assert_eq!(eq.master_gain, FX_ONE);
    assert_eq!(eq.filters.len(), 1);
}

#[test]
fn resetting_one_band_leaves_neighbours_alone() {
    let mut eq = Equalizer::new(44100, 2);
    let mut a = eq.filters[1];
    a.set_gain(to_fx(5.0));
    eq.filters[1] = a;
    let mut b = eq.filters[2];
    b.set_gain(to_fx(-5.0));
    eq.filters[2] = b;
    eq.parameters_changed();
    assert!(eq.reset_filter_node_param(1).is_ok());
    assert_eq!(eq.filters[1].gain, 0);
    assert_eq!(eq.filters[2].gain, to_fx(-5.0));
    assert!(eq.reset_filter_node_param(99).is_err());
}

#[test]
fn angles_stay_inside_the_stable_range() {
    // even at absurd sample rates the angle clamp keeps sections stable
    let mut eq = Equalizer::new(1, 1);
    let mut f = FilterNode::new(0, to_fx(20000.0));
    f.set_filter_type(FilterType::LowShelf);
    f.set_gain(to_fx(20.0));
    f.set_q_factor(to_fx(0.1));
    let mut filters = Vec::new();
    filters.push(f);
    eq.filters = filters;
    eq.parameters_changed();
    let bq = &eq.processors[0][0][0];
    assert!(bq.a1.abs() < 2 * FX_ONE);
    assert!(bq.a2.abs() < FX_ONE);
}
