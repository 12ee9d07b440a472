//! Band descriptions for the parametric equalizer: the closed set of
//! filter kinds, one band's parameter bundle with clamped mutators, the
//! presets, and the magnitude response of a single band.

use vstd::prelude::*;
use crate::fixed::{
    FX_ONE, FX_SAT, FX_DB10_PER_LOG2,
    spec_clamp, fx_mul_spec, fx_div_spec, fx_add_spec,
    clamp_i64, fx_mul, fx_div, fx_add,
    sin_pi_spec, cos_pi_spec, fx_sin_cos, angle_spec, fx_angle,
    amp_spec, fx_amp, log2_spec, fx_log2,
};
use crate::biquad::raw_coeffs_spec;
use crate::biquad::{raw_coeffs, alpha_spec, ALPHA_MAX};

verus! {

/// Most bands an equalizer can hold.
pub const MAX_EQ_FILTERS: usize = 8;

/// Lowest centre frequency a band accepts: 20 Hz in Q20.
pub const FREQ_MIN: i64 = 20971520;

/// Highest centre frequency a band accepts: 20 kHz in Q20.
pub const FREQ_MAX: i64 = 20971520000;

/// Gain bound: +/- 20 dB in Q20.
pub const GAIN_LIMIT: i64 = 20971520;

/// Q factor bounds, 0.1 and 10.0 in Q20.
pub const Q_MIN: i64 = 104858;
pub const Q_MAX: i64 = 10485760;

/// The default Q factor, 0.707 in Q20.
pub const Q_DEFAULT: i64 = 741343;

/// The default centre frequency, 1 kHz in Q20.
pub const FREQ_DEFAULT: i64 = 1048576000;

/// The closed set of filter kinds a band can take.
#[derive(Debug, Clone, Copy, PartialEq, Eq, Structural)]
pub enum FilterType {
    Peaking,
    LowPass,
    HighPass,
    LowShelf,
    HighShelf,
    BandPass,
    Notch,
}

impl Default for FilterType {
    fn default() -> (r: Self)
        ensures r == FilterType::Peaking,
    {
        FilterType::Peaking
    }
}

/// The cyclic successor of a filter kind.
pub open spec fn next_filter_type_spec(t: FilterType) -> FilterType {
    match t {
        FilterType::Peaking => FilterType::LowPass,
        FilterType::LowPass => FilterType::HighPass,
        FilterType::HighPass => FilterType::LowShelf,
        FilterType::LowShelf => FilterType::HighShelf,
        FilterType::HighShelf => FilterType::BandPass,
        FilterType::BandPass => FilterType::Notch,
        FilterType::Notch => FilterType::Peaking,
    }
}

impl FilterType {
    /// Cycle forward through the filter kinds.
    pub fn next(&self) -> (r: FilterType)
        ensures r == next_filter_type_spec(*self),
    {
        match self {
            FilterType::Peaking => FilterType::LowPass,
            FilterType::LowPass => FilterType::HighPass,
            FilterType::HighPass => FilterType::LowShelf,
            FilterType::LowShelf => FilterType::HighShelf,
            FilterType::HighShelf => FilterType::BandPass,
            FilterType::BandPass => FilterType::Notch,
            FilterType::Notch => FilterType::Peaking,
        }
    }

    /// Cycle backward through the filter kinds; inverse of `next`.
    pub fn prev(&self) -> (r: FilterType)
        ensures
            next_filter_type_spec(r) == *self,
            r == prev_filter_type_spec(*self),
    {
        match self {
            FilterType::Peaking => FilterType::Notch,
            FilterType::LowPass => FilterType::Peaking,
            FilterType::HighPass => FilterType::LowPass,
            FilterType::LowShelf => FilterType::HighPass,
            FilterType::HighShelf => FilterType::LowShelf,
            FilterType::BandPass => FilterType::HighShelf,
            FilterType::Notch => FilterType::BandPass,
        }
    }
}

/// The cyclic predecessor of a filter kind.
pub open spec fn prev_filter_type_spec(t: FilterType) -> FilterType {
    match t {
        FilterType::Peaking => FilterType::Notch,
        FilterType::LowPass => FilterType::Peaking,
        FilterType::HighPass => FilterType::LowPass,
        FilterType::LowShelf => FilterType::HighPass,
        FilterType::HighShelf => FilterType::LowShelf,
        FilterType::BandPass => FilterType::HighShelf,
        FilterType::Notch => FilterType::BandPass,
    }
}

/// One equalizer band: kind, centre frequency (Q20 Hz), gain (Q20 dB),
/// Q factor (Q20) and order (each 6 dB/oct of slope).
#[derive(Debug, Clone, Copy, PartialEq, Eq, Structural)]
pub struct FilterNode {
    pub id: i16,
    pub filter_type: FilterType,
    pub freq: i64,
    pub gain: i64,
    pub q: i64,
    pub order: u8,
}

impl FilterNode {
    /// Every parameter inside its documented range.
    pub open spec fn wf(self) -> bool {
        FREQ_MIN as int <= self.freq <= FREQ_MAX as int
            && -GAIN_LIMIT as int <= self.gain <= GAIN_LIMIT as int
            && Q_MIN as int <= self.q <= Q_MAX as int
            && 1 <= self.order <= 16
    }

    /// The default band: 1 kHz peaking, 0 dB, Q 0.707, order 2.
    pub open spec fn default_spec() -> FilterNode {
        FilterNode {
            id: 0,
            filter_type: FilterType::Peaking,
            freq: FREQ_DEFAULT,
            gain: 0,
            q: Q_DEFAULT,
            order: 2,
        }
    }

    /// A fresh peaking band at the given frequency (clamped into range).
    pub fn new(id: i16, freq: i64) -> (r: FilterNode)
        ensures
            r.id == id,
            r.filter_type == FilterType::Peaking,
            r.freq == spec_clamp(freq as int, FREQ_MIN as int, FREQ_MAX as int),
            r.gain == 0,
            r.q == Q_DEFAULT,
            r.order == 2,
            r.wf(),
    {
        FilterNode {
            id,
            filter_type: FilterType::Peaking,
            freq: clamp_i64(freq, FREQ_MIN, FREQ_MAX),
            gain: 0,
            q: Q_DEFAULT,
            order: 2,
        }
    }

    pub fn set_filter_type(&mut self, filter_type: FilterType)
        ensures
            final(self).filter_type == filter_type,
            *final(self) == (FilterNode { filter_type, ..*old(self) }),
    {
        self.filter_type = filter_type;
    }

    /// Set the centre frequency, clamped into [20 Hz, 20 kHz].
    pub fn set_freq(&mut self, freq: i64)
        ensures
            final(self).freq == spec_clamp(freq as int, FREQ_MIN as int, FREQ_MAX as int),
            *final(self) == (FilterNode { freq: final(self).freq, ..*old(self) }),
    {
        self.freq = clamp_i64(freq, FREQ_MIN, FREQ_MAX);
    }

    /// Set the gain, clamped into [-20 dB, +20 dB].
    pub fn set_gain(&mut self, gain: i64)
        ensures
            final(self).gain == spec_clamp(gain as int, -GAIN_LIMIT as int, GAIN_LIMIT as int),
            *final(self) == (FilterNode { gain: final(self).gain, ..*old(self) }),
    {
        self.gain = clamp_i64(gain, -GAIN_LIMIT, GAIN_LIMIT);
    }

    /// Set the order, clamped into [1, 16]; returns the stored value.
    pub fn set_order(&mut self, order: u8) -> (r: u8)
        ensures
            r == final(self).order,
            final(self).order == spec_clamp(order as int, 1, 16),
            *final(self) == (FilterNode { order: final(self).order, ..*old(self) }),
    {
        let new_order = if order < 1 { 1 } else if order > 16 { 16 } else { order };
        self.order = new_order;
        new_order
    }

    /// Set the Q factor, clamped into [0.1, 10.0].
    pub fn set_q_factor(&mut self, q: i64)
        ensures
            final(self).q == spec_clamp(q as int, Q_MIN as int, Q_MAX as int),
            *final(self) == (FilterNode { q: final(self).q, ..*old(self) }),
    {
        self.q = clamp_i64(q, Q_MIN, Q_MAX);
    }

    /// Reset the band to default parameter values, preserving its id.
    pub fn reset(&mut self)
        ensures *final(self) == (FilterNode { id: old(self).id, ..FilterNode::default_spec() }),
    {
        let id = self.id;
        self.filter_type = FilterType::Peaking;
        self.freq = FREQ_DEFAULT;
        self.gain = 0;
        self.q = Q_DEFAULT;
        self.order = 2;
        self.id = id;
    }

    /// Number of cascaded biquad sections realizing this band's order:
    /// max(1, ceil(order / 2)).
    pub open spec fn sections_spec(self) -> int {
        if self.order <= 1 { 1 } else { (self.order as int + 1) / 2 }
    }

    /// The magnitude response of this band at a frequency (Q20 Hz), in
    /// Q20 dB: the transfer function evaluated on the unit circle,
    /// converted to decibels and multiplied by the cascade length.
    /// Frequencies outside (0, rate/2) give 0 dB.
    pub open spec fn magnitude_db_spec(self, freq_hz: int, rate: int) -> int {
        if freq_hz <= 0 || 2 * freq_hz >= rate * FX_ONE {
            0
        } else {
            let w0 = angle_spec(self.freq as int, rate);
            let alpha = alpha_spec(sin_pi_spec(w0), self.q as int);
            let amp = amp_spec(self.gain as int);
            let raw = raw_coeffs_spec(self.filter_type, cos_pi_spec(w0), alpha, amp);
            let w = angle_spec(freq_hz, rate);
            let cw = cos_pi_spec(w);
            let sw = sin_pi_spec(w);
            let c2 = spec_clamp(2 * fx_mul_spec(cw, cw) - FX_ONE as int,
                -FX_ONE as int, FX_ONE as int);
            let s2 = spec_clamp(2 * fx_mul_spec(sw, cw), -FX_ONE as int, FX_ONE as int);
            let num_r = fx_add_spec(fx_add_spec(raw.0, fx_mul_spec(raw.1, cw)),
                fx_mul_spec(raw.2, c2));
            let num_i = fx_add_spec(fx_mul_spec(raw.1, sw), fx_mul_spec(raw.2, s2));
            let den_r = fx_add_spec(fx_add_spec(raw.3, fx_mul_spec(raw.4, cw)),
                fx_mul_spec(raw.5, c2));
            let den_i = fx_add_spec(fx_mul_spec(raw.4, sw), fx_mul_spec(raw.5, s2));
            let num2 = spec_clamp(fx_add_spec(fx_mul_spec(num_r, num_r),
                fx_mul_spec(num_i, num_i)), 1, FX_SAT as int);
            let den2 = spec_clamp(fx_add_spec(fx_mul_spec(den_r, den_r),
                fx_mul_spec(den_i, den_i)), 1, FX_SAT as int);
            let mag2 = spec_clamp(fx_div_spec(num2, den2), 1, FX_SAT as int);
            let single = spec_clamp(
                fx_mul_spec(log2_spec(mag2), FX_DB10_PER_LOG2 as int),
                -256 * FX_ONE as int, 256 * FX_ONE as int);
            single * self.sections_spec()
        }
    }

    /// Evaluate the band's magnitude response at a frequency, in Q20 dB.
    pub fn magnitude_db(&self, freq_hz: i64, rate: u32) -> (r: i64)
        requires self.wf(), rate >= 1,
        ensures
            r == self.magnitude_db_spec(freq_hz as int, rate as int),
            -2048 * FX_ONE <= r <= 2048 * FX_ONE,
    {
        let nyquist_x2: i128 = (rate as i128) * (FX_ONE as i128);
        if freq_hz <= 0 || (freq_hz as i128) * 2 >= nyquist_x2 {
            return 0;
        }
        let w0 = fx_angle(self.freq, rate);
        let (s0, c0) = fx_sin_cos(w0);
        let alpha = clamp_i64(fx_div(s0, 2 * self.q), 1, ALPHA_MAX);
        let amp = fx_amp(self.gain);
        let (rb0, rb1, rb2, ra0, ra1, ra2) = raw_coeffs(self.filter_type, c0, alpha, amp);
        let w = fx_angle(freq_hz, rate);
        let (sw, cw) = fx_sin_cos(w);
        let c2 = clamp_i64(2 * fx_mul(cw, cw) - FX_ONE, -FX_ONE, FX_ONE);
        let s2 = clamp_i64(2 * fx_mul(sw, cw), -FX_ONE, FX_ONE);
        let num_r = fx_add(fx_add(rb0, fx_mul(rb1, cw)), fx_mul(rb2, c2));
        let num_i = fx_add(fx_mul(rb1, sw), fx_mul(rb2, s2));
        let den_r = fx_add(fx_add(ra0, fx_mul(ra1, cw)), fx_mul(ra2, c2));
        let den_i = fx_add(fx_mul(ra1, sw), fx_mul(ra2, s2));
        let num2 = clamp_i64(fx_add(fx_mul(num_r, num_r), fx_mul(num_i, num_i)), 1, FX_SAT);
        let den2 = clamp_i64(fx_add(fx_mul(den_r, den_r), fx_mul(den_i, den_i)), 1, FX_SAT);
        let mag2 = clamp_i64(fx_div(num2, den2), 1, FX_SAT);
        let single = clamp_i64(fx_mul(fx_log2(mag2), FX_DB10_PER_LOG2),
            -256 * FX_ONE, 256 * FX_ONE);
        let sections = self.sections();
        proof {
            assert(sections <= 8);
            assert(single as int * sections as int <= 2048 * FX_ONE as int
                && single as int * sections as int >= -2048 * FX_ONE as int)
                by (nonlinear_arith)
                requires -256 * FX_ONE <= single <= 256 * FX_ONE && 1 <= sections <= 8;
        }
        single * (sections as i64)
    }

    /// Number of cascaded sections for this band's order.
    pub fn sections(&self) -> (r: usize)
        ensures r == self.sections_spec(), 1 <= r <= 128,
    {
        if self.order <= 1 { 1 } else { ((self.order as usize) + 1) / 2 }
    }
}

impl Default for FilterNode {
    fn default() -> (r: Self)
        ensures r == FilterNode::default_spec(),
    {
        FilterNode {
            id: 0,
            filter_type: FilterType::Peaking,
            freq: FREQ_DEFAULT,
            gain: 0,
            q: Q_DEFAULT,
            order: 2,
        }
    }
}

/// The named equalizer presets.
#[derive(Debug, Clone, Copy, PartialEq, Eq, Structural)]
pub enum EqPreset {
    Flat,
    Acoustic,
    Dance,
    Electronic,
    BassBoosted,
    Custom,
}

impl Default for EqPreset {
    fn default() -> (r: Self)
        ensures r == EqPreset::Flat,
    {
        EqPreset::Flat
    }
}

/// Centre frequency of the i-th flat-preset band, in Q20 Hz.
pub open spec fn flat_freq_spec(i: int) -> i64 {
    if i == 0 { 41943040 }
    else if i == 1 { 209715200 }
    else if i == 2 { 524288000 }
    else if i == 3 { 1048576000 }
    else if i == 4 { 2097152000 }
    else if i == 5 { 5242880000 }
    else if i == 6 { 10485760000 }
    else { 15728640000 }
}

/// The i-th band of the flat preset.
pub open spec fn flat_filter_spec(i: int) -> FilterNode {
    FilterNode {
        id: i as i16,
        filter_type: FilterType::Peaking,
        freq: flat_freq_spec(i),
        gain: 0,
        q: Q_DEFAULT,
        order: 2,
    }
}

/// The single band of the bass-boost preset: a +6 dB low shelf at 100 Hz.
pub open spec fn bass_boost_filter_spec() -> FilterNode {
    FilterNode {
        id: 1,
        filter_type: FilterType::LowShelf,
        freq: 104857600,
        gain: 6291456,
        q: Q_DEFAULT,
        order: 2,
    }
}

/// The band list a preset installs.
pub open spec fn preset_filters_spec(p: EqPreset) -> Seq<FilterNode> {
    if p == EqPreset::BassBoosted {
        seq![bass_boost_filter_spec()]
    } else {
        Seq::new(MAX_EQ_FILTERS as nat, |i: int| flat_filter_spec(i))
    }
}

/// All bands of every preset are within parameter bounds.
pub proof fn lemma_preset_filters_wf(p: EqPreset)
    ensures forall|i: int| 0 <= i < preset_filters_spec(p).len()
        ==> (#[trigger] preset_filters_spec(p)[i]).wf(),
{
}

/// Eight default peaking bands spread across the audible range.
fn create_flat_filters() -> (r: Vec<FilterNode>)
    ensures
        r@.len() == MAX_EQ_FILTERS as int,
        forall|i: int| 0 <= i < r@.len() ==> r@[i] == flat_filter_spec(i),
{
    let freqs: [i64; 8] = [
        41943040, 209715200, 524288000, 1048576000,
        2097152000, 5242880000, 10485760000, 15728640000,
    ];
    let mut filters: Vec<FilterNode> = Vec::new();
    let mut i: usize = 0;
    while i < 8
        invariant
            0 <= i <= 8,
            filters@.len() == i as int,
            forall|j: int| 0 <= j < i as int ==> filters@[j] == flat_filter_spec(j),
            freqs@ =~= seq![41943040i64, 209715200, 524288000, 1048576000,
                2097152000, 5242880000, 10485760000, 15728640000],
        decreases 8 - i,
    {
        filters.push(FilterNode {
            id: i as i16,
            filter_type: FilterType::Peaking,
            freq: freqs[i],
            gain: 0,
            q: Q_DEFAULT,
            order: 2,
        });
        i = i + 1;
    }
    filters
}

impl EqPreset {
    /// The band list this preset installs.
    pub fn set_filters(&self) -> (r: Vec<FilterNode>)
        ensures r@ == preset_filters_spec(*self),
    {
        match self {
            EqPreset::BassBoosted => {
                let mut filters: Vec<FilterNode> = Vec::new();
                filters.push(FilterNode {
                    id: 1,
                    filter_type: FilterType::LowShelf,
                    freq: 104857600,
                    gain: 6291456,
                    q: Q_DEFAULT,
                    order: 2,
                });
                proof {
                    assert(filters@ =~= seq![bass_boost_filter_spec()]);
                }
                filters
            }
            _ => {
                let filters = create_flat_filters();
                proof {
                    assert(filters@ =~= preset_filters_spec(*self));
                }
                filters
            }
        }
    }
}

} // verus!
