//! The parametric equalizer: per-channel cascades of biquad sections, one
//! cascade per band, applied in place to interleaved frames. Parameter
//! changes reconcile the processor tensor against the band list without
//! clearing filter state wherever the structure still matches; structural
//! changes (channel count, band count) rebuild it from scratch.

use vstd::prelude::*;
use crate::fixed::{
    FX_ONE, FX_SAT, FX_DB20_PER_LOG2, FX_LOG2_1000, tdiv,
    spec_clamp, fx_mul_spec,
    clamp_i64, fx_mul, fx_exp2, exp2_spec, fx_log2, log2_spec,
};
use crate::eq::{FilterNode, EqPreset, MAX_EQ_FILTERS, FREQ_MIN, preset_filters_spec};
use crate::biquad::{Biquad, design_spec};

verus! {

/// The sequences held by one channel's chain list.
pub open spec fn bands_of(v: Vec<Vec<Biquad>>) -> Seq<Seq<Biquad>> {
    v@.map(|j: int, band: Vec<Biquad>| band@)
}

/// The nested sequences held by a processor tensor.
pub open spec fn tensor_of(v: Vec<Vec<Vec<Biquad>>>) -> Seq<Seq<Seq<Biquad>>> {
    v@.map(|i: int, ch: Vec<Vec<Biquad>>| bands_of(ch))
}

/// The biquad a band description designs, with cleared state.
pub open spec fn designed_spec(f: FilterNode, rate: int) -> Biquad {
    let d = design_spec(f, rate);
    Biquad {
        b0: d.0 as i64, b1: d.1 as i64, b2: d.2 as i64,
        a1: d.3 as i64, a2: d.4 as i64,
        z1: 0, z2: 0,
    }
}

/// A section after one sample step: same coefficients, advanced state.
pub open spec fn stepped_spec(b: Biquad, x: int) -> Biquad {
    let st = b.step_spec(x);
    Biquad { z1: st.1 as i64, z2: st.2 as i64, ..b }
}

/// Run a sample through a cascade from section j on, returning the output
/// and the advanced cascade.
pub open spec fn run_chain(chain: Seq<Biquad>, j: int, x: int) -> (int, Seq<Biquad>)
    decreases chain.len() - j when j >= 0
{
    if j < 0 || j >= chain.len() {
        (x, chain)
    } else {
        let y = (chain[j].step_spec(x)).0;
        run_chain(chain.update(j, stepped_spec(chain[j], x)), j + 1, y)
    }
}

/// Run a sample through a channel's band cascades from band b on.
pub open spec fn run_bands(bands: Seq<Seq<Biquad>>, b: int, x: int) -> (int, Seq<Seq<Biquad>>)
    decreases bands.len() - b when b >= 0
{
    if b < 0 || b >= bands.len() {
        (x, bands)
    } else {
        let r = run_chain(bands[b], 0, x);
        run_bands(bands.update(b, r.1), b + 1, r.0)
    }
}

/// Run an interleaved frame through the tensor from position i on; each
/// position i is routed to channel i % nch.
pub open spec fn run_frame(
    tensor: Seq<Seq<Seq<Biquad>>>, nch: int, frame: Seq<i64>, i: int,
) -> (Seq<i64>, Seq<Seq<Seq<Biquad>>>)
    decreases frame.len() - i when i >= 0
{
    if i < 0 || i >= frame.len() || nch <= 0 {
        (frame, tensor)
    } else {
        let ch = i % nch;
        if 0 <= ch < tensor.len() {
            let r = run_bands(tensor[ch], 0, frame[i] as int);
            run_frame(tensor.update(ch, r.1), nch, frame.update(i, r.0 as i64), i + 1)
        } else {
            run_frame(tensor, nch, frame, i + 1)
        }
    }
}

/// The frame after the master-gain pass: untouched when the gain is
/// exactly one, otherwise each sample scaled.
pub open spec fn gained_spec(frame: Seq<i64>, g: int) -> Seq<i64> {
    if g == FX_ONE as int {
        frame
    } else {
        Seq::new(frame.len(), |i: int| fx_mul_spec(frame[i] as int, g) as i64)
    }
}

/// A cascade reconciled to a band's required length: surviving sections
/// keep their state and take fresh coefficients, appended sections start
/// from cleared state.
pub open spec fn reconcile_chain(old_chain: Seq<Biquad>, f: FilterNode, rate: int) -> Seq<Biquad> {
    Seq::new(f.sections_spec() as nat, |k: int|
        if k < old_chain.len() {
            Biquad { z1: old_chain[k].z1, z2: old_chain[k].z2, ..designed_spec(f, rate) }
        } else {
            designed_spec(f, rate)
        })
}

/// A tensor rebuilt from scratch: fresh state everywhere.
pub open spec fn fresh_tensor(nch: int, filters: Seq<FilterNode>, rate: int) -> Seq<Seq<Seq<Biquad>>> {
    Seq::new(nch as nat, |c: int|
        Seq::new(filters.len(), |b: int|
            Seq::new(filters[b].sections_spec() as nat, |k: int| designed_spec(filters[b], rate))))
}

/// The tensor after a parameter change: reconciled in place when the
/// structure (channel count and band count) still matches, rebuilt fresh
/// otherwise.
pub open spec fn reconciled_tensor(
    old_t: Seq<Seq<Seq<Biquad>>>, nch: int, filters: Seq<FilterNode>, rate: int,
) -> Seq<Seq<Seq<Biquad>>> {
    if old_t.len() == nch
        && (forall|c: int| 0 <= c < old_t.len() ==> (#[trigger] old_t[c]).len() == filters.len())
    {
        Seq::new(old_t.len(), |c: int|
            Seq::new(filters.len(), |b: int| reconcile_chain(old_t[c][b], filters[b], rate)))
    } else {
        fresh_tensor(nch, filters, rate)
    }
}

/// The parametric equalizer.
#[derive(Clone, Debug)]
pub struct Equalizer {
    pub sample_rate: u32,
    pub preset: EqPreset,
    pub filters: Vec<FilterNode>,
    /// The processor tensor, indexed [channel][band][section].
    pub processors: Vec<Vec<Vec<Biquad>>>,
    pub master_gain: i64,
    pub num_channels: u16,
}

impl Equalizer {
    /// Basic well-formedness: a positive sample rate, at most
    /// MAX_EQ_FILTERS bands, every band within parameter bounds, and
    /// every section's state within the saturation range.
    pub open spec fn wf(self) -> bool {
        self.sample_rate >= 1
            && self.filters@.len() <= MAX_EQ_FILTERS as int
            && (forall|b: int| 0 <= b < self.filters@.len()
                ==> (#[trigger] self.filters@[b]).wf())
            && tensor_wf(tensor_of(self.processors))
    }

    /// The processor tensor matches the band list: one chain list per
    /// channel, one chain per band, each chain of the band's length.
    pub open spec fn structure_ok(self) -> bool {
        let t = tensor_of(self.processors);
        t.len() == self.num_channels as int
            && (forall|c: int| 0 <= c < t.len()
                ==> (#[trigger] t[c]).len() == self.filters@.len())
            && (forall|c: int, b: int| 0 <= c < t.len() && 0 <= b < t[c].len()
                ==> (#[trigger] t[c][b]).len() == self.filters@[b].sections_spec())
    }

    /// Construct an equalizer for a sample rate and channel count, with
    /// the flat preset installed and unit master gain.
    pub fn new(sample_rate: u32, num_channels: u16) -> (r: Equalizer)
        requires sample_rate >= 1,
        ensures
            r.sample_rate == sample_rate,
            r.num_channels == num_channels,
            r.preset == EqPreset::Flat,
            r.filters@ == preset_filters_spec(EqPreset::Flat),
            r.master_gain == FX_ONE,
            r.wf(),
            r.structure_ok(),
            tensor_of(r.processors)
                == fresh_tensor(num_channels as int, r.filters@, sample_rate as int),
    {
        let preset = EqPreset::Flat;
        let filters = preset.set_filters();
        proof { crate::eq::lemma_preset_filters_wf(EqPreset::Flat); }
        let mut eq = Equalizer {
            sample_rate,
            preset,
            filters,
            processors: Vec::new(),
            master_gain: FX_ONE,
            num_channels,
        };
        eq.rebuild_processors();
        eq
    }

    /// Rebuild the whole processor tensor with fresh (cleared) state.
    pub fn rebuild_processors(&mut self)
        requires
            old(self).sample_rate >= 1,
            forall|b: int| 0 <= b < old(self).filters@.len()
                ==> (#[trigger] old(self).filters@[b]).wf(),
        ensures
            final(self).sample_rate == old(self).sample_rate,
            final(self).preset == old(self).preset,
            final(self).filters == old(self).filters,
            final(self).master_gain == old(self).master_gain,
            final(self).num_channels == old(self).num_channels,
            tensor_of(final(self).processors) == fresh_tensor(
                old(self).num_channels as int, old(self).filters@,
                old(self).sample_rate as int),
            final(self).structure_ok(),
            tensor_wf(tensor_of(final(self).processors)),
    {
        let ghost target = fresh_tensor(
            self.num_channels as int, self.filters@, self.sample_rate as int);
        let mut processors: Vec<Vec<Vec<Biquad>>> = Vec::new();
        let nch = self.num_channels as usize;
        let mut c: usize = 0;
        while c < nch
            invariant
                0 <= c <= nch,
                nch == self.num_channels as int,
                self.sample_rate >= 1,
                forall|b: int| 0 <= b < self.filters@.len()
                    ==> (#[trigger] self.filters@[b]).wf(),
                target == fresh_tensor(nch as int, self.filters@, self.sample_rate as int),
                processors@.len() == c as int,
                forall|i: int| 0 <= i < c as int
                    ==> bands_of(#[trigger] processors@[i]) == target[i],
            decreases nch - c,
        {
            let chain_list = self.build_channel();
            proof {
                assert(target[c as int] == (fresh_tensor(1, self.filters@,
                    self.sample_rate as int))[0]);
            }
            processors.push(chain_list);
            c = c + 1;
        }
        self.processors = processors;
        proof {
            assert forall|i: int| 0 <= i < self.processors@.len()
                implies (#[trigger] tensor_of(self.processors)[i]) == target[i] by {
                assert(tensor_of(self.processors)[i] == bands_of(self.processors@[i]));
            }
            assert(tensor_of(self.processors) =~= target);
            lemma_fresh_tensor_wf(self.num_channels as int, self.filters@,
                self.sample_rate as int);
        }
    }

    /// Build one channel's chain list from the current band list.
    fn build_channel(&self) -> (r: Vec<Vec<Biquad>>)
        requires
            self.sample_rate >= 1,
            forall|b: int| 0 <= b < self.filters@.len()
                ==> (#[trigger] self.filters@[b]).wf(),
        ensures
            bands_of(r) == (fresh_tensor(1, self.filters@, self.sample_rate as int))[0],
    {
        let ghost target = (fresh_tensor(1, self.filters@, self.sample_rate as int))[0];
        let mut chain_list: Vec<Vec<Biquad>> = Vec::new();
        let nb = self.filters.len();
        let mut b: usize = 0;
        while b < nb
            invariant
                0 <= b <= nb,
                nb == self.filters@.len(),
                self.sample_rate >= 1,
                forall|j: int| 0 <= j < self.filters@.len()
                    ==> (#[trigger] self.filters@[j]).wf(),
                target == (fresh_tensor(1, self.filters@, self.sample_rate as int))[0],
                chain_list@.len() == b as int,
                forall|j: int| 0 <= j < b as int
                    ==> (#[trigger] chain_list@[j])@ == target[j],
            decreases nb - b,
        {
            let f = self.filters[b];
            let count = f.sections();
            let mut chain: Vec<Biquad> = Vec::new();
            let mut k: usize = 0;
            while k < count
                invariant
                    0 <= k <= count,
                    self.sample_rate >= 1,
                    f.wf(),
                    count == f.sections_spec(),
                    chain@.len() == k as int,
                    forall|m: int| 0 <= m < k as int
                        ==> (#[trigger] chain@[m])
                            == designed_spec(f, self.sample_rate as int),
                decreases count - k,
            {
                let mut bq = Biquad::zeroed();
                bq.update(&f, self.sample_rate);
                proof {
                    assert(bq == designed_spec(f, self.sample_rate as int));
                }
                chain.push(bq);
                k = k + 1;
            }
            proof {
                assert(chain@ =~= target[b as int]);
            }
            chain_list.push(chain);
            b = b + 1;
        }
        proof {
            assert forall|j: int| 0 <= j < chain_list@.len()
                implies (#[trigger] bands_of(chain_list)[j]) == target[j] by {
                assert(bands_of(chain_list)[j] == chain_list@[j]@);
            }
            assert(bands_of(chain_list) =~= target);
        }
        chain_list
    }
}

/// Feed one sample through every section of a cascade, in place.
fn chain_process(chain: &mut Vec<Biquad>, x: i64) -> (y: i64)
    requires
        -FX_SAT <= x <= FX_SAT,
        forall|k: int| 0 <= k < old(chain)@.len() ==> (#[trigger] old(chain)@[k]).wf(),
    ensures
        y as int == (run_chain(old(chain)@, 0, x as int)).0,
        final(chain)@ == (run_chain(old(chain)@, 0, x as int)).1,
        final(chain)@.len() == old(chain)@.len(),
        -FX_SAT <= y <= FX_SAT,
        forall|k: int| 0 <= k < final(chain)@.len() ==> (#[trigger] final(chain)@[k]).wf(),
{
    let ghost c0 = chain@;
    let mut s = x;
    let n = chain.len();
    let mut k: usize = 0;
    while k < n
        invariant
            0 <= k <= n,
            n == chain@.len(),
            chain@.len() == c0.len(),
            -FX_SAT <= s <= FX_SAT,
            forall|m: int| 0 <= m < chain@.len() ==> (#[trigger] chain@[m]).wf(),
            run_chain(c0, 0, x as int) == run_chain(chain@, k as int, s as int),
        decreases n - k,
    {
        let ghost pre = chain@;
        let bq = &mut chain[k];
        let ghost e0 = *bq;
        let y = bq.process(s);
        proof {
            assert(chain@ == pre.update(k as int, stepped_spec(e0, s as int)));
            assert(run_chain(pre, k as int, s as int)
                == run_chain(pre.update(k as int, stepped_spec(e0, s as int)),
                    k as int + 1, (e0.step_spec(s as int)).0));
        }
        s = y;
        k = k + 1;
    }
    s
}

/// Feed one sample through every band cascade of one channel, in place.
fn bands_process(bands: &mut Vec<Vec<Biquad>>, x: i64) -> (y: i64)
    requires
        -FX_SAT <= x <= FX_SAT,
        forall|b: int, k: int|
            0 <= b < bands_of(*old(bands)).len()
                && 0 <= k < bands_of(*old(bands))[b].len()
            ==> (#[trigger] bands_of(*old(bands))[b][k]).wf(),
    ensures
        y as int == (run_bands(bands_of(*old(bands)), 0, x as int)).0,
        bands_of(*final(bands)) == (run_bands(bands_of(*old(bands)), 0, x as int)).1,
        bands_of(*final(bands)).len() == bands_of(*old(bands)).len(),
        -FX_SAT <= y <= FX_SAT,
        forall|b: int, k: int|
            0 <= b < bands_of(*final(bands)).len()
                && 0 <= k < bands_of(*final(bands))[b].len()
            ==> (#[trigger] bands_of(*final(bands))[b][k]).wf(),
{
    let ghost v0 = bands_of(*bands);
    let mut s = x;
    let n = bands.len();
    let mut b: usize = 0;
    while b < n
        invariant
            0 <= b <= n,
            n == bands@.len(),
            bands@.len() == v0.len(),
            -FX_SAT <= s <= FX_SAT,
            forall|j: int, k: int|
                0 <= j < bands_of(*bands).len() && 0 <= k < bands_of(*bands)[j].len()
                ==> (#[trigger] bands_of(*bands)[j][k]).wf(),
            run_bands(v0, 0, x as int) == run_bands(bands_of(*bands), b as int, s as int),
        decreases n - b,
    {
        let ghost pre = bands_of(*bands);
        let ghost prev = bands@;
        proof {
            assert(pre[b as int] == prev[b as int]@);
            assert forall|k: int| 0 <= k < prev[b as int]@.len()
                implies (#[trigger] prev[b as int]@[k]).wf() by {
                assert(bands_of(*bands)[b as int][k].wf());
            }
        }
        let chain = &mut bands[b];
        let y = chain_process(chain, s);
        proof {
            assert(bands@ == prev.update(b as int, *final(chain)));
            assert(bands_of(*bands) =~= pre.update(
                b as int, (run_chain(pre[b as int], 0, s as int)).1)) by {
                assert forall|j: int| 0 <= j < bands_of(*bands).len()
                    implies (#[trigger] bands_of(*bands)[j]) == pre.update(
                        b as int, (run_chain(pre[b as int], 0, s as int)).1)[j] by {
                    assert(bands_of(*bands)[j] == bands@[j]@);
                    if j != b as int {
                        assert(bands@[j] == prev[j]);
                    }
                }
            }
            assert(run_bands(pre, b as int, s as int)
                == run_bands(pre.update(b as int, (run_chain(pre[b as int], 0, s as int)).1),
                    b as int + 1, (run_chain(pre[b as int], 0, s as int)).0));
        }
        s = y;
        b = b + 1;
    }
    proof {
        assert forall|j: int, k: int|
            0 <= j < bands_of(*bands).len() && 0 <= k < bands_of(*bands)[j].len()
            implies (#[trigger] bands_of(*bands)[j][k]).wf() by {}
    }
    s
}

/// What processing an interleaved frame does: nothing at all for a
/// zero-channel stream, otherwise the master-gain pass followed by the
/// per-channel cascades.
pub open spec fn process_frame_spec(eq: Equalizer, frame: Seq<i64>) -> (Seq<i64>, Seq<Seq<Seq<Biquad>>>) {
    if eq.num_channels == 0 {
        (frame, tensor_of(eq.processors))
    } else {
        run_frame(
            tensor_of(eq.processors), eq.num_channels as int,
            gained_spec(frame, eq.master_gain as int), 0)
    }
}

impl Equalizer {
    /// Apply the equalizer to an interleaved frame in place: master gain
    /// first (skipped when exactly one), then each sample through its
    /// channel's band cascades. A zero-channel equalizer is a no-op.
    pub fn process_frame(&mut self, frame: &mut Vec<i64>)
        requires
            old(self).wf(),
            forall|i: int| 0 <= i < old(frame)@.len()
                ==> -FX_SAT <= #[trigger] old(frame)@[i] <= FX_SAT,
        ensures
            final(self).sample_rate == old(self).sample_rate,
            final(self).preset == old(self).preset,
            final(self).filters == old(self).filters,
            final(self).master_gain == old(self).master_gain,
            final(self).num_channels == old(self).num_channels,
            final(self).wf(),
            final(frame)@.len() == old(frame)@.len(),
            final(frame)@ == (process_frame_spec(*old(self), old(frame)@)).0,
            tensor_of(final(self).processors)
                == (process_frame_spec(*old(self), old(frame)@)).1,
            forall|i: int| 0 <= i < final(frame)@.len()
                ==> -FX_SAT <= #[trigger] final(frame)@[i] <= FX_SAT,
    {
        let nch = self.num_channels as usize;
        if nch == 0 {
            return;
        }

        let ghost f0 = frame@;
        let g = self.master_gain;
        if g != FX_ONE {
            let len = frame.len();
            let mut i: usize = 0;
            while i < len
                invariant
                    0 <= i <= len,
                    len == frame@.len(),
                    frame@.len() == f0.len(),
                    g != FX_ONE,
                    forall|j: int| 0 <= j < i as int
                        ==> #[trigger] frame@[j] == fx_mul_spec(f0[j] as int, g as int) as i64,
                    forall|j: int| i as int <= j < f0.len()
                        ==> #[trigger] frame@[j] == f0[j],
                    forall|j: int| 0 <= j < frame@.len()
                        ==> -FX_SAT <= #[trigger] frame@[j] <= FX_SAT,
                decreases len - i,
            {
                let v = fx_mul(frame[i], g);
                frame.set(i, v);
                i = i + 1;
            }
            proof {
                assert(frame@ =~= gained_spec(f0, g as int));
            }
        }
        proof {
            assert(frame@ == gained_spec(f0, g as int));
        }

        let ghost f1 = frame@;
        let ghost t1 = tensor_of(self.processors);
        let len = frame.len();
        let mut i: usize = 0;
        while i < len
            invariant
                0 <= i <= len,
                len == frame@.len(),
                frame@.len() == f1.len(),
                1 <= nch <= 65535,
                forall|j: int| 0 <= j < frame@.len()
                    ==> -FX_SAT <= #[trigger] frame@[j] <= FX_SAT,
                tensor_wf(tensor_of(self.processors)),
                self.sample_rate == old(self).sample_rate,
                self.preset == old(self).preset,
                self.filters == old(self).filters,
                self.master_gain == old(self).master_gain,
                self.num_channels == old(self).num_channels,
                old(self).wf(),
                run_frame(t1, nch as int, f1, 0)
                    == run_frame(tensor_of(self.processors), nch as int, frame@, i as int),
            decreases len - i,
        {
            let ch = i % nch;
            let ghost tpre = tensor_of(self.processors);
            let ghost fpre = frame@;
            if ch < self.processors.len() {
                let ghost prev = self.processors@;
                let x = frame[i];
                proof {
                    assert(tpre[ch as int] == bands_of(prev[ch as int]));
                    assert forall|b: int, k: int|
                        0 <= b < bands_of(prev[ch as int]).len()
                            && 0 <= k < bands_of(prev[ch as int])[b].len()
                        implies (#[trigger] bands_of(prev[ch as int])[b][k]).wf() by {
                        assert(tpre[ch as int][b][k].wf());
                    }
                }
                let bl = &mut self.processors[ch];
                let y = bands_process(bl, x);
                proof {
                    assert(self.processors@ == prev.update(ch as int, *final(bl)));
                    let r = run_bands(tpre[ch as int], 0, x as int);
                    assert(tensor_of(self.processors) =~= tpre.update(ch as int, r.1)) by {
                        assert forall|j: int| 0 <= j < tensor_of(self.processors).len()
                            implies (#[trigger] tensor_of(self.processors)[j])
                                == tpre.update(ch as int, r.1)[j] by {
                            assert(tensor_of(self.processors)[j]
                                == bands_of(self.processors@[j]));
                            if j != ch as int {
                                assert(self.processors@[j] == prev[j]);
                                assert(tpre[j] == bands_of(prev[j]));
                            }
                        }
                    }
                }
                frame.set(i, y);
                proof {
                    let r = run_bands(tpre[ch as int], 0, x as int);
                    assert(frame@ == fpre.update(i as int, (r.0 as i64)));
                    assert(run_frame(tpre, nch as int, fpre, i as int)
                        == run_frame(tpre.update(ch as int, r.1), nch as int,
                            fpre.update(i as int, r.0 as i64), i as int + 1));
                }
            } else {
                proof {
                    assert(run_frame(tpre, nch as int, fpre, i as int)
                        == run_frame(tpre, nch as int, fpre, i as int + 1));
                }
            }
            i = i + 1;
        }
        proof {
            assert(run_frame(t1, nch as int, f1, 0)
                == (run_frame(tensor_of(self.processors), nch as int, frame@, len as int)));
        }
    }
}

/// Reconcile one cascade to a band's required length in place: truncate
/// from the end when shrinking, append cleared sections when growing,
/// then retune every section's coefficients (state preserved).
fn reconcile_chain_exec(chain: &mut Vec<Biquad>, f: &FilterNode, rate: u32)
    requires
        rate >= 1,
        f.wf(),
        forall|k: int| 0 <= k < old(chain)@.len() ==> (#[trigger] old(chain)@[k]).wf(),
    ensures
        final(chain)@ == reconcile_chain(old(chain)@, *f, rate as int),
        forall|k: int| 0 <= k < final(chain)@.len() ==> (#[trigger] final(chain)@[k]).wf(),
{
    let ghost c0 = chain@;
    let count = f.sections();
    proof {
        assert(c0.subrange(0, c0.len() as int) =~= c0);
    }
    while chain.len() > count
        invariant
            count == f.sections_spec(),
            chain@.len() <= c0.len(),
            chain@ == c0.subrange(0, chain@.len() as int),
            chain@.len() >= count || chain@.len() == c0.len(),
        decreases chain@.len(),
    {
        let ghost pre = chain@;
        chain.pop();
        proof {
            assert(chain@ == pre.drop_last());
            assert(chain@ =~= c0.subrange(0, pre.len() - 1));
        }
    }
    proof {
        if c0.len() >= count as int {
            assert(chain@ == c0.subrange(0, count as int));
        } else {
            assert(chain@.len() == c0.len());
            assert(chain@ =~= c0);
        }
    }
    let ghost mid = chain@;
    while chain.len() < count
        invariant
            count == f.sections_spec(),
            mid.len() <= chain@.len() <= count,
            chain@.subrange(0, mid.len() as int) == mid,
            forall|k: int| mid.len() <= k < chain@.len()
                ==> (#[trigger] chain@[k]) == Biquad::zero_spec(),
        decreases count - chain@.len(),
    {
        let ghost pre = chain@;
        chain.push(Biquad::zeroed());
        proof {
            assert(chain@.subrange(0, mid.len() as int)
                =~= pre.subrange(0, mid.len() as int));
        }
    }
    let ghost ext = chain@;
    let mut k: usize = 0;
    while k < count
        invariant
            0 <= k <= count,
            rate >= 1,
            f.wf(),
            count == chain@.len(),
            count == f.sections_spec(),
            forall|m: int| 0 <= m < k as int
                ==> (#[trigger] chain@[m]) == (Biquad {
                    z1: ext[m].z1, z2: ext[m].z2,
                    ..designed_spec(*f, rate as int)
                }),
            forall|m: int| k as int <= m < chain@.len()
                ==> (#[trigger] chain@[m]) == ext[m],
        decreases count - k,
    {
        let bq = &mut chain[k];
        bq.update(f, rate);
        k = k + 1;
    }
    proof {
        assert forall|m: int| 0 <= m < count as int
            implies (#[trigger] chain@[m])
                == reconcile_chain(c0, *f, rate as int)[m] by {
            if m < c0.len() {
                assert(ext[m] == c0[m]);
            } else {
                assert(ext[m] == Biquad::zero_spec());
            }
        }
        assert(chain@ =~= reconcile_chain(c0, *f, rate as int));
        assert forall|m: int| 0 <= m < chain@.len()
            implies (#[trigger] chain@[m]).wf() by {
            if m < c0.len() {
                assert(c0[m].wf());
            }
        }
    }
}

impl Equalizer {
    /// Reconcile the processor tensor after the band list or a band's
    /// parameters changed. When the channel count or any channel's band
    /// count no longer matches, the tensor is rebuilt with cleared state;
    /// otherwise every cascade is resized and retuned in place, and the
    /// surviving sections keep their state — the click-free hot path for
    /// tuning a live equalizer.
    #[verifier::loop_isolation(false)]
    pub fn parameters_changed(&mut self)
        requires old(self).wf(),
        ensures
            final(self).sample_rate == old(self).sample_rate,
            final(self).preset == old(self).preset,
            final(self).filters == old(self).filters,
            final(self).master_gain == old(self).master_gain,
            final(self).num_channels == old(self).num_channels,
            tensor_of(final(self).processors) == reconciled_tensor(
                tensor_of(old(self).processors), old(self).num_channels as int,
                old(self).filters@, old(self).sample_rate as int),
            final(self).wf(),
            final(self).structure_ok(),
    {
        let ghost t0 = tensor_of(self.processors);
        let nch = self.num_channels as usize;
        if self.processors.len() != nch {
            self.rebuild_processors();
            return;
        }
        let nb = self.filters.len();
        let mut c: usize = 0;
        while c < nch
            invariant
                0 <= c <= nch,
                nch == self.processors@.len(),
                nb == self.filters@.len(),
                forall|j: int| 0 <= j < c as int
                    ==> (#[trigger] self.processors@[j])@.len() == nb as int,
                *self == *old(self),
            decreases nch - c,
        {
            if self.processors[c].len() != nb {
                proof {
                    assert(tensor_of(old(self).processors)[c as int]
                        == bands_of(old(self).processors@[c as int]));
                    assert(t0[c as int].len() != old(self).filters@.len());
                }
                self.rebuild_processors();
                return;
            }
            c = c + 1;
        }
        // structure matches: reconcile every cascade in place
        proof {
            assert forall|j: int| 0 <= j < t0.len()
                implies (#[trigger] t0[j]).len() == self.filters@.len() by {
                assert(tensor_of(old(self).processors)[j]
                    == bands_of(old(self).processors@[j]));
                assert(self.processors@[j]@.len() == nb as int);
            }
        }
        let ghost target = reconciled_tensor(
            t0, self.num_channels as int, self.filters@, self.sample_rate as int);
        let mut c: usize = 0;
        while c < nch
            invariant
                0 <= c <= nch,
                nch == self.processors@.len(),
                nch == self.num_channels as int,
                nb == self.filters@.len(),
                self.sample_rate == old(self).sample_rate,
                self.preset == old(self).preset,
                self.filters == old(self).filters,
                self.master_gain == old(self).master_gain,
                self.num_channels == old(self).num_channels,
                old(self).wf(),
                target == reconciled_tensor(t0, self.num_channels as int,
                    self.filters@, self.sample_rate as int),
                target.len() == nch as int,
                forall|j: int| 0 <= j < c as int
                    ==> bands_of(#[trigger] self.processors@[j]) == target[j],
                forall|j: int| c as int <= j < nch as int
                    ==> (#[trigger] self.processors@[j]) == old(self).processors@[j],
            decreases nch - c,
        {
            let ghost prev = self.processors@;
            let ghost tch = bands_of(prev[c as int]);
            proof {
                assert(prev[c as int] == old(self).processors@[c as int]);
                assert(tensor_of(old(self).processors)[c as int]
                    == bands_of(old(self).processors@[c as int]));
                assert(tch == t0[c as int]);
                assert(tch.len() == nb as int);
                assert forall|b: int, k: int|
                    0 <= b < tch.len() && 0 <= k < tch[b].len()
                    implies (#[trigger] tch[b][k]).wf() by {
                    assert(tensor_of(old(self).processors)[c as int][b][k].wf());
                }
            }
            let bl = &mut self.processors[c];
            reconcile_list(bl, &self.filters, self.sample_rate);
            proof {
                assert(self.processors@ == prev.update(c as int, *final(bl)));
                assert(bands_of(self.processors@[c as int]) =~= target[c as int]) by {
                    assert forall|b: int| 0 <= b < nb as int
                        implies (#[trigger] bands_of(*final(bl))[b]) == target[c as int][b] by {
                        assert(bands_of(*final(bl))[b]
                            == reconcile_chain(tch[b], self.filters@[b],
                                self.sample_rate as int));
                    }
                }
            }
            c = c + 1;
        }
        proof {
            assert(tensor_of(self.processors) =~= target) by {
                assert forall|j: int| 0 <= j < nch as int
                    implies (#[trigger] tensor_of(self.processors)[j]) == target[j] by {
                    assert(tensor_of(self.processors)[j]
                        == bands_of(self.processors@[j]));
                }
            }
            lemma_reconciled_tensor_wf(t0, self.num_channels as int,
                self.filters@, self.sample_rate as int);
        }
    }
}

/// Reconcile every cascade of one channel against the band list.
fn reconcile_list(bands: &mut Vec<Vec<Biquad>>, filters: &Vec<FilterNode>, rate: u32)
    requires
        rate >= 1,
        old(bands)@.len() == filters@.len(),
        forall|b: int| 0 <= b < filters@.len() ==> (#[trigger] filters@[b]).wf(),
        forall|b: int, k: int|
            0 <= b < bands_of(*old(bands)).len()
                && 0 <= k < bands_of(*old(bands))[b].len()
            ==> (#[trigger] bands_of(*old(bands))[b][k]).wf(),
    ensures
        final(bands)@.len() == filters@.len(),
        forall|b: int| 0 <= b < filters@.len()
            ==> (#[trigger] bands_of(*final(bands))[b]) == reconcile_chain(
                bands_of(*old(bands))[b], filters@[b], rate as int),
{
    let ghost v0 = bands_of(*bands);
    let n = bands.len();
    let mut b: usize = 0;
    while b < n
        invariant
            0 <= b <= n,
            rate >= 1,
            n == bands@.len(),
            bands@.len() == v0.len(),
            v0.len() == filters@.len(),
            forall|j: int| 0 <= j < filters@.len() ==> (#[trigger] filters@[j]).wf(),
            forall|j: int| 0 <= j < b as int
                ==> (#[trigger] bands@[j])@ == reconcile_chain(v0[j], filters@[j], rate as int),
            forall|j: int| b as int <= j < v0.len()
                ==> (#[trigger] bands@[j])@ == v0[j],
            forall|j: int, k: int|
                b as int <= j < v0.len() && 0 <= k < v0[j].len()
                ==> (#[trigger] v0[j][k]).wf(),
        decreases n - b,
    {
        let ghost prev = bands@;
        proof {
            assert(prev[b as int]@ == v0[b as int]);
        }
        let chain = &mut bands[b];
        let f = filters[b];
        reconcile_chain_exec(chain, &f, rate);
        proof {
            assert(bands@ == prev.update(b as int, *final(chain)));
        }
        b = b + 1;
    }
    proof {
        assert forall|j: int| 0 <= j < filters@.len()
            implies (#[trigger] bands_of(*bands)[j]) == reconcile_chain(
                v0[j], filters@[j], rate as int) by {
            assert(bands_of(*bands)[j] == bands@[j]@);
        }
    }
}

/// A reconciled tensor keeps every section's state bounded.
pub proof fn lemma_reconciled_tensor_wf(
    t: Seq<Seq<Seq<Biquad>>>, nch: int, filters: Seq<FilterNode>, rate: int,
)
    requires nch >= 0, tensor_wf(t),
    ensures tensor_wf(reconciled_tensor(t, nch, filters, rate)),
{
    let r = reconciled_tensor(t, nch, filters, rate);
    if t.len() == nch
        && (forall|c: int| 0 <= c < t.len() ==> (#[trigger] t[c]).len() == filters.len())
    {
        assert forall|c: int, b: int, k: int|
            0 <= c < r.len() && 0 <= b < r[c].len() && 0 <= k < r[c][b].len()
            implies (#[trigger] r[c][b][k]).wf() by {
            assert(r[c][b] == reconcile_chain(t[c][b], filters[b], rate));
            if k < t[c][b].len() {
                assert(t[c][b][k].wf());
            }
        }
    } else {
        lemma_fresh_tensor_wf(nch, filters, rate);
    }
}

/// Every section of a tensor has bounded state.
pub open spec fn tensor_wf(t: Seq<Seq<Seq<Biquad>>>) -> bool {
    forall|c: int, b: int, k: int|
        0 <= c < t.len() && 0 <= b < t[c].len() && 0 <= k < t[c][b].len()
        ==> (#[trigger] t[c][b][k]).wf()
}

/// A freshly built tensor has bounded (zero) state everywhere.
pub proof fn lemma_fresh_tensor_wf(nch: int, filters: Seq<FilterNode>, rate: int)
    requires nch >= 0,
    ensures tensor_wf(fresh_tensor(nch, filters, rate)),
{
}

/// The default band a preset holds at an index: the preset's own band
/// when it has one there, else the built-in default carrying that index
/// as its id.
pub open spec fn preset_band_default(p: EqPreset, idx: int) -> FilterNode {
    let pf = preset_filters_spec(p);
    if 0 <= idx < pf.len() {
        pf[idx]
    } else {
        FilterNode { id: idx as i16, ..FilterNode::default_spec() }
    }
}

/// The master gain in Q20 dB: 20 * log10 of the linear gain (floored at
/// one ulp so the logarithm is defined), kept within +/- 512 dB.
pub open spec fn master_db_spec(g: int) -> int {
    let gm = if g < 1 { 1 } else { g };
    spec_clamp(
        fx_mul_spec(log2_spec(gm), FX_DB20_PER_LOG2 as int),
        -512 * FX_ONE as int, 512 * FX_ONE as int)
}

/// Sum of the bands' magnitude responses at a frequency, from band i on.
pub open spec fn sum_mag_spec(filters: Seq<FilterNode>, i: int, f: int, rate: int) -> int
    decreases filters.len() - i when i >= 0
{
    if i < 0 || i >= filters.len() {
        0
    } else {
        filters[i].magnitude_db_spec(f, rate) + sum_mag_spec(filters, i + 1, f, rate)
    }
}

/// The equalizer's combined response at a frequency, in Q20 dB: the
/// master gain in dB plus the sum of every band's magnitude response.
pub open spec fn response_db_spec(eq: Equalizer, f: int) -> int {
    master_db_spec(eq.master_gain as int)
        + sum_mag_spec(eq.filters@, 0, f, eq.sample_rate as int)
}

/// The i-th of `width` logarithmically spaced sample frequencies between
/// 20 Hz and 20 kHz, in Q20 Hz.
pub open spec fn curve_freq_spec(i: int, width: int) -> int {
    let step = tdiv(FX_LOG2_1000 as int, width - 1);
    let z = spec_clamp(i * step, 0, 32 * FX_ONE as int);
    fx_mul_spec(FREQ_MIN as int, exp2_spec(z))
}

impl Equalizer {
    /// Switch preset: replace the band list wholesale and rebuild the
    /// processors from scratch (a structural change: state is cleared).
    /// Selecting the current preset changes nothing.
    pub fn update_preset(&mut self, preset: EqPreset)
        requires old(self).wf(),
        ensures
            final(self).sample_rate == old(self).sample_rate,
            final(self).master_gain == old(self).master_gain,
            final(self).num_channels == old(self).num_channels,
            preset == old(self).preset ==> *final(self) == *old(self),
            preset != old(self).preset ==> final(self).preset == preset
                && final(self).filters@ == preset_filters_spec(preset)
                && tensor_of(final(self).processors) == fresh_tensor(
                    old(self).num_channels as int, preset_filters_spec(preset),
                    old(self).sample_rate as int)
                && final(self).structure_ok(),
            final(self).wf(),
    {
        if preset != self.preset {
            self.preset = preset;
            let config = self.preset.set_filters();
            self.filters = config;
            proof { crate::eq::lemma_preset_filters_wf(preset); }
            self.rebuild_processors();
        }
    }

    /// Reset the whole equalizer: unit master gain, the current preset's
    /// band list, and a parameter reconciliation.
    pub fn reset_parameters(&mut self)
        requires old(self).wf(),
        ensures
            final(self).sample_rate == old(self).sample_rate,
            final(self).preset == old(self).preset,
            final(self).num_channels == old(self).num_channels,
            final(self).master_gain == FX_ONE,
            final(self).filters@ == preset_filters_spec(old(self).preset),
            tensor_of(final(self).processors) == reconciled_tensor(
                tensor_of(old(self).processors), old(self).num_channels as int,
                preset_filters_spec(old(self).preset), old(self).sample_rate as int),
            final(self).wf(),
            final(self).structure_ok(),
    {
        let config = self.preset.set_filters();
        self.filters = config;
        self.master_gain = FX_ONE;
        proof { crate::eq::lemma_preset_filters_wf(self.preset); }
        self.parameters_changed();
    }

    /// Reset one band to the preset's corresponding band (or the built-in
    /// default) without touching its neighbours; fails exactly when the
    /// index is past the end of the band list.
    pub fn reset_filter_node_param(&mut self, node_index: usize) -> (r: Result<(), String>)
        requires old(self).wf(),
        ensures
            r is Ok <==> node_index < old(self).filters@.len(),
            final(self).sample_rate == old(self).sample_rate,
            final(self).preset == old(self).preset,
            final(self).num_channels == old(self).num_channels,
            final(self).master_gain == old(self).master_gain,
            node_index < old(self).filters@.len() ==> (
                final(self).filters@ == old(self).filters@.update(
                    node_index as int,
                    preset_band_default(old(self).preset, node_index as int))
                && tensor_of(final(self).processors) == reconciled_tensor(
                    tensor_of(old(self).processors), old(self).num_channels as int,
                    final(self).filters@, old(self).sample_rate as int)
                && final(self).structure_ok()),
            node_index >= old(self).filters@.len() ==> *final(self) == *old(self),
            final(self).wf(),
    {
        let preset_filters = self.preset.set_filters();
        let default_node = if node_index < preset_filters.len() {
            preset_filters[node_index]
        } else {
            let mut node = FilterNode::new(0, crate::eq::FREQ_DEFAULT);
            #[verifier::truncate]
            let id = node_index as i16;
            node.id = id;
            proof {
                assert(node == (FilterNode { id: node_index as i16,
                    ..FilterNode::default_spec() }));
            }
            node
        };
        proof { crate::eq::lemma_preset_filters_wf(self.preset); }
        if node_index < self.filters.len() {
            self.filters.set(node_index, default_node);
            self.parameters_changed();
            Ok(())
        } else {
            Err("filter node not found".to_string())
        }
    }

    /// Sample the combined frequency response at logarithmically spaced
    /// frequencies between 20 Hz and 20 kHz, as (frequency, dB) pairs in
    /// Q20. A pure function of the parameters: no filter state is read
    /// or written.
    #[verifier::loop_isolation(false)]
    pub fn get_response_curve(&self, width: usize) -> (r: Vec<(i64, i64)>)
        requires self.wf(), width >= 2,
        ensures
            r@.len() == width,
            forall|i: int| 0 <= i < width as int ==> (#[trigger] r@[i]).0
                == curve_freq_spec(i, width as int),
            forall|i: int| 0 <= i < width as int ==> (#[trigger] r@[i]).1
                == response_db_spec(*self, curve_freq_spec(i, width as int)),
    {
        let mut points: Vec<(i64, i64)> = Vec::new();
        let g = self.master_gain;
        let gm = if g < 1 { 1 } else { g };
        let master_db = clamp_i64(
            fx_mul(fx_log2(gm), FX_DB20_PER_LOG2), -512 * FX_ONE, 512 * FX_ONE);
        let step128: i128 = (FX_LOG2_1000 as i128) / ((width as i128) - 1);
        let step = step128 as i64;
        assert(step == tdiv(FX_LOG2_1000 as int, width as int - 1));
        let mut i: usize = 0;
        while i < width
            invariant
                0 <= i <= width,
                points@.len() == i as int,
                master_db == master_db_spec(g as int),
                -512 * FX_ONE <= master_db <= 512 * FX_ONE,
                step == tdiv(FX_LOG2_1000 as int, width as int - 1),
                0 <= step <= FX_LOG2_1000,
                forall|j: int| 0 <= j < i as int ==> (#[trigger] points@[j]).0
                    == curve_freq_spec(j, width as int),
                forall|j: int| 0 <= j < i as int ==> (#[trigger] points@[j]).1
                    == response_db_spec(*self, curve_freq_spec(j, width as int)),
            decreases width - i,
        {
            proof {
                assert(i as int * step as int <= 18446744073709551616 * 10449882
                    && i as int * step as int >= 0) by (nonlinear_arith)
                    requires 0 <= i <= 18446744073709551616int && 0 <= step <= 10449882;
            }
            let zw: i128 = (i as i128) * (step as i128);
            let z = if zw < 0 { 0 } else if zw > (32 * FX_ONE) as i128 {
                32 * FX_ONE
            } else {
                zw as i64
            };
            assert(z == spec_clamp(i as int * step as int, 0, 32 * FX_ONE as int));
            let f = fx_mul(FREQ_MIN, fx_exp2(z));
            let ghost ff = curve_freq_spec(i as int, width as int);
            assert(f == ff);

            let mut total: i64 = master_db;
            let nb = self.filters.len();
            let mut b: usize = 0;
            while b < nb
                invariant
                    0 <= b <= nb,
                    nb == self.filters@.len(),
                    -512 * FX_ONE - 2048 * FX_ONE * b as int <= total,
                    total <= 512 * FX_ONE + 2048 * FX_ONE * b as int,
                    total as int + sum_mag_spec(self.filters@, b as int, ff, self.sample_rate as int)
                        == response_db_spec(*self, ff),
                decreases nb - b,
            {
                let m = self.filters[b].magnitude_db(f, self.sample_rate);
                total = total + m;
                b = b + 1;
            }
            points.push((f, total));
            i = i + 1;
        }
        points
    }
}

/// The dimensions of a well-structured equalizer: as many chain lists as
/// channels, as many chains per channel as bands, and each band's chain
/// of length max(1, ceil(order / 2)).
pub proof fn lemma_structure_dimensions(eq: Equalizer)
    requires eq.structure_ok(),
    ensures
        tensor_of(eq.processors).len() == eq.num_channels as int,
        forall|c: int| 0 <= c < eq.num_channels as int
            ==> (#[trigger] tensor_of(eq.processors)[c]).len() == eq.filters@.len(),
        forall|c: int, b: int|
            0 <= c < eq.num_channels as int && 0 <= b < eq.filters@.len()
            ==> (#[trigger] tensor_of(eq.processors)[c][b]).len()
                == eq.filters@[b].sections_spec(),
{
}

/// Processing a frame through a zero-channel equalizer changes neither
/// the frame nor the filter state.
pub proof fn lemma_zero_channels_noop(eq: Equalizer, frame: Seq<i64>)
    requires eq.num_channels == 0,
    ensures
        (process_frame_spec(eq, frame)).0 == frame,
        (process_frame_spec(eq, frame)).1 == tensor_of(eq.processors),
{
}

/// Running a frame through a tensor whose channels hold no bands leaves
/// every sample unchanged.
proof fn lemma_run_frame_trivial(t: Seq<Seq<Seq<Biquad>>>, nch: int, f: Seq<i64>, i: int)
    requires
        nch >= 1,
        0 <= i,
        forall|c: int| 0 <= c < t.len() ==> (#[trigger] t[c]).len() == 0,
    ensures
        (run_frame(t, nch, f, i)).0 == f,
        (run_frame(t, nch, f, i)).1 == t,
    decreases f.len() - i
{
    if i < f.len() {
        let ch = i % nch;
        if 0 <= ch < t.len() {
            let r = run_bands(t[ch], 0, f[i] as int);
            assert(r.0 == f[i] as int && r.1 == t[ch]);
            assert(t.update(ch, r.1) =~= t);
            assert((f[i] as int) as i64 == f[i]);
            assert(f.update(i, (r.0 as i64)) =~= f);
            lemma_run_frame_trivial(t, nch, f, i + 1);
        } else {
            lemma_run_frame_trivial(t, nch, f, i + 1);
        }
    }
}

/// An equalizer with an empty band list and unit master gain is a
/// pass-through: the processed frame equals the input sample for sample.
pub proof fn lemma_empty_filters_passthrough(eq: Equalizer, frame: Seq<i64>)
    requires
        eq.structure_ok(),
        eq.filters@.len() == 0,
        eq.master_gain == FX_ONE,
    ensures (process_frame_spec(eq, frame)).0 == frame,
{
    if eq.num_channels != 0 {
        assert(gained_spec(frame, eq.master_gain as int) == frame);
        let t = tensor_of(eq.processors);
        assert forall|c: int| 0 <= c < t.len()
            implies (#[trigger] t[c]).len() == 0 by {}
        lemma_run_frame_trivial(t, eq.num_channels as int, frame, 0);
    }
}

/// The gain round trip is exact at unit gain: encoding 0 dB gives a
/// linear factor of exactly one, and decoding a linear factor of one
/// gives exactly 0 dB. (Away from the grid points the round trip is
/// exact only up to fixed-point precision, which is checked numerically
/// rather than proved.)
pub proof fn lemma_unit_gain_round_trip()
    ensures
        crate::fixed::db_to_linear_spec(0) == FX_ONE as int,
        master_db_spec(FX_ONE as int) == 0,
{
    assert(crate::fixed::exp2_spec(0) == FX_ONE as int) by {
        reveal_with_fuel(crate::fixed::pow2, 2);
    };
    assert(crate::fixed::log2_spec(FX_ONE as int) == 0) by {
        assert(crate::fixed::norm_down_steps(FX_ONE as int) == 0);
        assert(crate::fixed::norm_up_steps(FX_ONE as int) == 0);
        assert(crate::fixed::norm_mantissa(FX_ONE as int) == FX_ONE as int);
        lemma_log2_frac_of_one(20, FX_ONE as int / 2);
    };
}

/// The fractional-bit extraction of a mantissa of exactly one yields no
/// bits: squaring one gives one, below the take-a-bit threshold.
proof fn lemma_log2_frac_of_one(k: nat, add: int)
    ensures crate::fixed::log2_frac_spec(FX_ONE as int, k, add) == 0,
    decreases k
{
    if k > 0 {
        assert(crate::fixed::fx_mul_spec(FX_ONE as int, FX_ONE as int) == FX_ONE as int);
        lemma_log2_frac_of_one((k - 1) as nat, add / 2);
    }
}

/// The response curve is the per-band decomposition promised to callers:
/// at any frequency its value is exactly the sum over bands of that
/// band's magnitude response plus the master gain in dB.
pub proof fn lemma_response_is_band_sum(eq: Equalizer, f: int)
    ensures
        response_db_spec(eq, f)
            == master_db_spec(eq.master_gain as int)
                + sum_mag_spec(eq.filters@, 0, f, eq.sample_rate as int),
{
}

} // verus!
