//! A switchable processing node: a processor plus an on/off flag. The
//! equalizer node also carries the realtime mutators a playing source
//! applies when commands arrive on its channel; every incoming band is
//! clamped into its parameter ranges at this boundary.

use vstd::prelude::*;
use crate::fixed::{FX_ONE, FX_SAT, spec_clamp};
use crate::eq::{FilterNode, MAX_EQ_FILTERS, FREQ_MIN, FREQ_MAX, GAIN_LIMIT, Q_MIN, Q_MAX};
use crate::equalizer::{Equalizer, tensor_of, reconciled_tensor};

verus! {

/// A processor together with its bypass flag.
#[derive(Debug, Clone)]
pub struct DspNode<T> {
    pub on: bool,
    pub instance: T,
}

impl<T> DspNode<T> {
    /// A node that starts bypassed.
    pub fn new(instance: T) -> (r: Self)
        ensures r.on == false, r.instance == instance,
    {
        DspNode { on: false, instance }
    }

    /// A node with an explicit initial state.
    pub fn new_with_state(instance: T, on: bool) -> (r: Self)
        ensures r.on == on, r.instance == instance,
    {
        DspNode { on, instance }
    }
}

/// A band with every parameter clamped into its documented range; the
/// order additionally floored at one.
pub open spec fn sanitized_spec(f: FilterNode) -> FilterNode {
    FilterNode {
        id: f.id,
        filter_type: f.filter_type,
        freq: spec_clamp(f.freq as int, FREQ_MIN as int, FREQ_MAX as int) as i64,
        gain: spec_clamp(f.gain as int, -GAIN_LIMIT as int, GAIN_LIMIT as int) as i64,
        q: spec_clamp(f.q as int, Q_MIN as int, Q_MAX as int) as i64,
        order: spec_clamp(f.order as int, 1, 16) as u8,
    }
}

/// Clamp a band into its parameter ranges.
pub fn sanitize_filter(f: &FilterNode) -> (r: FilterNode)
    ensures r == sanitized_spec(*f), r.wf(),
{
    let mut node = *f;
    node.set_freq(f.freq);
    node.set_gain(f.gain);
    node.set_q_factor(f.q);
    node.set_order(f.order);
    node
}

/// The band list a realtime replace-all installs: each entry clamped,
/// the list truncated to the band limit.
pub open spec fn sanitized_list_spec(nodes: Seq<FilterNode>) -> Seq<FilterNode> {
    let n = if nodes.len() > MAX_EQ_FILTERS as int { MAX_EQ_FILTERS as int } else { nodes.len() as int };
    Seq::new(n as nat, |i: int| sanitized_spec(nodes[i]))
}

/// Clamp every band of a list and truncate it to the band limit.
pub fn sanitize_filters(nodes: &Vec<FilterNode>) -> (r: Vec<FilterNode>)
    ensures
        r@ == sanitized_list_spec(nodes@),
        r@.len() <= MAX_EQ_FILTERS as int,
        forall|i: int| 0 <= i < r@.len() ==> (#[trigger] r@[i]).wf(),
{
    let n = if nodes.len() > MAX_EQ_FILTERS { MAX_EQ_FILTERS } else { nodes.len() };
    let mut out: Vec<FilterNode> = Vec::new();
    let mut i: usize = 0;
    while i < n
        invariant
            0 <= i <= n,
            n <= nodes@.len(),
            n as int == (if nodes@.len() > MAX_EQ_FILTERS as int { MAX_EQ_FILTERS as int }
                else { nodes@.len() as int }),
            out@.len() == i as int,
            forall|j: int| 0 <= j < i as int
                ==> (#[trigger] out@[j]) == sanitized_spec(nodes@[j]),
            forall|j: int| 0 <= j < i as int ==> (#[trigger] out@[j]).wf(),
        decreases n - i,
    {
        out.push(sanitize_filter(&nodes[i]));
        i = i + 1;
    }
    proof {
        assert(out@ =~= sanitized_list_spec(nodes@));
    }
    out
}

impl DspNode<Equalizer> {
    /// Replace one band (clamped) and reconcile the processors; indices
    /// past the band list are ignored.
    pub fn set_filter(&mut self, idx: usize, node: FilterNode)
        requires old(self).instance.wf(),
        ensures
            final(self).on == old(self).on,
            final(self).instance.wf(),
            final(self).instance.sample_rate == old(self).instance.sample_rate,
            final(self).instance.preset == old(self).instance.preset,
            final(self).instance.master_gain == old(self).instance.master_gain,
            final(self).instance.num_channels == old(self).instance.num_channels,
            idx < old(self).instance.filters@.len() ==> (
                final(self).instance.filters@ == old(self).instance.filters@.update(
                    idx as int, sanitized_spec(node))
                && tensor_of(final(self).instance.processors) == reconciled_tensor(
                    tensor_of(old(self).instance.processors),
                    old(self).instance.num_channels as int,
                    final(self).instance.filters@,
                    old(self).instance.sample_rate as int)
                && final(self).instance.structure_ok()),
            idx >= old(self).instance.filters@.len() ==> *final(self) == *old(self),
    {
        if idx < self.instance.filters.len() {
            let clean = sanitize_filter(&node);
            self.instance.filters.set(idx, clean);
            self.instance.parameters_changed();
        }
    }

    /// Replace the whole band list (clamped and truncated to the band
    /// limit) and reconcile the processors.
    pub fn set_all_filters(&mut self, nodes: Vec<FilterNode>)
        requires old(self).instance.wf(),
        ensures
            final(self).on == old(self).on,
            final(self).instance.wf(),
            final(self).instance.sample_rate == old(self).instance.sample_rate,
            final(self).instance.preset == old(self).instance.preset,
            final(self).instance.master_gain == old(self).instance.master_gain,
            final(self).instance.num_channels == old(self).instance.num_channels,
            final(self).instance.filters@ == sanitized_list_spec(nodes@),
            tensor_of(final(self).instance.processors) == reconciled_tensor(
                tensor_of(old(self).instance.processors),
                old(self).instance.num_channels as int,
                sanitized_list_spec(nodes@),
                old(self).instance.sample_rate as int),
            final(self).instance.structure_ok(),
    {
        let clean = sanitize_filters(&nodes);
        self.instance.filters = clean;
        self.instance.parameters_changed();
    }

    /// Set the master gain as a linear factor (Q20), clamped into the
    /// saturation range; a non-structural change, applied immediately.
    pub fn set_master_gain(&mut self, gain: i64)
        ensures
            final(self).on == old(self).on,
            final(self).instance == (Equalizer {
                master_gain: spec_clamp(gain as int, 0, FX_SAT as int) as i64,
                ..old(self).instance
            }),
    {
        self.instance.master_gain = crate::fixed::clamp_i64(gain, 0, FX_SAT);
    }
}

} // verus!
