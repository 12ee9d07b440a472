//! The buffered sample source: holds a fully decoded track, produces one
//! sample per pull for the output device, applies the equalizer in
//! bounded chunks, and drains its realtime command channel at every chunk
//! boundary.

use vstd::prelude::*;
use crate::fixed::{FX_SAT, FX_ONE, spec_clamp};
use crate::metadata::AudioMetadata;
use crate::position::PositionTracker;
use crate::equalizer::{Equalizer, tensor_of, process_frame_spec};
use crate::eq::preset_filters_spec;
use crate::dsp_node::{DspNode, sanitized_spec, sanitized_list_spec};
use crate::commands::RealtimeAudioCommand;
use crate::channel::try_recv_command;

verus! {

/// Samples per processing chunk.
pub const CHUNK_SIZE: usize = 512;

/// Most realtime commands drained at one chunk boundary. The bound keeps
/// per-chunk work finite — it is what lets the drain loop prove its
/// termination — and commands beyond it simply wait for the next chunk.
pub const RT_DRAIN_MAX: usize = 1024;

/// A fully decoded track: its samples (interleaved Q20), its metadata,
/// and a position tracker.
pub struct AudioPlaybackData {
    pub metadata: AudioMetadata,
    pub buffer: Vec<i64>,
    pub position_tracker: PositionTracker,
}

/// The kinds of audio source the engine can hold.
pub enum AudioSource {
    Local { data: AudioPlaybackData },
}

/// Copy a sample buffer (each source owns its samples).
fn copy_samples(v: &Vec<i64>) -> (r: Vec<i64>)
    ensures r@ == v@,
{
    let mut out: Vec<i64> = Vec::new();
    let n = v.len();
    let mut i: usize = 0;
    while i < n
        invariant
            0 <= i <= n,
            n == v@.len(),
            out@ == v@.subrange(0, i as int),
        decreases n - i,
    {
        let ghost pre = out@;
        out.push(v[i]);
        proof {
            assert(out@ =~= v@.subrange(0, i + 1));
        }
        i = i + 1;
    }
    proof {
        assert(out@ =~= v@);
    }
    out
}

impl AudioPlaybackData {
    /// Everything lines up: whole frames, valid rate and channel count,
    /// samples within the saturation range, tracker over this buffer.
    pub open spec fn wf(self) -> bool {
        self.position_tracker.wf()
            && self.position_tracker.total_samples == self.buffer@.len()
            && self.position_tracker.sample_rate == self.metadata.sample_rate
            && self.position_tracker.channels == self.metadata.num_channels
            && (forall|i: int| 0 <= i < self.buffer@.len()
                ==> -FX_SAT <= #[trigger] self.buffer@[i] <= FX_SAT)
    }

    /// Wrap a decoded sample buffer and its metadata; the tracker starts
    /// at the beginning of the track.
    pub fn new(buffer: Vec<i64>, metadata: AudioMetadata) -> (r: AudioPlaybackData)
        requires
            1 <= metadata.num_channels,
            1 <= metadata.sample_rate <= crate::position::TRACKER_MAX_RATE,
            buffer@.len() <= crate::position::TRACKER_MAX_SAMPLES,
            buffer@.len() as int % (metadata.num_channels as int) == 0,
            forall|i: int| 0 <= i < buffer@.len()
                ==> -FX_SAT <= #[trigger] buffer@[i] <= FX_SAT,
        ensures
            r.wf(),
            r.metadata == metadata,
            r.position_tracker.position == 0,
            r.buffer_view() == buffer@,
    {
        let position_tracker = PositionTracker::new(
            buffer.len() as u64, metadata.sample_rate, metadata.num_channels);
        AudioPlaybackData { metadata, buffer, position_tracker }
    }

    /// The samples this track holds.
    pub open spec fn buffer_view(self) -> Seq<i64> {
        self.buffer@
    }

    /// The track's metadata.
    pub fn metadata(&self) -> (r: &AudioMetadata)
        ensures r == self.metadata,
    {
        &self.metadata
    }

    /// The track's position tracker.
    pub fn position_tracker(&self) -> (r: &PositionTracker)
        ensures r == self.position_tracker,
    {
        &self.position_tracker
    }

    /// Move the tracker to a position in seconds (Q20).
    pub fn seek_to_seconds(&mut self, seconds: i64)
        requires old(self).wf(),
        ensures
            final(self).wf(),
            final(self).metadata == old(self).metadata,
            final(self).buffer_view() == old(self).buffer_view(),
            final(self).position_tracker.position == crate::position::seek_pos_spec(
                seconds as int, old(self).position_tracker.sample_rate as int,
                old(self).position_tracker.channels as int,
                old(self).position_tracker.total_samples as int),
    {
        self.position_tracker.seek_to_seconds(seconds);
    }

    /// Reset the tracker to the start of the track.
    pub fn reset_position(&mut self)
        requires old(self).wf(),
        ensures
            final(self).wf(),
            final(self).metadata == old(self).metadata,
            final(self).buffer_view() == old(self).buffer_view(),
            final(self).position_tracker.position == 0,
    {
        self.position_tracker.reset();
    }

    /// Build a source that plays this track from the tracker's current
    /// position, with its own copy of the samples, the given equalizer
    /// and the receiving end of a fresh realtime channel.
    pub fn create_source(
        &self,
        initial_eq: Equalizer,
        eq_enabled: bool,
        cmd_rx: crossbeam_channel::Receiver<RealtimeAudioCommand>,
    ) -> (r: BufferedSource)
        requires
            self.wf(),
            initial_eq.wf(),
        ensures
            r.wf(),
            r.samples_view() == self.buffer_view(),
            r.position() == self.position_tracker.position,
            r.eq_node().instance == initial_eq,
            r.eq_node().on == eq_enabled,
    {
        BufferedSource::new(
            copy_samples(&self.buffer),
            self.metadata.sample_rate,
            self.metadata.num_channels,
            self.position_tracker.clone_tracker(),
            initial_eq,
            eq_enabled,
            cmd_rx,
        )
    }
}

impl PositionTracker {
    /// An identical tracker (each source carries its own copy; the shell
    /// mirrors positions back to the engine).
    pub fn clone_tracker(&self) -> (r: PositionTracker)
        ensures r == *self,
    {
        PositionTracker {
            position: self.position,
            total_samples: self.total_samples,
            sample_rate: self.sample_rate,
            channels: self.channels,
        }
    }
}

/// A buffered audio source: yields one processed sample per pull.
pub struct BufferedSource {
    pub samples: Vec<i64>,
    pub sample_rate: u32,
    pub channels: u16,
    pub position: PositionTracker,
    pub equalizer: DspNode<Equalizer>,
    pub cmd_rx: crossbeam_channel::Receiver<RealtimeAudioCommand>,
    pub chunk: Vec<i64>,
    pub chunk_idx: usize,
}

/// What one realtime command does to the equalizer node: the exact
/// transition `apply_rt_command` performs. Structural commands rebuild
/// the tensor; the in-place paths keep filter state; every step
/// preserves well-formedness and the stream's rate and channel count.
pub open spec fn rt_step_spec(
    pre: DspNode<Equalizer>, cmd: RealtimeAudioCommand, post: DspNode<Equalizer>,
) -> bool {
    &&& post.instance.wf()
    &&& post.instance.sample_rate == pre.instance.sample_rate
    &&& post.instance.num_channels == pre.instance.num_channels
    &&& (cmd matches RealtimeAudioCommand::SetEqEnabled(b)
            ==> post.on == b && post.instance == pre.instance)
    &&& (!(cmd matches RealtimeAudioCommand::SetEqEnabled(_))
            ==> post.on == pre.on)
    &&& (cmd matches RealtimeAudioCommand::SetEqMasterGain(g)
            ==> post.instance == (Equalizer {
                master_gain: spec_clamp(g as int, 0, FX_SAT as int) as i64,
                ..pre.instance
            }))
    &&& (cmd matches RealtimeAudioCommand::SetAllEqFilters(v)
            ==> post.instance.filters@ == sanitized_list_spec(v@)
                && post.instance.structure_ok())
    &&& (cmd matches RealtimeAudioCommand::UpdateEqFilter(idx, f) ==> {
            (idx < pre.instance.filters@.len() ==> post.instance.filters@
                == pre.instance.filters@.update(idx as int, sanitized_spec(f))
                && post.instance.structure_ok())
            && (idx >= pre.instance.filters@.len()
                ==> post.instance == pre.instance)
        })
    &&& (cmd matches RealtimeAudioCommand::SetEqPreset(p) ==> {
            (p != pre.instance.preset ==> post.instance.preset == p
                && post.instance.filters@ == preset_filters_spec(p)
                && post.instance.structure_ok())
            && (p == pre.instance.preset ==> post.instance == pre.instance)
        })
    &&& (cmd matches RealtimeAudioCommand::ResetEq
            ==> post.instance.master_gain == FX_ONE
                && post.instance.filters@
                    == preset_filters_spec(pre.instance.preset)
                && post.instance.structure_ok())
    &&& (cmd matches RealtimeAudioCommand::ResetEqFilterNode(idx) ==> {
            (idx < pre.instance.filters@.len()
                ==> post.instance.filters@ == pre.instance.filters@.update(
                    idx as int,
                    crate::equalizer::preset_band_default(pre.instance.preset, idx as int))
                    && post.instance.structure_ok())
            && (idx >= pre.instance.filters@.len()
                ==> post.instance == pre.instance)
        })
}

/// The equalizer node after draining a list of realtime commands in
/// order: the step relation folded over the list.
pub open spec fn rt_drained(
    pre: DspNode<Equalizer>, cmds: Seq<RealtimeAudioCommand>, post: DspNode<Equalizer>,
) -> bool
    decreases cmds.len()
{
    if cmds.len() == 0 {
        post == pre
    } else {
        exists|mid: DspNode<Equalizer>|
            #[trigger] rt_step_spec(pre, cmds[0], mid)
            && rt_drained(mid, cmds.skip(1), post)
    }
}

/// A drained list followed by one more step is the longer drained list.
proof fn lemma_rt_drained_snoc(
    pre: DspNode<Equalizer>, cmds: Seq<RealtimeAudioCommand>,
    mid: DspNode<Equalizer>, cmd: RealtimeAudioCommand, post: DspNode<Equalizer>,
)
    requires
        rt_drained(pre, cmds, mid),
        rt_step_spec(mid, cmd, post),
    ensures rt_drained(pre, cmds.push(cmd), post),
    decreases cmds.len()
{
    if cmds.len() == 0 {
        assert(mid == pre);
        assert(cmds.push(cmd)[0] == cmd);
        assert(cmds.push(cmd).skip(1) =~= Seq::<RealtimeAudioCommand>::empty());
        assert(rt_step_spec(pre, cmds.push(cmd)[0], post));
        assert(rt_drained(post, cmds.push(cmd).skip(1), post));
    } else {
        let m = choose|m: DspNode<Equalizer>| #[trigger] rt_step_spec(pre, cmds[0], m)
            && rt_drained(m, cmds.skip(1), mid);
        lemma_rt_drained_snoc(m, cmds.skip(1), mid, cmd, post);
        assert(cmds.push(cmd)[0] == cmds[0]);
        assert(cmds.push(cmd).skip(1) =~= cmds.skip(1).push(cmd));
        assert(rt_step_spec(pre, cmds.push(cmd)[0], m));
        assert(rt_drained(m, cmds.push(cmd).skip(1), post));
    }
}

/// The chunk after a boundary refill: some list of realtime commands
/// (what the engine thread sent) was drained through `rt_step_spec`,
/// and the chunk holds the next run of samples, processed by the
/// equalizer state those commands left behind when it is engaged.
pub open spec fn refilled_chunk_ok(
    pre: BufferedSource, eq_post: DspNode<Equalizer>, chunk_post: Seq<i64>,
) -> bool {
    let start = pre.position.position as int;
    let end = if start + CHUNK_SIZE as int <= pre.samples@.len() as int {
        start + CHUNK_SIZE as int
    } else {
        pre.samples@.len() as int
    };
    let raw = pre.samples@.subrange(start, end);
    exists|cmds: Seq<RealtimeAudioCommand>, eq_mid: DspNode<Equalizer>|
        #[trigger] rt_drained(pre.equalizer, cmds, eq_mid)
        && cmds.len() <= RT_DRAIN_MAX as int
        && eq_post.on == eq_mid.on
        && (eq_mid.on ==> chunk_post == (process_frame_spec(eq_mid.instance, raw)).0)
        && (!eq_mid.on ==> chunk_post == raw && eq_post == eq_mid)
}

impl BufferedSource {
    /// Source invariant: the tracker covers the sample buffer, samples
    /// and chunk stay in the saturation range, the equalizer is
    /// well-formed, and the chunk never outruns the track.
    pub open spec fn wf(self) -> bool {
        self.position.wf()
            && self.position.total_samples == self.samples@.len()
            && self.position.sample_rate == self.sample_rate
            && self.position.channels == self.channels
            && self.equalizer.instance.wf()
            && (forall|i: int| 0 <= i < self.samples@.len()
                ==> -FX_SAT <= #[trigger] self.samples@[i] <= FX_SAT)
            && (forall|i: int| 0 <= i < self.chunk@.len()
                ==> -FX_SAT <= #[trigger] self.chunk@[i] <= FX_SAT)
            && self.chunk_idx <= self.chunk@.len()
            && self.position.position as int + (self.chunk@.len() - self.chunk_idx)
                <= self.position.total_samples as int
    }

    /// The samples the source plays.
    pub open spec fn samples_view(self) -> Seq<i64> {
        self.samples@
    }

    /// The current interleaved-sample position.
    pub open spec fn position(self) -> u64 {
        self.position.position
    }

    /// The equalizer node (processor and bypass flag).
    pub open spec fn eq_node(self) -> DspNode<Equalizer> {
        self.equalizer
    }

    /// A source over a sample buffer, starting at the tracker's position.
    pub fn new(
        samples: Vec<i64>,
        sample_rate: u32,
        channels: u16,
        position: PositionTracker,
        equalizer: Equalizer,
        eq_enabled: bool,
        cmd_rx: crossbeam_channel::Receiver<RealtimeAudioCommand>,
    ) -> (r: BufferedSource)
        requires
            position.wf(),
            position.total_samples == samples@.len(),
            position.sample_rate == sample_rate,
            position.channels == channels,
            equalizer.wf(),
            forall|i: int| 0 <= i < samples@.len()
                ==> -FX_SAT <= #[trigger] samples@[i] <= FX_SAT,
        ensures
            r.wf(),
            r.samples_view() == samples@,
            r.position() == position.position,
            r.eq_node().instance == equalizer,
            r.eq_node().on == eq_enabled,
    {
        BufferedSource {
            samples,
            sample_rate,
            channels,
            position,
            equalizer: DspNode::new_with_state(equalizer, eq_enabled),
            cmd_rx,
            chunk: Vec::new(),
            chunk_idx: 0,
        }
    }

    /// Apply one realtime command to the owned equalizer. Structural
    /// commands may rebuild the processor tensor; the in-place paths
    /// preserve filter state.
    pub fn apply_rt_command(&mut self, cmd: RealtimeAudioCommand)
        requires old(self).equalizer.instance.wf(),
        ensures
            final(self).samples == old(self).samples,
            final(self).position == old(self).position,
            final(self).chunk == old(self).chunk,
            final(self).chunk_idx == old(self).chunk_idx,
            final(self).sample_rate == old(self).sample_rate,
            final(self).channels == old(self).channels,
            final(self).cmd_rx == old(self).cmd_rx,
            rt_step_spec(old(self).equalizer, cmd, final(self).equalizer),
    {
        match cmd {
            RealtimeAudioCommand::SetEqEnabled(enabled) => {
                self.equalizer.on = enabled;
            }
            RealtimeAudioCommand::SetEqMasterGain(gain) => {
                self.equalizer.set_master_gain(gain);
            }
            RealtimeAudioCommand::UpdateEqFilter(idx, node) => {
                self.equalizer.set_filter(idx, node);
            }
            RealtimeAudioCommand::SetAllEqFilters(nodes) => {
                self.equalizer.set_all_filters(nodes);
            }
            RealtimeAudioCommand::SetEqPreset(preset) => {
                self.equalizer.instance.update_preset(preset);
            }
            RealtimeAudioCommand::ResetEq => {
                self.equalizer.instance.reset_parameters();
            }
            RealtimeAudioCommand::ResetEqFilterNode(idx) => {
                let _ = self.equalizer.instance.reset_filter_node_param(idx);
            }
        }
    }

    /// Drain pending realtime commands, up to the per-chunk bound. Only
    /// the equalizer can change; what arrives depends on the engine
    /// thread, so nothing more is promised of the drained commands.
    fn drain_commands(&mut self)
        requires old(self).wf(),
        ensures
            final(self).wf(),
            final(self).samples == old(self).samples,
            final(self).position == old(self).position,
            final(self).chunk == old(self).chunk,
            final(self).chunk_idx == old(self).chunk_idx,
            exists|cmds: Seq<RealtimeAudioCommand>|
                #[trigger] rt_drained(old(self).equalizer, cmds, final(self).equalizer)
                && cmds.len() <= RT_DRAIN_MAX as int,
    {
        let ghost mut cmds: Seq<RealtimeAudioCommand> = Seq::empty();
        let mut k: usize = 0;
        while k < RT_DRAIN_MAX
            invariant
                0 <= k <= RT_DRAIN_MAX,
                self.wf(),
                self.samples == old(self).samples,
                self.position == old(self).position,
                self.chunk == old(self).chunk,
                self.chunk_idx == old(self).chunk_idx,
                cmds.len() <= k as int,
                rt_drained(old(self).equalizer, cmds, self.equalizer),
            decreases RT_DRAIN_MAX - k,
        {
            match try_recv_command(&self.cmd_rx) {
                Some(cmd) => {
                    let ghost pre_eq = self.equalizer;
                    let ghost c = cmd;
                    self.apply_rt_command(cmd);
                    proof {
                        lemma_rt_drained_snoc(old(self).equalizer, cmds, pre_eq,
                            c, self.equalizer);
                        cmds = cmds.push(c);
                    }
                }
                None => {
                    break;
                }
            }
            k = k + 1;
        }
    }

    /// Refill the chunk from the current position: read up to CHUNK_SIZE
    /// samples, run them through the equalizer when it is engaged, and
    /// report whether any samples were available.
    #[verifier::loop_isolation(false)]
    fn refill_chunk(&mut self) -> (r: bool)
        requires
            old(self).wf(),
            old(self).chunk_idx >= old(self).chunk@.len(),
        ensures
            final(self).wf(),
            final(self).samples == old(self).samples,
            final(self).position == old(self).position,
            final(self).equalizer.on == old(self).equalizer.on,
            r <==> (old(self).position.position < old(self).samples@.len()),
            !r ==> final(self).chunk@.len() == 0 && final(self).chunk_idx == 0
                && final(self).equalizer == old(self).equalizer,
            r ==> final(self).chunk@.len() > 0,
            r ==> ({
                let start = old(self).position.position as int;
                let end = if start + CHUNK_SIZE as int <= old(self).samples@.len() as int {
                    start + CHUNK_SIZE as int
                } else {
                    old(self).samples@.len() as int
                };
                let raw = old(self).samples@.subrange(start, end);
                let eq0 = old(self).equalizer.instance;
                final(self).chunk_idx == 0
                && (old(self).equalizer.on ==> (
                    final(self).chunk@ == (process_frame_spec(eq0, raw)).0
                    && tensor_of(final(self).equalizer.instance.processors)
                        == (process_frame_spec(eq0, raw)).1))
                && (!old(self).equalizer.on ==> (
                    final(self).chunk@ == raw
                    && final(self).equalizer == old(self).equalizer))
            }),
    {
        self.chunk = Vec::new();
        self.chunk_idx = 0;

        let total = self.samples.len() as u64;
        let pos = self.position.position;
        if pos >= total {
            return false;
        }
        let start = pos as usize;
        let end = if self.samples.len() - start > CHUNK_SIZE {
            start + CHUNK_SIZE
        } else {
            self.samples.len()
        };
        let mut chunk: Vec<i64> = Vec::new();
        let mut i: usize = start;
        while i < end
            invariant
                start <= i <= end,
                chunk@ == self.samples@.subrange(start as int, i as int),
            decreases end - i,
        {
            let ghost pre = chunk@;
            chunk.push(self.samples[i]);
            proof {
                assert(chunk@ =~= self.samples@.subrange(start as int, i + 1));
            }
            i = i + 1;
        }
        if self.equalizer.on {
            self.equalizer.instance.process_frame(&mut chunk);
        }
        self.chunk = chunk;
        true
    }

    /// Refill the chunk at a boundary: drain pending realtime commands,
    /// then read and process the next run of samples. Which commands
    /// arrive depends on the engine thread; whatever they were, the new
    /// chunk is the next run of samples processed by the equalizer state
    /// they left behind.
    pub fn fill_buffer(&mut self) -> (r: bool)
        requires
            old(self).wf(),
            old(self).chunk_idx >= old(self).chunk@.len(),
        ensures
            final(self).wf(),
            final(self).samples == old(self).samples,
            final(self).position == old(self).position,
            r <==> (old(self).position.position < old(self).samples@.len()),
            !r ==> final(self).chunk@.len() == 0 && final(self).chunk_idx == 0,
            r ==> final(self).chunk@.len() > 0,
            r ==> final(self).chunk_idx == 0
                && refilled_chunk_ok(*old(self), final(self).equalizer,
                    final(self).chunk@),
    {
        self.drain_commands();
        let ghost cmds = choose|cmds: Seq<RealtimeAudioCommand>|
            #[trigger] rt_drained(old(self).equalizer, cmds, self.equalizer)
            && cmds.len() <= RT_DRAIN_MAX as int;
        let ghost mid = self.equalizer;
        let r = self.refill_chunk();
        proof {
            if r {
                assert(rt_drained(old(self).equalizer, cmds, mid)
                    && cmds.len() <= RT_DRAIN_MAX as int
                    && final(self).equalizer.on == mid.on);
                assert(refilled_chunk_ok(*old(self), final(self).equalizer,
                    final(self).chunk@));
            }
        }
        r
    }

    /// Yield the next sample, refilling the chunk at each boundary;
    /// `None` at the end of the track. Emitting a sample advances the
    /// position by one, so readers of the position see a conservative
    /// estimate.
    pub fn next_sample(&mut self) -> (r: Option<i64>)
        requires old(self).wf(),
        ensures
            final(self).wf(),
            final(self).samples == old(self).samples,
            r is Some ==> final(self).position.position
                == old(self).position.position + 1,
            r is Some ==> -FX_SAT <= r.unwrap() <= FX_SAT,
            r is None ==> final(self).position.position
                == old(self).position.position,
            // mid-chunk: the next scratch sample, one position step
            old(self).chunk_idx < old(self).chunk@.len() ==> r
                == Some(old(self).chunk@[old(self).chunk_idx as int])
                && final(self).chunk == old(self).chunk
                && final(self).chunk_idx == old(self).chunk_idx + 1,
            // chunk boundary with samples left: the refilled chunk's first
            // sample comes back, and the chunk is the next run of samples
            // processed by the equalizer state the drained commands left
            (old(self).chunk_idx >= old(self).chunk@.len()
                && old(self).position.position < old(self).samples@.len()) ==> (
                refilled_chunk_ok(*old(self), final(self).equalizer,
                    final(self).chunk@)
                && final(self).chunk@.len() > 0
                && r == Some(final(self).chunk@[0])
                && final(self).chunk_idx == 1),
            r is None ==> old(self).position.position
                >= old(self).samples@.len(),
    {
        if self.chunk_idx >= self.chunk.len() {
            let more = self.fill_buffer();
            if !more {
                return None;
            }
        }
        if self.chunk_idx < self.chunk.len() {
            let sample = self.chunk[self.chunk_idx];
            self.chunk_idx = self.chunk_idx + 1;
            self.position.position = self.position.position + 1;
            Some(sample)
        } else {
            None
        }
    }

    /// Interleaved samples left to play.
    pub fn remaining_samples(&self) -> (r: u64)
        requires self.wf(),
        ensures r == self.samples_view().len() - self.position() as int,
    {
        self.samples.len() as u64 - self.position.position
    }

    /// The source's channel count.
    pub fn channel_count(&self) -> (r: u16)
        ensures r == self.channels,
    {
        self.channels
    }

    /// The source's sample rate.
    pub fn rate(&self) -> (r: u32)
        ensures r == self.sample_rate,
    {
        self.sample_rate
    }

    /// The track's total duration in seconds (Q20): total frames divided
    /// by the sample rate.
    pub fn total_duration_seconds(&self) -> (r: i64)
        requires self.wf(),
        ensures
            r == crate::position::seconds_of_spec(self.position.total_samples as int,
                self.position.channels as int, self.position.sample_rate as int),
            r >= 0,
    {
        self.position.duration_seconds()
    }
}

} // verus!
