//! The engine core: the decision part of the audio engine. Every command
//! maps the engine state to a new state plus a list of actions for the
//! shell (sink control, fades, decodes, realtime forwards) and a list of
//! responses for the interface. The shell performs the actions in order,
//! feeds decode results back through `on_load_result`, and reports the
//! sink running empty through `on_track_finished`.

use vstd::prelude::*;
use crate::fixed::{FX_ONE, fx_db_to_linear, db_to_linear_spec, spec_clamp, clamp_i64};
use crate::metadata::AudioMetadata;
use crate::queue::{PlaybackQueue, LoopMode, QueueItem, snapshot_items,
    next_index_spec, prev_index_spec, is_permutation};
use crate::equalizer::{Equalizer, tensor_of, reconciled_tensor, preset_band_default};
use crate::eq::{FilterNode, EqPreset, preset_filters_spec};
use crate::dsp_node::{sanitize_filters, sanitized_list_spec};
use crate::commands::{AudioCommand, AudioResponse, RealtimeAudioCommand};

verus! {

broadcast use vstd::string::group_string_axioms;

/// Slowest playback speed accepted (0.1 in Q20).
pub const SPEED_MIN: i64 = 104858;

/// Fastest playback speed accepted (4.0 in Q20).
pub const SPEED_MAX: i64 = 4194304;

/// Default sample rate assumed before any track is loaded.
pub const DEFAULT_RATE: u32 = 44100;

/// Default channel count assumed before any track is loaded.
pub const DEFAULT_CHANNELS: u16 = 2;

/// An order the engine core gives its shell. The shell owns the sink,
/// the decoder and the realtime channel, and performs these in order.
#[derive(Debug, Clone)]
pub enum EngineAction {
    /// Ramp the sink volume down to zero over the fade duration.
    FadeOut,
    /// Ramp the sink volume from zero up to the target volume.
    FadeIn,
    /// Stop the sink, dropping any queued source.
    SinkStop,
    /// Pause the sink.
    SinkPause,
    /// Resume the sink.
    SinkPlay,
    /// Set the sink volume (Q20 linear).
    SinkSetVolume(i64),
    /// Set the sink speed (Q20 multiplier).
    SinkSetSpeed(i64),
    /// Decode the file at this path and call `on_load_result` with the
    /// outcome before feeding the engine anything else.
    StartDecode(String),
    /// Move the current payload's tracker to this position (Q20 s).
    SeekTracker(i64),
    /// Reset the current payload's tracker to the start.
    ResetTracker,
    /// Open a fresh realtime channel and append a new source built from
    /// the current payload and the shadow equalizer.
    AppendSource,
    /// Forward a realtime command to the playing source.
    ForwardRealtime(RealtimeAudioCommand),
}

/// A decode the shell owes the engine an answer for.
#[derive(Debug, Clone)]
pub struct PendingLoad {
    /// The file being decoded.
    pub path: String,
    /// The queue index being played, when the load came from the queue.
    pub queue_index: Option<usize>,
    /// The id of that queue item.
    pub queue_id: Option<usize>,
}

/// The engine's decision state.
pub struct EngineCore {
    /// User-facing target volume, in [0, 1] (Q20).
    pub target_volume: i64,
    /// Whether playback is running (not paused, not stopped).
    pub is_playing: bool,
    /// Metadata of the loaded track, if any.
    pub current_track: Option<AudioMetadata>,
    /// The playback queue.
    pub queue: PlaybackQueue,
    /// The shadow equalizer used to seed new sources.
    pub eq_shadow: Equalizer,
    /// Whether the equalizer is engaged.
    pub eq_enabled: bool,
    /// Whether a realtime channel to a source is open.
    pub has_rt_channel: bool,
    /// The decode the shell still owes an answer for, if any.
    pub pending_load: Option<PendingLoad>,
}

/// The state and actions after starting a queue track: the engine fades
/// out and stops, remembers the pending decode, and waits for the shell.
pub open spec fn begin_track_post(
    pre: EngineCore, post: EngineCore, idx: int, acts: Seq<EngineAction>,
) -> bool {
    &&& post.pending_load matches Some(p)
        && p.path == pre.queue.items@[idx].path
        && p.queue_index == Some(idx as usize)
        && p.queue_id == Some(pre.queue.items@[idx].id)
    &&& post.is_playing == false
    &&& post.queue == pre.queue
    &&& post.eq_shadow == pre.eq_shadow
    &&& post.target_volume == pre.target_volume
    &&& post.current_track == pre.current_track
    &&& post.eq_enabled == pre.eq_enabled
    &&& post.has_rt_channel == pre.has_rt_channel
    &&& acts == (if pre.is_playing { seq![EngineAction::FadeOut] }
            else { Seq::<EngineAction>::empty() })
        + seq![EngineAction::SinkStop,
            EngineAction::StartDecode(pre.queue.items@[idx].path)]
}

/// The response is a queue snapshot carrying exactly these items.
pub open spec fn resp_is_queue_update(r: AudioResponse, items: Seq<QueueItem>) -> bool {
    r matches AudioResponse::QueueUpdated(v) && v@ == items
}

/// The response is an error carrying exactly this message.
pub open spec fn resp_is_error(r: AudioResponse, msg: Seq<char>) -> bool {
    r matches AudioResponse::Error(s) && s@ == msg
}

/// An equal copy of a band list (bands are plain values).
fn copy_filters(v: &Vec<FilterNode>) -> (r: Vec<FilterNode>)
    ensures r@ == v@,
{
    let mut out: Vec<FilterNode> = Vec::new();
    let n = v.len();
    let mut i: usize = 0;
    while i < n
        invariant
            0 <= i <= n,
            n == v@.len(),
            out@ == v@.subrange(0, i as int),
        decreases n - i,
    {
        out.push(v[i]);
        proof {
            assert(out@ =~= v@.subrange(0, i + 1));
        }
        i = i + 1;
    }
    proof {
        assert(out@ =~= v@);
    }
    out
}

impl EngineCore {
    /// Engine invariant: the volume is within [0, 1], and queue and
    /// shadow equalizer keep their own invariants.
    pub open spec fn wf(self) -> bool {
        0 <= self.target_volume <= FX_ONE
            && self.queue.wf()
            && self.eq_shadow.wf()
            && (self.pending_load matches Some(p) ==> (p.queue_index matches Some(i)
                ==> i < self.queue.items@.len()))
    }

    /// A fresh engine: nothing loaded, full volume, flat stereo shadow
    /// equalizer at the default rate, equalizer bypassed.
    pub fn new() -> (r: EngineCore)
        ensures
            r.wf(),
            r.target_volume == FX_ONE,
            !r.is_playing,
            r.current_track is None,
            r.queue.items@.len() == 0,
            r.eq_enabled == false,
            r.has_rt_channel == false,
            r.pending_load is None,
    {
        EngineCore {
            target_volume: FX_ONE,
            is_playing: false,
            current_track: None,
            queue: PlaybackQueue::new(),
            eq_shadow: Equalizer::new(DEFAULT_RATE, DEFAULT_CHANNELS),
            eq_enabled: false,
            has_rt_channel: false,
            pending_load: None,
        }
    }

    /// Begin playing the queue item at `index`: fade out if playing,
    /// stop the sink, and ask the shell to decode the item's file.
    fn begin_queue_track(&mut self, index: usize) -> (r: (Vec<EngineAction>, Vec<AudioResponse>))
        requires
            old(self).wf(),
            old(self).pending_load is None,
            index < old(self).queue.items@.len(),
        ensures
            final(self).wf(),
            begin_track_post(*old(self), *final(self), index as int, r.0@),
            r.1@.len() == 0,
    {
        let mut acts: Vec<EngineAction> = Vec::new();
        if self.is_playing {
            acts.push(EngineAction::FadeOut);
        }
        acts.push(EngineAction::SinkStop);
        let item = &self.queue.items[index];
        let path = item.path.clone();
        let id = item.id;
        acts.push(EngineAction::StartDecode(path.clone()));
        self.pending_load = Some(PendingLoad {
            path,
            queue_index: Some(index),
            queue_id: Some(id),
        });
        self.is_playing = false;
        proof {
            if old(self).is_playing {
                assert(acts@ =~= seq![EngineAction::FadeOut]
                    + seq![EngineAction::SinkStop,
                        EngineAction::StartDecode(old(self).queue.items@[index as int].path)]);
            } else {
                assert(acts@ =~= Seq::<EngineAction>::empty()
                    + seq![EngineAction::SinkStop,
                        EngineAction::StartDecode(old(self).queue.items@[index as int].path)]);
            }
        }
        (acts, Vec::new())
    }

    /// The shell finished a decode: on success, install the new track,
    /// rebuild the shadow equalizer for its channel layout (keeping
    /// bands, gain and preset), and start playback behind a fade-in; on
    /// failure, report the error and leave the prior state intact.
    pub fn on_load_result(&mut self, outcome: Result<AudioMetadata, String>)
        -> (r: (Vec<EngineAction>, Vec<AudioResponse>))
        requires
            old(self).wf(),
            old(self).pending_load is Some,
        ensures
            final(self).wf(),
            final(self).pending_load is None,
            final(self).target_volume == old(self).target_volume,
            final(self).eq_enabled == old(self).eq_enabled,
            outcome matches Err(msg) ==> (
                *final(self) == (EngineCore {
                    pending_load: None::<PendingLoad>, ..*old(self) })
                && r.0@.len() == 0
                && r.1@.len() == 1 && resp_is_error(r.1@[0], msg@)),
            outcome matches Ok(meta) ==> (
                final(self).is_playing == true
                && final(self).has_rt_channel == true
                && final(self).current_track == Some(meta)
                && final(self).eq_shadow.wf()
                && final(self).eq_shadow.structure_ok()
                && final(self).eq_shadow.sample_rate
                    == (if meta.sample_rate >= 1 { meta.sample_rate } else { 1 })
                && final(self).eq_shadow.num_channels == meta.num_channels
                && final(self).eq_shadow.filters@ == old(self).eq_shadow.filters@
                && final(self).eq_shadow.master_gain == old(self).eq_shadow.master_gain
                && final(self).eq_shadow.preset == old(self).eq_shadow.preset
                && r.0@ == seq![EngineAction::AppendSource,
                    EngineAction::SinkSetVolume(0), EngineAction::SinkPlay,
                    EngineAction::FadeIn]
                && (old(self).pending_load.unwrap().queue_index matches Some(idx) ==> (
                    final(self).queue.current_index == Some(idx)
                    && final(self).queue.items@.len() == old(self).queue.items@.len()
                    && final(self).queue.loop_mode == old(self).queue.loop_mode
                    && final(self).queue.shuffle_order == old(self).queue.shuffle_order
                    && final(self).queue.next_id == old(self).queue.next_id
                    && (match old(self).pending_load.unwrap().queue_id {
                        Some(qid) => forall|i: int|
                            0 <= i < final(self).queue.items@.len() ==> {
                            let it = #[trigger] final(self).queue.items@[i];
                            let o = old(self).queue.items@[i];
                            it.id == o.id && it.path == o.path
                                && (o.id != qid ==> it == o)
                                && (o.id == qid ==> it.metadata == Some(meta))
                        },
                        None => final(self).queue.items == old(self).queue.items,
                    })
                    && r.1@.len() == 3
                    && r.1@[0] == (AudioResponse::TrackChanged { index: idx, metadata: meta })
                    && r.1@[1] == AudioResponse::Loaded(meta)
                    && r.1@[2] == AudioResponse::Playing))
                && (old(self).pending_load.unwrap().queue_index is None ==> (
                    final(self).queue == old(self).queue
                    && r.1@ == seq![AudioResponse::Loaded(meta), AudioResponse::Playing]))),
    {
        let (qidx, qid) = match &self.pending_load {
            Some(p) => (p.queue_index, p.queue_id),
            None => (None, None),
        };
        self.pending_load = None;
        match outcome {
            Ok(meta) => {
                let mut responses: Vec<AudioResponse> = Vec::new();
                if let Some(idx) = qidx {
                    if let Some(id) = qid {
                        self.queue.set_metadata(id, meta.duplicate());
                    }
                    self.queue.current_index = Some(idx);
                    responses.push(AudioResponse::TrackChanged {
                        index: idx, metadata: meta.duplicate() });
                }
                let rate = if meta.sample_rate >= 1 { meta.sample_rate } else { 1 };
                let mut new_eq = Equalizer::new(rate, meta.num_channels);
                new_eq.filters = copy_filters(&self.eq_shadow.filters);
                new_eq.master_gain = self.eq_shadow.master_gain;
                new_eq.preset = self.eq_shadow.preset;
                new_eq.parameters_changed();
                self.eq_shadow = new_eq;
                self.current_track = Some(meta.duplicate());
                self.is_playing = true;
                self.has_rt_channel = true;
                responses.push(AudioResponse::Loaded(meta.duplicate()));
                responses.push(AudioResponse::Playing);
                let mut acts: Vec<EngineAction> = Vec::new();
                acts.push(EngineAction::AppendSource);
                acts.push(EngineAction::SinkSetVolume(0));
                acts.push(EngineAction::SinkPlay);
                acts.push(EngineAction::FadeIn);
                proof {
                    assert(acts@ =~= seq![EngineAction::AppendSource,
                        EngineAction::SinkSetVolume(0), EngineAction::SinkPlay,
                        EngineAction::FadeIn]);
                    if qidx is None {
                        assert(responses@ =~= seq![AudioResponse::Loaded(meta),
                            AudioResponse::Playing]);
                    }
                }
                (acts, responses)
            }
            Err(msg) => {
                let mut responses: Vec<AudioResponse> = Vec::new();
                responses.push(AudioResponse::Error(msg));
                (Vec::new(), responses)
            }
        }
    }
}

/// Number of steps in a volume fade (spread over about 100 ms).
pub const FADE_STEPS: usize = 20;

/// The volume levels of a linear fade from `from` to `to`: FADE_STEPS
/// values, ending exactly at the target. The shell sets the sink volume
/// to each in turn, sleeping between steps.
pub fn fade_ramp(from: i64, to: i64) -> (r: Vec<i64>)
    requires
        0 <= from <= FX_ONE,
        0 <= to <= FX_ONE,
    ensures
        r@.len() == FADE_STEPS as int,
        r@[FADE_STEPS as int - 1] == to,
        forall|i: int| 0 <= i < r@.len() ==> ({
            let k = i + 1;
            #[trigger] r@[i] == from
                + crate::fixed::tdiv((to - from) * k, FADE_STEPS as int)
        }),
{
    let mut ramp: Vec<i64> = Vec::new();
    let mut k: usize = 1;
    while k <= FADE_STEPS
        invariant
            1 <= k <= FADE_STEPS + 1,
            0 <= from <= FX_ONE,
            0 <= to <= FX_ONE,
            ramp@.len() == k - 1,
            forall|i: int| 0 <= i < ramp@.len() ==> (#[trigger] ramp@[i] == from
                + crate::fixed::tdiv((to - from) * (i + 1), FADE_STEPS as int)),
        decreases FADE_STEPS + 1 - k,
    {
        let delta: i64 = to - from;
        proof {
            assert(delta as int * k as int <= FX_ONE as int * 20
                && delta as int * k as int >= -(FX_ONE as int * 20)) by (nonlinear_arith)
                requires -FX_ONE <= delta <= FX_ONE && 1 <= k <= 20;
        }
        let wide: i128 = (delta as i128) * (k as i128);
        let step: i128 = wide / (FADE_STEPS as i128);
        assert(step == crate::fixed::tdiv(delta as int * k as int, FADE_STEPS as int));
        proof {
            assert(-FX_ONE as int * 20 <= delta as int * k as int
                && delta as int * k as int <= FX_ONE as int * 20) by (nonlinear_arith)
                requires -FX_ONE <= delta <= FX_ONE && 1 <= k <= 20;
            crate::fixed::lemma_tdiv_err(delta as int * k as int, FADE_STEPS as int);
        }
        let v = from + (step as i64);
        ramp.push(v);
        k = k + 1;
    }
    proof {
        let last = ramp@[FADE_STEPS as int - 1];
        assert(last == from + crate::fixed::tdiv(
            (to - from) * (FADE_STEPS as int), FADE_STEPS as int));
        assert(crate::fixed::tdiv((to - from) * 20, 20) == to - from) by {
            if to - from >= 0 {
                vstd::arithmetic::div_mod::lemma_div_by_multiple(to - from, 20);
                assert((to - from) * 20 == 20 * (to - from)) by (nonlinear_arith);
            } else {
                vstd::arithmetic::div_mod::lemma_div_by_multiple(from - to as int, 20);
                assert(-((to - from) * 20) == (from - to) * 20) by (nonlinear_arith);
                assert((from - to) * 20 == 20 * (from - to)) by (nonlinear_arith);
            }
        };
    }
    ramp
}

impl EngineCore {
    /// The sink ran empty while playing: the track ended naturally.
    /// Reset the tracker and advance to the next queue track; when none
    /// is available, stop and tell the interface.
    pub fn on_track_finished(&mut self) -> (r: (Vec<EngineAction>, Vec<AudioResponse>))
        requires
            old(self).wf(),
            old(self).pending_load is None,
        ensures
            final(self).wf(),
            next_index_spec(old(self).queue) matches Some(idx) ==> (
                (idx < old(self).queue.items@.len() ==> (
                    begin_track_post(*old(self), *final(self), idx as int,
                        r.0@.skip(1))
                    && r.0@.len() >= 1 && r.0@[0] == EngineAction::ResetTracker
                    && r.1@.len() == 0))
                // a shuffle order can point past a shrunken queue; the
                // engine then stops as if the queue had ended
                && (idx >= old(self).queue.items@.len() ==> (
                    *final(self) == (EngineCore { is_playing: false, ..*old(self) })
                    && r.0@ == seq![EngineAction::ResetTracker,
                        EngineAction::SinkSetVolume(old(self).target_volume)]
                    && r.1@ == seq![AudioResponse::Stopped,
                        AudioResponse::Position { current: 0, total: 0 }]))),
            next_index_spec(old(self).queue) is None ==> (
                *final(self) == (EngineCore { is_playing: false, ..*old(self) })
                && r.0@ == seq![EngineAction::ResetTracker,
                    EngineAction::SinkSetVolume(old(self).target_volume)]
                && r.1@ == seq![AudioResponse::Stopped,
                    AudioResponse::Position { current: 0, total: 0 }]),
    {
        let mut acts: Vec<EngineAction> = Vec::new();
        acts.push(EngineAction::ResetTracker);
        match self.queue.next_index() {
            Some(idx) => {
                if idx < self.queue.items.len() {
                    let (mut a2, r2) = self.begin_queue_track(idx);
                    let ghost a2v = a2@;
                    let mut i: usize = 0;
                    let n = a2.len();
                    while i < n
                        invariant
                            0 <= i <= n,
                            n == a2v.len(),
                            a2@ == a2v.skip(i as int),
                            acts@ == seq![EngineAction::ResetTracker] + a2v.take(i as int),
                        decreases n - i,
                    {
                        let ghost pre = a2@;
                        let a = a2.remove(0);
                        proof {
                            assert(a == a2v[i as int]);
                            assert(a2@ =~= a2v.skip(i as int + 1));
                        }
                        acts.push(a);
                        proof {
                            assert(acts@ =~= seq![EngineAction::ResetTracker]
                                + a2v.take(i as int + 1));
                        }
                        i = i + 1;
                    }
                    proof {
                        assert(a2v.take(n as int) =~= a2v);
                        assert(acts@.skip(1) =~= a2v);
                    }
                    (acts, r2)
                } else {
                    // a shuffle order can point past a shrunken queue;
                    // treat it as the end of the queue
                    self.is_playing = false;
                    acts.push(EngineAction::SinkSetVolume(self.target_volume));
                    let mut responses: Vec<AudioResponse> = Vec::new();
                    responses.push(AudioResponse::Stopped);
                    responses.push(AudioResponse::Position { current: 0, total: 0 });
                    proof {
                        assert(acts@ =~= seq![EngineAction::ResetTracker,
                            EngineAction::SinkSetVolume(old(self).target_volume)]);
                        assert(responses@ =~= seq![AudioResponse::Stopped,
                            AudioResponse::Position { current: 0, total: 0 }]);
                    }
                    (acts, responses)
                }
            }
            None => {
                self.is_playing = false;
                acts.push(EngineAction::SinkSetVolume(self.target_volume));
                let mut responses: Vec<AudioResponse> = Vec::new();
                responses.push(AudioResponse::Stopped);
                responses.push(AudioResponse::Position { current: 0, total: 0 });
                proof {
                    assert(acts@ =~= seq![EngineAction::ResetTracker,
                        EngineAction::SinkSetVolume(old(self).target_volume)]);
                    assert(responses@ =~= seq![AudioResponse::Stopped,
                        AudioResponse::Position { current: 0, total: 0 }]);
                }
                (acts, responses)
            }
        }
    }

    /// Process one command from the interface. Returns the actions for
    /// the shell, the responses for the interface, and whether the
    /// engine should keep running (false only after a quit).
    /// `sink_empty` and `sink_paused` report the sink's state at the
    /// moment the command arrived.
    pub fn process_command(&mut self, cmd: AudioCommand, sink_empty: bool, sink_paused: bool)
        -> (r: (Vec<EngineAction>, Vec<AudioResponse>, bool))
        requires
            old(self).wf(),
            old(self).pending_load is None,
            cmd matches AudioCommand::AddToQueue(p)
                ==> old(self).queue.next_id + p@.len() <= usize::MAX,
        ensures
            final(self).wf(),
            r.2 == !(cmd matches AudioCommand::Quit),
            (cmd matches AudioCommand::Load(path) ==> (
                *final(self) == (EngineCore {
                    is_playing: false,
                    pending_load: Some(PendingLoad {
                        path, queue_index: None, queue_id: None }),
                    ..*old(self)
                })
                && r.0@ == (if old(self).is_playing { seq![EngineAction::FadeOut] }
                        else { Seq::<EngineAction>::empty() })
                    + seq![EngineAction::SinkStop, EngineAction::StartDecode(path)]
                && r.1@.len() == 0)),
            (cmd matches AudioCommand::Play ==> (
                (old(self).current_track is Some ==> (
                    *final(self) == (EngineCore {
                        is_playing: true,
                        has_rt_channel: (if sink_empty { true }
                            else { old(self).has_rt_channel }),
                        ..*old(self)
                    })
                    && r.0@ == (if sink_empty { seq![EngineAction::AppendSource] }
                            else { Seq::<EngineAction>::empty() })
                        + (if !old(self).is_playing {
                            seq![EngineAction::SinkSetVolume(0), EngineAction::SinkPlay,
                                EngineAction::FadeIn]
                        } else { Seq::<EngineAction>::empty() })
                    && (old(self).is_playing ==> r.1@.len() == 0)
                    && (!old(self).is_playing ==> r.1@ == seq![AudioResponse::Playing])))
                && (old(self).current_track is None ==> (
                    *final(self) == *old(self)
                    && r.0@.len() == 0
                    && r.1@.len() == 1
                    && resp_is_error(r.1@[0], "No audio loaded"@))))),
            (cmd matches AudioCommand::Pause ==> (
                *final(self) == (EngineCore { is_playing: false, ..*old(self) })
                && (old(self).is_playing ==> (
                    r.0@ == seq![EngineAction::FadeOut, EngineAction::SinkPause]
                    && r.1@ == seq![AudioResponse::Paused]))
                && (!old(self).is_playing ==> (*final(self) == *old(self)
                    && r.0@.len() == 0 && r.1@.len() == 0)))),
            (cmd matches AudioCommand::Stop ==> (
                *final(self) == (EngineCore { is_playing: false, ..*old(self) })
                && r.0@ == (if old(self).is_playing { seq![EngineAction::FadeOut] }
                        else { Seq::<EngineAction>::empty() })
                    + seq![EngineAction::SinkStop, EngineAction::ResetTracker,
                        EngineAction::SinkSetVolume(old(self).target_volume)]
                && r.1@ == seq![AudioResponse::Stopped])),
            (cmd matches AudioCommand::SetVolume(v) ==> (
                final(self).target_volume == spec_clamp(v as int, 0, FX_ONE as int)
                && *final(self) == (EngineCore {
                    target_volume: final(self).target_volume, ..*old(self) })
                && r.0@ == (if old(self).is_playing {
                        seq![EngineAction::SinkSetVolume(final(self).target_volume)]
                    } else { Seq::<EngineAction>::empty() })
                && r.1@.len() == 0)),
            (cmd matches AudioCommand::SetSpeed(s) ==> (
                *final(self) == *old(self)
                && r.0@ == seq![EngineAction::SinkSetSpeed(
                    spec_clamp(s as int, SPEED_MIN as int, SPEED_MAX as int) as i64)]
                && r.1@.len() == 0)),
            (cmd matches AudioCommand::Seek(pos) ==> (
                (old(self).current_track is Some ==> (
                    *final(self) == (EngineCore { has_rt_channel: true, ..*old(self) })
                    && r.0@ == seq![EngineAction::SinkStop,
                            EngineAction::SeekTracker(pos), EngineAction::AppendSource]
                        + (if old(self).is_playing {
                            seq![EngineAction::SinkSetVolume(old(self).target_volume),
                                EngineAction::SinkPlay]
                        } else { seq![EngineAction::SinkPause] })
                    && r.1@.len() == 0))
                && (old(self).current_track is None ==> (*final(self) == *old(self)
                    && r.0@.len() == 0 && r.1@.len() == 0)))),
            (cmd matches AudioCommand::Next ==> (
                (next_index_spec(old(self).queue) matches Some(idx) ==> (
                    (idx < old(self).queue.items@.len() ==> (
                        begin_track_post(*old(self), *final(self), idx as int, r.0@)
                        && r.1@.len() == 0))
                    && (idx >= old(self).queue.items@.len() ==> (
                        *final(self) == *old(self)
                        && r.0@.len() == 0 && r.1@.len() == 0))))
                && (next_index_spec(old(self).queue) is None ==> (
                    *final(self) == *old(self)
                    && r.0@.len() == 0 && r.1@.len() == 0)))),
            (cmd matches AudioCommand::Previous ==> (
                (prev_index_spec(old(self).queue) matches Some(idx) ==> (
                    (idx < old(self).queue.items@.len() ==> (
                        begin_track_post(*old(self), *final(self), idx as int, r.0@)
                        && r.1@.len() == 0))
                    && (idx >= old(self).queue.items@.len() ==> (
                        *final(self) == *old(self)
                        && r.0@.len() == 0 && r.1@.len() == 0))))
                && (prev_index_spec(old(self).queue) is None ==> (
                    *final(self) == *old(self)
                    && r.0@.len() == 0 && r.1@.len() == 0)))),
            (cmd matches AudioCommand::AddToQueue(paths) ==> (
                final(self).queue.items@.len()
                    == old(self).queue.items@.len() + paths@.len()
                && (forall|i: int| 0 <= i < old(self).queue.items@.len()
                    ==> final(self).queue.items@[i] == old(self).queue.items@[i])
                && (forall|i: int| 0 <= i < paths@.len() ==> {
                    let it = #[trigger] final(self).queue.items@[
                        old(self).queue.items@.len() + i];
                    it.id == old(self).queue.next_id + i && it.path == paths@[i]
                })
                && final(self).queue.loop_mode == old(self).queue.loop_mode
                && final(self).queue.current_index == old(self).queue.current_index
                && final(self).queue.next_id == old(self).queue.next_id + paths@.len()
                && r.1@.len() == 1
                && resp_is_queue_update(r.1@[0], final(self).queue.items@)
                && ({
                    // the engine after the append but before any auto-start
                    let mid = EngineCore { queue: final(self).queue, ..*old(self) };
                    let was_empty = old(self).queue.items@.len() == 0;
                    let autostart = !old(self).is_playing && !sink_paused;
                    if autostart && was_empty && paths@.len() > 0 {
                        begin_track_post(mid, *final(self), 0, r.0@)
                    } else if autostart && !was_empty {
                        match next_index_spec(mid.queue) {
                            Some(i) => if i < final(self).queue.items@.len() {
                                begin_track_post(mid, *final(self), i as int, r.0@)
                            } else {
                                *final(self) == mid && r.0@.len() == 0
                            },
                            None => *final(self) == mid && r.0@.len() == 0,
                        }
                    } else {
                        *final(self) == mid && r.0@.len() == 0
                    }
                }))),
            (cmd matches AudioCommand::RemoveFromQueue(id) ==> (
                *final(self) == (EngineCore { queue: final(self).queue, ..*old(self) })
                && final(self).queue.loop_mode == old(self).queue.loop_mode
                && final(self).queue.next_id == old(self).queue.next_id
                && final(self).queue.wf()
                && ((exists|i: int| 0 <= i < old(self).queue.items@.len()
                        && (#[trigger] old(self).queue.items@[i]).id == id) ==> (
                    final(self).queue.items@.len() == old(self).queue.items@.len() - 1
                    && r.1@.len() == 1
                    && resp_is_queue_update(r.1@[0], final(self).queue.items@)))
                && (!(exists|i: int| 0 <= i < old(self).queue.items@.len()
                        && (#[trigger] old(self).queue.items@[i]).id == id) ==> (
                    final(self).queue == old(self).queue && r.1@.len() == 0))
                && r.0@.len() == 0)),
            (cmd matches AudioCommand::ClearQueue ==> (
                *final(self) == (EngineCore {
                    is_playing: false,
                    current_track: None,
                    queue: final(self).queue,
                    ..*old(self)
                })
                && final(self).queue.items@.len() == 0
                && final(self).queue.current_index is None
                && final(self).queue.shuffle_order@.len() == 0
                && final(self).queue.loop_mode == old(self).queue.loop_mode
                && final(self).queue.next_id == old(self).queue.next_id
                && r.0@ == (if old(self).is_playing {
                        seq![EngineAction::FadeOut, EngineAction::SinkStop]
                    } else { Seq::<EngineAction>::empty() })
                && r.1@.len() == 2
                && resp_is_queue_update(r.1@[0], Seq::<QueueItem>::empty())
                && r.1@[1] == AudioResponse::Stopped)),
            (cmd matches AudioCommand::SetLoopMode(m) ==> (
                *final(self) == (EngineCore { queue: final(self).queue, ..*old(self) })
                && final(self).queue.loop_mode == m
                && final(self).queue.items == old(self).queue.items
                && final(self).queue.current_index == old(self).queue.current_index
                && final(self).queue.next_id == old(self).queue.next_id
                && (m != LoopMode::Shuffle ==> final(self).queue.shuffle_order
                    == old(self).queue.shuffle_order)
                && (m == LoopMode::Shuffle ==> is_permutation(
                    final(self).queue.shuffle_order@,
                    final(self).queue.items@.len() as int))
                && r.0@.len() == 0
                && r.1@ == seq![AudioResponse::LoopModeChanged(m)])),
            (cmd matches AudioCommand::PlayQueueIndex(idx) ==> (
                (idx < old(self).queue.items@.len() ==> (
                    begin_track_post(*old(self), *final(self), idx as int, r.0@)
                    && r.1@.len() == 0))
                && (idx >= old(self).queue.items@.len() ==> (
                    *final(self) == *old(self)
                    && r.0@.len() == 0
                    && r.1@.len() == 1
                    && resp_is_error(r.1@[0], "Invalid queue index"@))))),
            (cmd matches AudioCommand::EqSetEnabled(enabled) ==> (
                *final(self) == (EngineCore { eq_enabled: enabled, ..*old(self) })
                && r.0@ == (if old(self).has_rt_channel {
                        seq![EngineAction::ForwardRealtime(
                            RealtimeAudioCommand::SetEqEnabled(enabled))]
                    } else { Seq::<EngineAction>::empty() })
                && r.1@.len() == 0)),
            (cmd matches AudioCommand::EqSetMasterGain(db) ==> (
                *final(self) == (EngineCore {
                    eq_shadow: final(self).eq_shadow, ..*old(self) })
                && final(self).eq_shadow == (Equalizer {
                    master_gain: db_to_linear_spec(db as int) as i64,
                    ..old(self).eq_shadow
                })
                && final(self).eq_shadow.master_gain == db_to_linear_spec(db as int)
                && r.0@ == (if old(self).has_rt_channel {
                        seq![EngineAction::ForwardRealtime(
                            RealtimeAudioCommand::SetEqMasterGain(
                                db_to_linear_spec(db as int) as i64))]
                    } else { Seq::<EngineAction>::empty() })
                && r.1@.len() == 0)),
            (cmd matches AudioCommand::EqSetPreset(p) ==> (
                *final(self) == (EngineCore {
                    eq_shadow: final(self).eq_shadow, ..*old(self) })
                && final(self).eq_shadow == (Equalizer {
                    preset: p,
                    processors: final(self).eq_shadow.processors,
                    ..old(self).eq_shadow
                })
                && tensor_of(final(self).eq_shadow.processors) == reconciled_tensor(
                    tensor_of(old(self).eq_shadow.processors),
                    old(self).eq_shadow.num_channels as int,
                    old(self).eq_shadow.filters@,
                    old(self).eq_shadow.sample_rate as int)
                && final(self).eq_shadow.structure_ok()
                && r.0@ == (if old(self).has_rt_channel {
                        seq![EngineAction::ForwardRealtime(
                            RealtimeAudioCommand::SetEqPreset(p))]
                    } else { Seq::<EngineAction>::empty() })
                && r.1@.len() == 0)),
            (cmd matches AudioCommand::EqSetAllFilters(filters) ==> (
                *final(self) == (EngineCore {
                    eq_shadow: final(self).eq_shadow, ..*old(self) })
                && final(self).eq_shadow == (Equalizer {
                    filters: final(self).eq_shadow.filters,
                    processors: final(self).eq_shadow.processors,
                    ..old(self).eq_shadow
                })
                && final(self).eq_shadow.filters@ == sanitized_list_spec(filters@)
                && tensor_of(final(self).eq_shadow.processors) == reconciled_tensor(
                    tensor_of(old(self).eq_shadow.processors),
                    old(self).eq_shadow.num_channels as int,
                    sanitized_list_spec(filters@),
                    old(self).eq_shadow.sample_rate as int)
                && final(self).eq_shadow.structure_ok()
                && (old(self).has_rt_channel ==> (
                    r.0@.len() == 1
                    && (r.0@[0] matches EngineAction::ForwardRealtime(fc)
                        && (fc matches RealtimeAudioCommand::SetAllEqFilters(v)
                            && v@ == filters@))))
                && (!old(self).has_rt_channel ==> r.0@.len() == 0)
                && r.1@.len() == 0)),
            (cmd matches AudioCommand::EqResetParameters ==> (
                *final(self) == (EngineCore {
                    eq_shadow: final(self).eq_shadow, ..*old(self) })
                && final(self).eq_shadow == (Equalizer {
                    master_gain: FX_ONE,
                    filters: final(self).eq_shadow.filters,
                    processors: final(self).eq_shadow.processors,
                    ..old(self).eq_shadow
                })
                && final(self).eq_shadow.filters@
                    == preset_filters_spec(old(self).eq_shadow.preset)
                && tensor_of(final(self).eq_shadow.processors) == reconciled_tensor(
                    tensor_of(old(self).eq_shadow.processors),
                    old(self).eq_shadow.num_channels as int,
                    preset_filters_spec(old(self).eq_shadow.preset),
                    old(self).eq_shadow.sample_rate as int)
                && final(self).eq_shadow.structure_ok()
                && r.0@ == (if old(self).has_rt_channel {
                        seq![EngineAction::ForwardRealtime(RealtimeAudioCommand::ResetEq)]
                    } else { Seq::<EngineAction>::empty() })
                && r.1@.len() == 0)),
            (cmd matches AudioCommand::EqResetFilterNode(idx) ==> (
                *final(self) == (EngineCore {
                    eq_shadow: final(self).eq_shadow, ..*old(self) })
                && (idx < old(self).eq_shadow.filters@.len() ==> (
                    final(self).eq_shadow == (Equalizer {
                        filters: final(self).eq_shadow.filters,
                        processors: final(self).eq_shadow.processors,
                        ..old(self).eq_shadow
                    })
                    && final(self).eq_shadow.filters@ == old(self).eq_shadow.filters@.update(
                        idx as int,
                        preset_band_default(old(self).eq_shadow.preset, idx as int))
                    && tensor_of(final(self).eq_shadow.processors) == reconciled_tensor(
                        tensor_of(old(self).eq_shadow.processors),
                        old(self).eq_shadow.num_channels as int,
                        final(self).eq_shadow.filters@,
                        old(self).eq_shadow.sample_rate as int)
                    && final(self).eq_shadow.structure_ok()))
                && (idx >= old(self).eq_shadow.filters@.len()
                    ==> final(self).eq_shadow == old(self).eq_shadow)
                && r.0@ == (if old(self).has_rt_channel {
                        seq![EngineAction::ForwardRealtime(
                            RealtimeAudioCommand::ResetEqFilterNode(idx))]
                    } else { Seq::<EngineAction>::empty() })
                && r.1@.len() == 0)),
            (cmd matches AudioCommand::Quit ==> (
                *final(self) == *old(self)
                && r.0@ == (if old(self).is_playing { seq![EngineAction::FadeOut] }
                        else { Seq::<EngineAction>::empty() })
                    + seq![EngineAction::SinkStop]
                && r.1@ == seq![AudioResponse::Shutdown])),
    {
        let mut acts: Vec<EngineAction> = Vec::new();
        let mut responses: Vec<AudioResponse> = Vec::new();
        match cmd {
            AudioCommand::Load(path) => {
                if self.is_playing {
                    acts.push(EngineAction::FadeOut);
                }
                acts.push(EngineAction::SinkStop);
                self.is_playing = false;
                acts.push(EngineAction::StartDecode(path.clone()));
                self.pending_load = Some(PendingLoad {
                    path, queue_index: None, queue_id: None });
                proof {
                    if old(self).is_playing {
                        assert(acts@ =~= seq![EngineAction::FadeOut]
                            + seq![EngineAction::SinkStop,
                                EngineAction::StartDecode(
                                    final(self).pending_load.unwrap().path)]);
                    } else {
                        assert(acts@ =~= Seq::<EngineAction>::empty()
                            + seq![EngineAction::SinkStop,
                                EngineAction::StartDecode(
                                    final(self).pending_load.unwrap().path)]);
                    }
                }
                (acts, responses, true)
            }
            AudioCommand::Play => {
                if self.current_track.is_some() {
                    if sink_empty {
                        acts.push(EngineAction::AppendSource);
                        self.has_rt_channel = true;
                    }
                    if !self.is_playing {
                        acts.push(EngineAction::SinkSetVolume(0));
                        acts.push(EngineAction::SinkPlay);
                        acts.push(EngineAction::FadeIn);
                        self.is_playing = true;
                        responses.push(AudioResponse::Playing);
                        proof {
                            if sink_empty {
                                assert(acts@ =~= seq![EngineAction::AppendSource]
                                    + seq![EngineAction::SinkSetVolume(0),
                                        EngineAction::SinkPlay, EngineAction::FadeIn]);
                            } else {
                                assert(acts@ =~= Seq::<EngineAction>::empty()
                                    + seq![EngineAction::SinkSetVolume(0),
                                        EngineAction::SinkPlay, EngineAction::FadeIn]);
                            }
                            assert(responses@ =~= seq![AudioResponse::Playing]);
                        }
                    } else {
                        proof {
                            if sink_empty {
                                assert(acts@ =~= seq![EngineAction::AppendSource]
                                    + Seq::<EngineAction>::empty());
                            } else {
                                assert(acts@ =~= Seq::<EngineAction>::empty()
                                    + Seq::<EngineAction>::empty());
                            }
                        }
                    }
                } else {
                    responses.push(AudioResponse::Error("No audio loaded".to_string()));
                }
                (acts, responses, true)
            }
            AudioCommand::Pause => {
                if self.is_playing {
                    acts.push(EngineAction::FadeOut);
                    acts.push(EngineAction::SinkPause);
                    self.is_playing = false;
                    responses.push(AudioResponse::Paused);
                    proof {
                        assert(acts@ =~= seq![EngineAction::FadeOut,
                            EngineAction::SinkPause]);
                        assert(responses@ =~= seq![AudioResponse::Paused]);
                    }
                }
                (acts, responses, true)
            }
            AudioCommand::Stop => {
                if self.is_playing {
                    acts.push(EngineAction::FadeOut);
                }
                acts.push(EngineAction::SinkStop);
                self.is_playing = false;
                acts.push(EngineAction::ResetTracker);
                acts.push(EngineAction::SinkSetVolume(self.target_volume));
                responses.push(AudioResponse::Stopped);
                proof {
                    if old(self).is_playing {
                        assert(acts@ =~= seq![EngineAction::FadeOut]
                            + seq![EngineAction::SinkStop, EngineAction::ResetTracker,
                                EngineAction::SinkSetVolume(old(self).target_volume)]);
                    } else {
                        assert(acts@ =~= Seq::<EngineAction>::empty()
                            + seq![EngineAction::SinkStop, EngineAction::ResetTracker,
                                EngineAction::SinkSetVolume(old(self).target_volume)]);
                    }
                    assert(responses@ =~= seq![AudioResponse::Stopped]);
                }
                (acts, responses, true)
            }
            AudioCommand::SetVolume(v) => {
                let clamped = clamp_i64(v, 0, FX_ONE);
                self.target_volume = clamped;
                if self.is_playing {
                    acts.push(EngineAction::SinkSetVolume(clamped));
                    proof {
                        assert(acts@ =~= seq![EngineAction::SinkSetVolume(clamped)]);
                    }
                }
                (acts, responses, true)
            }
            AudioCommand::SetSpeed(s) => {
                let clamped = clamp_i64(s, SPEED_MIN, SPEED_MAX);
                acts.push(EngineAction::SinkSetSpeed(clamped));
                proof {
                    assert(acts@ =~= seq![EngineAction::SinkSetSpeed(clamped)]);
                }
                (acts, responses, true)
            }
            AudioCommand::Seek(pos) => {
                if self.current_track.is_some() {
                    acts.push(EngineAction::SinkStop);
                    acts.push(EngineAction::SeekTracker(pos));
                    acts.push(EngineAction::AppendSource);
                    self.has_rt_channel = true;
                    if self.is_playing {
                        acts.push(EngineAction::SinkSetVolume(self.target_volume));
                        acts.push(EngineAction::SinkPlay);
                        proof {
                            assert(acts@ =~= seq![EngineAction::SinkStop,
                                    EngineAction::SeekTracker(pos), EngineAction::AppendSource]
                                + seq![EngineAction::SinkSetVolume(old(self).target_volume),
                                    EngineAction::SinkPlay]);
                        }
                    } else {
                        acts.push(EngineAction::SinkPause);
                        proof {
                            assert(acts@ =~= seq![EngineAction::SinkStop,
                                    EngineAction::SeekTracker(pos), EngineAction::AppendSource]
                                + seq![EngineAction::SinkPause]);
                        }
                    }
                }
                (acts, responses, true)
            }
            AudioCommand::Next => {
                match self.queue.next_index() {
                    Some(idx) => {
                        if idx < self.queue.items.len() {
                            let (a, rs) = self.begin_queue_track(idx);
                            (a, rs, true)
                        } else {
                            (acts, responses, true)
                        }
                    }
                    None => (acts, responses, true),
                }
            }
            AudioCommand::Previous => {
                match self.queue.prev_index() {
                    Some(idx) => {
                        if idx < self.queue.items.len() {
                            let (a, rs) = self.begin_queue_track(idx);
                            (a, rs, true)
                        } else {
                            (acts, responses, true)
                        }
                    }
                    None => (acts, responses, true),
                }
            }
            AudioCommand::AddToQueue(paths) => {
                let was_empty = self.queue.items.len() == 0;
                let _ids = self.queue.add(paths);
                if !self.is_playing && !sink_paused {
                    if was_empty {
                        if self.queue.items.len() > 0 {
                            let (a, _rs) = self.begin_queue_track(0);
                            acts = a;
                        }
                    } else {
                        match self.queue.next_index() {
                            Some(idx) => {
                                if idx < self.queue.items.len() {
                                    let (a, _rs) = self.begin_queue_track(idx);
                                    acts = a;
                                }
                            }
                            None => {}
                        }
                    }
                }
                responses.push(AudioResponse::QueueUpdated(snapshot_items(&self.queue.items)));
                (acts, responses, true)
            }
            AudioCommand::RemoveFromQueue(id) => {
                if self.queue.remove(id) {
                    responses.push(AudioResponse::QueueUpdated(
                        snapshot_items(&self.queue.items)));
                    proof {
                        assert(responses@.len() == 1);
                    }
                }
                (acts, responses, true)
            }
            AudioCommand::ClearQueue => {
                if self.is_playing {
                    acts.push(EngineAction::FadeOut);
                    acts.push(EngineAction::SinkStop);
                    self.is_playing = false;
                    proof {
                        assert(acts@ =~= seq![EngineAction::FadeOut,
                            EngineAction::SinkStop]);
                    }
                }
                self.queue.clear();
                self.current_track = None;
                responses.push(AudioResponse::QueueUpdated(
                    snapshot_items(&self.queue.items)));
                responses.push(AudioResponse::Stopped);
                proof {
                    assert(self.queue.items@ =~= Seq::<QueueItem>::empty());
                    assert(responses@.len() == 2);
                    assert(resp_is_queue_update(responses@[0], Seq::<QueueItem>::empty()));
                    assert(responses@[1] == AudioResponse::Stopped);
                }
                (acts, responses, true)
            }
            AudioCommand::SetLoopMode(mode) => {
                self.queue.loop_mode = mode;
                if mode == LoopMode::Shuffle {
                    self.queue.reshuffle();
                }
                responses.push(AudioResponse::LoopModeChanged(mode));
                proof {
                    assert(responses@ =~= seq![AudioResponse::LoopModeChanged(mode)]);
                }
                (acts, responses, true)
            }
            AudioCommand::PlayQueueIndex(index) => {
                if index < self.queue.items.len() {
                    let (a, rs) = self.begin_queue_track(index);
                    (a, rs, true)
                } else {
                    responses.push(AudioResponse::Error("Invalid queue index".to_string()));
                    (acts, responses, true)
                }
            }
            AudioCommand::EqSetEnabled(enabled) => {
                self.eq_enabled = enabled;
                if self.has_rt_channel {
                    acts.push(EngineAction::ForwardRealtime(
                        RealtimeAudioCommand::SetEqEnabled(enabled)));
                    proof {
                        assert(acts@ =~= seq![EngineAction::ForwardRealtime(
                            RealtimeAudioCommand::SetEqEnabled(enabled))]);
                    }
                }
                (acts, responses, true)
            }
            AudioCommand::EqSetMasterGain(db) => {
                let linear = fx_db_to_linear(db);
                self.eq_shadow.master_gain = linear;
                if self.has_rt_channel {
                    acts.push(EngineAction::ForwardRealtime(
                        RealtimeAudioCommand::SetEqMasterGain(linear)));
                    proof {
                        assert(acts@ =~= seq![EngineAction::ForwardRealtime(
                            RealtimeAudioCommand::SetEqMasterGain(linear))]);
                    }
                }
                (acts, responses, true)
            }
            AudioCommand::EqSetPreset(preset) => {
                self.eq_shadow.preset = preset;
                self.eq_shadow.parameters_changed();
                if self.has_rt_channel {
                    acts.push(EngineAction::ForwardRealtime(
                        RealtimeAudioCommand::SetEqPreset(preset)));
                    proof {
                        assert(acts@ =~= seq![EngineAction::ForwardRealtime(
                            RealtimeAudioCommand::SetEqPreset(preset))]);
                    }
                }
                (acts, responses, true)
            }
            AudioCommand::EqSetAllFilters(filters) => {
                let clean = sanitize_filters(&filters);
                self.eq_shadow.filters = clean;
                self.eq_shadow.parameters_changed();
                if self.has_rt_channel {
                    acts.push(EngineAction::ForwardRealtime(
                        RealtimeAudioCommand::SetAllEqFilters(filters)));
                }
                (acts, responses, true)
            }
            AudioCommand::EqResetParameters => {
                self.eq_shadow.reset_parameters();
                if self.has_rt_channel {
                    acts.push(EngineAction::ForwardRealtime(RealtimeAudioCommand::ResetEq));
                    proof {
                        assert(acts@ =~= seq![EngineAction::ForwardRealtime(
                            RealtimeAudioCommand::ResetEq)]);
                    }
                }
                (acts, responses, true)
            }
            AudioCommand::EqResetFilterNode(index) => {
                let _ = self.eq_shadow.reset_filter_node_param(index);
                if self.has_rt_channel {
                    acts.push(EngineAction::ForwardRealtime(
                        RealtimeAudioCommand::ResetEqFilterNode(index)));
                    proof {
                        assert(acts@ =~= seq![EngineAction::ForwardRealtime(
                            RealtimeAudioCommand::ResetEqFilterNode(index))]);
                    }
                }
                (acts, responses, true)
            }
            AudioCommand::Quit => {
                if self.is_playing {
                    acts.push(EngineAction::FadeOut);
                }
                acts.push(EngineAction::SinkStop);
                responses.push(AudioResponse::Shutdown);
                proof {
                    if old(self).is_playing {
                        assert(acts@ =~= seq![EngineAction::FadeOut]
                            + seq![EngineAction::SinkStop]);
                    } else {
                        assert(acts@ =~= Seq::<EngineAction>::empty()
                            + seq![EngineAction::SinkStop]);
                    }
                    assert(responses@ =~= seq![AudioResponse::Shutdown]);
                }
                (acts, responses, false)
            }
        }
    }
}

} // verus!
