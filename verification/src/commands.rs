//! The message vocabulary of the player: commands from the interface to
//! the engine, responses back, and the realtime commands the engine
//! forwards to the playing source. Seconds, volumes, speeds and gains are
//! Q20 fixed-point.

use vstd::prelude::*;
use crate::eq::{EqPreset, FilterNode};
use crate::metadata::AudioMetadata;
use crate::queue::{LoopMode, QueueItem};

verus! {

/// Commands sent from the interface to the audio engine.
#[derive(Debug, Clone)]
pub enum AudioCommand {
    /// Load an audio file from the given path and start playing it.
    Load(String),
    /// Start or resume playback.
    Play,
    /// Pause playback.
    Pause,
    /// Stop playback and reset the position.
    Stop,
    /// Skip to the next track, as the queue's loop mode decides.
    Next,
    /// Skip to the previous track.
    Previous,
    /// Seek to a position in seconds (Q20).
    Seek(i64),
    /// Set the target volume, clamped into [0, 1] (Q20).
    SetVolume(i64),
    /// Set the playback speed multiplier, clamped into [0.1, 4] (Q20).
    SetSpeed(i64),
    /// Append paths to the queue.
    AddToQueue(Vec<String>),
    /// Remove the queue item with the given id.
    RemoveFromQueue(usize),
    /// Empty the queue and stop playback.
    ClearQueue,
    /// Set the loop mode.
    SetLoopMode(LoopMode),
    /// Play the track at a queue index.
    PlayQueueIndex(usize),
    /// Enable or bypass the equalizer.
    EqSetEnabled(bool),
    /// Set the equalizer master gain, in dB (Q20).
    EqSetMasterGain(i64),
    /// Install a preset.
    EqSetPreset(EqPreset),
    /// Replace the whole band list.
    EqSetAllFilters(Vec<FilterNode>),
    /// Reset gain and bands to the preset defaults.
    EqResetParameters,
    /// Reset one band to its preset default.
    EqResetFilterNode(usize),
    /// Shut the engine down.
    Quit,
}

/// Responses sent from the audio engine back to the interface.
#[derive(Debug, Clone)]
pub enum AudioResponse {
    /// Playback has started.
    Playing,
    /// Playback has been paused.
    Paused,
    /// Playback has been stopped.
    Stopped,
    /// A file was loaded; its metadata follows.
    Loaded(AudioMetadata),
    /// Current position and total duration, in seconds (Q20).
    Position { current: i64, total: i64 },
    /// The queue moved to another track.
    TrackChanged { index: usize, metadata: AudioMetadata },
    /// The queue's contents changed.
    QueueUpdated(Vec<QueueItem>),
    /// The loop mode changed.
    LoopModeChanged(LoopMode),
    /// Something failed; the message says what.
    Error(String),
    /// The engine is shutting down.
    Shutdown,
}

/// Realtime commands the engine forwards to the currently playing
/// source's lock-free channel; drained at every chunk boundary.
#[derive(Debug, Clone)]
pub enum RealtimeAudioCommand {
    /// Enable or bypass the equalizer.
    SetEqEnabled(bool),
    /// Set the master gain as a linear factor (Q20).
    SetEqMasterGain(i64),
    /// Replace one band.
    UpdateEqFilter(usize, FilterNode),
    /// Replace the whole band list.
    SetAllEqFilters(Vec<FilterNode>),
    /// Install a preset.
    SetEqPreset(EqPreset),
    /// Reset gain and bands to the preset defaults.
    ResetEq,
    /// Reset one band to its preset default.
    ResetEqFilterNode(usize),
}

} // verus!
