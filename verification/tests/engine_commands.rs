//! The engine core's command table, track changes, and the dB round trip
//! through the master-gain command.

use audido_core::engine::{EngineCore, EngineAction, FADE_STEPS, fade_ramp};
use audido_core::commands::{AudioCommand, AudioResponse, RealtimeAudioCommand};
use audido_core::metadata::{AudioMetadata, ChannelLayout};
use audido_core::queue::LoopMode;
use audido_core::fixed::{FX_ONE, fx_log2, fx_mul};

const ONE: f64 = 1048576.0;

fn to_fx(x: f64) -> i64 {
    (x * ONE).round() as i64
}

fn from_fx(v: i64) -> f64 {
    v as f64 / ONE
}

fn meta(rate: u32, channels: u16) -> AudioMetadata {
    let mut m = AudioMetadata::default();
    m.sample_rate = rate;
    m.num_channels = channels;
    m.channel_layout = ChannelLayout::from_channels(channels);
    m
}

#[test]
fn set_volume_clamps_and_pushes_while_playing() {
    let mut core = EngineCore::new();
    let (acts, resp, go) = core.process_command(AudioCommand::SetVolume(to_fx(3.0)), true, false);
    assert!(go);
    assert_eq!(core.target_volume, FX_ONE);
    assert!(acts.is_empty()); // not playing: nothing pushed to the sink
    assert!(resp.is_empty());
    core.is_playing = true;
    let (acts, _resp, _) = core.process_command(AudioCommand::SetVolume(to_fx(0.25)), true, false);
    assert_eq!(core.target_volume, to_fx(0.25));
    assert!(matches!(acts[0], EngineAction::SinkSetVolume(v) if v == to_fx(0.25)));
}

#[test]
fn set_speed_clamps_to_its_range() {
    let mut core = EngineCore::new();
    let (acts, _, _) = core.process_command(AudioCommand::SetSpeed(to_fx(9.0)), true, false);
    assert!(matches!(acts[0], EngineAction::SinkSetSpeed(s) if s == to_fx(4.0)));
    let (acts, _, _) = core.process_command(AudioCommand::SetSpeed(0), true, false);
    assert!(matches!(acts[0], EngineAction::SinkSetSpeed(s) if s == 104858));
}

#[test]
fn play_without_a_track_reports_an_error() {
    let mut core = EngineCore::new();
    let (acts, resp, _) = core.process_command(AudioCommand::Play, true, false);
    assert!(acts.is_empty());
    assert!(matches!(&resp[0], AudioResponse::Error(m) if m == "No audio loaded"));
}

#[test]
fn load_then_decode_success_starts_playback() {
    let mut core = EngineCore::new();
    let (acts, resp, _) =
        core.process_command(AudioCommand::Load("song.wav".to_string()), true, false);
    assert!(resp.is_empty());
    assert!(matches!(acts[0], EngineAction::SinkStop));
    assert!(matches!(&acts[1], EngineAction::StartDecode(p) if p == "song.wav"));
    assert!(core.pending_load.is_some());

    let (acts, resp) = core.on_load_result(Ok(meta(48000, 2)));
    assert!(core.is_playing);
    assert!(core.pending_load.is_none());
    assert_eq!(core.eq_shadow.sample_rate, 48000);
    assert_eq!(core.eq_shadow.num_channels, 2);
    assert!(matches!(acts[0], EngineAction::AppendSource));
    assert!(matches!(acts[1], EngineAction::SinkSetVolume(0)));
    assert!(matches!(acts[2], EngineAction::SinkPlay));
    assert!(matches!(acts[3], EngineAction::FadeIn));
    assert!(matches!(resp[0], AudioResponse::Loaded(_)));
    assert!(matches!(resp[1], AudioResponse::Playing));
}

#[test]
fn decode_failure_leaves_prior_state_intact() {
    let mut core = EngineCore::new();
    core.process_command(AudioCommand::Load("gone.wav".to_string()), true, false);
    let (acts, resp) = core.on_load_result(Err("no such file".to_string()));
    assert!(acts.is_empty());
    assert!(matches!(&resp[0], AudioResponse::Error(m) if m == "no such file"));
    assert!(!core.is_playing);
    assert!(core.current_track.is_none());
}

#[test]
fn queue_tracks_flow_through_decode_and_emit_track_changes() {
    // scenario: two queued tracks, natural end advances to the second,
    // then the queue runs out and the engine stops
    let mut core = EngineCore::new();
    let (acts, resp, _) = core.process_command(
        AudioCommand::AddToQueue(vec!["one.wav".to_string(), "two.wav".to_string()]),
        true, false);
    // autostart at index 0
    assert!(matches!(acts[0], EngineAction::SinkStop));
    assert!(matches!(&acts[1], EngineAction::StartDecode(p) if p == "one.wav"));
    assert!(matches!(&resp[0], AudioResponse::QueueUpdated(v) if v.len() == 2));
    let (_, resp) = core.on_load_result(Ok(meta(44100, 1)));
    assert!(matches!(resp[0], AudioResponse::TrackChanged { index: 0, .. }));
    assert!(matches!(resp[1], AudioResponse::Loaded(_)));
    assert!(matches!(resp[2], AudioResponse::Playing));
    assert_eq!(core.queue.current_index, Some(0));
    assert!(core.queue.items[0].metadata.is_some());

    // the sink ran empty: advance to the next track (the engine was
    // playing, so a fade-out precedes the stop)
    let (acts, resp) = core.on_track_finished();
    assert!(matches!(acts[0], EngineAction::ResetTracker));
    assert!(matches!(acts[1], EngineAction::FadeOut));
    assert!(matches!(acts[2], EngineAction::SinkStop));
    assert!(matches!(&acts[3], EngineAction::StartDecode(p) if p == "two.wav"));
    assert!(resp.is_empty());
    let (_, resp) = core.on_load_result(Ok(meta(44100, 1)));
    assert!(matches!(resp[0], AudioResponse::TrackChanged { index: 1, .. }));
    assert_eq!(core.queue.current_index, Some(1));

    // second natural end: loop mode off, queue exhausted
    let (acts, resp) = core.on_track_finished();
    assert!(matches!(acts[0], EngineAction::ResetTracker));
    assert!(matches!(acts[1], EngineAction::SinkSetVolume(v) if v == FX_ONE));
    assert!(matches!(resp[0], AudioResponse::Stopped));
    assert!(matches!(resp[1], AudioResponse::Position { current: 0, total: 0 }));
    assert!(!core.is_playing);
}

#[test]
fn pause_stop_and_quit_sequence_their_actions() {
    let mut core = EngineCore::new();
    core.is_playing = true;
    let (acts, resp, _) = core.process_command(AudioCommand::Pause, false, false);
    assert!(matches!(acts[0], EngineAction::FadeOut));
    assert!(matches!(acts[1], EngineAction::SinkPause));
    assert!(matches!(resp[0], AudioResponse::Paused));
    assert!(!core.is_playing);

    core.is_playing = true;
    let (acts, resp, _) = core.process_command(AudioCommand::Stop, false, false);
    assert!(matches!(acts[0], EngineAction::FadeOut));
    assert!(matches!(acts[1], EngineAction::SinkStop));
    assert!(matches!(acts[2], EngineAction::ResetTracker));
    assert!(matches!(resp[0], AudioResponse::Stopped));

    let (acts, resp, go) = core.process_command(AudioCommand::Quit, false, false);
    assert!(!go);
    assert!(matches!(acts[0], EngineAction::SinkStop));
    assert!(matches!(resp[0], AudioResponse::Shutdown));
}

#[test]
fn seek_rebuilds_the_source_and_restores_playback_state() {
    let mut core = EngineCore::new();
    core.current_track = Some(meta(44100, 2));
    core.is_playing = true;
    let (acts, _, _) = core.process_command(AudioCommand::Seek(to_fx(3.5)), false, false);
    assert!(matches!(acts[0], EngineAction::SinkStop));
    assert!(matches!(acts[1], EngineAction::SeekTracker(p) if p == to_fx(3.5)));
    assert!(matches!(acts[2], EngineAction::AppendSource));
    assert!(matches!(acts[3], EngineAction::SinkSetVolume(_)));
    assert!(matches!(acts[4], EngineAction::SinkPlay));

    core.is_playing = false;
    let (acts, _, _) = core.process_command(AudioCommand::Seek(0), false, false);
    assert!(matches!(acts[3], EngineAction::SinkPause));
}

#[test]
fn loop_mode_changes_are_acknowledged_and_reshuffle() {
    let mut core = EngineCore::new();
    core.process_command(
        AudioCommand::AddToQueue(vec!["a".into(), "b".into(), "c".into()]), true, true);
    let (_, resp, _) =
        core.process_command(AudioCommand::SetLoopMode(LoopMode::Shuffle), true, false);
    assert!(matches!(resp[0], AudioResponse::LoopModeChanged(LoopMode::Shuffle)));
    assert_eq!(core.queue.shuffle_order.len(), 3);
}

#[test]
fn out_of_range_queue_index_reports_an_error() {
    let mut core = EngineCore::new();
    let (_, resp, _) = core.process_command(AudioCommand::PlayQueueIndex(3), true, false);
    assert!(matches!(&resp[0], AudioResponse::Error(m) if m == "Invalid queue index"));
}

#[test]
fn remove_from_queue_announces_the_new_contents() {
    let mut core = EngineCore::new();
    core.process_command(
        AudioCommand::AddToQueue(vec!["a".into(), "b".into()]), true, true);
    let id = core.queue.items[0].id;
    let (_, resp, _) = core.process_command(AudioCommand::RemoveFromQueue(id), true, false);
    assert!(matches!(&resp[0], AudioResponse::QueueUpdated(v) if v.len() == 1));
    let (_, resp, _) = core.process_command(AudioCommand::RemoveFromQueue(999), true, false);
    assert!(resp.is_empty());
}

#[test]
fn master_gain_command_encodes_db_and_forwards_linear() {
    let mut core = EngineCore::new();
    core.has_rt_channel = true;
    let (acts, _, _) =
        core.process_command(AudioCommand::EqSetMasterGain(to_fx(6.0)), true, false);
    let linear = core.eq_shadow.master_gain;
    assert!((from_fx(linear) - 1.9953).abs() < 5e-3);
    assert!(matches!(acts[0],
        EngineAction::ForwardRealtime(RealtimeAudioCommand::SetEqMasterGain(g)) if g == linear));
    // decoding back with 20*log10 recovers the dB value
    let back = from_fx(fx_mul(fx_log2(linear), 6313057));
    assert!((back - 6.0).abs() < 0.02, "round trip gave {back}");
}

#[test]
fn eq_commands_shadow_and_forward() {
    let mut core = EngineCore::new();
    core.has_rt_channel = true;
    let (acts, _, _) = core.process_command(AudioCommand::EqSetEnabled(true), true, false);
    assert!(core.eq_enabled);
    assert!(matches!(acts[0],
        EngineAction::ForwardRealtime(RealtimeAudioCommand::SetEqEnabled(true))));

    let (acts, _, _) = core.process_command(AudioCommand::EqResetParameters, true, false);
    assert_eq!(core.eq_shadow.master_gain, FX_ONE);
    assert!(matches!(acts[0],
        EngineAction::ForwardRealtime(RealtimeAudioCommand::ResetEq)));

    let wild = audido_core::eq::FilterNode {
        id: 0,
        filter_type: audido_core::eq::FilterType::Peaking,
        freq: 0,
        gain: i64::MAX,
        q: i64::MAX,
        order: 0,
    };
    let (acts, _, _) =
        core.process_command(AudioCommand::EqSetAllFilters(vec![wild]), true, false);
    assert_eq!(core.eq_shadow.filters.len(), 1);
    assert_eq!(core.eq_shadow.filters[0].freq, to_fx(20.0));
    assert_eq!(core.eq_shadow.filters[0].gain, to_fx(20.0));
    assert!(matches!(&acts[0],
        EngineAction::ForwardRealtime(RealtimeAudioCommand::SetAllEqFilters(v)) if v.len() == 1));
}

#[test]
fn load_preserves_eq_settings_across_channel_layouts() {
    let mut core = EngineCore::new();
    core.process_command(AudioCommand::EqSetMasterGain(to_fx(6.0)), true, false);
    let gain = core.eq_shadow.master_gain;
    core.process_command(AudioCommand::Load("x.wav".to_string()), true, false);
    core.on_load_result(Ok(meta(96000, 1)));
    assert_eq!(core.eq_shadow.master_gain, gain);
    assert_eq!(core.eq_shadow.num_channels, 1);
    assert_eq!(core.eq_shadow.sample_rate, 96000);
    assert_eq!(core.eq_shadow.filters.len(), 8);
}

#[test]
fn clear_queue_stops_and_empties() {
    let mut core = EngineCore::new();
    core.process_command(AudioCommand::AddToQueue(vec!["a".into(), "b".into()]), true, true);
    core.is_playing = true;
    core.current_track = Some(meta(44100, 2));
    let (acts, resp, _) = core.process_command(AudioCommand::ClearQueue, false, false);
    assert!(matches!(acts[0], EngineAction::FadeOut));
    assert!(matches!(acts[1], EngineAction::SinkStop));
    assert!(matches!(&resp[0], AudioResponse::QueueUpdated(v) if v.is_empty()));
    assert!(matches!(resp[1], AudioResponse::Stopped));
    assert!(core.queue.items.is_empty());
    assert!(core.current_track.is_none());
    assert!(!core.is_playing);
}

#[test]
fn play_resumes_a_loaded_track() {
    let mut core = EngineCore::new();
    core.current_track = Some(meta(44100, 2));
    // paused with the source still queued: no new source is appended
    let (acts, resp, _) = core.process_command(AudioCommand::Play, false, false);
    assert!(core.is_playing);
    assert!(matches!(acts[0], EngineAction::SinkSetVolume(0)));
    assert!(matches!(acts[1], EngineAction::SinkPlay));
    assert!(matches!(acts[2], EngineAction::FadeIn));
    assert!(matches!(resp[0], AudioResponse::Playing));
    // stopped with an empty sink: a fresh source is appended first
    core.is_playing = false;
    let (acts, _, _) = core.process_command(AudioCommand::Play, true, false);
    assert!(matches!(acts[0], EngineAction::AppendSource));
    assert!(matches!(acts[1], EngineAction::SinkSetVolume(0)));
}

#[test]
fn fade_ramp_ends_exactly_at_the_target() {
    let up = fade_ramp(0, FX_ONE);
    assert_eq!(up.len(), FADE_STEPS);
    assert_eq!(*up.last().unwrap(), FX_ONE);
    for w in up.windows(2) {
        assert!(w[1] >= w[0]);
    }
    let down = fade_ramp(to_fx(0.8), 0);
    assert_eq!(*down.last().unwrap(), 0);
    for w in down.windows(2) {
        assert!(w[1] <= w[0]);
    }
}
