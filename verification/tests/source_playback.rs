//! The buffered source: pass-through playback, realtime commands at
//! chunk boundaries, and position accounting.

use audido_core::source::{AudioPlaybackData, BufferedSource, CHUNK_SIZE};
use audido_core::metadata::{AudioMetadata, ChannelLayout};
use audido_core::equalizer::Equalizer;
use audido_core::eq::FilterNode;
use audido_core::commands::RealtimeAudioCommand;
use crossbeam_channel::unbounded;

const ONE: f64 = 1048576.0;

fn to_fx(x: f64) -> i64 {
    (x * ONE).round() as i64
}

fn from_fx(v: i64) -> f64 {
    v as f64 / ONE
}

fn mono_meta(rate: u32) -> AudioMetadata {
    let mut m = AudioMetadata::default();
    m.sample_rate = rate;
    m.num_channels = 1;
    m.channel_layout = ChannelLayout::from_channels(1);
    m
}

fn tone(n: usize) -> Vec<i64> {
    let w = 2.0 * std::f64::consts::PI * 440.0 / 44100.0;
    (0..n).map(|i| to_fx((w * i as f64).sin() * 0.5)).collect()
}

fn drain(src: &mut BufferedSource) -> Vec<i64> {
    let mut out = Vec::new();
    while let Some(s) = src.next_sample() {
        out.push(s);
    }
    out
}

#[test]
fn pass_through_reproduces_the_buffer() {
    // one second of mono audio, equalizer enabled with no bands and unit
    // gain: the output equals the input sample for sample
    let samples = tone(44100);
    let data = AudioPlaybackData::new(samples.clone(), mono_meta(44100));
    let mut eq = Equalizer::new(44100, 1);
    eq.filters = Vec::new();
    eq.parameters_changed();
    let (_tx, rx) = unbounded::<RealtimeAudioCommand>();
    let mut src = data.create_source(eq, true, rx);
    let out = drain(&mut src);
    assert_eq!(out.len(), 44100);
    assert_eq!(out, samples);
}

#[test]
fn bypassed_source_reproduces_the_buffer() {
    let samples = tone(2000);
    let data = AudioPlaybackData::new(samples.clone(), mono_meta(44100));
    let eq = Equalizer::new(44100, 1);
    let (_tx, rx) = unbounded::<RealtimeAudioCommand>();
    let mut src = data.create_source(eq, false, rx);
    let out = drain(&mut src);
    assert_eq!(out, samples);
}

#[test]
fn master_gain_command_scales_the_stream() {
    // sending a +6 dB master gain (as a linear factor) scales every
    // sample of the next chunks by about 1.9953
    let samples = tone(CHUNK_SIZE * 4);
    let data = AudioPlaybackData::new(samples.clone(), mono_meta(44100));
    let mut eq = Equalizer::new(44100, 1);
    eq.filters = Vec::new();
    eq.parameters_changed();
    let (tx, rx) = unbounded::<RealtimeAudioCommand>();
    let mut src = data.create_source(eq, true, rx);
    tx.send(RealtimeAudioCommand::SetEqMasterGain(to_fx(1.9953))).unwrap();
    let out = drain(&mut src);
    assert_eq!(out.len(), samples.len());
    for (x, y) in samples.iter().zip(out.iter()) {
        let want = from_fx(*x) * 1.9953;
        assert!((from_fx(*y) - want).abs() < 1e-5);
    }
}

#[test]
fn disabling_the_equalizer_mid_stream_takes_effect_at_a_chunk_boundary() {
    let samples = tone(CHUNK_SIZE * 2);
    let data = AudioPlaybackData::new(samples.clone(), mono_meta(44100));
    let mut eq = Equalizer::new(44100, 1);
    eq.filters = Vec::new();
    eq.parameters_changed();
    eq.master_gain = to_fx(0.5);
    let (tx, rx) = unbounded::<RealtimeAudioCommand>();
    let mut src = data.create_source(eq, true, rx);
    // first chunk at half gain
    let mut out = Vec::new();
    for _ in 0..CHUNK_SIZE {
        out.push(src.next_sample().unwrap());
    }
    assert!((from_fx(out[10]) - from_fx(samples[10]) * 0.5).abs() < 1e-5);
    // disable before the second chunk: it passes through untouched
    tx.send(RealtimeAudioCommand::SetEqEnabled(false)).unwrap();
    let rest = drain(&mut src);
    assert_eq!(rest, samples[CHUNK_SIZE..].to_vec());
}

#[test]
fn order_growth_keeps_the_first_sections_state() {
    // scenario: play one chunk, grow the band order through the realtime
    // channel, play on; the output must match a reference built by
    // extending the chain in place (clearing state would differ)
    let samples = tone(CHUNK_SIZE * 2);
    let data = AudioPlaybackData::new(samples.clone(), mono_meta(44100));
    let mut eq = Equalizer::new(44100, 1);
    let mut f = FilterNode::new(0, to_fx(1000.0));
    f.set_gain(to_fx(6.0));
    let mut filters = Vec::new();
    filters.push(f);
    eq.filters = filters;
    eq.parameters_changed();
    let mut f4 = f;
    f4.set_order(4);

    // the reference: same equalizer driven by hand, retuned between the
    // two chunks with state kept
    let mut node = audido_core::dsp_node::DspNode::new_with_state(eq.clone(), true);
    let mut ref_first: Vec<i64> = samples[..CHUNK_SIZE].to_vec();
    node.instance.process_frame(&mut ref_first);
    node.set_filter(0, f4);
    assert_eq!(node.instance.processors[0][0].len(), 2);
    let mut ref_second: Vec<i64> = samples[CHUNK_SIZE..].to_vec();
    node.instance.process_frame(&mut ref_second);

    let (tx, rx) = unbounded::<RealtimeAudioCommand>();
    let mut src = data.create_source(eq, true, rx);
    let mut first = Vec::new();
    for _ in 0..CHUNK_SIZE {
        first.push(src.next_sample().unwrap());
    }
    assert_eq!(first, ref_first);
    tx.send(RealtimeAudioCommand::UpdateEqFilter(0, f4)).unwrap();
    let second = drain(&mut src);
    assert_eq!(src.equalizer.instance.processors[0][0].len(), 2);
    assert_eq!(second, ref_second);
}

#[test]
fn realtime_filters_are_clamped_at_the_boundary() {
    // a wild band arriving over the channel is clamped into range
    let samples = tone(CHUNK_SIZE);
    let data = AudioPlaybackData::new(samples, mono_meta(44100));
    let eq = Equalizer::new(44100, 1);
    let (tx, rx) = unbounded::<RealtimeAudioCommand>();
    let mut src = data.create_source(eq, true, rx);
    let wild = FilterNode {
        id: 7,
        filter_type: audido_core::eq::FilterType::Peaking,
        freq: i64::MAX,
        gain: i64::MIN,
        q: 0,
        order: 200,
    };
    tx.send(RealtimeAudioCommand::SetAllEqFilters(vec![wild])).unwrap();
    src.next_sample().unwrap();
    let stored = src.equalizer.instance.filters[0];
    assert_eq!(stored.freq, to_fx(20000.0));
    assert_eq!(stored.gain, to_fx(-20.0));
    assert_eq!(stored.q, 104858);
    assert_eq!(stored.order, 16);
}

#[test]
fn position_and_remaining_track_the_stream() {
    let samples = tone(1000);
    let data = AudioPlaybackData::new(samples, mono_meta(44100));
    let mut eq = Equalizer::new(44100, 1);
    eq.filters = Vec::new();
    eq.parameters_changed();
    let (_tx, rx) = unbounded::<RealtimeAudioCommand>();
    let mut src = data.create_source(eq, false, rx);
    assert_eq!(src.remaining_samples(), 1000);
    assert_eq!(src.channel_count(), 1);
    assert_eq!(src.rate(), 44100);
    for _ in 0..250 {
        src.next_sample().unwrap();
    }
    assert_eq!(src.remaining_samples(), 750);
    drain(&mut src);
    assert_eq!(src.remaining_samples(), 0);
    assert!(src.next_sample().is_none());
}

#[test]
fn seeking_the_payload_starts_sources_mid_track() {
    let samples: Vec<i64> = (0..1000).map(|i| i as i64).collect();
    let mut data = AudioPlaybackData::new(samples, mono_meta(44100));
    data.seek_to_seconds(to_fx(0.01)); // 441 frames in
    let mut eq = Equalizer::new(44100, 1);
    eq.filters = Vec::new();
    eq.parameters_changed();
    let (_tx, rx) = unbounded::<RealtimeAudioCommand>();
    let mut src = data.create_source(eq, false, rx);
    assert_eq!(src.next_sample(), Some(441));
    data.reset_position();
    assert_eq!(data.position_tracker().position, 0);
}
