//! The metadata record a decoded track carries: format, sample layout,
//! tags, and musical attributes. Durations and tempi are Q20 fixed-point.

use vstd::prelude::*;

verus! {

/// How a track's channels are laid out. Anything beyond stereo decodes
/// and plays, but is reported as unsupported.
#[derive(Debug, Clone, Copy, PartialEq, Eq, Structural)]
pub enum ChannelLayout {
    Mono,
    Stereo,
    Unsupported,
}

impl ChannelLayout {
    /// The layout a channel count maps to.
    pub fn from_channels(num_channels: u16) -> (r: ChannelLayout)
        ensures
            num_channels == 1 ==> r == ChannelLayout::Mono,
            num_channels == 2 ==> r == ChannelLayout::Stereo,
            num_channels != 1 && num_channels != 2 ==> r == ChannelLayout::Unsupported,
    {
        match num_channels {
            1 => ChannelLayout::Mono,
            2 => ChannelLayout::Stereo,
            _ => ChannelLayout::Unsupported,
        }
    }

    /// A short human-readable name for the layout.
    pub fn label(&self) -> (r: &'static str)
        ensures r@ == layout_label_spec(*self),
    {
        match self {
            ChannelLayout::Mono => "Mono",
            ChannelLayout::Stereo => "Stereo",
            ChannelLayout::Unsupported => "Unsupported",
        }
    }
}

/// The name the layout is shown under.
pub open spec fn layout_label_spec(l: ChannelLayout) -> Seq<char> {
    match l {
        ChannelLayout::Mono => "Mono"@,
        ChannelLayout::Stereo => "Stereo"@,
        ChannelLayout::Unsupported => "Unsupported"@,
    }
}

/// The twenty-four musical keys.
#[derive(Debug, Clone, Copy, PartialEq, Eq, Structural)]
pub enum MusicalSongKey {
    CMaj, CMin, CSharpMaj, CSharpMin,
    DMaj, DMin, DSharpMaj, DSharpMin,
    EMaj, EMin,
    FMaj, FMin, FSharpMaj, FSharpMin,
    GMaj, GMin, GSharpMaj, GSharpMin,
    AMaj, AMin, ASharpMaj, ASharpMin,
    BMaj, BMin,
}

/// The major key of a semitone index (0 = C .. 11 = B), if in range.
pub open spec fn major_key_spec(semitone: int) -> Option<MusicalSongKey> {
    if semitone == 0 { Some(MusicalSongKey::CMaj) }
    else if semitone == 1 { Some(MusicalSongKey::CSharpMaj) }
    else if semitone == 2 { Some(MusicalSongKey::DMaj) }
    else if semitone == 3 { Some(MusicalSongKey::DSharpMaj) }
    else if semitone == 4 { Some(MusicalSongKey::EMaj) }
    else if semitone == 5 { Some(MusicalSongKey::FMaj) }
    else if semitone == 6 { Some(MusicalSongKey::FSharpMaj) }
    else if semitone == 7 { Some(MusicalSongKey::GMaj) }
    else if semitone == 8 { Some(MusicalSongKey::GSharpMaj) }
    else if semitone == 9 { Some(MusicalSongKey::AMaj) }
    else if semitone == 10 { Some(MusicalSongKey::ASharpMaj) }
    else if semitone == 11 { Some(MusicalSongKey::BMaj) }
    else { None }
}

/// The minor key of a semitone index (0 = C .. 11 = B), if in range.
pub open spec fn minor_key_spec(semitone: int) -> Option<MusicalSongKey> {
    if semitone == 0 { Some(MusicalSongKey::CMin) }
    else if semitone == 1 { Some(MusicalSongKey::CSharpMin) }
    else if semitone == 2 { Some(MusicalSongKey::DMin) }
    else if semitone == 3 { Some(MusicalSongKey::DSharpMin) }
    else if semitone == 4 { Some(MusicalSongKey::EMin) }
    else if semitone == 5 { Some(MusicalSongKey::FMin) }
    else if semitone == 6 { Some(MusicalSongKey::FSharpMin) }
    else if semitone == 7 { Some(MusicalSongKey::GMin) }
    else if semitone == 8 { Some(MusicalSongKey::GSharpMin) }
    else if semitone == 9 { Some(MusicalSongKey::AMin) }
    else if semitone == 10 { Some(MusicalSongKey::ASharpMin) }
    else if semitone == 11 { Some(MusicalSongKey::BMin) }
    else { None }
}

impl MusicalSongKey {
    /// The major key of a semitone index; `None` past 11.
    pub fn from_major(semitone: u8) -> (r: Option<MusicalSongKey>)
        ensures
            r == major_key_spec(semitone as int),
            r is Some <==> semitone < 12,
    {
        match semitone {
            0 => Some(MusicalSongKey::CMaj),
            1 => Some(MusicalSongKey::CSharpMaj),
            2 => Some(MusicalSongKey::DMaj),
            3 => Some(MusicalSongKey::DSharpMaj),
            4 => Some(MusicalSongKey::EMaj),
            5 => Some(MusicalSongKey::FMaj),
            6 => Some(MusicalSongKey::FSharpMaj),
            7 => Some(MusicalSongKey::GMaj),
            8 => Some(MusicalSongKey::GSharpMaj),
            9 => Some(MusicalSongKey::AMaj),
            10 => Some(MusicalSongKey::ASharpMaj),
            11 => Some(MusicalSongKey::BMaj),
            _ => None,
        }
    }

    /// The minor key of a semitone index; `None` past 11.
    pub fn from_minor(semitone: u8) -> (r: Option<MusicalSongKey>)
        ensures
            r == minor_key_spec(semitone as int),
            r is Some <==> semitone < 12,
    {
        match semitone {
            0 => Some(MusicalSongKey::CMin),
            1 => Some(MusicalSongKey::CSharpMin),
            2 => Some(MusicalSongKey::DMin),
            3 => Some(MusicalSongKey::DSharpMin),
            4 => Some(MusicalSongKey::EMin),
            5 => Some(MusicalSongKey::FMin),
            6 => Some(MusicalSongKey::FSharpMin),
            7 => Some(MusicalSongKey::GMin),
            8 => Some(MusicalSongKey::GSharpMin),
            9 => Some(MusicalSongKey::AMin),
            10 => Some(MusicalSongKey::ASharpMin),
            11 => Some(MusicalSongKey::BMin),
            _ => None,
        }
    }

    /// The conventional short name of the key.
    pub fn label(&self) -> (r: &'static str)
        ensures r@ == key_label_spec(*self),
    {
        match self {
            MusicalSongKey::CMaj => "C",
            MusicalSongKey::CMin => "Cm",
            MusicalSongKey::CSharpMaj => "C#",
            MusicalSongKey::CSharpMin => "C#m",
            MusicalSongKey::DMaj => "D",
            MusicalSongKey::DMin => "Dm",
            MusicalSongKey::DSharpMaj => "D#",
            MusicalSongKey::DSharpMin => "D#m",
            MusicalSongKey::EMaj => "E",
            MusicalSongKey::EMin => "Em",
            MusicalSongKey::FMaj => "F",
            MusicalSongKey::FMin => "Fm",
            MusicalSongKey::FSharpMaj => "F#",
            MusicalSongKey::FSharpMin => "F#m",
            MusicalSongKey::GMaj => "G",
            MusicalSongKey::GMin => "Gm",
            MusicalSongKey::GSharpMaj => "G#",
            MusicalSongKey::GSharpMin => "G#m",
            MusicalSongKey::AMaj => "A",
            MusicalSongKey::AMin => "Am",
            MusicalSongKey::ASharpMaj => "A#",
            MusicalSongKey::ASharpMin => "A#m",
            MusicalSongKey::BMaj => "B",
            MusicalSongKey::BMin => "Bm",
        }
    }
}

/// The conventional short name of each key.
pub open spec fn key_label_spec(k: MusicalSongKey) -> Seq<char> {
    match k {
        MusicalSongKey::CMaj => "C"@,
        MusicalSongKey::CMin => "Cm"@,
        MusicalSongKey::CSharpMaj => "C#"@,
        MusicalSongKey::CSharpMin => "C#m"@,
        MusicalSongKey::DMaj => "D"@,
        MusicalSongKey::DMin => "Dm"@,
        MusicalSongKey::DSharpMaj => "D#"@,
        MusicalSongKey::DSharpMin => "D#m"@,
        MusicalSongKey::EMaj => "E"@,
        MusicalSongKey::EMin => "Em"@,
        MusicalSongKey::FMaj => "F"@,
        MusicalSongKey::FMin => "Fm"@,
        MusicalSongKey::FSharpMaj => "F#"@,
        MusicalSongKey::FSharpMin => "F#m"@,
        MusicalSongKey::GMaj => "G"@,
        MusicalSongKey::GMin => "Gm"@,
        MusicalSongKey::GSharpMaj => "G#"@,
        MusicalSongKey::GSharpMin => "G#m"@,
        MusicalSongKey::AMaj => "A"@,
        MusicalSongKey::AMin => "Am"@,
        MusicalSongKey::ASharpMaj => "A#"@,
        MusicalSongKey::ASharpMin => "A#m"@,
        MusicalSongKey::BMaj => "B"@,
        MusicalSongKey::BMin => "Bm"@,
    }
}

/// Everything the player knows about a decoded track. The duration and
/// tempo are Q20 fixed-point (seconds and beats per minute).
#[derive(Debug, Clone)]
pub struct AudioMetadata {
    /// Audio format tag (mp3, flac, wav, ogg, ...).
    pub format: String,
    /// Sampling frequency in Hz.
    pub sample_rate: u32,
    /// Number of interleaved channels.
    pub num_channels: u16,
    /// Channel layout derived from the channel count.
    pub channel_layout: ChannelLayout,
    /// Path of the source file.
    pub full_file_path: String,
    /// Track title, if tagged.
    pub title: Option<String>,
    /// Track artist(s), if tagged.
    pub author: Option<String>,
    /// Genre, if tagged.
    pub genre: Option<String>,
    /// Tempo in beats per minute (Q20), if known.
    pub bpm: Option<i64>,
    /// Musical key, if known.
    pub key: Option<MusicalSongKey>,
    /// Duration in seconds (Q20).
    pub duration: i64,
    /// Album, if tagged.
    pub album: Option<String>,
    /// Danceability measure (Q20), if computed.
    pub danceability: Option<i64>,
    /// Acousticness measure (Q20), if computed.
    pub acousticness: Option<i64>,
    /// Electronicness measure (Q20), if computed.
    pub electronicness: Option<i64>,
}

impl AudioMetadata {
    /// An equal copy of the record (field by field, so that callers keep
    /// exact knowledge of the result).
    pub fn duplicate(&self) -> (r: AudioMetadata)
        ensures r == *self,
    {
        AudioMetadata {
            format: self.format.clone(),
            sample_rate: self.sample_rate,
            num_channels: self.num_channels,
            channel_layout: self.channel_layout,
            full_file_path: self.full_file_path.clone(),
            title: clone_opt_string(&self.title),
            author: clone_opt_string(&self.author),
            genre: clone_opt_string(&self.genre),
            bpm: self.bpm,
            key: self.key,
            duration: self.duration,
            album: clone_opt_string(&self.album),
            danceability: self.danceability,
            acousticness: self.acousticness,
            electronicness: self.electronicness,
        }
    }
}

/// An equal copy of an optional string.
fn clone_opt_string(o: &Option<String>) -> (r: Option<String>)
    ensures r == *o,
{
    match o {
        Some(s) => Some(s.clone()),
        None => None,
    }
}

impl Default for AudioMetadata {
    fn default() -> (r: Self)
        ensures
            r.format@ == Seq::<char>::empty(),
            r.sample_rate == 0,
            r.num_channels == 0,
            r.channel_layout == ChannelLayout::Unsupported,
            r.title is None,
            r.author is None,
            r.genre is None,
            r.bpm is None,
            r.key is None,
            r.duration == 0,
            r.album is None,
            r.danceability is None,
            r.acousticness is None,
            r.electronicness is None,
    {
        AudioMetadata {
            format: String::new(),
            sample_rate: 0,
            num_channels: 0,
            channel_layout: ChannelLayout::Unsupported,
            full_file_path: String::new(),
            title: None,
            author: None,
            genre: None,
            bpm: None,
            key: None,
            duration: 0,
            album: None,
            danceability: None,
            acousticness: None,
            electronicness: None,
        }
    }
}

} // verus!
