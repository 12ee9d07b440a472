//! The position tracker: the current interleaved-sample index of a
//! playing track, with conversions to and from seconds (Q20). The index
//! only advances during playback or jumps on seek and reset, and never
//! leaves [0, total].

use vstd::prelude::*;
use crate::fixed::{FX_ONE, tdiv};

verus! {

/// Largest sample count a tracker accepts (2^40 interleaved samples —
/// far beyond any real track, and small enough that every conversion
/// below fits in 64 bits).
pub const TRACKER_MAX_SAMPLES: u64 = 1099511627776;

/// Largest sample rate a tracker accepts; below 2^19, so that rounding
/// on seek stays within one sample period.
pub const TRACKER_MAX_RATE: u32 = 500000;

/// Seconds (Q20) corresponding to an interleaved-sample index.
pub open spec fn seconds_of_spec(pos: int, channels: int, rate: int) -> int {
    tdiv(tdiv(pos, channels) * FX_ONE, rate)
}

/// The frame index a seek target in seconds (Q20) rounds to.
pub open spec fn seek_frames_spec(secs: int, rate: int) -> int {
    if secs < 0 { 0 } else { (secs * rate + FX_ONE as int / 2) / (FX_ONE as int) }
}

/// The sample index a seek lands on: the rounded frame scaled by the
/// channel count, clamped to the total.
pub open spec fn seek_pos_spec(secs: int, rate: int, channels: int, total: int) -> int {
    let p = seek_frames_spec(secs, rate) * channels;
    if p > total { total } else { p }
}

/// Tracks the current interleaved-sample index of a playing track.
#[derive(Debug, Clone, PartialEq, Eq, Structural)]
pub struct PositionTracker {
    /// Current interleaved-sample index.
    pub position: u64,
    /// Total number of interleaved samples.
    pub total_samples: u64,
    /// Sampling frequency in Hz.
    pub sample_rate: u32,
    /// Number of interleaved channels.
    pub channels: u16,
}

impl PositionTracker {
    /// A track's worth of samples: whole frames, positive rate and
    /// channel count, sizes small enough for exact conversions.
    pub open spec fn wf(self) -> bool {
        1 <= self.channels
            && 1 <= self.sample_rate <= TRACKER_MAX_RATE
            && self.total_samples <= TRACKER_MAX_SAMPLES
            && self.total_samples as int % (self.channels as int) == 0
            && self.position <= self.total_samples
    }

    /// A tracker at the start of a track.
    pub fn new(total_samples: u64, sample_rate: u32, channels: u16) -> (r: PositionTracker)
        requires
            1 <= channels,
            1 <= sample_rate <= TRACKER_MAX_RATE,
            total_samples <= TRACKER_MAX_SAMPLES,
            total_samples as int % (channels as int) == 0,
        ensures
            r.position == 0,
            r.total_samples == total_samples,
            r.sample_rate == sample_rate,
            r.channels == channels,
            r.wf(),
    {
        PositionTracker { position: 0, total_samples, sample_rate, channels }
    }

    /// The current position in seconds (Q20).
    pub fn position_seconds(&self) -> (r: i64)
        requires self.wf(),
        ensures
            r == seconds_of_spec(self.position as int, self.channels as int,
                self.sample_rate as int),
            r >= 0,
    {
        let frames = self.position / (self.channels as u64);
        let r = ((frames as i64) * FX_ONE) / (self.sample_rate as i64);
        proof {
            assert(frames as int == tdiv(self.position as int, self.channels as int));
        }
        r
    }

    /// The track's duration in seconds (Q20).
    pub fn duration_seconds(&self) -> (r: i64)
        requires self.wf(),
        ensures
            r == seconds_of_spec(self.total_samples as int, self.channels as int,
                self.sample_rate as int),
            r >= 0,
    {
        let frames = self.total_samples / (self.channels as u64);
        let r = ((frames as i64) * FX_ONE) / (self.sample_rate as i64);
        proof {
            assert(frames as int == tdiv(self.total_samples as int, self.channels as int));
        }
        r
    }

    /// Jump to a position given in seconds (Q20): round to the nearest
    /// frame, scale to interleaved samples, clamp into [0, total].
    pub fn seek_to_seconds(&mut self, seconds: i64)
        requires old(self).wf(),
        ensures
            final(self).position == seek_pos_spec(seconds as int,
                old(self).sample_rate as int, old(self).channels as int,
                old(self).total_samples as int),
            final(self).position <= final(self).total_samples,
            final(self).total_samples == old(self).total_samples,
            final(self).sample_rate == old(self).sample_rate,
            final(self).channels == old(self).channels,
            final(self).wf(),
    {
        proof {
            assert(seconds as int * self.sample_rate as int <= 0x8000000000000000 * 500000
                && seconds as int * self.sample_rate as int >= -(0x8000000000000000 * 500000))
                by (nonlinear_arith)
                requires -0x8000000000000000 <= seconds <= 0x7fffffffffffffff
                    && 0 <= self.sample_rate <= 500000;
        }
        let frames: i128 = if seconds < 0 {
            0
        } else {
            ((seconds as i128) * (self.sample_rate as i128) + (FX_ONE as i128) / 2)
                / (FX_ONE as i128)
        };
        assert(frames == seek_frames_spec(seconds as int, self.sample_rate as int));
        proof {
            assert(frames >= 0) by {
                if seconds >= 0 {
                    assert(seconds as int * self.sample_rate as int >= 0) by (nonlinear_arith)
                        requires seconds >= 0 && self.sample_rate >= 0;
                    vstd::arithmetic::div_mod::lemma_div_pos_is_pos(
                        seconds as int * self.sample_rate as int + FX_ONE as int / 2,
                        FX_ONE as int);
                }
            };
            assert(frames as int * self.channels as int >= 0
                && frames as int * self.channels as int
                    <= frames as int * 0x10000) by (nonlinear_arith)
                requires frames >= 0 && 1 <= self.channels as int <= 0x10000;
        }
        let scaled: i128 = frames * (self.channels as i128);
        if scaled > self.total_samples as i128 {
            self.position = self.total_samples;
        } else {
            self.position = scaled as u64;
        }
    }

    /// Reset the position to the start of the track.
    pub fn reset(&mut self)
        ensures
            final(self).position == 0,
            final(self).total_samples == old(self).total_samples,
            final(self).sample_rate == old(self).sample_rate,
            final(self).channels == old(self).channels,
    {
        self.position = 0;
    }
}

/// Seek accuracy: for any target within [0, duration], reading the
/// position back in seconds lands within one sample period (1/rate
/// of a second, strictly) of the target.
pub proof fn lemma_seek_accuracy(t: PositionTracker, secs: int)
    requires
        t.wf(),
        0 <= secs,
        secs <= seconds_of_spec(t.total_samples as int, t.channels as int,
            t.sample_rate as int),
    ensures
        ({
            let p = seek_pos_spec(secs, t.sample_rate as int, t.channels as int,
                t.total_samples as int);
            let back = seconds_of_spec(p, t.channels as int, t.sample_rate as int);
            -(FX_ONE as int) < (back - secs) * (t.sample_rate as int) < FX_ONE as int
        }),
{
    let rate = t.sample_rate as int;
    let ch = t.channels as int;
    let total = t.total_samples as int;
    let fx = FX_ONE as int;
    let h = fx / 2;
    let ft = total / ch;
    let dur = seconds_of_spec(total, ch, rate);
    let fr = seek_frames_spec(secs, rate);

    assert(secs * rate >= 0) by (nonlinear_arith) requires secs >= 0 && rate >= 1;
    assert(fr == (secs * rate + h) / fx);
    assert(fr >= 0) by {
        vstd::arithmetic::div_mod::lemma_div_pos_is_pos(secs * rate + h, fx);
    };

    // the rounded frame index stays within the track
    assert(dur == tdiv(ft * fx, rate));
    assert(ft >= 0) by {
        vstd::arithmetic::div_mod::lemma_div_pos_is_pos(total, ch);
    };
    assert(ft * fx >= 0) by (nonlinear_arith) requires ft >= 0 && fx >= 1;
    assert(dur * rate <= ft * fx) by {
        vstd::arithmetic::div_mod::lemma_fundamental_div_mod(ft * fx, rate);
        vstd::arithmetic::div_mod::lemma_remainder_lower(ft * fx, rate);
        assert(rate * ((ft * fx) / rate) == ((ft * fx) / rate) * rate) by (nonlinear_arith);
    };
    assert(secs * rate <= dur * rate) by (nonlinear_arith)
        requires secs <= dur && rate >= 1;
    assert(fr <= ft) by {
        assert(secs * rate + h <= ft * fx + h);
        vstd::arithmetic::div_mod::lemma_div_is_ordered(secs * rate + h, ft * fx + h, fx);
        assert((ft * fx + h) / fx == ft) by {
            vstd::arithmetic::div_mod::lemma_div_multiples_vanish_fancy(ft, h, fx);
            assert(fx * ft == ft * fx) by (nonlinear_arith);
        };
    };
    assert(fr * ch <= ft * ch) by (nonlinear_arith) requires fr <= ft && ch >= 1;
    assert(ft * ch == total) by {
        vstd::arithmetic::div_mod::lemma_fundamental_div_mod(total, ch);
        assert(total % ch == 0);
        assert(ch * (total / ch) == (total / ch) * ch) by (nonlinear_arith);
    };
    let p = seek_pos_spec(secs, rate, ch, total);
    assert(p == fr * ch);

    // reading the position back recovers the rounded frame exactly
    assert(tdiv(p, ch) == fr) by {
        assert(fr * ch >= 0) by (nonlinear_arith) requires fr >= 0 && ch >= 1;
        assert((fr * ch) / ch == fr) by {
            vstd::arithmetic::div_mod::lemma_div_by_multiple(fr, ch);
            assert(fr * ch == ch * fr) by (nonlinear_arith);
        };
    };
    let back = seconds_of_spec(p, ch, rate);
    assert(back == tdiv(fr * fx, rate));
    assert(fr * fx >= 0) by (nonlinear_arith) requires fr >= 0 && fx >= 1;

    // bracket fr * fx around the exact target secs * rate
    assert(fr * fx <= secs * rate + h) by {
        vstd::arithmetic::div_mod::lemma_fundamental_div_mod(secs * rate + h, fx);
        vstd::arithmetic::div_mod::lemma_remainder_lower(secs * rate + h, fx);
        assert(fx * fr == fr * fx) by (nonlinear_arith);
    };
    assert(fr * fx > secs * rate + h - fx) by {
        vstd::arithmetic::div_mod::lemma_fundamental_div_mod(secs * rate + h, fx);
        vstd::arithmetic::div_mod::lemma_remainder_upper(secs * rate + h, fx);
        assert(fx * fr == fr * fx) by (nonlinear_arith);
    };

    // bracket back * rate around fr * fx
    assert(back * rate <= fr * fx) by {
        vstd::arithmetic::div_mod::lemma_fundamental_div_mod(fr * fx, rate);
        vstd::arithmetic::div_mod::lemma_remainder_lower(fr * fx, rate);
        assert(rate * ((fr * fx) / rate) == ((fr * fx) / rate) * rate) by (nonlinear_arith);
    };
    assert(back * rate > fr * fx - rate) by {
        vstd::arithmetic::div_mod::lemma_fundamental_div_mod(fr * fx, rate);
        vstd::arithmetic::div_mod::lemma_remainder_upper(fr * fx, rate);
        assert(rate * ((fr * fx) / rate) == ((fr * fx) / rate) * rate) by (nonlinear_arith);
    };

    assert((back - secs) * rate == back * rate - secs * rate) by (nonlinear_arith);
    assert(back * rate - secs * rate <= h);
    assert(back * rate - secs * rate > -h - rate);
    assert(-h - rate > -fx);
}

} // verus!
