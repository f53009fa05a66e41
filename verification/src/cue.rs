//! The cue dispatcher: a pure mapping from a jump outcome and the player's
//! progression depth to an ordered list of audio-event descriptors.
//!
//! A miss always yields the same two detuned miss tones.  A hit yields a
//! tone whose pitch is picked from one of three fixed interval tables by
//! the relative level (the current ring minus the starting level), with
//! extra harmonic or octave layers appended once the relative level crosses
//! fixed threshold bands.  The tables and thresholds are tuning values kept
//! exactly as the game plays them.
//!
//! A descriptor carries no floating point: the pitch is a semitone count
//! plus a rational rate factor in thousandths (the playback rate is
//! `s ^ semitones * rate_milli / 1000` for the equal-tempered semitone
//! ratio `s`, about 1.059463), and the gain is in thousandths of full
//! scale.

use vstd::prelude::*;

verus! {

/// Which sample a cue plays.
#[derive(Clone, Copy, PartialEq, Eq, Debug)]
pub enum CueSound {
    /// The melodic tone used for successful jumps.
    Tone,
    /// The miss tone used for failed jumps.
    MissTone,
}

/// One discrete audio event for the external audio engine to realize.
#[derive(Clone, Copy, PartialEq, Eq, Debug)]
pub struct Cue {
    /// The sample to play.
    pub sound: CueSound,
    /// Pitch offset in equal-tempered semitones above the sample's base.
    pub semitones: u32,
    /// Extra playback-rate factor in thousandths (500 is an octave down).
    pub rate_milli: u32,
    /// Gain in thousandths of full scale.
    pub gain_milli: u32,
    /// Whether the sample is played reversed.
    pub reversed: bool,
}

/// Rate factor for an octave below the tabled pitch.
pub const RATE_HALF_MILLI: u32 = 500;
/// Rate factor that leaves the tabled pitch unchanged.
pub const RATE_WHOLE_MILLI: u32 = 1_000;
/// Rate factor for two octaves below the tabled pitch.
pub const RATE_QUARTER_MILLI: u32 = 250;
/// Rate factor for an octave above the tabled pitch.
pub const RATE_DOUBLE_MILLI: u32 = 2_000;
/// Rate factor of the first miss tone (slightly flat).
pub const MISS_RATE_HIGH_MILLI: u32 = 900;
/// Rate factor of the second miss tone (flatter still).
pub const MISS_RATE_LOW_MILLI: u32 = 800;

/// Gain of the lead tone: -8 dB of full scale, in thousandths.
pub const GAIN_MAIN_MILLI: u32 = 398;
/// Gain of the reversed accent layer: 1.5 x the lead gain.
pub const GAIN_ACCENT_MILLI: u32 = 597;
/// Gain of the harmonic and low-octave layers: 0.6 x the lead gain.
pub const GAIN_SOFT_MILLI: u32 = 239;
/// Gain of the high-octave layer: 0.11 x the lead gain.
pub const GAIN_FAINT_MILLI: u32 = 44;
/// Gain of the two miss tones.
pub const GAIN_MISS_MILLI: u32 = 600;

/// Relative level at which the lead tone switches from the eight-interval
/// table to the seven-interval table and gains a harmonic layer.
pub const HIGH_BAND_AT: i64 = 8;
/// Relative level at which a low-octave layer is appended.
pub const LOW_OCTAVE_AT: i64 = 16;
/// Relative level at which a faint high-octave layer is appended.
pub const HIGH_OCTAVE_AT: i64 = 24;
/// Relative level at which a reversed accent layer is appended.
pub const REVERSED_LAYER_AT: i64 = 100;

/// The eight-interval table cycled through below the high band.
pub open spec fn scale_eight_spec(i: int) -> u32 {
    if i == 0 {
        0
    } else if i == 1 {
        1
    } else if i == 2 {
        3
    } else if i == 3 {
        5
    } else if i == 4 {
        7
    } else if i == 5 {
        8
    } else if i == 6 {
        11
    } else if i == 7 {
        12
    } else {
        0
    }
}

/// The seven-interval table cycled through from the high band upward.
pub open spec fn scale_seven_spec(i: int) -> u32 {
    if i == 0 {
        0
    } else if i == 1 {
        1
    } else if i == 2 {
        3
    } else if i == 3 {
        5
    } else if i == 4 {
        7
    } else if i == 5 {
        8
    } else if i == 6 {
        12
    } else {
        0
    }
}

/// The six-interval table used for the harmonic and high-octave layers.
pub open spec fn scale_six_spec(i: int) -> u32 {
    if i == 0 {
        0
    } else if i == 1 {
        3
    } else if i == 2 {
        5
    } else if i == 3 {
        7
    } else if i == 4 {
        8
    } else if i == 5 {
        12
    } else {
        0
    }
}

/// A tone descriptor for a successful jump.
pub open spec fn tone_cue(semitones: u32, rate_milli: u32, gain_milli: u32, reversed: bool) -> Cue {
    Cue { sound: CueSound::Tone, semitones, rate_milli, gain_milli, reversed }
}

/// A miss-tone descriptor at the given rate factor.
pub open spec fn miss_cue(rate_milli: u32) -> Cue {
    Cue {
        sound: CueSound::MissTone,
        semitones: 0,
        rate_milli,
        gain_milli: GAIN_MISS_MILLI,
        reversed: false,
    }
}

/// The cue list for a missed jump: the same two detuned miss tones, at any
/// depth.
pub open spec fn miss_cues_spec() -> Seq<Cue> {
    seq![miss_cue(MISS_RATE_HIGH_MILLI), miss_cue(MISS_RATE_LOW_MILLI)]
}

/// The cue list for a successful jump at relative level `rel` (the ring the
/// jump left minus the starting level).  Table indices cycle by the
/// Euclidean remainder, so the list is defined for every relative level,
/// below the starting level included.
pub open spec fn hit_cues_spec(rel: int) -> Seq<Cue> {
    let base = if rel >= HIGH_BAND_AT {
        let lead = seq![
            tone_cue(scale_seven_spec(rel % 7), RATE_HALF_MILLI, GAIN_MAIN_MILLI, false),
        ];
        let accented = if rel >= REVERSED_LAYER_AT {
            lead.push(tone_cue(scale_seven_spec(rel % 7), RATE_HALF_MILLI, GAIN_ACCENT_MILLI, true))
        } else {
            lead
        };
        accented.push(
            tone_cue(scale_six_spec((rel + 4) % 6), RATE_WHOLE_MILLI, GAIN_SOFT_MILLI, false),
        )
    } else {
        seq![tone_cue(scale_eight_spec(rel % 8), RATE_HALF_MILLI, GAIN_MAIN_MILLI, false)]
    };
    let with_low = if rel >= LOW_OCTAVE_AT {
        base.push(tone_cue(scale_seven_spec(rel % 7), RATE_QUARTER_MILLI, GAIN_SOFT_MILLI, false))
    } else {
        base
    };
    if rel >= HIGH_OCTAVE_AT {
        with_low.push(
            tone_cue(scale_six_spec((rel + 6) % 6), RATE_DOUBLE_MILLI, GAIN_FAINT_MILLI, false),
        )
    } else {
        with_low
    }
}

/// Looks up the eight-interval table.
fn scale_eight(i: u64) -> (r: u32)
    requires
        i < 8,
    ensures
        r == scale_eight_spec(i as int),
{
    if i == 0 {
        0
    } else if i == 1 {
        1
    } else if i == 2 {
        3
    } else if i == 3 {
        5
    } else if i == 4 {
        7
    } else if i == 5 {
        8
    } else if i == 6 {
        11
    } else {
        12
    }
}

/// Looks up the seven-interval table.
fn scale_seven(i: u64) -> (r: u32)
    requires
        i < 7,
    ensures
        r == scale_seven_spec(i as int),
{
    if i == 0 {
        0
    } else if i == 1 {
        1
    } else if i == 2 {
        3
    } else if i == 3 {
        5
    } else if i == 4 {
        7
    } else if i == 5 {
        8
    } else {
        12
    }
}

/// Looks up the six-interval table.
fn scale_six(i: u64) -> (r: u32)
    requires
        i < 6,
    ensures
        r == scale_six_spec(i as int),
{
    if i == 0 {
        0
    } else if i == 1 {
        3
    } else if i == 2 {
        5
    } else if i == 3 {
        7
    } else if i == 4 {
        8
    } else {
        12
    }
}

/// The Euclidean remainder of a relative level by a small table length.
fn euclid_rem(rel: i64, len: u64) -> (r: u64)
    requires
        rel > i64::MIN,
        1 <= len <= 8,
    ensures
        r == (rel as int) % (len as int),
        r < len,
{
    if rel >= 0 {
        (rel as u64) % len
    } else {
        let m: u64 = ((-rel) as u64) % len;
        proof {
            let n: int = (-rel) as int;
            let l: int = len as int;
            let q: int = n / l;
            vstd::arithmetic::div_mod::lemma_fundamental_div_mod(n, l);
            assert((-q) * l == -(l * q) && (-q - 1) * l == -(l * q) - l) by (nonlinear_arith);
            if m == 0 {
                vstd::arithmetic::div_mod::lemma_fundamental_div_mod_converse_mod(
                    rel as int,
                    l,
                    -q,
                    0,
                );
            } else {
                vstd::arithmetic::div_mod::lemma_fundamental_div_mod_converse_mod(
                    rel as int,
                    l,
                    -q - 1,
                    l - m,
                );
            }
        }
        if m == 0 {
            0
        } else {
            len - m
        }
    }
}

/// Builds the miss cue list.
pub fn miss_cues() -> (cues: Vec<Cue>)
    ensures
        cues@ == miss_cues_spec(),
{
    let mut cues: Vec<Cue> = Vec::new();
    cues.push(Cue {
        sound: CueSound::MissTone,
        semitones: 0,
        rate_milli: MISS_RATE_HIGH_MILLI,
        gain_milli: GAIN_MISS_MILLI,
        reversed: false,
    });
    cues.push(Cue {
        sound: CueSound::MissTone,
        semitones: 0,
        rate_milli: MISS_RATE_LOW_MILLI,
        gain_milli: GAIN_MISS_MILLI,
        reversed: false,
    });
    proof {
        assert(cues@ =~= miss_cues_spec());
    }
    cues
}

/// Builds the hit cue list for relative level `rel`.
pub fn hit_cues(rel: i64) -> (cues: Vec<Cue>)
    requires
        -0x1_0000_0000 <= rel <= 0x1_0000_0000,
    ensures
        cues@ == hit_cues_spec(rel as int),
{
    let mut cues: Vec<Cue> = Vec::new();
    if rel >= HIGH_BAND_AT {
        let lead: u32 = scale_seven(euclid_rem(rel, 7));
        cues.push(Cue {
            sound: CueSound::Tone,
            semitones: lead,
            rate_milli: RATE_HALF_MILLI,
            gain_milli: GAIN_MAIN_MILLI,
            reversed: false,
        });
        if rel >= REVERSED_LAYER_AT {
            cues.push(Cue {
                sound: CueSound::Tone,
                semitones: lead,
                rate_milli: RATE_HALF_MILLI,
                gain_milli: GAIN_ACCENT_MILLI,
                reversed: true,
            });
        }
        let harmonic: u32 = scale_six(euclid_rem(rel + 4, 6));
        cues.push(Cue {
            sound: CueSound::Tone,
            semitones: harmonic,
            rate_milli: RATE_WHOLE_MILLI,
            gain_milli: GAIN_SOFT_MILLI,
            reversed: false,
        });
    } else {
        let lead: u32 = scale_eight(euclid_rem(rel, 8));
        cues.push(Cue {
            sound: CueSound::Tone,
            semitones: lead,
            rate_milli: RATE_HALF_MILLI,
            gain_milli: GAIN_MAIN_MILLI,
            reversed: false,
        });
    }
    if rel >= LOW_OCTAVE_AT {
        let low: u32 = scale_seven(euclid_rem(rel, 7));
        cues.push(Cue {
            sound: CueSound::Tone,
            semitones: low,
            rate_milli: RATE_QUARTER_MILLI,
            gain_milli: GAIN_SOFT_MILLI,
            reversed: false,
        });
    }
    if rel >= HIGH_OCTAVE_AT {
        let high: u32 = scale_six(euclid_rem(rel + 6, 6));
        cues.push(Cue {
            sound: CueSound::Tone,
            semitones: high,
            rate_milli: RATE_DOUBLE_MILLI,
            gain_milli: GAIN_FAINT_MILLI,
            reversed: false,
        });
    }
    proof {
        assert(cues@ =~= hit_cues_spec(rel as int));
    }
    cues
}

} // verus!
