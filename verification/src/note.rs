//! Note and pitch model: chromatic pitch classes, equal-temperament
//! frequencies, and the song data that the sequencer plays.
//!
//! Frequencies are kept in integer micro-hertz so the tuning arithmetic is
//! exact: every pitch class has a fixed base frequency at octave 0, and each
//! octave doubles it. The A4 = 440 Hz anchor sits 57 semitones above C0
//! (4 octaves of 12 semitones plus the 9-semitone offset of A), and that
//! anchor is applied uniformly to the whole table.

use crate::rational::{ratio_le, Rational};
use vstd::arithmetic::div_mod::{
    lemma_div_is_ordered, lemma_fundamental_div_mod, lemma_fundamental_div_mod_converse,
    lemma_mod_bound,
};
use vstd::arithmetic::power2::{
    lemma2_to64, lemma_pow2_pos, lemma_pow2_strictly_increases, lemma_pow2_unfold, pow2,
};
use vstd::prelude::*;

verus! {

/// Highest octave a pitch may carry. Frequencies are held in micro-hertz in
/// a `u64` and rounded to whole hertz in a `u32`; the bound keeps every
/// frequency comfortably inside those words, and already lies far past
/// anything a buzzer can play.
pub const MAX_OCTAVE: u32 = 20;

/// Micro-hertz of the lowest pitch class at octave 0 (C0).
pub const MIN_BASE_MICROHERTZ: u64 = 16_351_598;

/// Micro-hertz of the highest pitch class at octave 0 (B0).
pub const MAX_BASE_MICROHERTZ: u64 = 30_867_706;

/// Largest numerator or denominator a beat value of a valid song may carry.
/// The bound keeps every intermediate product of the duration and cycle
/// arithmetic inside a `u64`.
pub const MAX_BEAT_PART: u64 = 1_048_576;

/// Fastest tempo a valid song may carry, in beats per minute.
pub const MAX_TEMPO: u32 = 10_000;

/// Largest frequency the model can produce, in whole hertz: the highest
/// pitch class at the highest supported octave, rounded.
pub const MAX_FREQUENCY_HZ: u32 = 32_367_136;

/// One of the 12 chromatic pitch classes.
#[derive(Clone, Copy, Debug, PartialEq, Eq, Structural)]
pub enum NoteLetter {
    C,
    Csh,
    D,
    Dsh,
    E,
    F,
    Fsh,
    G,
    Gsh,
    A,
    Ash,
    B,
}

impl NoteLetter {
    /// Semitone offset of this pitch class from the C of its own octave.
    pub open spec fn semitone_spec(self) -> u32 {
        match self {
            NoteLetter::C => 0,
            NoteLetter::Csh => 1,
            NoteLetter::D => 2,
            NoteLetter::Dsh => 3,
            NoteLetter::E => 4,
            NoteLetter::F => 5,
            NoteLetter::Fsh => 6,
            NoteLetter::G => 7,
            NoteLetter::Gsh => 8,
            NoteLetter::A => 9,
            NoteLetter::Ash => 10,
            NoteLetter::B => 11,
        }
    }

    /// View of the display name of this pitch class.
    pub open spec fn name_spec(self) -> Seq<char> {
        match self {
            NoteLetter::C => seq!['C'],
            NoteLetter::Csh => seq!['C', '#'],
            NoteLetter::D => seq!['D'],
            NoteLetter::Dsh => seq!['D', '#'],
            NoteLetter::E => seq!['E'],
            NoteLetter::F => seq!['F'],
            NoteLetter::Fsh => seq!['F', '#'],
            NoteLetter::G => seq!['G'],
            NoteLetter::Gsh => seq!['G', '#'],
            NoteLetter::A => seq!['A'],
            NoteLetter::Ash => seq!['A', '#'],
            NoteLetter::B => seq!['B'],
        }
    }

    /// String representation of the note.
    pub fn name(&self) -> (r: &'static str)
        ensures
            r@ == self.name_spec(),
    {
        proof {
            reveal_strlit("A");
            reveal_strlit("A#");
            reveal_strlit("B");
            reveal_strlit("C");
            reveal_strlit("C#");
            reveal_strlit("D");
            reveal_strlit("D#");
            reveal_strlit("E");
            reveal_strlit("F");
            reveal_strlit("F#");
            reveal_strlit("G");
            reveal_strlit("G#");
        }
        let r = match self {
            NoteLetter::A => "A",
            NoteLetter::Ash => "A#",
            NoteLetter::B => "B",
            NoteLetter::C => "C",
            NoteLetter::Csh => "C#",
            NoteLetter::D => "D",
            NoteLetter::Dsh => "D#",
            NoteLetter::E => "E",
            NoteLetter::F => "F",
            NoteLetter::Fsh => "F#",
            NoteLetter::G => "G",
            NoteLetter::Gsh => "G#",
        };
        proof {
            assert(r@ =~= self.name_spec());
        }
        r
    }

    /// Relative semitone of this note to the octave.
    pub fn semitone(&self) -> (r: u32)
        ensures
            r == self.semitone_spec(),
            r < 12,
    {
        match self {
            NoteLetter::C => 0,
            NoteLetter::Csh => 1,
            NoteLetter::D => 2,
            NoteLetter::Dsh => 3,
            NoteLetter::E => 4,
            NoteLetter::F => 5,
            NoteLetter::Fsh => 6,
            NoteLetter::G => 7,
            NoteLetter::Gsh => 8,
            NoteLetter::A => 9,
            NoteLetter::Ash => 10,
            NoteLetter::B => 11,
        }
    }

    /// Equal-temperament frequency of this pitch class at octave 0, in
    /// micro-hertz: `440 Hz * 2^((semitone - 57) / 12) * 10^6`, rounded to
    /// the nearest whole micro-hertz. 57 is the semitone index of the
    /// A4 = 440 Hz anchor, counted from C0.
    pub open spec fn base_microhertz_spec(self) -> u64 {
        match self {
            NoteLetter::C => 16_351_598,
            NoteLetter::Csh => 17_323_914,
            NoteLetter::D => 18_354_048,
            NoteLetter::Dsh => 19_445_436,
            NoteLetter::E => 20_601_722,
            NoteLetter::F => 21_826_764,
            NoteLetter::Fsh => 23_124_651,
            NoteLetter::G => 24_499_715,
            NoteLetter::Gsh => 25_956_544,
            NoteLetter::A => 27_500_000,
            NoteLetter::Ash => 29_135_235,
            NoteLetter::B => 30_867_706,
        }
    }

    /// Frequency of this pitch class at octave 0, in micro-hertz.
    pub fn base_microhertz(&self) -> (r: u64)
        ensures
            r == self.base_microhertz_spec(),
            MIN_BASE_MICROHERTZ <= r <= MAX_BASE_MICROHERTZ,
    {
        match self {
            NoteLetter::C => 16_351_598,
            NoteLetter::Csh => 17_323_914,
            NoteLetter::D => 18_354_048,
            NoteLetter::Dsh => 19_445_436,
            NoteLetter::E => 20_601_722,
            NoteLetter::F => 21_826_764,
            NoteLetter::Fsh => 23_124_651,
            NoteLetter::G => 24_499_715,
            NoteLetter::Gsh => 25_956_544,
            NoteLetter::A => 27_500_000,
            NoteLetter::Ash => 29_135_235,
            NoteLetter::B => 30_867_706,
        }
    }
}

/// One playable event of a song: play `letter` at `octave` for `sustain`
/// beats, then stay silent for `rest` beats.
#[derive(Clone, Copy, Debug, PartialEq, Eq, Structural)]
pub struct MusicalNote {
    /// The octave of the note.
    pub octave: u32,
    /// The letter of the note.
    pub letter: NoteLetter,
    /// Beats to sustain for.
    pub sustain: Rational,
    /// Rest, if any, that appears after this note.
    pub rest: Rational,
}

impl MusicalNote {
    /// A note is well formed when its octave is in range and both beat
    /// values carry positive denominators.
    pub open spec fn wf(self) -> bool {
        &&& self.octave <= MAX_OCTAVE
        &&& self.sustain.wf()
        &&& self.rest.wf()
    }

    /// Semitone index of the note's pitch, counted from C0.
    pub open spec fn semitones_spec(self) -> int {
        self.octave * 12 + self.letter.semitone_spec()
    }

    /// Calculate the semitones from C0.
    pub fn semitones(&self) -> (r: u32)
        requires
            self.octave <= MAX_OCTAVE,
        ensures
            r == self.semitones_spec(),
    {
        self.octave * 12 + self.letter.semitone()
    }

    /// Exact equal-temperament frequency of the note in micro-hertz:
    /// the octave-0 base of its pitch class doubled once per octave.
    pub open spec fn frequency_microhertz_spec(self) -> int {
        self.letter.base_microhertz_spec() * pow2(self.octave as nat)
    }

    /// Calculate the frequency, in micro-hertz, using standard 2^(1/12)
    /// tuning with A4 = 440 Hz as the anchor.
    pub fn frequency_microhertz(&self) -> (r: u64)
        requires
            self.octave <= MAX_OCTAVE,
        ensures
            r == self.frequency_microhertz_spec(),
            MIN_BASE_MICROHERTZ <= r <= MAX_BASE_MICROHERTZ * 1_048_576,
    {
        let base: u64 = self.letter.base_microhertz();
        let mut f: u64 = base;
        let mut i: u32 = 0;
        proof {
            lemma2_to64();
        }
        while i < self.octave
            invariant
                i <= self.octave,
                self.octave <= MAX_OCTAVE,
                base == self.letter.base_microhertz_spec(),
                MIN_BASE_MICROHERTZ <= base <= MAX_BASE_MICROHERTZ,
                f == base * pow2(i as nat),
            decreases self.octave - i,
        {
            proof {
                lemma2_to64();
                if (i as nat) < 20 {
                    lemma_pow2_strictly_increases(i as nat, 20);
                }
                assert(base * pow2(i as nat) <= MAX_BASE_MICROHERTZ * 1_048_576)
                    by (nonlinear_arith)
                    requires
                        base <= MAX_BASE_MICROHERTZ,
                        pow2(i as nat) <= 1_048_576,
                        base >= 0,
                        pow2(i as nat) >= 0;
                lemma_pow2_unfold((i + 1) as nat);
                assert(base * pow2((i + 1) as nat) == 2 * (base * pow2(i as nat)))
                    by (nonlinear_arith)
                    requires
                        pow2((i + 1) as nat) == 2 * pow2(i as nat);
            }
            f = f * 2;
            i = i + 1;
        }
        proof {
            lemma_pow2_pos(self.octave as nat);
            assert(base * pow2(self.octave as nat) >= base * 1) by (nonlinear_arith)
                requires
                    pow2(self.octave as nat) >= 1,
                    base >= 0;
            if (self.octave as nat) < 20 {
                lemma_pow2_strictly_increases(self.octave as nat, 20);
            }
            assert(base * pow2(self.octave as nat) <= MAX_BASE_MICROHERTZ * 1_048_576)
                by (nonlinear_arith)
                requires
                    base <= MAX_BASE_MICROHERTZ,
                    pow2(self.octave as nat) <= 1_048_576,
                    base >= 0,
                    pow2(self.octave as nat) >= 0;
        }
        f
    }

    /// Frequency of the note rounded half-up to whole hertz.
    pub open spec fn frequency_hz_spec(self) -> int {
        (self.frequency_microhertz_spec() + 500_000) / 1_000_000
    }

    /// Calculate the frequency in whole hertz, rounded to nearest. It is
    /// never zero: the lowest supported pitch, C0, already rounds to 16 Hz.
    pub fn frequency(&self) -> (r: u32)
        requires
            self.octave <= MAX_OCTAVE,
        ensures
            r == self.frequency_hz_spec(),
            16 <= r <= MAX_FREQUENCY_HZ,
    {
        let uhz: u64 = self.frequency_microhertz();
        let hz: u64 = (uhz + 500_000) / 1_000_000;
        proof {
            lemma_div_is_ordered(16_000_000, uhz as int + 500_000, 1_000_000);
            lemma_div_is_ordered(
                uhz as int + 500_000,
                MAX_BASE_MICROHERTZ as int * 1_048_576 + 500_000,
                1_000_000,
            );
        }
        hz as u32
    }
}

/// Why a song is rejected when it is built. Every fault here is found at
/// construction time, before playback can begin; playback itself never
/// meets one.
#[derive(Clone, Copy, Debug, PartialEq, Eq, Structural)]
pub enum ConfigError {
    /// The tempo is zero; durations would divide by zero.
    ZeroTempo,
    /// The tempo exceeds `MAX_TEMPO`.
    TempoTooFast,
    /// The song's first track holds no notes.
    EmptySong,
    /// Some beat value carries a zero denominator.
    MalformedRational,
    /// Some beat value carries a numerator or denominator beyond
    /// `MAX_BEAT_PART`.
    BeatOutOfRange,
    /// Some note's octave exceeds `MAX_OCTAVE`.
    OctaveOutOfRange,
}

impl MusicalNote {
    /// A note a valid song may hold: well formed, with beat parts small
    /// enough that all duration and cycle arithmetic fits in a `u64`.
    pub open spec fn playable(self) -> bool {
        &&& self.wf()
        &&& self.sustain.numer <= MAX_BEAT_PART
        &&& self.sustain.denom <= MAX_BEAT_PART
        &&& self.rest.numer <= MAX_BEAT_PART
        &&& self.rest.denom <= MAX_BEAT_PART
    }

    /// The first configuration fault of this note in checking order:
    /// malformed rationals, then beat bounds, then the octave bound.
    pub open spec fn config_error_spec(self) -> Option<ConfigError> {
        if self.sustain.denom == 0 || self.rest.denom == 0 {
            Some(ConfigError::MalformedRational)
        } else if self.sustain.numer > MAX_BEAT_PART || self.sustain.denom > MAX_BEAT_PART
            || self.rest.numer > MAX_BEAT_PART || self.rest.denom > MAX_BEAT_PART {
            Some(ConfigError::BeatOutOfRange)
        } else if self.octave > MAX_OCTAVE {
            Some(ConfigError::OctaveOutOfRange)
        } else {
            None
        }
    }

    /// Check one note for configuration faults. A note that passes is
    /// playable.
    pub fn check_config(&self) -> (r: Option<ConfigError>)
        ensures
            r == self.config_error_spec(),
            r is None <==> self.playable(),
    {
        if self.sustain.denom == 0 || self.rest.denom == 0 {
            Some(ConfigError::MalformedRational)
        } else if self.sustain.numer > MAX_BEAT_PART || self.sustain.denom > MAX_BEAT_PART
            || self.rest.numer > MAX_BEAT_PART || self.rest.denom > MAX_BEAT_PART {
            Some(ConfigError::BeatOutOfRange)
        } else if self.octave > MAX_OCTAVE {
            Some(ConfigError::OctaveOutOfRange)
        } else {
            None
        }
    }
}

/// The first configuration fault among `notes`, scanning in order.
pub open spec fn first_note_error(notes: Seq<MusicalNote>) -> Option<ConfigError>
    decreases notes.len(),
{
    if notes.len() == 0 {
        None
    } else if notes[0].config_error_spec() is Some {
        notes[0].config_error_spec()
    } else {
        first_note_error(notes.drop_first())
    }
}

/// A fault-free stretch of notes is playable throughout.
pub proof fn lemma_no_error_all_playable(notes: Seq<MusicalNote>)
    requires
        first_note_error(notes) is None,
    ensures
        forall|i: int| 0 <= i < notes.len() ==> (#[trigger] notes[i]).playable(),
    decreases notes.len(),
{
    if notes.len() > 0 {
        lemma_no_error_all_playable(notes.drop_first());
        assert forall|i: int| 0 <= i < notes.len() implies (#[trigger] notes[i]).playable() by {
            if i > 0 {
                assert(notes[i] == notes.drop_first()[i - 1]);
            }
        }
    }
}

/// A song: a title, a tempo, and two ordered tracks of notes. The first
/// track is the melody the sequencer plays; the second is optional
/// accompanying material and may be empty. Built once by [`Music::new`],
/// which rejects every configuration fault, and read-only afterwards.
#[derive(Debug)]
pub struct Music {
    /// Display title of the song.
    pub title: &'static str,
    /// Tempo in beats per minute.
    pub bpm: u32,
    /// The melody track.
    pub track_1: Vec<MusicalNote>,
    /// Accompanying track; may be empty.
    pub track_2: Vec<MusicalNote>,
}

/// The first configuration fault of a whole song, in checking order:
/// the tempo, then an empty first track, then the notes of the first track
/// in order, then those of the second.
pub open spec fn song_config_error(
    bpm: u32,
    track_1: Seq<MusicalNote>,
    track_2: Seq<MusicalNote>,
) -> Option<ConfigError> {
    if bpm == 0 {
        Some(ConfigError::ZeroTempo)
    } else if bpm > MAX_TEMPO {
        Some(ConfigError::TempoTooFast)
    } else if track_1.len() == 0 {
        Some(ConfigError::EmptySong)
    } else if first_note_error(track_1) is Some {
        first_note_error(track_1)
    } else {
        first_note_error(track_2)
    }
}

impl Music {
    /// A song the sequencer can play without meeting any fault: a positive
    /// bounded tempo, a non-empty melody track, and playable notes
    /// throughout.
    pub open spec fn wf(self) -> bool {
        &&& 0 < self.bpm <= MAX_TEMPO
        &&& self.track_1@.len() > 0
        &&& forall|i: int|
            0 <= i < self.track_1@.len() ==> (#[trigger] self.track_1@[i]).playable()
        &&& forall|i: int|
            0 <= i < self.track_2@.len() ==> (#[trigger] self.track_2@[i]).playable()
    }

    /// Build a song, rejecting every configuration fault before playback
    /// can begin: the error returned is exactly the first fault in
    /// checking order, and a song comes back if and only if there is none.
    pub fn new(
        title: &'static str,
        bpm: u32,
        track_1: Vec<MusicalNote>,
        track_2: Vec<MusicalNote>,
    ) -> (r: Result<Music, ConfigError>)
        ensures
            match song_config_error(bpm, track_1@, track_2@) {
                None => (r matches Ok(m) && m.title@ == title@ && m.bpm == bpm
                    && m.track_1@ == track_1@ && m.track_2@ == track_2@ && m.wf()),
                Some(e) => r == Err::<Music, ConfigError>(e),
            },
    {
        if bpm == 0 {
            return Err(ConfigError::ZeroTempo);
        }
        if bpm > MAX_TEMPO {
            return Err(ConfigError::TempoTooFast);
        }
        if track_1.len() == 0 {
            return Err(ConfigError::EmptySong);
        }
        if let Some(e) = scan_notes(&track_1) {
            return Err(e);
        }
        if let Some(e) = scan_notes(&track_2) {
            return Err(e);
        }
        proof {
            lemma_no_error_all_playable(track_1@);
            lemma_no_error_all_playable(track_2@);
        }
        Ok(Music { title, bpm, track_1, track_2 })
    }
}

/// Scan a track for its first configuration fault, in order.
fn scan_notes(notes: &Vec<MusicalNote>) -> (r: Option<ConfigError>)
    ensures
        r == first_note_error(notes@),
{
    let ghost all = notes@;
    let mut i: usize = 0;
    proof {
        assert(all.subrange(0, all.len() as int) =~= all);
    }
    while i < notes.len()
        invariant
            0 <= i <= notes@.len(),
            notes@ == all,
            first_note_error(all) == first_note_error(all.subrange(i as int, all.len() as int)),
        decreases notes@.len() - i,
    {
        let tail = Ghost(all.subrange(i as int, all.len() as int));
        if let Some(e) = notes[i].check_config() {
            proof {
                assert(tail@[0] == all[i as int]);
            }
            return Some(e);
        }
        proof {
            assert(tail@[0] == all[i as int]);
            assert(tail@.drop_first() =~= all.subrange(i as int + 1, all.len() as int));
        }
        i = i + 1;
    }
    proof {
        assert(all.subrange(i as int, all.len() as int).len() == 0);
    }
    None
}

/// Law: octave doubling. For the same pitch class, raising the octave by
/// one exactly doubles the equal-temperament frequency.
pub proof fn lemma_octave_doubling(low: MusicalNote, high: MusicalNote)
    requires
        high.letter == low.letter,
        high.octave == low.octave + 1,
    ensures
        high.frequency_microhertz_spec() == 2 * low.frequency_microhertz_spec(),
{
    lemma_pow2_unfold(high.octave as nat);
    let base = low.letter.base_microhertz_spec();
    assert(base * pow2(high.octave as nat) == 2 * (base * pow2(low.octave as nat)))
        by (nonlinear_arith)
        requires
            pow2(high.octave as nat) == 2 * pow2(low.octave as nat);
}

/// Law: octave doubling survives the rounding to whole hertz up to the
/// rounding step itself — the next octave's rounded frequency sits within
/// one hertz of double the rounded frequency below it.
pub proof fn lemma_octave_doubling_rounded(low: MusicalNote, high: MusicalNote)
    requires
        high.letter == low.letter,
        high.octave == low.octave + 1,
    ensures
        2 * low.frequency_hz_spec() - 1 <= high.frequency_hz_spec() <= 2 * low.frequency_hz_spec()
            + 1,
{
    lemma_octave_doubling(low, high);
    let b = low.frequency_microhertz_spec();
    lemma_pow2_pos(low.octave as nat);
    assert(b >= 0) by (nonlinear_arith)
        requires
            b == low.letter.base_microhertz_spec() * pow2(low.octave as nat),
            low.letter.base_microhertz_spec() >= 0,
            pow2(low.octave as nat) >= 0;
    let q = (b + 500_000) / 1_000_000;
    let r = (b + 500_000) % 1_000_000;
    lemma_fundamental_div_mod(b + 500_000, 1_000_000);
    lemma_mod_bound(b + 500_000, 1_000_000);
    if r < 250_000 {
        lemma_fundamental_div_mod_converse(2 * b + 500_000, 1_000_000, 2 * q - 1, 2 * r + 500_000);
    } else if r < 750_000 {
        lemma_fundamental_div_mod_converse(2 * b + 500_000, 1_000_000, 2 * q, 2 * r - 500_000);
    } else {
        lemma_fundamental_div_mod_converse(2 * b + 500_000, 1_000_000, 2 * q + 1, 2 * r
            - 1_500_000);
    }
}

/// Numerator of the exact duration of `beats` beats at `tempo_bpm` beats
/// per minute, in milliseconds: the value is `beats * 60000 / tempo_bpm`.
pub open spec fn duration_ms_numer(beats: Rational, tempo_bpm: u32) -> int {
    beats.numer * 60_000
}

/// Denominator of the exact duration of `beats` beats at `tempo_bpm`.
pub open spec fn duration_ms_denom(beats: Rational, tempo_bpm: u32) -> int {
    beats.denom * tempo_bpm
}

/// Absolute duration of `beats` beats at `tempo_bpm` beats per minute, as
/// the exact rational number of milliseconds `beats * 60000 / tempo_bpm`.
pub fn duration_ms(beats: Rational, tempo_bpm: u32) -> (r: Rational)
    requires
        beats.wf(),
        0 < tempo_bpm <= MAX_TEMPO,
        beats.numer <= MAX_BEAT_PART,
        beats.denom <= MAX_BEAT_PART,
    ensures
        r.numer == duration_ms_numer(beats, tempo_bpm),
        r.denom == duration_ms_denom(beats, tempo_bpm),
        r.wf(),
{
    proof {
        assert(beats.denom * tempo_bpm <= 1_048_576u64 * 10_000) by (nonlinear_arith)
            requires
                0 < beats.denom <= 1_048_576u64,
                0 < tempo_bpm <= 10_000,;
        assert(beats.denom * tempo_bpm >= 1) by (nonlinear_arith)
            requires
                beats.denom >= 1,
                tempo_bpm >= 1,;
    }
    Rational { numer: beats.numer * 60_000, denom: beats.denom * (tempo_bpm as u64) }
}

/// Law: for a fixed positive tempo, the duration of a note is monotonically
/// increasing in its beat value.
pub proof fn lemma_duration_monotone_in_beats(b1: Rational, b2: Rational, tempo_bpm: u32)
    requires
        b1.wf(),
        b2.wf(),
        tempo_bpm > 0,
        b1.le_spec(b2),
    ensures
        ratio_le(
            duration_ms_numer(b1, tempo_bpm),
            duration_ms_denom(b1, tempo_bpm),
            duration_ms_numer(b2, tempo_bpm),
            duration_ms_denom(b2, tempo_bpm),
        ),
{
    assert((b1.numer * 60_000) * (b2.denom * tempo_bpm)
        <= (b2.numer * 60_000) * (b1.denom * tempo_bpm)) by (nonlinear_arith)
        requires
            b1.numer * b2.denom <= b2.numer * b1.denom,
            tempo_bpm > 0;
}

/// Law: for a fixed beat value, the duration of a note is monotonically
/// decreasing in the tempo: a faster tempo never lengthens a note.
pub proof fn lemma_duration_antitone_in_tempo(beats: Rational, t1: u32, t2: u32)
    requires
        beats.wf(),
        0 < t1 <= t2,
    ensures
        ratio_le(
            duration_ms_numer(beats, t2),
            duration_ms_denom(beats, t2),
            duration_ms_numer(beats, t1),
            duration_ms_denom(beats, t1),
        ),
{
    assert((beats.numer * 60_000) * (beats.denom * t1)
        <= (beats.numer * 60_000) * (beats.denom * t2)) by (nonlinear_arith)
        requires
            0 < t1 <= t2,
            beats.numer >= 0,
            beats.denom > 0;
}

} // verus!
