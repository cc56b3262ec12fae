//! Square-wave tone sequencer.
//!
//! Playback walks the melody track of a song strictly in order. For each
//! note it computes the rounded frequency, the number of square-wave
//! periods that cover the note's sustain at the song's tempo, and the
//! half-period for which the output line stays high and then low within
//! each period; after the tone it holds the line low for the note's rest.
//! The sequencer itself only decides: every step returns the next
//! instruction for the driver that owns the output line and the busy-wait
//! timer, and the state advances `Idle`, `PlayingNote`, `Resting`, …,
//! `Done`, after which the line stays low.

use crate::note::{duration_ms, duration_ms_denom, duration_ms_numer, Music, MusicalNote,
    MAX_TEMPO};
use crate::rational::Rational;
use vstd::arithmetic::div_mod::lemma_basic_div;
use vstd::prelude::*;

verus! {

/// Where playback stands within a song.
#[derive(Clone, Copy, Debug, PartialEq, Eq, Structural)]
pub enum PlayState {
    /// Before playback has started.
    Idle,
    /// Sounding note `index` of the melody track.
    PlayingNote { index: usize },
    /// Holding the line low after note `index`, for its rest.
    Resting { index: usize },
    /// The song is exhausted; the output line stays low for good.
    Done,
}

/// One instruction to the driver that owns the output line.
#[derive(Clone, Copy, Debug, PartialEq, Eq, Structural)]
pub enum Action {
    /// Produce `cycles` square-wave periods: for each, hold the line high
    /// for `half_period_us` microseconds, then low for the same time.
    /// `cycles` may be zero, in which case the line is not touched.
    Tone { freq_hz: u32, cycles: u64, half_period_us: u32 },
    /// Hold the line low for `micros` microseconds; zero means move
    /// straight on.
    Silence { micros: u64 },
    /// Playback is over; leave the line low.
    Finished,
}

/// Square-wave periods that cover the note's sustain at `bpm` beats per
/// minute: the note's sustain in milliseconds times its frequency in
/// hertz, divided by 1000 and rounded half-up.
pub open spec fn sustain_cycles_spec(note: MusicalNote, bpm: u32) -> int {
    let cn = duration_ms_numer(note.sustain, bpm) * note.frequency_hz_spec();
    let cd = duration_ms_denom(note.sustain, bpm) * 1000;
    (2 * cn + cd) / (2 * cd)
}

/// Microseconds of silence after the note: its rest in beats at `bpm`,
/// truncated to whole microseconds.
pub open spec fn rest_micros_spec(note: MusicalNote, bpm: u32) -> int {
    (note.rest.numer * 60_000_000) / (note.rest.denom * bpm)
}

/// Microseconds of each half square-wave period: half of `1/f`, truncated.
pub open spec fn half_period_micros_spec(note: MusicalNote) -> int {
    1_000_000int / (2 * note.frequency_hz_spec())
}

/// Compute the square-wave period count for one note.
pub fn sustain_cycles(note: &MusicalNote, bpm: u32) -> (r: u64)
    requires
        note.playable(),
        0 < bpm <= MAX_TEMPO,
    ensures
        r == sustain_cycles_spec(*note, bpm),
{
    let freq: u64 = note.frequency() as u64;
    let dur: Rational = duration_ms(note.sustain, bpm);
    proof {
        assert(dur.denom <= 10_485_760_000u64) by (nonlinear_arith)
            requires
                dur.denom == note.sustain.denom * bpm,
                0 < note.sustain.denom <= 1_048_576u64,
                0 < bpm <= 10_000;
        assert(dur.numer * freq <= 62_914_560_000u64 * 32_367_136) by (nonlinear_arith)
            requires
                0 <= dur.numer <= 62_914_560_000u64,
                0 <= freq <= 32_367_136;
        assert(dur.denom * 1000u64 <= 10_485_760_000_000u64) by (nonlinear_arith)
            requires
                0 < dur.denom <= 10_485_760_000u64;
        assert(dur.denom * 1000u64 >= 1000) by (nonlinear_arith)
            requires
                dur.denom >= 1;
    }
    let cn: u64 = dur.numer * freq;
    let cd: u64 = dur.denom * 1000;
    (2 * cn + cd) / (2 * cd)
}

/// Compute the microseconds of silence that follow one note.
pub fn rest_micros(note: &MusicalNote, bpm: u32) -> (r: u64)
    requires
        note.playable(),
        0 < bpm <= MAX_TEMPO,
    ensures
        r == rest_micros_spec(*note, bpm),
{
    proof {
        assert(note.rest.denom * bpm <= 10_485_760_000u64) by (nonlinear_arith)
            requires
                0 < note.rest.denom <= 1_048_576u64,
                0 < bpm <= 10_000;
        assert(note.rest.denom * bpm >= 1) by (nonlinear_arith)
            requires
                note.rest.denom >= 1,
                bpm >= 1;
    }
    let rn: u64 = note.rest.numer * 60_000_000;
    let rd: u64 = note.rest.denom * (bpm as u64);
    rn / rd
}

/// Compute the half period of one note's square wave, in microseconds.
pub fn half_period_micros(note: &MusicalNote) -> (r: u32)
    requires
        note.playable(),
    ensures
        r == half_period_micros_spec(*note),
{
    let freq = note.frequency();
    1_000_000 / (2 * freq)
}

/// Law: a note with zero sustain produces zero square-wave cycles — its
/// slot is silence for the rest duration alone, with nothing to divide by.
pub proof fn lemma_zero_sustain_silent(note: MusicalNote, bpm: u32)
    requires
        note.sustain.wf(),
        note.sustain.numer == 0,
        0 < bpm,
    ensures
        sustain_cycles_spec(note, bpm) == 0,
{
    let cn = duration_ms_numer(note.sustain, bpm) * note.frequency_hz_spec();
    let cd = duration_ms_denom(note.sustain, bpm) * 1000;
    assert(cn == 0) by (nonlinear_arith)
        requires
            cn == (note.sustain.numer * 60_000) * note.frequency_hz_spec(),
            note.sustain.numer == 0;
    assert(cd >= 1000) by (nonlinear_arith)
        requires
            cd == (note.sustain.denom * bpm) * 1000,
            note.sustain.denom >= 1,
            bpm >= 1;
    lemma_basic_div(cd, 2 * cd);
}

/// Law: a note with zero rest is followed by a zero-length silence — the
/// next note's tone starts immediately.
pub proof fn lemma_zero_rest_immediate(note: MusicalNote, bpm: u32)
    requires
        note.rest.wf(),
        note.rest.numer == 0,
        0 < bpm,
    ensures
        rest_micros_spec(note, bpm) == 0,
{
    let rd = note.rest.denom * bpm;
    assert(rd >= 1) by (nonlinear_arith)
        requires
            rd == note.rest.denom * bpm,
            note.rest.denom >= 1,
            bpm >= 1;
    lemma_basic_div(0, rd);
}

/// Playback state machine over a song's melody track.
pub struct Sequencer {
    /// Where playback stands.
    pub state: PlayState,
}

impl Sequencer {
    /// The state speaks only of notes the song has.
    pub open spec fn state_wf(self, song: Music) -> bool {
        match self.state {
            PlayState::Idle => true,
            PlayState::PlayingNote { index } => index < song.track_1@.len(),
            PlayState::Resting { index } => index < song.track_1@.len(),
            PlayState::Done => true,
        }
    }

    /// How many more steps playback takes before reaching `Done` from
    /// `state`: each note costs a playing and a resting step. Every step
    /// strictly shrinks it until it hits zero, so playback terminates.
    pub open spec fn steps_remaining(state: PlayState, song: Music) -> int {
        match state {
            PlayState::Idle => 2 * song.track_1@.len() as int + 1,
            PlayState::PlayingNote { index } => 2 * (song.track_1@.len() - index),
            PlayState::Resting { index } => 2 * (song.track_1@.len() - index) - 1,
            PlayState::Done => 0,
        }
    }

    /// The state that follows `state` in strict playback order.
    pub open spec fn next_state_spec(state: PlayState, song: Music) -> PlayState {
        match state {
            PlayState::Idle => if song.track_1@.len() == 0 {
                PlayState::Done
            } else {
                PlayState::PlayingNote { index: 0 }
            },
            PlayState::PlayingNote { index } => PlayState::Resting { index },
            PlayState::Resting { index } => if index + 1 < song.track_1@.len() {
                PlayState::PlayingNote { index: (index + 1) as usize }
            } else {
                PlayState::Done
            },
            PlayState::Done => PlayState::Done,
        }
    }

    /// A sequencer that has not started playing.
    pub fn new() -> (s: Sequencer)
        ensures
            s.state == PlayState::Idle,
    {
        Sequencer { state: PlayState::Idle }
    }

    /// Advance playback by one state and return the instruction the driver
    /// must perform for the state just entered: the tone of the note now
    /// playing, the silence of the rest now held, or the final all-low.
    pub fn step(&mut self, song: &Music) -> (r: Action)
        requires
            song.wf(),
            old(self).state_wf(*song),
        ensures
            final(self).state == Self::next_state_spec(old(self).state, *song),
            final(self).state_wf(*song),
            old(self).state != PlayState::Done ==> Self::steps_remaining(final(self).state, *song)
                < Self::steps_remaining(old(self).state, *song),
            Self::steps_remaining(final(self).state, *song) >= 0,
            match final(self).state {
                PlayState::Idle => false,
                PlayState::PlayingNote { index } => (r matches Action::Tone {
                    freq_hz,
                    cycles,
                    half_period_us,
                } && freq_hz == song.track_1@[index as int].frequency_hz_spec() && cycles
                    == sustain_cycles_spec(song.track_1@[index as int], song.bpm)
                    && half_period_us == half_period_micros_spec(song.track_1@[index as int])),
                PlayState::Resting { index } => (r matches Action::Silence { micros } && micros
                    == rest_micros_spec(song.track_1@[index as int], song.bpm)),
                PlayState::Done => r == Action::Finished,
            },
    {
        match self.state {
            PlayState::Idle => {
                if song.track_1.len() == 0 {
                    self.state = PlayState::Done;
                    Action::Finished
                } else {
                    self.state = PlayState::PlayingNote { index: 0 };
                    tone_action(&song.track_1[0], song.bpm)
                }
            },
            PlayState::PlayingNote { index } => {
                proof {
                    assert(index < song.track_1@.len());
                }
                self.state = PlayState::Resting { index };
                let micros = rest_micros(&song.track_1[index], song.bpm);
                Action::Silence { micros }
            },
            PlayState::Resting { index } => {
                let len = song.track_1.len();
                proof {
                    assert(index < song.track_1@.len());
                }
                if index + 1 < len {
                    self.state = PlayState::PlayingNote { index: index + 1 };
                    tone_action(&song.track_1[index + 1], song.bpm)
                } else {
                    self.state = PlayState::Done;
                    Action::Finished
                }
            },
            PlayState::Done => Action::Finished,
        }
    }
}

/// The tone instruction for one note at the song's tempo.
fn tone_action(note: &MusicalNote, bpm: u32) -> (r: Action)
    requires
        note.playable(),
        0 < bpm <= MAX_TEMPO,
    ensures
        (r matches Action::Tone { freq_hz, cycles, half_period_us } && freq_hz
            == note.frequency_hz_spec() && cycles == sustain_cycles_spec(*note, bpm)
            && half_period_us == half_period_micros_spec(*note)),
{
    let freq_hz = note.frequency();
    let cycles = sustain_cycles(note, bpm);
    let half_period_us = half_period_micros(note);
    Action::Tone { freq_hz, cycles, half_period_us }
}

} // verus!
