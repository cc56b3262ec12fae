use piezo_tunes::midi::MidiNote;
use piezo_tunes::note::{Music, MusicalNote, NoteLetter};
use piezo_tunes::rational::Rational;
use piezo_tunes::sequencer::{
    half_period_micros, rest_micros, sustain_cycles, Action, PlayState, Sequencer,
};

fn a4(sustain: Rational, rest: Rational) -> MusicalNote {
    MusicalNote {
        octave: 4,
        letter: NoteLetter::A,
        sustain,
        rest,
    }
}

#[test]
fn zero_sustain_produces_zero_cycles() {
    let silent = a4(Rational::zero(), Rational::from_integer(1));
    assert_eq!(sustain_cycles(&silent, 120), 0);
    assert_eq!(rest_micros(&silent, 120), 500_000);
}

#[test]
fn zero_rest_produces_zero_silence() {
    let legato = a4(Rational::from_integer(1), Rational::zero());
    assert_eq!(rest_micros(&legato, 120), 0);
}

#[test]
fn cycle_count_covers_the_sustain() {
    // One beat at 120 bpm is 500 ms; 440 Hz over 500 ms is 220 periods.
    let note = a4(Rational::from_integer(1), Rational::zero());
    assert_eq!(sustain_cycles(&note, 120), 220);
    assert_eq!(half_period_micros(&note), 1136);
}

#[test]
fn deep_bass_half_period() {
    let low = MusicalNote {
        octave: 0,
        letter: NoteLetter::C,
        sustain: Rational::from_integer(1),
        rest: Rational::zero(),
    };
    // C0 rounds to 16 Hz: each half period is 1_000_000 / 32 microseconds.
    assert_eq!(half_period_micros(&low), 31_250);
}

#[test]
fn three_note_song_plays_end_to_end() {
    // A4 for one beat with no rest, A4 for half a beat with half a beat of
    // rest, then a silent slot resting a full beat — at 120 bpm: 500 ms of
    // 440 Hz, 250 ms of 440 Hz plus 250 ms of silence, 500 ms of silence.
    let notes = vec![
        a4(Rational::from_integer(1), Rational::zero()),
        a4(Rational::new(1, 2), Rational::new(1, 2)),
        a4(Rational::zero(), Rational::from_integer(1)),
    ];
    let song = Music::new("cadence", 120, notes, vec![]).unwrap();
    let mut seq = Sequencer::new();
    assert_eq!(seq.state, PlayState::Idle);

    let actions = [
        Action::Tone { freq_hz: 440, cycles: 220, half_period_us: 1136 },
        Action::Silence { micros: 0 },
        Action::Tone { freq_hz: 440, cycles: 110, half_period_us: 1136 },
        Action::Silence { micros: 250_000 },
        Action::Tone { freq_hz: 440, cycles: 0, half_period_us: 1136 },
        Action::Silence { micros: 500_000 },
        Action::Finished,
    ];
    for expected in actions {
        assert_eq!(seq.step(&song), expected);
    }
    assert_eq!(seq.state, PlayState::Done);
    // Once done, the line stays low forever.
    assert_eq!(seq.step(&song), Action::Finished);
    assert_eq!(seq.state, PlayState::Done);
}

#[test]
fn empty_second_track_does_not_stop_the_melody() {
    let song = Music::new(
        "solo",
        60,
        vec![a4(Rational::from_integer(1), Rational::zero())],
        vec![],
    )
    .unwrap();
    let mut seq = Sequencer::new();
    // One beat at 60 bpm is a full second: 440 cycles of 440 Hz.
    assert_eq!(
        seq.step(&song),
        Action::Tone { freq_hz: 440, cycles: 440, half_period_us: 1136 }
    );
    assert_eq!(seq.state, PlayState::PlayingNote { index: 0 });
    assert_eq!(seq.step(&song), Action::Silence { micros: 0 });
    assert_eq!(seq.state, PlayState::Resting { index: 0 });
    assert_eq!(seq.step(&song), Action::Finished);
    assert_eq!(seq.state, PlayState::Done);
}

#[test]
fn normalize_scales_times_to_microseconds() {
    let note = MidiNote { freq: 440, sustain: 500, delay: 250 };
    let n = note.normalize();
    assert_eq!(n.freq, 440);
    assert_eq!(n.sustain, 500_000);
    assert_eq!(n.delay, 250_000);
}

#[test]
fn direct_timing_cycles_come_from_the_period() {
    let n = MidiNote { freq: 440, sustain: 500, delay: 0 }.normalize();
    assert_eq!(n.period_micros(), 2272);
    assert_eq!(n.sustain_cycles(), 220);

    let bass = MidiNote { freq: 293, sustain: 50, delay: 50 }.normalize();
    assert_eq!(bass.period_micros(), 3412);
    assert_eq!(bass.sustain_cycles(), 14);
}
