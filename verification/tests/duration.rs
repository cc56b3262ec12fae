use num_rational::Ratio;
use piezo_tunes::note::{duration_ms, ConfigError, Music, MusicalNote, NoteLetter};
use piezo_tunes::rational::Rational;

fn quarter_note() -> MusicalNote {
    MusicalNote {
        octave: 4,
        letter: NoteLetter::A,
        sustain: Rational::new(1, 4),
        rest: Rational::zero(),
    }
}

#[test]
fn one_beat_at_120_bpm_is_500_ms() {
    let d = duration_ms(Rational::from_integer(1), 120);
    assert_eq!(d.numer, 60_000);
    assert_eq!(d.denom, 120);
    assert_eq!(d.floor(), 500);
}

#[test]
fn half_beat_at_120_bpm_is_250_ms() {
    let d = duration_ms(Rational::new(1, 2), 120);
    assert_eq!(d.numer, 60_000);
    assert_eq!(d.denom, 240);
    assert_eq!(d.floor(), 250);
}

#[test]
fn durations_grow_with_beats_and_shrink_with_tempo() {
    let short = duration_ms(Rational::new(1, 4), 120);
    let long = duration_ms(Rational::new(3, 4), 120);
    // Cross-multiplied comparison of the exact rational values.
    assert!((short.numer as u128) * (long.denom as u128)
        <= (long.numer as u128) * (short.denom as u128));

    let slow = duration_ms(Rational::new(1, 4), 60);
    let fast = duration_ms(Rational::new(1, 4), 240);
    assert!((fast.numer as u128) * (slow.denom as u128)
        <= (slow.numer as u128) * (fast.denom as u128));
}

#[test]
fn duration_agrees_with_reduced_rational_arithmetic() {
    let d = duration_ms(Rational::new(3, 7), 90);
    let ours = Ratio::new(d.numer, d.denom);
    let reference = Ratio::new(3u64, 7) / Ratio::from_integer(90) * Ratio::from_integer(60_000);
    assert_eq!(ours, reference);
}

#[test]
fn zero_tempo_is_rejected_at_construction() {
    let r = Music::new("silence", 0, vec![quarter_note()], vec![]);
    assert_eq!(r.unwrap_err(), ConfigError::ZeroTempo);
}

#[test]
fn runaway_tempo_is_rejected_at_construction() {
    let r = Music::new("blur", 20_000, vec![quarter_note()], vec![]);
    assert_eq!(r.unwrap_err(), ConfigError::TempoTooFast);
}

#[test]
fn empty_song_is_rejected_at_construction() {
    let r = Music::new("nothing", 120, vec![], vec![]);
    assert_eq!(r.unwrap_err(), ConfigError::EmptySong);
}

#[test]
fn zero_denominator_is_rejected_at_construction() {
    let mut bad = quarter_note();
    bad.sustain = Rational { numer: 1, denom: 0 };
    let r = Music::new("broken", 120, vec![quarter_note(), bad], vec![]);
    assert_eq!(r.unwrap_err(), ConfigError::MalformedRational);
}

#[test]
fn oversized_beat_is_rejected_at_construction() {
    let mut bad = quarter_note();
    bad.rest = Rational::new(2_000_000, 1);
    let r = Music::new("too long", 120, vec![bad], vec![]);
    assert_eq!(r.unwrap_err(), ConfigError::BeatOutOfRange);
}

#[test]
fn unplayable_octave_is_rejected_at_construction() {
    let mut bad = quarter_note();
    bad.octave = 21;
    let r = Music::new("too high", 120, vec![bad], vec![]);
    assert_eq!(r.unwrap_err(), ConfigError::OctaveOutOfRange);
}

#[test]
fn second_track_faults_are_found_too() {
    let mut bad = quarter_note();
    bad.rest = Rational { numer: 0, denom: 0 };
    let r = Music::new("accompanied", 120, vec![quarter_note()], vec![bad]);
    assert_eq!(r.unwrap_err(), ConfigError::MalformedRational);
}

#[test]
fn valid_song_is_accepted_unchanged() {
    let m = Music::new("one note", 120, vec![quarter_note()], vec![]).unwrap();
    assert_eq!(m.title, "one note");
    assert_eq!(m.bpm, 120);
    assert_eq!(m.track_1.len(), 1);
    assert!(m.track_2.is_empty());
}
