use micromath::F32Ext;
use piezo_tunes::note::{MusicalNote, NoteLetter};
use piezo_tunes::rational::Rational;

fn letters() -> Vec<NoteLetter> {
    vec![
        NoteLetter::C,
        NoteLetter::Csh,
        NoteLetter::D,
        NoteLetter::Dsh,
        NoteLetter::E,
        NoteLetter::F,
        NoteLetter::Fsh,
        NoteLetter::G,
        NoteLetter::Gsh,
        NoteLetter::A,
        NoteLetter::Ash,
        NoteLetter::B,
    ]
}

fn note(letter: NoteLetter, octave: u32) -> MusicalNote {
    MusicalNote {
        octave,
        letter,
        sustain: Rational::from_integer(1),
        rest: Rational::zero(),
    }
}

#[test]
fn semitone_offsets_span_the_octave() {
    let expected: Vec<u32> = (0..12).collect();
    let got: Vec<u32> = letters().iter().map(|l| l.semitone()).collect();
    assert_eq!(got, expected);
}

#[test]
fn names_follow_sharp_notation() {
    let expected = vec!["C", "C#", "D", "D#", "E", "F", "F#", "G", "G#", "A", "A#", "B"];
    let got: Vec<&str> = letters().iter().map(|l| l.name()).collect();
    assert_eq!(got, expected);
}

#[test]
fn semitones_count_from_c0() {
    assert_eq!(note(NoteLetter::C, 0).semitones(), 0);
    assert_eq!(note(NoteLetter::A, 4).semitones(), 57);
    assert_eq!(note(NoteLetter::B, 8).semitones(), 107);
}

#[test]
fn a4_is_the_440_hz_anchor() {
    assert_eq!(note(NoteLetter::A, 4).frequency(), 440);
    assert_eq!(note(NoteLetter::A, 4).frequency_microhertz(), 440_000_000);
}

#[test]
fn rounded_frequencies_match_equal_temperament() {
    assert_eq!(note(NoteLetter::C, 0).frequency(), 16);
    assert_eq!(note(NoteLetter::C, 4).frequency(), 262);
    assert_eq!(note(NoteLetter::D, 4).frequency(), 294);
    assert_eq!(note(NoteLetter::A, 5).frequency(), 880);
    assert_eq!(note(NoteLetter::B, 8).frequency(), 7902);
}

#[test]
fn octave_doubling_is_exact_in_microhertz() {
    for letter in letters() {
        for octave in 0..12 {
            let low = note(letter, octave).frequency_microhertz();
            let high = note(letter, octave + 1).frequency_microhertz();
            assert_eq!(high, 2 * low);
        }
    }
}

#[test]
fn rounded_octave_doubling_stays_within_one_hertz() {
    for letter in letters() {
        for octave in 0..12 {
            let low = note(letter, octave).frequency() as i64;
            let high = note(letter, octave + 1).frequency() as i64;
            assert!((high - 2 * low).abs() <= 1);
        }
    }
}

#[test]
fn frequencies_agree_with_float_tuning_formula() {
    // The tuning the table encodes, computed the floating-point way:
    // 440 Hz times the twelfth root of two per semitone away from A4.
    const TWO_TO_THE_1_12: f32 = 1.0594630944;
    for letter in letters() {
        for octave in 0..9 {
            let n = note(letter, octave);
            let expected = 440.0 * TWO_TO_THE_1_12.powi(n.semitones() as i32 - 57);
            let got = n.frequency() as f32;
            assert!(
                (got - expected).abs() <= 1.0,
                "{}{}: table {} Hz, formula {} Hz",
                letter.name(),
                octave,
                got,
                expected
            );
        }
    }
}
