//! Direct-timing notes.
//!
//! A song can also be given with its timing already resolved: each note
//! carries a frequency in whole hertz and sustain and trailing-delay times
//! as plain clock durations, with no tempo arithmetic left to do. The
//! player normalizes every note's times to microseconds and then toggles
//! the line once per period of the note's frequency for as many periods as
//! fit in the sustain.

use vstd::arithmetic::div_mod::lemma_div_non_zero;
use vstd::prelude::*;

verus! {

/// One note with resolved timing: a frequency in hertz, and sustain and
/// trailing delay in milliseconds.
#[derive(Clone, Copy, Debug, PartialEq, Eq, Structural)]
pub struct MidiNote {
    /// Frequency in whole hertz.
    pub freq: u32,
    /// Time to sound the note, in milliseconds.
    pub sustain: u32,
    /// Silence after the note, in milliseconds.
    pub delay: u32,
}

/// The same note with its times normalized to the microseconds the
/// playback loop's delay primitive consumes.
#[derive(Clone, Copy, Debug, PartialEq, Eq, Structural)]
pub struct NormalizedMidiNote {
    /// Frequency in whole hertz.
    pub freq: u32,
    /// Time to sound the note, in microseconds.
    pub sustain: u32,
    /// Silence after the note, in microseconds.
    pub delay: u32,
}

impl MidiNote {
    /// Normalize the note's times into the canonical microsecond units,
    /// leaving the frequency as it stands.
    pub fn normalize(&self) -> (r: NormalizedMidiNote)
        requires
            self.sustain <= 4_294_967,
            self.delay <= 4_294_967,
        ensures
            r.freq == self.freq,
            r.sustain == self.sustain * 1000,
            r.delay == self.delay * 1000,
    {
        NormalizedMidiNote {
            freq: self.freq,
            sustain: self.sustain * 1000,
            delay: self.delay * 1000,
        }
    }
}

impl NormalizedMidiNote {
    /// Full square-wave period of the note's frequency, in microseconds,
    /// truncated. Frequencies above 1 MHz would truncate to nothing and
    /// are not playable here.
    pub fn period_micros(&self) -> (r: u32)
        requires
            0 < self.freq <= 1_000_000,
        ensures
            r == 1_000_000int / self.freq as int,
            r >= 1,
    {
        proof {
            lemma_div_non_zero(1_000_000, self.freq as int);
        }
        1_000_000 / self.freq
    }

    /// How many whole square-wave periods of the note's frequency fit in
    /// its sustain time.
    pub fn sustain_cycles(&self) -> (r: u32)
        requires
            0 < self.freq <= 1_000_000,
        ensures
            r == self.sustain as int / (1_000_000int / self.freq as int),
    {
        let period = self.period_micros();
        self.sustain / period
    }
}

} // verus!
