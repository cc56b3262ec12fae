//! Core engine of a small piezo-buzzer music box: an equal-temperament note
//! model with exact rational beat arithmetic, a wide monotonic millisecond
//! clock built from narrow hardware words, an edge debouncer sharing that
//! clock, and a square-wave sequencer that turns songs into precisely timed
//! output-line toggles.

pub mod debounce;
pub mod midi;
pub mod note;
pub mod rational;
pub mod sequencer;
pub mod time;
