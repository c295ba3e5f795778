//! Delay times in sync with a tempo.
//!
//! From a tempo the library derives the values of the eight standard note
//! divisions, from the whole note down to the 128th: as durations in
//! milliseconds or as rates in Hertz, for plain, dotted or triplet notes.
//! All values are exact ratios.
//!
//! A table is made in three steps: `DelayTimes::new` takes the tempo,
//! `in_ms` or `in_hz` the unit, and `normal`, `dotted` or `triplet` gives
//! the table.

pub mod builder;
pub mod laws;
pub mod ratio;
pub mod rhythm;
pub mod table;

pub use builder::{DelayTimesBuilder, DelayTimesNoteModifier, InvalidTempo};
pub use ratio::Ratio;
pub use rhythm::{NoteDivision, RhythmicModifier, TimeUnit};
pub use table::DelayTimes;
