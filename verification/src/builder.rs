//! The stages that lead from a tempo to a table: first the unit, then the
//! rhythmic modifier.

use crate::rhythm::{RhythmicModifier, TimeUnit};
use crate::table::{delay_table, DelayTimes};
use vstd::prelude::*;

verus! {

/// The tempo is not a positive, finite number of beats per minute.
#[derive(Clone, Copy, Debug, PartialEq, Eq)]
pub struct InvalidTempo;

/// A valid tempo, waiting for its unit.
///
/// The stage can be used any number of times, for both units.
#[derive(Clone, Copy, Debug)]
pub struct DelayTimesBuilder {
    beats: u64,
    minutes: u64,
}

/// A valid tempo and a unit, waiting for the rhythmic modifier.
///
/// The stage can be used any number of times: every call makes a table of
/// its own.
#[derive(Clone, Copy, Debug)]
pub struct DelayTimesNoteModifier {
    beats: u64,
    minutes: u64,
    unit: TimeUnit,
}

impl DelayTimesBuilder {
    /// The tempo is positive and finite.
    #[verifier::type_invariant]
    spec fn wf(&self) -> bool {
        self.beats > 0 && self.minutes > 0
    }

    /// The tempo in beats per minute.
    pub closed spec fn tempo(&self) -> real {
        self.beats as real / self.minutes as real
    }

    /// The first stage for the tempo of `beats` beats in `minutes` minutes.
    pub(crate) fn new(beats: u64, minutes: u64) -> (b: Self)
        requires
            beats > 0,
            minutes > 0,
        ensures
            b.tempo() == beats as real / minutes as real,
    {
        Self { beats, minutes }
    }

    /// Chooses durations in milliseconds.
    pub fn in_ms(&self) -> (m: DelayTimesNoteModifier)
        ensures
            m.tempo() == self.tempo(),
            m.unit() == TimeUnit::Ms,
    {
        proof {
            use_type_invariant(self);
        }
        DelayTimesNoteModifier::new(self.beats, self.minutes, TimeUnit::Ms)
    }

    /// Chooses rates in Hertz.
    pub fn in_hz(&self) -> (m: DelayTimesNoteModifier)
        ensures
            m.tempo() == self.tempo(),
            m.unit() == TimeUnit::Hz,
    {
        proof {
            use_type_invariant(self);
        }
        DelayTimesNoteModifier::new(self.beats, self.minutes, TimeUnit::Hz)
    }
}

impl DelayTimesNoteModifier {
    /// The tempo is positive and finite.
    #[verifier::type_invariant]
    spec fn wf(&self) -> bool {
        self.beats > 0 && self.minutes > 0
    }

    /// The tempo in beats per minute.
    pub closed spec fn tempo(&self) -> real {
        self.beats as real / self.minutes as real
    }

    /// The unit that was chosen.
    pub closed spec fn unit(&self) -> TimeUnit {
        self.unit
    }

    /// The second stage for a tempo and a unit.
    fn new(beats: u64, minutes: u64, unit: TimeUnit) -> (m: Self)
        requires
            beats > 0,
            minutes > 0,
        ensures
            m.tempo() == beats as real / minutes as real,
            m.unit() == unit,
    {
        Self { beats, minutes, unit }
    }

    /// The table of plain notes.
    pub fn normal(&self) -> (t: DelayTimes)
        ensures
            t.wf(),
            t@ == delay_table(self.tempo(), self.unit(), RhythmicModifier::Normal),
    {
        proof {
            use_type_invariant(self);
        }
        DelayTimes::get_instance(self.beats, self.minutes, self.unit, RhythmicModifier::Normal)
    }

    /// The table of dotted notes.
    pub fn dotted(&self) -> (t: DelayTimes)
        ensures
            t.wf(),
            t@ == delay_table(self.tempo(), self.unit(), RhythmicModifier::Dotted),
    {
        proof {
            use_type_invariant(self);
        }
        DelayTimes::get_instance(self.beats, self.minutes, self.unit, RhythmicModifier::Dotted)
    }

    /// The table of triplet notes.
    pub fn triplet(&self) -> (t: DelayTimes)
        ensures
            t.wf(),
            t@ == delay_table(self.tempo(), self.unit(), RhythmicModifier::Triplet),
    {
        proof {
            use_type_invariant(self);
        }
        DelayTimes::get_instance(self.beats, self.minutes, self.unit, RhythmicModifier::Triplet)
    }
}

} // verus!
