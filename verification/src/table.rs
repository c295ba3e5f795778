//! The table of the eight note values at a tempo.

use crate::builder::{DelayTimesBuilder, InvalidTempo};
use crate::ratio::{lemma_ratio_unique, Ratio};
use crate::rhythm::{calculate, note_value, NoteDivision, RhythmicModifier, TimeUnit};
use vstd::prelude::*;

verus! {

/// The eight values of a table as real numbers: milliseconds or Hertz,
/// according to the unit that the table was made for.
pub struct DelayTable {
    pub whole: real,
    pub half: real,
    pub quarter: real,
    pub eighth: real,
    pub sixteenth: real,
    pub thirty_second: real,
    pub sixty_fourth: real,
    pub hundred_twenty_eighth: real,
}

/// The table at `bpm` beats per minute in the given unit, with every note
/// scaled by the modifier.
pub open spec fn delay_table(bpm: real, unit: TimeUnit, modifier: RhythmicModifier) -> DelayTable {
    DelayTable {
        whole: note_value(bpm, unit, modifier, NoteDivision::Whole),
        half: note_value(bpm, unit, modifier, NoteDivision::Half),
        quarter: note_value(bpm, unit, modifier, NoteDivision::Quarter),
        eighth: note_value(bpm, unit, modifier, NoteDivision::Eighth),
        sixteenth: note_value(bpm, unit, modifier, NoteDivision::Sixteenth),
        thirty_second: note_value(bpm, unit, modifier, NoteDivision::ThirtySecond),
        sixty_fourth: note_value(bpm, unit, modifier, NoteDivision::SixtyFourth),
        hundred_twenty_eighth: note_value(bpm, unit, modifier, NoteDivision::HundredTwentyEighth),
    }
}

/// A tempo of `beats` beats in `minutes` minutes is valid when it is a
/// positive, finite number of beats per minute.
pub open spec fn valid_tempo(beats: int, minutes: int) -> bool {
    beats > 0 && minutes > 0
}

/// The eight note values at one tempo, each an exact ratio in lowest terms.
///
/// A table is made by the last stage of the builder and never changes
/// afterwards: its entries can only be read.
#[derive(Clone, Copy, Debug, PartialEq, Eq)]
pub struct DelayTimes {
    v_whole: Ratio,
    v_half: Ratio,
    v_quarter: Ratio,
    v_8th: Ratio,
    v_16th: Ratio,
    v_32nd: Ratio,
    v_64th: Ratio,
    v_128th: Ratio,
}

impl View for DelayTimes {
    type V = DelayTable;

    closed spec fn view(&self) -> DelayTable {
        DelayTable {
            whole: self.v_whole@,
            half: self.v_half@,
            quarter: self.v_quarter@,
            eighth: self.v_8th@,
            sixteenth: self.v_16th@,
            thirty_second: self.v_32nd@,
            sixty_fourth: self.v_64th@,
            hundred_twenty_eighth: self.v_128th@,
        }
    }
}

impl DelayTimes {
    /// Every entry is a well-formed ratio.
    #[verifier::type_invariant]
    pub closed spec fn wf(&self) -> bool {
        &&& self.v_whole.wf()
        &&& self.v_half.wf()
        &&& self.v_quarter.wf()
        &&& self.v_8th.wf()
        &&& self.v_16th.wf()
        &&& self.v_32nd.wf()
        &&& self.v_64th.wf()
        &&& self.v_128th.wf()
    }

    /// Starts a table for the tempo of `beats` beats in `minutes` minutes.
    ///
    /// The tempo is checked here and nowhere else: it must be a positive,
    /// finite number of beats per minute.
    pub fn new(beats: i64, minutes: u64) -> (r: Result<DelayTimesBuilder, InvalidTempo>)
        ensures
            r is Ok <==> valid_tempo(beats as int, minutes as int),
            r matches Ok(b) ==> b.tempo() == beats as real / minutes as real,
    {
        if beats <= 0 || minutes == 0 {
            Err(InvalidTempo)
        } else {
            Ok(DelayTimesBuilder::new(beats as u64, minutes))
        }
    }

    /// The table at `beats / minutes` beats per minute.
    pub(crate) fn get_instance(
        beats: u64,
        minutes: u64,
        unit: TimeUnit,
        modifier: RhythmicModifier,
    ) -> (t: Self)
        requires
            beats > 0,
            minutes > 0,
        ensures
            t.wf(),
            t@ == delay_table(beats as real / minutes as real, unit, modifier),
    {
        Self {
            v_whole: calculate(beats, minutes, unit, modifier, NoteDivision::Whole),
            v_half: calculate(beats, minutes, unit, modifier, NoteDivision::Half),
            v_quarter: calculate(beats, minutes, unit, modifier, NoteDivision::Quarter),
            v_8th: calculate(beats, minutes, unit, modifier, NoteDivision::Eighth),
            v_16th: calculate(beats, minutes, unit, modifier, NoteDivision::Sixteenth),
            v_32nd: calculate(beats, minutes, unit, modifier, NoteDivision::ThirtySecond),
            v_64th: calculate(beats, minutes, unit, modifier, NoteDivision::SixtyFourth),
            v_128th: calculate(beats, minutes, unit, modifier, NoteDivision::HundredTwentyEighth),
        }
    }

    /// The value of the whole note.
    pub fn v_whole(&self) -> (r: Ratio)
        ensures
            r.wf(),
            r@ == self@.whole,
    {
        proof {
            use_type_invariant(self);
        }
        self.v_whole
    }

    /// The value of the half note.
    pub fn v_half(&self) -> (r: Ratio)
        ensures
            r.wf(),
            r@ == self@.half,
    {
        proof {
            use_type_invariant(self);
        }
        self.v_half
    }

    /// The value of the quarter note.
    pub fn v_quarter(&self) -> (r: Ratio)
        ensures
            r.wf(),
            r@ == self@.quarter,
    {
        proof {
            use_type_invariant(self);
        }
        self.v_quarter
    }

    /// The value of the eighth note.
    pub fn v_8th(&self) -> (r: Ratio)
        ensures
            r.wf(),
            r@ == self@.eighth,
    {
        proof {
            use_type_invariant(self);
        }
        self.v_8th
    }

    /// The value of the sixteenth note.
    pub fn v_16th(&self) -> (r: Ratio)
        ensures
            r.wf(),
            r@ == self@.sixteenth,
    {
        proof {
            use_type_invariant(self);
        }
        self.v_16th
    }

    /// The value of the thirty-second note.
    pub fn v_32nd(&self) -> (r: Ratio)
        ensures
            r.wf(),
            r@ == self@.thirty_second,
    {
        proof {
            use_type_invariant(self);
        }
        self.v_32nd
    }

    /// The value of the sixty-fourth note.
    pub fn v_64th(&self) -> (r: Ratio)
        ensures
            r.wf(),
            r@ == self@.sixty_fourth,
    {
        proof {
            use_type_invariant(self);
        }
        self.v_64th
    }

    /// The value of the hundred-twenty-eighth note.
    pub fn v_128th(&self) -> (r: Ratio)
        ensures
            r.wf(),
            r@ == self@.hundred_twenty_eighth,
    {
        proof {
            use_type_invariant(self);
        }
        self.v_128th
    }
}

/// Tables that hold the same eight numbers are the same table.
pub proof fn lemma_table_unique(a: DelayTimes, b: DelayTimes)
    requires
        a.wf(),
        b.wf(),
        a@ == b@,
    ensures
        a == b,
{
    lemma_ratio_unique(a.v_whole, b.v_whole);
    lemma_ratio_unique(a.v_half, b.v_half);
    lemma_ratio_unique(a.v_quarter, b.v_quarter);
    lemma_ratio_unique(a.v_8th, b.v_8th);
    lemma_ratio_unique(a.v_16th, b.v_16th);
    lemma_ratio_unique(a.v_32nd, b.v_32nd);
    lemma_ratio_unique(a.v_64th, b.v_64th);
    lemma_ratio_unique(a.v_128th, b.v_128th);
}

} // verus!
