//! Units, rhythmic modifiers and note divisions, and the value of a note at
//! a tempo.

use crate::ratio::{gcd, Ratio};
use vstd::prelude::*;

verus! {

/// The domain of a table: durations in milliseconds or rates in Hertz.
#[derive(Clone, Copy, Debug, PartialEq, Eq)]
pub enum TimeUnit {
    Ms,
    Hz,
}

/// The rhythmic variant of a note.
#[derive(Clone, Copy, Debug, PartialEq, Eq)]
pub enum RhythmicModifier {
    Normal,
    Dotted,
    Triplet,
}

/// The eight note divisions of a table, from the whole note to the 128th.
#[derive(Clone, Copy, Debug, PartialEq, Eq)]
pub enum NoteDivision {
    Whole,
    Half,
    Quarter,
    Eighth,
    Sixteenth,
    ThirtySecond,
    SixtyFourth,
    HundredTwentyEighth,
}

impl RhythmicModifier {
    /// The factor by which the modifier scales a plain note: a dotted note
    /// lasts one and a half plain notes, three triplet notes fill the time of
    /// two plain ones.
    pub open spec fn multiplier(self) -> real {
        match self {
            RhythmicModifier::Normal => 1real,
            RhythmicModifier::Dotted => 3real / 2real,
            RhythmicModifier::Triplet => 2real / 3real,
        }
    }

    /// The multiplier as a ratio in lowest terms.
    pub open spec fn fraction(self) -> Ratio {
        match self {
            RhythmicModifier::Normal => Ratio { num: 1, den: 1 },
            RhythmicModifier::Dotted => Ratio { num: 3, den: 2 },
            RhythmicModifier::Triplet => Ratio { num: 2, den: 3 },
        }
    }

    /// The multiplier of this modifier.
    pub fn value(&self) -> (r: Ratio)
        ensures
            r == self.fraction(),
            r.wf(),
            r@ == self.multiplier(),
    {
        proof {
            reveal_with_fuel(gcd, 4);
            assert(1 as real / 1 as real == 1real);
        }
        match self {
            RhythmicModifier::Normal => Ratio { num: 1, den: 1 },
            RhythmicModifier::Dotted => Ratio { num: 3, den: 2 },
            RhythmicModifier::Triplet => Ratio { num: 2, den: 3 },
        }
    }
}

impl NoteDivision {
    /// The length of the division relative to a quarter note.
    pub open spec fn ratio(self) -> real {
        match self {
            NoteDivision::Whole => 4real,
            NoteDivision::Half => 2real,
            NoteDivision::Quarter => 1real,
            NoteDivision::Eighth => 1real / 2real,
            NoteDivision::Sixteenth => 1real / 4real,
            NoteDivision::ThirtySecond => 1real / 8real,
            NoteDivision::SixtyFourth => 1real / 16real,
            NoteDivision::HundredTwentyEighth => 1real / 32real,
        }
    }

    /// The relative length as a ratio in lowest terms.
    pub open spec fn fraction(self) -> Ratio {
        match self {
            NoteDivision::Whole => Ratio { num: 4, den: 1 },
            NoteDivision::Half => Ratio { num: 2, den: 1 },
            NoteDivision::Quarter => Ratio { num: 1, den: 1 },
            NoteDivision::Eighth => Ratio { num: 1, den: 2 },
            NoteDivision::Sixteenth => Ratio { num: 1, den: 4 },
            NoteDivision::ThirtySecond => Ratio { num: 1, den: 8 },
            NoteDivision::SixtyFourth => Ratio { num: 1, den: 16 },
            NoteDivision::HundredTwentyEighth => Ratio { num: 1, den: 32 },
        }
    }

    /// The length of this division relative to a quarter note.
    pub fn value(&self) -> (r: Ratio)
        ensures
            r == self.fraction(),
            r.wf(),
            r@ == self.ratio(),
    {
        proof {
            reveal_with_fuel(gcd, 3);
            assert(1 as real / 1 as real == 1real);
            assert(2 as real / 1 as real == 2real);
            assert(4 as real / 1 as real == 4real);
        }
        match self {
            NoteDivision::Whole => Ratio { num: 4, den: 1 },
            NoteDivision::Half => Ratio { num: 2, den: 1 },
            NoteDivision::Quarter => Ratio { num: 1, den: 1 },
            NoteDivision::Eighth => Ratio { num: 1, den: 2 },
            NoteDivision::Sixteenth => Ratio { num: 1, den: 4 },
            NoteDivision::ThirtySecond => Ratio { num: 1, den: 8 },
            NoteDivision::SixtyFourth => Ratio { num: 1, den: 16 },
            NoteDivision::HundredTwentyEighth => Ratio { num: 1, den: 32 },
        }
    }
}

/// The value of a quarter note at `bpm` beats per minute: its duration in
/// milliseconds, or its rate in cycles per second.
pub open spec fn base_value(bpm: real, unit: TimeUnit) -> real {
    match unit {
        TimeUnit::Ms => 60000real / bpm,
        TimeUnit::Hz => bpm / 60real,
    }
}

/// The value of one note at `bpm` beats per minute.
///
/// The modifier scales the quarter note in both domains alike. A longer
/// division lasts longer and so oscillates slower: a duration is multiplied
/// by the division's ratio, a rate is divided by it.
pub open spec fn note_value(
    bpm: real,
    unit: TimeUnit,
    modifier: RhythmicModifier,
    division: NoteDivision,
) -> real {
    let scaled = base_value(bpm, unit) * modifier.multiplier();
    match unit {
        TimeUnit::Ms => scaled * division.ratio(),
        TimeUnit::Hz => scaled / division.ratio(),
    }
}

/// The value of one note at the tempo of `beats` beats in `minutes` minutes,
/// in lowest terms.
pub(crate) fn calculate(
    beats: u64,
    minutes: u64,
    unit: TimeUnit,
    modifier: RhythmicModifier,
    division: NoteDivision,
) -> (r: Ratio)
    requires
        beats > 0,
        minutes > 0,
    ensures
        r.wf(),
        r@ == note_value(beats as real / minutes as real, unit, modifier, division),
{
    let m = modifier.value();
    let d = division.value();
    let n: u128 = beats as u128;
    let k: u128 = minutes as u128;
    proof {
        lemma_products_fit(
            n as int,
            k as int,
            m.num as int,
            m.den as int,
            d.num as int,
            d.den as int,
        );
    }
    match unit {
        TimeUnit::Ms => {
            let top: u128 = 60_000 * k * m.num * d.num;
            let bottom: u128 = n * m.den * d.den;
            proof {
                lemma_duration(
                    n as int,
                    k as int,
                    m.num as int,
                    m.den as int,
                    d.num as int,
                    d.den as int,
                );
            }
            Ratio::lowest_terms(top, bottom)
        },
        TimeUnit::Hz => {
            let top: u128 = n * m.num * d.den;
            let bottom: u128 = 60 * k * m.den * d.num;
            proof {
                lemma_rate(
                    n as int,
                    k as int,
                    m.num as int,
                    m.den as int,
                    d.num as int,
                    d.den as int,
                );
            }
            Ratio::lowest_terms(top, bottom)
        },
    }
}

/// The products that make up a note's value stay far below 128 bits.
proof fn lemma_products_fit(n: int, k: int, mn: int, md: int, dn: int, dd: int)
    by (nonlinear_arith)
    requires
        0 < n <= u64::MAX,
        0 < k <= u64::MAX,
        0 < mn <= 3,
        0 < md <= 3,
        0 < dn <= 4,
        0 < dd <= 32,
    ensures
        60000 * k * mn <= 180000 * u64::MAX,
        60000 * k * mn * dn <= 720000 * u64::MAX,
        n * md <= 3 * u64::MAX,
        n * md * dd <= 96 * u64::MAX,
        n * mn <= 3 * u64::MAX,
        n * mn * dd <= 96 * u64::MAX,
        60 * k * md <= 180 * u64::MAX,
        60 * k * md * dn <= 720 * u64::MAX,
{
}

/// The duration of a note as one fraction of integers.
proof fn lemma_duration(n: int, k: int, mn: int, md: int, dn: int, dd: int)
    by (nonlinear_arith)
    requires
        n > 0,
        k > 0,
        mn > 0,
        md > 0,
        dn > 0,
        dd > 0,
    ensures
        n * md * dd > 0,
        (60000 * k * mn * dn) as real / (n * md * dd) as real == (60000real / (n as real
            / k as real)) * (mn as real / md as real) * (dn as real / dd as real),
{
}

/// The rate of a note as one fraction of integers.
proof fn lemma_rate(n: int, k: int, mn: int, md: int, dn: int, dd: int)
    by (nonlinear_arith)
    requires
        n > 0,
        k > 0,
        mn > 0,
        md > 0,
        dn > 0,
        dd > 0,
    ensures
        60 * k * md * dn > 0,
        (n * mn * dd) as real / (60 * k * md * dn) as real == ((n as real / k as real) / 60real)
            * (mn as real / md as real) / (dn as real / dd as real),
{
}

} // verus!
