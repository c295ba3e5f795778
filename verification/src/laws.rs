//! What holds of every table, whatever the tempo.

use crate::rhythm::{base_value, RhythmicModifier, TimeUnit};
use crate::table::delay_table;
use vstd::prelude::*;

verus! {

/// Half the ratio gives half the duration and twice the rate.
proof fn lemma_half_ratio(scaled: real, ratio: real)
    by (nonlinear_arith)
    requires
        ratio > 0real,
    ensures
        scaled * ratio == 2real * (scaled * (ratio / 2real)),
        scaled / (ratio / 2real) == 2real * (scaled / ratio),
{
}

/// A factor of the quarter note's value is a factor of every note's value,
/// whether the value is multiplied or divided by the division's ratio.
proof fn lemma_factor_moves_out(base: real, factor: real, ratio: real)
    by (nonlinear_arith)
    requires
        ratio > 0real,
    ensures
        (base * factor) * ratio == factor * ((base * 1real) * ratio),
        (base * factor) / ratio == factor * ((base * 1real) / ratio),
{
}

/// The factor moves out of all eight notes of a table.
proof fn lemma_factor_moves_out_of_table(base: real, factor: real)
    ensures
        (base * factor) * 4real == factor * ((base * 1real) * 4real),
        (base * factor) / 4real == factor * ((base * 1real) / 4real),
        (base * factor) * 2real == factor * ((base * 1real) * 2real),
        (base * factor) / 2real == factor * ((base * 1real) / 2real),
        (base * factor) * 1real == factor * ((base * 1real) * 1real),
        (base * factor) / 1real == factor * ((base * 1real) / 1real),
        (base * factor) * (1real / 2real) == factor * ((base * 1real) * (1real / 2real)),
        (base * factor) / (1real / 2real) == factor * ((base * 1real) / (1real / 2real)),
        (base * factor) * (1real / 4real) == factor * ((base * 1real) * (1real / 4real)),
        (base * factor) / (1real / 4real) == factor * ((base * 1real) / (1real / 4real)),
        (base * factor) * (1real / 8real) == factor * ((base * 1real) * (1real / 8real)),
        (base * factor) / (1real / 8real) == factor * ((base * 1real) / (1real / 8real)),
        (base * factor) * (1real / 16real) == factor * ((base * 1real) * (1real / 16real)),
        (base * factor) / (1real / 16real) == factor * ((base * 1real) / (1real / 16real)),
        (base * factor) * (1real / 32real) == factor * ((base * 1real) * (1real / 32real)),
        (base * factor) / (1real / 32real) == factor * ((base * 1real) / (1real / 32real)),
{
    lemma_factor_moves_out(base, factor, 4real);
    lemma_factor_moves_out(base, factor, 2real);
    lemma_factor_moves_out(base, factor, 1real);
    lemma_factor_moves_out(base, factor, 1real / 2real);
    lemma_factor_moves_out(base, factor, 1real / 4real);
    lemma_factor_moves_out(base, factor, 1real / 8real);
    lemma_factor_moves_out(base, factor, 1real / 16real);
    lemma_factor_moves_out(base, factor, 1real / 32real);
}

/// The quarter note's value, scaled by a modifier, is positive at a positive
/// tempo.
proof fn lemma_scaled_positive(bpm: real, unit: TimeUnit, modifier: RhythmicModifier)
    requires
        bpm > 0real,
    ensures
        base_value(bpm, unit) * modifier.multiplier() > 0real,
{
    let base = base_value(bpm, unit);
    assert(base > 0real) by (nonlinear_arith)
        requires
            bpm > 0real,
            base == 60000real / bpm || base == bpm / 60real,
    ;
    let factor = modifier.multiplier();
    assert(base * factor > 0real) by (nonlinear_arith)
        requires
            base > 0real,
            factor > 0real,
    ;
}

/// In milliseconds every note lasts exactly twice as long as the next
/// shorter one, and every duration is positive. So the whole note lasts
/// eight eighth notes and sixteen sixteenth notes, whatever the modifier.
pub proof fn lemma_durations_halve(bpm: real, modifier: RhythmicModifier)
    requires
        bpm > 0real,
    ensures
        ({
            let t = delay_table(bpm, TimeUnit::Ms, modifier);
            &&& t.whole == 2real * t.half
            &&& t.half == 2real * t.quarter
            &&& t.quarter == 2real * t.eighth
            &&& t.eighth == 2real * t.sixteenth
            &&& t.sixteenth == 2real * t.thirty_second
            &&& t.thirty_second == 2real * t.sixty_fourth
            &&& t.sixty_fourth == 2real * t.hundred_twenty_eighth
            &&& t.hundred_twenty_eighth > 0real
            &&& t.whole == 8real * t.eighth
            &&& t.whole == 16real * t.sixteenth
        }),
{
    let scaled = base_value(bpm, TimeUnit::Ms) * modifier.multiplier();
    lemma_scaled_positive(bpm, TimeUnit::Ms, modifier);
    lemma_half_ratio(scaled, 4real);
    lemma_half_ratio(scaled, 2real);
    lemma_half_ratio(scaled, 1real);
    lemma_half_ratio(scaled, 1real / 2real);
    lemma_half_ratio(scaled, 1real / 4real);
    lemma_half_ratio(scaled, 1real / 8real);
    lemma_half_ratio(scaled, 1real / 16real);
}

/// In Hertz every note oscillates exactly twice as fast as the next longer
/// one, and every rate is positive. So the rate of the whole note is a
/// quarter of the rate of the quarter note and an eighth of the rate of the
/// eighth note, whatever the modifier.
pub proof fn lemma_rates_double(bpm: real, modifier: RhythmicModifier)
    requires
        bpm > 0real,
    ensures
        ({
            let t = delay_table(bpm, TimeUnit::Hz, modifier);
            &&& t.whole > 0real
            &&& t.half == 2real * t.whole
            &&& t.quarter == 2real * t.half
            &&& t.eighth == 2real * t.quarter
            &&& t.sixteenth == 2real * t.eighth
            &&& t.thirty_second == 2real * t.sixteenth
            &&& t.sixty_fourth == 2real * t.thirty_second
            &&& t.hundred_twenty_eighth == 2real * t.sixty_fourth
            &&& t.whole == t.quarter / 4real
            &&& t.whole == t.eighth / 8real
        }),
{
    let scaled = base_value(bpm, TimeUnit::Hz) * modifier.multiplier();
    lemma_scaled_positive(bpm, TimeUnit::Hz, modifier);
    lemma_half_ratio(scaled, 4real);
    lemma_half_ratio(scaled, 2real);
    lemma_half_ratio(scaled, 1real);
    lemma_half_ratio(scaled, 1real / 2real);
    lemma_half_ratio(scaled, 1real / 4real);
    lemma_half_ratio(scaled, 1real / 8real);
    lemma_half_ratio(scaled, 1real / 16real);
}

/// In both units every dotted note is one and a half times the plain note.
pub proof fn lemma_dotted_scales_normal(bpm: real, unit: TimeUnit)
    requires
        bpm > 0real,
    ensures
        ({
            let d = delay_table(bpm, unit, RhythmicModifier::Dotted);
            let n = delay_table(bpm, unit, RhythmicModifier::Normal);
            &&& d.whole == 3real / 2real * n.whole
            &&& d.half == 3real / 2real * n.half
            &&& d.quarter == 3real / 2real * n.quarter
            &&& d.eighth == 3real / 2real * n.eighth
            &&& d.sixteenth == 3real / 2real * n.sixteenth
            &&& d.thirty_second == 3real / 2real * n.thirty_second
            &&& d.sixty_fourth == 3real / 2real * n.sixty_fourth
            &&& d.hundred_twenty_eighth == 3real / 2real * n.hundred_twenty_eighth
        }),
{
    lemma_factor_moves_out_of_table(base_value(bpm, unit), 3real / 2real);
}

/// In both units every triplet note is two thirds of the plain note.
pub proof fn lemma_triplet_scales_normal(bpm: real, unit: TimeUnit)
    requires
        bpm > 0real,
    ensures
        ({
            let t = delay_table(bpm, unit, RhythmicModifier::Triplet);
            let n = delay_table(bpm, unit, RhythmicModifier::Normal);
            &&& t.whole == 2real / 3real * n.whole
            &&& t.half == 2real / 3real * n.half
            &&& t.quarter == 2real / 3real * n.quarter
            &&& t.eighth == 2real / 3real * n.eighth
            &&& t.sixteenth == 2real / 3real * n.sixteenth
            &&& t.thirty_second == 2real / 3real * n.thirty_second
            &&& t.sixty_fourth == 2real / 3real * n.sixty_fourth
            &&& t.hundred_twenty_eighth == 2real / 3real * n.hundred_twenty_eighth
        }),
{
    lemma_factor_moves_out_of_table(base_value(bpm, unit), 2real / 3real);
}

} // verus!
