use delay_times::{
    DelayTimes, DelayTimesNoteModifier, InvalidTempo, NoteDivision, Ratio, RhythmicModifier,
};

fn ratio(num: u128, den: u128) -> Ratio {
    Ratio { num, den }
}

fn entries(table: &DelayTimes) -> [Ratio; 8] {
    [
        table.v_whole(),
        table.v_half(),
        table.v_quarter(),
        table.v_8th(),
        table.v_16th(),
        table.v_32nd(),
        table.v_64th(),
        table.v_128th(),
    ]
}

// `a == factor_num / factor_den * b`, by cross products.
fn is_multiple(a: Ratio, factor_num: u128, factor_den: u128, b: Ratio) -> bool {
    a.num * factor_den * b.den == factor_num * b.num * a.den
}

fn tempos() -> Vec<(i64, u64)> {
    vec![(120, 1), (1, 1), (185, 2), (93, 1), (1, 7), (999_983, 1000), (60_000, 1), (7, 60_000)]
}

fn stage(beats: i64, minutes: u64, hertz: bool) -> DelayTimesNoteModifier {
    let builder = DelayTimes::new(beats, minutes).unwrap();
    if hertz {
        builder.in_hz()
    } else {
        builder.in_ms()
    }
}

#[test]
fn time_normal_is_exact_at_120() {
    let table = stage(120, 1, false).normal();
    assert_eq!(
        entries(&table),
        [
            ratio(2000, 1),
            ratio(1000, 1),
            ratio(500, 1),
            ratio(250, 1),
            ratio(125, 1),
            ratio(125, 2),
            ratio(125, 4),
            ratio(125, 8),
        ]
    );
}

#[test]
fn time_dotted_is_exact_at_120() {
    let table = stage(120, 1, false).dotted();
    assert_eq!(
        entries(&table),
        [
            ratio(3000, 1),
            ratio(1500, 1),
            ratio(750, 1),
            ratio(375, 1),
            ratio(375, 2),
            ratio(375, 4),
            ratio(375, 8),
            ratio(375, 16),
        ]
    );
}

#[test]
fn time_triplet_is_exact_at_120() {
    let table = stage(120, 1, false).triplet();
    assert_eq!(
        entries(&table),
        [
            ratio(4000, 3),
            ratio(2000, 3),
            ratio(1000, 3),
            ratio(500, 3),
            ratio(250, 3),
            ratio(125, 3),
            ratio(125, 6),
            ratio(125, 12),
        ]
    );
}

#[test]
fn frequency_normal_is_exact_at_120() {
    let table = stage(120, 1, true).normal();
    assert_eq!(
        entries(&table),
        [
            ratio(1, 2),
            ratio(1, 1),
            ratio(2, 1),
            ratio(4, 1),
            ratio(8, 1),
            ratio(16, 1),
            ratio(32, 1),
            ratio(64, 1),
        ]
    );
}

#[test]
fn frequency_dotted_is_exact_at_120() {
    let table = stage(120, 1, true).dotted();
    assert_eq!(
        entries(&table),
        [
            ratio(3, 4),
            ratio(3, 2),
            ratio(3, 1),
            ratio(6, 1),
            ratio(12, 1),
            ratio(24, 1),
            ratio(48, 1),
            ratio(96, 1),
        ]
    );
}

#[test]
fn frequency_triplet_is_exact_at_120() {
    let table = stage(120, 1, true).triplet();
    assert_eq!(
        entries(&table),
        [
            ratio(1, 3),
            ratio(2, 3),
            ratio(4, 3),
            ratio(8, 3),
            ratio(16, 3),
            ratio(32, 3),
            ratio(64, 3),
            ratio(128, 3),
        ]
    );
}

#[test]
fn fractional_tempo_is_exact() {
    // 92.5 beats per minute
    let time = stage(185, 2, false);
    assert_eq!(time.normal().v_quarter(), ratio(24_000, 37));
    assert_eq!(time.dotted().v_quarter(), ratio(36_000, 37));
    assert_eq!(time.triplet().v_quarter(), ratio(16_000, 37));
    assert_eq!(time.normal().v_128th(), ratio(750, 37));
    let rate = stage(185, 2, true);
    assert_eq!(rate.normal().v_quarter(), ratio(37, 24));
    assert_eq!(rate.dotted().v_quarter(), ratio(37, 16));
    assert_eq!(rate.triplet().v_quarter(), ratio(37, 36));
    assert_eq!(rate.normal().v_whole(), ratio(37, 96));
}

#[test]
fn equal_tempos_give_equal_tables() {
    let plain = DelayTimes::new(120, 1).unwrap();
    let scaled = DelayTimes::new(8400, 70).unwrap();
    assert_eq!(plain.in_ms().normal(), scaled.in_ms().normal());
    assert_eq!(plain.in_ms().triplet(), scaled.in_ms().triplet());
    assert_eq!(plain.in_hz().dotted(), scaled.in_hz().dotted());
}

#[test]
fn entries_are_in_lowest_terms() {
    fn gcd(a: u128, b: u128) -> u128 {
        if b == 0 {
            a
        } else {
            gcd(b, a % b)
        }
    }
    for (beats, minutes) in tempos() {
        for hertz in [false, true] {
            let stage = stage(beats, minutes, hertz);
            for table in [stage.normal(), stage.dotted(), stage.triplet()] {
                for entry in entries(&table) {
                    assert!(entry.den > 0);
                    assert!(entry.num > 0);
                    assert_eq!(gcd(entry.num, entry.den), 1);
                }
            }
        }
    }
}

#[test]
fn durations_halve_from_note_to_note() {
    for (beats, minutes) in tempos() {
        let stage = stage(beats, minutes, false);
        for table in [stage.normal(), stage.dotted(), stage.triplet()] {
            let e = entries(&table);
            for i in 0..7 {
                assert!(is_multiple(e[i], 2, 1, e[i + 1]));
            }
            assert!(is_multiple(table.v_whole(), 8, 1, table.v_8th()));
            assert!(is_multiple(table.v_whole(), 16, 1, table.v_16th()));
        }
    }
}

#[test]
fn rates_double_from_note_to_note() {
    for (beats, minutes) in tempos() {
        let stage = stage(beats, minutes, true);
        for table in [stage.normal(), stage.dotted(), stage.triplet()] {
            let e = entries(&table);
            for i in 0..7 {
                assert!(is_multiple(e[i + 1], 2, 1, e[i]));
            }
            assert!(is_multiple(table.v_whole(), 1, 4, table.v_quarter()));
            assert!(is_multiple(table.v_whole(), 1, 8, table.v_8th()));
        }
    }
}

#[test]
fn dotted_is_one_and_a_half_times_normal() {
    for (beats, minutes) in tempos() {
        for hertz in [false, true] {
            let stage = stage(beats, minutes, hertz);
            let dotted = entries(&stage.dotted());
            let normal = entries(&stage.normal());
            for i in 0..8 {
                assert!(is_multiple(dotted[i], 3, 2, normal[i]));
            }
        }
    }
}

#[test]
fn triplet_is_two_thirds_of_normal() {
    for (beats, minutes) in tempos() {
        for hertz in [false, true] {
            let stage = stage(beats, minutes, hertz);
            let triplet = entries(&stage.triplet());
            let normal = entries(&stage.normal());
            for i in 0..8 {
                assert!(is_multiple(triplet[i], 2, 3, normal[i]));
            }
        }
    }
}

#[test]
fn derivations_do_not_affect_each_other() {
    let builder = DelayTimes::new(93, 1).unwrap();
    let time = builder.in_ms();
    let rate = builder.in_hz();

    let normal_first = time.normal();
    let dotted = time.dotted();
    let triplet = time.triplet();
    let rate_triplet = rate.triplet();

    assert_eq!(time.normal(), normal_first);
    assert_eq!(time.dotted(), dotted);
    assert_eq!(time.triplet(), triplet);
    assert_eq!(rate.triplet(), rate_triplet);
    assert_eq!(builder.in_ms().normal(), normal_first);
    assert_eq!(builder.in_hz().triplet(), rate_triplet);
    assert_ne!(normal_first, dotted);
    assert_ne!(normal_first, triplet);
    assert_ne!(triplet, rate_triplet);
}

#[test]
fn scenarios_at_120() {
    let builder = DelayTimes::new(120, 1).unwrap();

    let time_normal = builder.in_ms().normal();
    assert_eq!(time_normal.v_quarter(), ratio(500, 1));
    assert_eq!(time_normal.v_whole(), ratio(2000, 1));
    assert_eq!(time_normal.v_128th(), ratio(125, 8));

    let time_dotted = builder.in_ms().dotted();
    assert_eq!(time_dotted.v_quarter(), ratio(750, 1));
    assert_eq!(time_dotted.v_whole(), ratio(3000, 1));

    let time_triplet = builder.in_ms().triplet();
    assert_eq!(time_triplet.v_quarter(), ratio(1000, 3));
    assert_eq!(time_triplet.v_whole(), ratio(4000, 3));

    let rate_normal = builder.in_hz().normal();
    assert_eq!(rate_normal.v_quarter(), ratio(2, 1));
    assert_eq!(rate_normal.v_whole(), ratio(1, 2));
    assert_eq!(rate_normal.v_128th(), ratio(64, 1));

    let rate_dotted = builder.in_hz().dotted();
    assert_eq!(rate_dotted.v_quarter(), ratio(3, 1));
    assert_eq!(rate_dotted.v_whole(), ratio(3, 4));
}

#[test]
fn zero_tempo_is_invalid() {
    assert_eq!(DelayTimes::new(0, 1).err(), Some(InvalidTempo));
    assert_eq!(DelayTimes::new(0, 60).err(), Some(InvalidTempo));
}

#[test]
fn negative_tempo_is_invalid() {
    assert_eq!(DelayTimes::new(-1, 1).err(), Some(InvalidTempo));
    assert_eq!(DelayTimes::new(-120, 1).err(), Some(InvalidTempo));
    assert_eq!(DelayTimes::new(i64::MIN, 1).err(), Some(InvalidTempo));
}

#[test]
fn tempo_without_a_finite_value_is_invalid() {
    assert_eq!(DelayTimes::new(0, 0).err(), Some(InvalidTempo));
    assert_eq!(DelayTimes::new(120, 0).err(), Some(InvalidTempo));
    assert_eq!(DelayTimes::new(-120, 0).err(), Some(InvalidTempo));
}

#[test]
fn smallest_and_largest_tempos_are_valid() {
    let slow = DelayTimes::new(1, u64::MAX).unwrap();
    assert_eq!(
        slow.in_ms().dotted().v_whole(),
        ratio(360_000 * u64::MAX as u128, 1)
    );
    assert_eq!(
        slow.in_hz().triplet().v_128th(),
        ratio(16, 45 * u64::MAX as u128)
    );

    let fast = DelayTimes::new(i64::MAX, 1).unwrap();
    assert_eq!(
        fast.in_ms().normal().v_quarter(),
        ratio(60_000, i64::MAX as u128)
    );
    assert_eq!(
        fast.in_ms().triplet().v_128th(),
        ratio(1250, i64::MAX as u128)
    );
    assert_eq!(
        fast.in_hz().dotted().v_128th(),
        ratio(4 * i64::MAX as u128, 5)
    );
}

#[test]
fn modifiers_have_their_multipliers() {
    assert_eq!(RhythmicModifier::Normal.value(), ratio(1, 1));
    assert_eq!(RhythmicModifier::Dotted.value(), ratio(3, 2));
    assert_eq!(RhythmicModifier::Triplet.value(), ratio(2, 3));
}

#[test]
fn divisions_have_their_ratios() {
    assert_eq!(NoteDivision::Whole.value(), ratio(4, 1));
    assert_eq!(NoteDivision::Half.value(), ratio(2, 1));
    assert_eq!(NoteDivision::Quarter.value(), ratio(1, 1));
    assert_eq!(NoteDivision::Eighth.value(), ratio(1, 2));
    assert_eq!(NoteDivision::Sixteenth.value(), ratio(1, 4));
    assert_eq!(NoteDivision::ThirtySecond.value(), ratio(1, 8));
    assert_eq!(NoteDivision::SixtyFourth.value(), ratio(1, 16));
    assert_eq!(NoteDivision::HundredTwentyEighth.value(), ratio(1, 32));
}
