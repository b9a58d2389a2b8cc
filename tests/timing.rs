use sequence_player::{calculate_step_duration, Sequence, Subdivision};

fn pattern(bpm: u32, denominator: Option<u32>) -> Sequence {
    Sequence {
        sequence_length: 4,
        bpm,
        trig_subdivision: denominator.map(|d| Subdivision { numerator: 16, denominator: d }),
        trigs: Vec::new(),
    }
}

#[test]
fn sixteenth_steps_at_120_bpm_last_125_ms() {
    assert_eq!(calculate_step_duration(&pattern(120, Some(16))), 125);
}

#[test]
fn missing_subdivision_defaults_to_sixteenths() {
    assert_eq!(calculate_step_duration(&pattern(120, None)), 125);
}

#[test]
fn eighth_steps_at_90_bpm_truncate() {
    // 240000 / (90 * 8) = 333.33...
    assert_eq!(calculate_step_duration(&pattern(90, Some(8))), 333);
}

#[test]
fn tempo_below_range_plays_at_60() {
    assert_eq!(calculate_step_duration(&pattern(10, Some(16))), 250);
    assert_eq!(calculate_step_duration(&pattern(0, Some(16))), calculate_step_duration(&pattern(60, Some(16))));
}

#[test]
fn tempo_above_range_plays_at_300() {
    assert_eq!(calculate_step_duration(&pattern(1000, Some(16))), 50);
    assert_eq!(
        calculate_step_duration(&pattern(u32::MAX, Some(16))),
        calculate_step_duration(&pattern(300, Some(16)))
    );
}

#[test]
fn duration_never_grows_with_tempo() {
    for denominator in [1u32, 4, 16, 24, 64] {
        let mut previous = u64::MAX;
        for bpm in 0..400u32 {
            let d = calculate_step_duration(&pattern(bpm, Some(denominator)));
            assert!(d <= previous);
            previous = d;
        }
    }
}

#[test]
fn zero_denominator_never_advances() {
    assert_eq!(calculate_step_duration(&pattern(120, Some(0))), u64::MAX);
}

#[test]
fn huge_denominator_gives_zero_duration() {
    assert_eq!(calculate_step_duration(&pattern(300, Some(u32::MAX))), 0);
}
