use toneseq::duration::{get_dotting_duration, get_note_duration};

#[test]
fn quarter_note_at_120_bpm_is_500_ms() {
    // 120 beats per minute, one beat per quarter note: 500 ms.
    assert_eq!(get_note_duration(4, 120).unwrap(), 500_000_000);
}

#[test]
fn whole_half_eighth_at_120_bpm() {
    assert_eq!(get_note_duration(1, 120).unwrap(), 2_000_000_000);
    assert_eq!(get_note_duration(2, 120).unwrap(), 1_000_000_000);
    assert_eq!(get_note_duration(8, 120).unwrap(), 250_000_000);
    assert_eq!(get_note_duration(16, 120).unwrap(), 125_000_000);
}

#[test]
fn duration_is_inverse_in_note_value() {
    // Doubling the note value halves the duration.
    let mut value: u32 = 1;
    while value <= 32 {
        let d = get_note_duration(value, 90).unwrap();
        let d2 = get_note_duration(2 * value, 90).unwrap();
        assert_eq!(d2, d / 1_000_000 / 2 * 1_000_000);
        value *= 2;
    }
}

#[test]
fn duration_is_inverse_in_tempo() {
    // Doubling the tempo halves the duration.
    assert_eq!(get_note_duration(4, 60).unwrap(), 1_000_000_000);
    assert_eq!(get_note_duration(4, 240).unwrap(), 250_000_000);
    // And the milliseconds round down: 240000 / (7 × 4) = 8571 ms.
    assert_eq!(get_note_duration(4, 7).unwrap(), 8_571_000_000);
}

#[test]
fn non_power_of_two_is_rejected() {
    for value in [0u32, 3, 5, 6, 7, 9, 12, 100] {
        let r = get_note_duration(value, 120);
        assert!(r.is_err());
        assert_eq!(r.unwrap_err().message(), "note value is not a power of two");
    }
}

#[test]
fn dotted_quarter_is_exactly_one_and_a_half() {
    // A dotted quarter equals base × 1.5 exactly.
    let base = get_note_duration(4, 120).unwrap();
    let added = get_dotting_duration(1, base);
    assert_eq!(added, base / 2);
    assert_eq!(base + added, 750_000_000);
    assert_eq!(2 * (base + added), 3 * base);
}

#[test]
fn each_dot_adds_half_the_previous_addition() {
    let base: u64 = 1_600_000_000;
    assert_eq!(get_dotting_duration(0, base), 0);
    assert_eq!(get_dotting_duration(1, base), 800_000_000);
    assert_eq!(get_dotting_duration(2, base), 1_200_000_000);
    assert_eq!(get_dotting_duration(3, base), 1_400_000_000);
    assert_eq!(get_dotting_duration(4, base), 1_500_000_000);
}

#[test]
fn dotting_rounds_odd_nanos_down() {
    assert_eq!(get_dotting_duration(2, 7), 3 + 1);
    assert_eq!(get_dotting_duration(1, 1), 0);
}
