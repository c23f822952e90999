use toneseq::errors::CompileError;
use toneseq::pitch::semitone_offset;

/// Resolve a semitone offset to a frequency in hertz, as the embedding
/// application does: `reference × 2^(offset/12)`.
fn frequency_hz(tuning: f32, semitones: i128) -> f32 {
    tuning * 2f32.powf(semitones as f32 / 12.0)
}

#[test]
fn letter_table_matches_equal_temperament() {
    assert_eq!(semitone_offset(b'C', 0, 0, Some(4)), Ok(-9));
    assert_eq!(semitone_offset(b'D', 0, 0, Some(4)), Ok(-7));
    assert_eq!(semitone_offset(b'E', 0, 0, Some(4)), Ok(-5));
    assert_eq!(semitone_offset(b'F', 0, 0, Some(4)), Ok(-4));
    assert_eq!(semitone_offset(b'G', 0, 0, Some(4)), Ok(-2));
    assert_eq!(semitone_offset(b'A', 0, 0, Some(4)), Ok(0));
    assert_eq!(semitone_offset(b'B', 0, 0, Some(4)), Ok(2));
}

#[test]
fn letters_are_case_insensitive() {
    for (upper, lower) in [(b'A', b'a'), (b'B', b'b'), (b'C', b'c'), (b'D', b'd'), (b'E', b'e'), (b'F', b'f'), (b'G', b'g')] {
        assert_eq!(semitone_offset(upper, 1, 2, Some(5)), semitone_offset(lower, 1, 2, Some(5)));
    }
}

#[test]
fn accidentals_shift_one_semitone_each() {
    assert_eq!(semitone_offset(b'A', 1, 0, Some(4)), Ok(1));
    assert_eq!(semitone_offset(b'A', 0, 1, Some(4)), Ok(-1));
    assert_eq!(semitone_offset(b'A', 3, 1, Some(4)), Ok(2));
}

#[test]
fn missing_octave_defaults_to_reference() {
    assert_eq!(semitone_offset(b'A', 0, 0, None), semitone_offset(b'A', 0, 0, Some(4)));
}

#[test]
fn unknown_letter_is_invalid_pitch() {
    assert_eq!(semitone_offset(b'H', 0, 0, Some(4)), Err(CompileError::InvalidPitch));
    assert_eq!(semitone_offset(b'z', 0, 0, None), Err(CompileError::InvalidPitch));
}

#[test]
fn a4_resolves_to_440_hz() {
    let d = semitone_offset(b'A', 0, 0, Some(4)).unwrap();
    assert_eq!(d, 0);
    assert_eq!(frequency_hz(440.0, d), 440.0);
}

#[test]
fn octave_up_doubles_frequency() {
    // One octave is exactly twelve semitones; the resolved frequency
    // doubles to within floating-point tolerance.
    for letter in [b'a', b'b', b'c', b'd', b'e', b'f', b'g'] {
        for octave in 0..8u32 {
            let lo = semitone_offset(letter, 0, 0, Some(octave)).unwrap();
            let hi = semitone_offset(letter, 0, 0, Some(octave + 1)).unwrap();
            assert_eq!(hi, lo + 12);
            let f_lo = frequency_hz(440.0, lo);
            let f_hi = frequency_hz(440.0, hi);
            let ratio = f_hi / f_lo;
            assert!((ratio - 2.0).abs() < 1e-5, "octave ratio was {ratio}");
        }
    }
}
