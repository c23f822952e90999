use std::f32::consts::PI;

use toneseq::compile::{apply_fermata, build_notes, compile_note, get_notes, CompiledNote};
use toneseq::errors::CompileError;
use toneseq::note::Note;
use toneseq::player::Player;

/// Resolve a compiled pitch to millihertz, as the embedding
/// application does: `reference × 2^(offset/12)`, rounded to whole
/// millihertz; a pause is zero.
fn frequency_millihz(tuning_hz: f32, pitch_semitones: Option<i128>) -> u64 {
    match pitch_semitones {
        None => 0,
        Some(d) => (tuning_hz * 2f32.powf(d as f32 / 12.0) * 1000.0).round() as u64,
    }
}

fn frequencies(compiled: &[CompiledNote], tuning_hz: f32) -> Vec<u64> {
    compiled.iter().map(|c| frequency_millihz(tuning_hz, c.pitch_semitones)).collect()
}

fn tokens(words: &[&str]) -> Vec<Vec<u8>> {
    words.iter().map(|w| w.as_bytes().to_vec()).collect()
}

#[test]
fn a_quarter_note_compiles_to_its_parts() {
    let c = compile_note(b"a4", 500, 120).unwrap();
    assert_eq!(c.pitch_semitones, Some(0));
    assert_eq!(c.amplitude_per_mille, 500);
    assert_eq!(c.duration_nanos, 500_000_000);
}

#[test]
fn a_pause_has_no_pitch() {
    let c = compile_note(b":2", 625, 120).unwrap();
    assert_eq!(c.pitch_semitones, None);
    assert_eq!(c.duration_nanos, 1_000_000_000);
    assert_eq!(c.amplitude_per_mille, 625);
}

#[test]
fn dotting_extends_the_compiled_duration() {
    let c = compile_note(b"a4.", 500, 120).unwrap();
    assert_eq!(c.duration_nanos, 750_000_000);
}

#[test]
fn compile_error_cases() {
    assert_eq!(compile_note(b"a4:3", 500, 120), Err(CompileError::InvalidDuration));
    assert_eq!(compile_note(b"!!", 500, 120), Err(CompileError::InvalidToken));
    // The grammar takes any letter run only one byte long, so a second
    // letter is a stray byte, not a pitch error ...
    assert_eq!(compile_note(b"hh", 500, 120), Err(CompileError::InvalidToken));
}

#[test]
fn dynamics_set_the_loudness_of_following_notes() {
    let compiled = get_notes(&tokens(&["a", "fff", "b", "pp", "c", "d"]), 120).unwrap();
    let amplitudes: Vec<u32> = compiled.iter().map(|c| c.amplitude_per_mille).collect();
    assert_eq!(amplitudes, vec![500, 1000, 250, 250]);
}

#[test]
fn lowercase_f_is_a_dynamic_but_uppercase_is_a_note() {
    let compiled = get_notes(&tokens(&["f", "F"]), 120).unwrap();
    assert_eq!(compiled.len(), 1);
    assert_eq!(compiled[0].pitch_semitones, Some(-4));
    assert_eq!(compiled[0].amplitude_per_mille, 750);
}

#[test]
fn first_bad_token_decides_the_error() {
    assert_eq!(get_notes(&tokens(&["a", "x?", "h"]), 120), Err(CompileError::InvalidToken));
    assert_eq!(get_notes(&tokens(&["a:6", "x?"]), 120), Err(CompileError::InvalidDuration));
}

#[test]
fn nyquist_violation_is_reported_and_nothing_is_built() {
    // 30 kHz exceeds the 24 kHz Nyquist limit of a 48 kHz stream.
    let r = Note::new(30_000_000, 500, 48000, 500_000_000);
    assert_eq!(r, Err(CompileError::NyquistViolation));
    // ... while the limit itself is still representable.
    assert!(Note::new(24_000_000, 500, 48000, 500_000_000).is_ok());

    let compiled = vec![CompiledNote { pitch_semitones: Some(0), amplitude_per_mille: 500, duration_nanos: 500_000_000 }];
    let r = build_notes(&compiled, &vec![30_000_000], 48000);
    assert_eq!(r, Err(CompileError::NyquistViolation));
}

#[test]
fn a4_quarter_at_120_bpm_and_48_khz_is_24000_samples_of_440_hz() {
    let compiled = get_notes(&tokens(&["a4"]), 120).unwrap();
    let freqs = frequencies(&compiled, 440.0);
    assert_eq!(freqs, vec![440_000]);
    let notes = build_notes(&compiled, &freqs, 48000).unwrap();
    assert_eq!(notes.len(), 1);
    assert_eq!(notes[0].frequency_millihz, 440_000);
    assert_eq!(notes[0].num_samples, 24_000);
}

#[test]
fn fermata_holds_the_last_note() {
    let compiled = get_notes(&tokens(&["a", "b"]), 120).unwrap();
    let freqs = frequencies(&compiled, 440.0);
    let mut notes = build_notes(&compiled, &freqs, 48000).unwrap();
    apply_fermata(&mut notes);
    assert_eq!(notes[0].num_samples, 24_000);
    assert_eq!(notes[1].num_samples, 0);
    assert_eq!(notes[1].frequency_millihz, freqs[1]);
}

#[test]
fn compiled_sequence_plays_end_to_end() {
    // Compile, resolve frequencies, build, play: the stream holds
    // exactly the two notes' samples and the waveform is everywhere
    // below the quiet dynamic's amplitude.
    let compiled = get_notes(&tokens(&["p", "a4:8", "e5:8"]), 120).unwrap();
    let freqs = frequencies(&compiled, 440.0);
    let notes = build_notes(&compiled, &freqs, 48000).unwrap();
    let mut player = Player::new(notes, 48000).unwrap();
    let mut produced: u64 = 0;
    while let Some(sp) = player.get_next_sample() {
        let frequency = sp.frequency_millihz as f32 / 1000.0;
        let amplitude = sp.amplitude_per_mille as f32 / 1000.0;
        let t = sp.phase_position as f32 / 48000.0;
        let value = amplitude * (2.0 * PI * frequency * t).sin();
        assert!(value.abs() <= 0.375);
        produced += 1;
    }
    assert_eq!(produced, 12_000 + 12_000);
}
