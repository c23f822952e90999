use std::f32::consts::PI;

use toneseq::errors::CompileError;
use toneseq::note::Note;
use toneseq::player::{rescaled_phase, Player, SampleParams};

fn note(frequency_millihz: u64, amplitude_per_mille: u32, num_samples: u128) -> Note {
    Note { frequency_millihz, amplitude_per_mille, num_samples }
}

/// The sample value the audio callback computes from the player's
/// integer parameters.
fn sample_value(sp: &SampleParams, sample_rate: u32) -> f32 {
    let frequency = sp.frequency_millihz as f32 / 1000.0;
    let amplitude = sp.amplitude_per_mille as f32 / 1000.0;
    let t = sp.phase_position as f32 / sample_rate as f32;
    amplitude * (2.0 * PI * frequency * t).sin()
}

#[test]
fn empty_sequence_is_rejected() {
    assert!(matches!(Player::new(vec![], 48000), Err(CompileError::EmptySequence)));
}

#[test]
fn round_trip_yields_exactly_the_sample_count() {
    // A one-note sequence delivers its sample count and then the end
    // of the stream.
    let count: u128 = 24000;
    let mut player = Player::new(vec![note(440_000, 500, count)], 48000).unwrap();
    for _ in 0..count {
        assert!(player.get_next_sample().is_some());
    }
    assert!(player.get_next_sample().is_none());
    assert!(player.get_next_sample().is_none());
}

#[test]
fn every_note_yields_exactly_its_sample_count() {
    let notes = vec![note(440_000, 500, 3), note(880_000, 500, 2), note(220_000, 500, 4)];
    let mut player = Player::new(notes, 48000).unwrap();
    let mut emitted: Vec<u64> = Vec::new();
    while let Some(sp) = player.get_next_sample() {
        emitted.push(sp.frequency_millihz);
    }
    assert_eq!(
        emitted,
        vec![440_000, 440_000, 440_000, 880_000, 880_000, 220_000, 220_000, 220_000, 220_000]
    );
}

#[test]
fn phase_advances_by_one_within_a_note() {
    let mut player = Player::new(vec![note(440_000, 500, 5)], 48000).unwrap();
    for expected in 0..5u32 {
        let sp = player.get_next_sample().unwrap();
        assert_eq!(sp.phase_position, expected);
    }
}

#[test]
fn sustain_note_never_self_terminates() {
    // A sample count of zero holds the note for at least ten times the
    // sample rate's worth of pulls.
    let sample_rate: u32 = 48000;
    let mut player = Player::new(vec![note(440_000, 500, 0)], sample_rate).unwrap();
    for _ in 0..(10 * sample_rate) {
        assert!(player.get_next_sample().is_some());
    }
}

#[test]
fn rest_is_exact_silence_regardless_of_amplitude() {
    // A frequency of zero yields exactly 0.0 for every sample of the
    // rest, even at full amplitude.
    let sample_rate: u32 = 48000;
    let mut player = Player::new(vec![note(0, 1000, 100)], sample_rate).unwrap();
    for _ in 0..100 {
        let sp = player.get_next_sample().unwrap();
        assert_eq!(sp.frequency_millihz, 0);
        assert_eq!(sample_value(&sp, sample_rate), 0.0);
    }
    assert!(player.get_next_sample().is_none());
}

#[test]
fn boundary_between_equal_frequencies_is_continuous() {
    // Two consecutive notes of equal frequency: the jump across the
    // boundary is no larger than the largest per-sample increment of
    // the sine wave, `amplitude × 2π × frequency / sample_rate`.
    let sample_rate: u32 = 48000;
    let notes = vec![note(440_000, 500, 37), note(440_000, 500, 40)];
    let mut player = Player::new(notes, sample_rate).unwrap();
    let mut previous: Option<f32> = None;
    let bound = 0.5 * 2.0 * PI * 440.0 / 48000.0 * 1.001;
    for _ in 0..77 {
        let sp = player.get_next_sample().unwrap();
        let value = sample_value(&sp, sample_rate);
        if let Some(prev) = previous {
            assert!((value - prev).abs() <= bound, "jump {} exceeds {}", (value - prev).abs(), bound);
        }
        previous = Some(value);
    }
    assert!(player.get_next_sample().is_none());
}

#[test]
fn frequency_change_rescales_the_phase() {
    // Crossing from 440 Hz to 880 Hz with the phase at 100 rescales it
    // to round(440/880 × 100) = 50, and the pull after that resumes
    // counting from there.
    let notes = vec![note(440_000, 500, 100), note(880_000, 500, 10)];
    let mut player = Player::new(notes, 48000).unwrap();
    for _ in 0..100 {
        player.get_next_sample().unwrap();
    }
    let boundary = player.get_next_sample().unwrap();
    assert_eq!(boundary.frequency_millihz, 880_000);
    assert_eq!(boundary.phase_position, 50);
    let after = player.get_next_sample().unwrap();
    assert_eq!(after.phase_position, 50);
    let next = player.get_next_sample().unwrap();
    assert_eq!(next.phase_position, 51);
}

#[test]
fn rescaled_phase_rounds_half_up() {
    // round(3/2 × 3) = round(4.5) = 5.
    assert_eq!(rescaled_phase(3000, 2000, 3), 5);
    // round(1/3 × 4) = round(1.33) = 1.
    assert_eq!(rescaled_phase(1000, 3000, 4), 1);
    // Equal frequencies keep the phase.
    assert_eq!(rescaled_phase(440_000, 440_000, 123), 123);
}

#[test]
fn rescaled_phase_to_a_rest_restarts_at_zero() {
    assert_eq!(rescaled_phase(440_000, 0, 12345), 0);
}

#[test]
fn rescaled_phase_saturates_at_the_counter_limit() {
    assert_eq!(rescaled_phase(u64::MAX, 1, u32::MAX), u32::MAX);
}

#[test]
fn sample_rate_is_kept() {
    let player = Player::new(vec![note(440_000, 500, 1)], 44100).unwrap();
    assert_eq!(player.sample_rate(), 44100);
}
