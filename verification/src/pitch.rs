//! Pitch resolution: from a note letter, accidentals and an octave to a
//! semitone offset from the reference pitch.
//!
//! In twelve-tone equal temperament the frequency of a pitch that lies
//! `d` semitones from the reference pitch is `reference × 2^(d/12)`.
//! This module computes `d` exactly; raising the offset to a frequency
//! is the embedding application's floating-point work.

use vstd::prelude::*;

use crate::ascii::{UPPER_A, UPPER_B, UPPER_C, UPPER_D, UPPER_E, UPPER_F, UPPER_G, LOWER_A, LOWER_B, LOWER_C, LOWER_D, LOWER_E, LOWER_F, LOWER_G};
use crate::errors::CompileError;

verus! {

/// The octave that the reference pitch (the letter `A`) lives in, and
/// the octave assumed when a note names none.
pub const REFERENCE_OCTAVE: u32 = 4;

/// Semitone distance of each note letter from `A` within one octave,
/// or `None` for a byte that is not a note letter. Letters are
/// case-insensitive ASCII `A`..`G`.
pub open spec fn spec_letter_semitones(letter: u8) -> Option<int> {
    if letter == UPPER_C || letter == LOWER_C {
        Some(-9int)
    } else if letter == UPPER_D || letter == LOWER_D {
        Some(-7int)
    } else if letter == UPPER_E || letter == LOWER_E {
        Some(-5int)
    } else if letter == UPPER_F || letter == LOWER_F {
        Some(-4int)
    } else if letter == UPPER_G || letter == LOWER_G {
        Some(-2int)
    } else if letter == UPPER_A || letter == LOWER_A {
        Some(0int)
    } else if letter == UPPER_B || letter == LOWER_B {
        Some(2int)
    } else {
        None
    }
}

/// The octave a note sounds in: the one it names, or the reference
/// octave when it names none.
pub open spec fn spec_octave_or_default(octave: Option<u32>) -> int {
    match octave {
        Some(o) => o as int,
        None => REFERENCE_OCTAVE as int,
    }
}

/// Net semitone offset from the reference pitch: the letter's offset
/// within the reference octave, shifted twelve semitones per octave,
/// raised one semitone per sharp and lowered one per flat.
pub open spec fn spec_semitone_offset(letter_sem: int, sharps: int, flats: int, octave: int) -> int {
    letter_sem + 12 * (octave - REFERENCE_OCTAVE) + sharps - flats
}

/// Resolve a symbolic pitch to its exact semitone offset from the
/// reference pitch. The resulting frequency is
/// `reference × 2^(offset/12)`; that final exponential is left to the
/// caller. An unrecognized letter is a recoverable `InvalidPitch`
/// error, never a crash.
pub fn semitone_offset(letter: u8, sharps: usize, flats: usize, octave: Option<u32>) -> (r: Result<
    i128,
    CompileError,
>)
    ensures
        match r {
            Ok(d) => spec_letter_semitones(letter) matches Some(ls) && d
                == spec_semitone_offset(ls, sharps as int, flats as int, spec_octave_or_default(octave)),
            Err(e) => e == CompileError::InvalidPitch && spec_letter_semitones(letter) is None,
        },
{
    let letter_sem: i128 = if letter == UPPER_C || letter == LOWER_C {
        -9
    } else if letter == UPPER_D || letter == LOWER_D {
        -7
    } else if letter == UPPER_E || letter == LOWER_E {
        -5
    } else if letter == UPPER_F || letter == LOWER_F {
        -4
    } else if letter == UPPER_G || letter == LOWER_G {
        -2
    } else if letter == UPPER_A || letter == LOWER_A {
        0
    } else if letter == UPPER_B || letter == LOWER_B {
        2
    } else {
        return Err(CompileError::InvalidPitch);
    };
    let octave_num: i128 = match octave {
        Some(o) => o as i128,
        None => REFERENCE_OCTAVE as i128,
    };
    Ok(letter_sem + 12 * (octave_num - REFERENCE_OCTAVE as i128) + sharps as i128 - flats as i128)
}

/// Raising the octave by one raises the semitone offset by exactly
/// twelve. Since a pitch's frequency is `reference × 2^(offset/12)`,
/// twelve more semitones double the frequency exactly.
pub proof fn lemma_octave_doubles(letter_sem: int, sharps: int, flats: int, octave: int)
    ensures
        spec_semitone_offset(letter_sem, sharps, flats, octave + 1) == spec_semitone_offset(
            letter_sem,
            sharps,
            flats,
            octave,
        ) + 12,
{
}

} // verus!
