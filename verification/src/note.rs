//! The note value the sequencer consumes: a frequency, an amplitude
//! and an exact sample count.
//!
//! Frequencies are carried in millihertz and amplitudes in thousandths
//! of full scale, so the whole data model is exact integer arithmetic.
//! A frequency of `0` is a rest; a sample count of `0` is the sustain
//! sentinel, holding the note until an external stop.

use vstd::prelude::*;

use crate::errors::CompileError;

verus! {

/// Thousandths of a hertz in one hertz.
pub const MILLIHZ_PER_HZ: u64 = 1000;

/// An immutable (frequency, amplitude, sample count) triple.
#[derive(Clone, Copy, Debug, PartialEq, Eq, Structural)]
pub struct Note {
    /// Frequency in millihertz; `0` denotes a rest.
    pub frequency_millihz: u64,
    /// Linear gain in thousandths of full scale, at most `1000`.
    pub amplitude_per_mille: u32,
    /// Exact number of samples the note occupies; `0` means "hold
    /// indefinitely" (sustain).
    pub num_samples: u128,
}

/// How many samples a duration occupies: the duration is taken in
/// whole milliseconds, then `sample_rate × ms / 1000`, multiplying
/// before dividing so that short durations lose nothing.
pub open spec fn spec_num_samples(sample_rate: int, duration_nanos: int) -> int {
    sample_rate * (duration_nanos / (crate::duration::NANOS_PER_MILLI as int)) / (
    MILLIHZ_PER_HZ as int)
}

/// Whether a frequency in millihertz exceeds the Nyquist frequency —
/// half the sample rate — above which it cannot be represented.
pub open spec fn spec_violates_nyquist(frequency_millihz: int, sample_rate: int) -> bool {
    2 * frequency_millihz > sample_rate * (MILLIHZ_PER_HZ as int)
}

impl Note {
    /// Build a note from a frequency, an amplitude, the target sample
    /// rate and a duration in nanoseconds. A frequency above the
    /// Nyquist limit of the sample rate is rejected rather than left
    /// to alias.
    pub fn new(
        frequency_millihz: u64,
        amplitude_per_mille: u32,
        sample_rate: u32,
        duration_nanos: u64,
    ) -> (r: Result<Note, CompileError>)
        requires
            amplitude_per_mille <= 1000,
        ensures
            match r {
                Ok(note) => !spec_violates_nyquist(frequency_millihz as int, sample_rate as int)
                    && note == (Note {
                    frequency_millihz,
                    amplitude_per_mille,
                    num_samples: spec_num_samples(
                        sample_rate as int,
                        duration_nanos as int,
                    ) as u128,
                }),
                Err(e) => e == CompileError::NyquistViolation && spec_violates_nyquist(
                    frequency_millihz as int,
                    sample_rate as int,
                ),
            },
    {
        proof {
            assert((sample_rate as int) * 500 <= 0xFFFF_FFFFint * 500 && 2 * ((sample_rate as int)
                * 500) == (sample_rate as int) * 1000) by (nonlinear_arith)
                requires
                    sample_rate <= 0xFFFF_FFFF,
            ;
        }
        let nyquist_millihz: u64 = (sample_rate as u64) * (MILLIHZ_PER_HZ / 2);
        if frequency_millihz > nyquist_millihz {
            Err(CompileError::NyquistViolation)
        } else {
            let millis: u128 = (duration_nanos / crate::duration::NANOS_PER_MILLI) as u128;
            proof {
                assert((sample_rate as int) * (millis as int) < 0x1_0000_0000_0000_0000_0000_0000int)
                    by (nonlinear_arith)
                    requires
                        sample_rate <= 0xFFFF_FFFF && millis < 0x1_0000_0000_0000_0000,
                ;
            }
            let num_samples: u128 = (sample_rate as u128) * millis / (MILLIHZ_PER_HZ as u128);
            Ok(Note { frequency_millihz, amplitude_per_mille, num_samples })
        }
    }

    /// The same note held indefinitely: its sample count forced to the
    /// sustain sentinel `0`. Applying a fermata to the last note of a
    /// sequence is a caller-level policy, not the sequencer's.
    pub fn sustained(self) -> (n: Note)
        ensures
            n == (Note { num_samples: 0, ..self }),
    {
        Note { frequency_millihz: self.frequency_millihz, amplitude_per_mille: self.amplitude_per_mille, num_samples: 0 }
    }
}

} // verus!
