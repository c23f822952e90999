//! Compiling a sequence of textual tokens into notes.
//!
//! Each token is either a dynamics indication, which sets the loudness
//! of everything after it, or a note, which is resolved to a semitone
//! offset (or a pause), a duration, and the loudness in force. The
//! result still carries pitches as semitone offsets: turning an offset
//! into millihertz is the caller's `reference × 2^(offset/12)`
//! floating-point step, after which `build_notes` validates each
//! frequency against the Nyquist limit and fixes the sample counts.

use vstd::prelude::*;

use crate::duration::{get_dotting_duration, get_note_duration, lemma_dot_total_bounded,
    spec_dot_total, spec_note_duration_ms, NANOS_PER_MILLI};
use crate::errors::CompileError;
use crate::note::{spec_num_samples, spec_violates_nyquist, Note};
use crate::parse::{get_dynamic, parse_note_token, spec_dynamic_level, spec_token_dots,
    spec_token_letter, spec_token_octave, spec_token_ok, spec_token_octave_fits, spec_token_value,
    spec_token_sharps, spec_token_flats};
use crate::pitch::{semitone_offset, spec_letter_semitones, spec_semitone_offset,
    REFERENCE_OCTAVE};
use vstd::arithmetic::power2::is_pow2;

verus! {

/// The loudness notes sound at before any dynamics token: half of full
/// scale.
pub const DEFAULT_AMPLITUDE_PER_MILLE: u32 = 500;

/// A note as compiled from text: pitch still symbolic (a semitone
/// offset from the reference pitch, or a pause), loudness and duration
/// already resolved.
#[derive(Clone, Copy, Debug, PartialEq, Eq)]
pub struct CompiledNote {
    /// Semitone offset from the reference pitch, or `None` for a
    /// pause.
    pub pitch_semitones: Option<i128>,
    /// Loudness in thousandths of full scale.
    pub amplitude_per_mille: u32,
    /// Duration in nanoseconds.
    pub duration_nanos: u64,
}

/// The octave a token sounds in, defaulting to the reference octave.
pub open spec fn spec_token_octave_or_default(s: Seq<u8>) -> int {
    match spec_token_octave(s) {
        Some(v) => v as int,
        None => REFERENCE_OCTAVE as int,
    }
}

/// What compiling one note token yields: grammar errors first, then
/// the note value must be a power of two, then the letter (if the
/// token is not a pause) must be a note letter.
pub open spec fn spec_compile_note(s: Seq<u8>, amplitude: u32, tempo: int) -> Result<
    CompiledNote,
    CompileError,
> {
    if !(spec_token_ok(s) && spec_token_octave_fits(s)) {
        Err(CompileError::InvalidToken)
    } else if !is_pow2(spec_token_value(s) as int) {
        Err(CompileError::InvalidDuration)
    } else {
        let base = spec_note_duration_ms(spec_token_value(s) as int, tempo) * (
        NANOS_PER_MILLI as int);
        let duration = base + spec_dot_total(spec_token_dots(s), base as nat);
        match spec_token_letter(s) {
            None => Ok(
                CompiledNote {
                    pitch_semitones: None,
                    amplitude_per_mille: amplitude,
                    duration_nanos: duration as u64,
                },
            ),
            Some(letter) => match spec_letter_semitones(letter) {
                None => Err(CompileError::InvalidPitch),
                Some(ls) => Ok(
                    CompiledNote {
                        pitch_semitones: Some(
                            spec_semitone_offset(
                                ls,
                                spec_token_sharps(s) as int,
                                spec_token_flats(s) as int,
                                spec_token_octave_or_default(s),
                            ) as i128,
                        ),
                        amplitude_per_mille: amplitude,
                        duration_nanos: duration as u64,
                    },
                ),
            },
        }
    }
}

/// Compile one token as a note sounding at the given loudness.
pub fn compile_note(token: &[u8], amplitude_per_mille: u32, tempo: u32) -> (r: Result<
    CompiledNote,
    CompileError,
>)
    requires
        tempo >= 1,
    ensures
        r == spec_compile_note(token@, amplitude_per_mille, tempo as int),
{
    let t = match parse_note_token(token) {
        Ok(t) => t,
        Err(e) => {
            return Err(e);
        },
    };
    let base: u64 = match get_note_duration(t.note_value, tempo) {
        Ok(d) => d,
        Err(_) => {
            return Err(CompileError::InvalidDuration);
        },
    };
    proof {
        vstd::arithmetic::power2::lemma_pow2_pos(t.dots as nat);
        lemma_dot_total_bounded(t.dots as nat, base as nat);
        assert(spec_dot_total(t.dots as nat, base as nat) <= base);
    }
    let added: u64 = get_dotting_duration(t.dots, base);
    let duration: u64 = base + added;
    match t.letter {
        None => Ok(
            CompiledNote { pitch_semitones: None, amplitude_per_mille, duration_nanos: duration },
        ),
        Some(letter) => match semitone_offset(letter, t.sharps, t.flats, t.octave) {
            Ok(d) => Ok(
                CompiledNote {
                    pitch_semitones: Some(d),
                    amplitude_per_mille,
                    duration_nanos: duration,
                },
            ),
            Err(e) => Err(e),
        },
    }
}

/// What compiling a token sequence yields: dynamics tokens switch the
/// loudness carried forward, every other token compiles as a note, and
/// the first failing token decides the error.
pub open spec fn spec_compile_sequence(tokens: Seq<Seq<u8>>, amplitude: u32, tempo: int) -> Result<
    Seq<CompiledNote>,
    CompileError,
>
    decreases tokens.len(),
{
    if tokens.len() == 0 {
        Ok(Seq::empty())
    } else {
        match spec_dynamic_level(tokens[0]) {
            Some(level) => spec_compile_sequence(tokens.skip(1), level, tempo),
            None => match spec_compile_note(tokens[0], amplitude, tempo) {
                Err(e) => Err(e),
                Ok(note) => match spec_compile_sequence(tokens.skip(1), amplitude, tempo) {
                    Err(e) => Err(e),
                    Ok(rest) => Ok(seq![note] + rest),
                },
            },
        }
    }
}

/// Prepend a compiled prefix to the outcome of compiling the rest.
pub open spec fn spec_with_prefix(prefix: Seq<CompiledNote>, r: Result<
    Seq<CompiledNote>,
    CompileError,
>) -> Result<Seq<CompiledNote>, CompileError> {
    match r {
        Ok(rest) => Ok(prefix + rest),
        Err(e) => Err(e),
    }
}

/// Every note compiled under a loudness within scale stays within
/// scale: dynamics tokens only ever select one of the eight levels,
/// all of them at most full scale.
pub proof fn lemma_compiled_amplitudes(tokens: Seq<Seq<u8>>, amplitude: u32, tempo: int)
    requires
        amplitude <= 1000,
    ensures
        spec_compile_sequence(tokens, amplitude, tempo) matches Ok(notes) ==> forall|i: int|
            0 <= i < notes.len() ==> #[trigger] notes[i].amplitude_per_mille <= 1000,
    decreases tokens.len(),
{
    if tokens.len() > 0 {
        match spec_dynamic_level(tokens[0]) {
            Some(level) => {
                lemma_compiled_amplitudes(tokens.skip(1), level, tempo);
            },
            None => {
                lemma_compiled_amplitudes(tokens.skip(1), amplitude, tempo);
            },
        }
    }
}

/// Compile a token sequence, starting at the default loudness.
pub fn get_notes(tokens: &Vec<Vec<u8>>, tempo: u32) -> (r: Result<Vec<CompiledNote>, CompileError>)
    requires
        tempo >= 1,
    ensures
        match r {
            Ok(notes) => spec_compile_sequence(
                tokens.deep_view(),
                DEFAULT_AMPLITUDE_PER_MILLE,
                tempo as int,
            ) == Ok::<Seq<CompiledNote>, CompileError>(notes@) && forall|i: int|
                0 <= i < notes@.len() ==> #[trigger] notes@[i].amplitude_per_mille <= 1000,
            Err(e) => spec_compile_sequence(
                tokens.deep_view(),
                DEFAULT_AMPLITUDE_PER_MILLE,
                tempo as int,
            ) == Err::<Seq<CompiledNote>, CompileError>(e),
        },
{
    let ghost all: Seq<Seq<u8>> = tokens.deep_view();
    let mut out: Vec<CompiledNote> = Vec::new();
    let mut amplitude: u32 = DEFAULT_AMPLITUDE_PER_MILLE;
    let mut idx: usize = 0;
    proof {
        assert(all.skip(0) =~= all);
        match spec_compile_sequence(all, DEFAULT_AMPLITUDE_PER_MILLE, tempo as int) {
            Ok(rest) => {
                assert(Seq::<CompiledNote>::empty() + rest =~= rest);
            },
            Err(_) => {},
        }
    }
    while idx < tokens.len()
        invariant
            idx <= tokens@.len(),
            tempo >= 1,
            amplitude <= 1000,
            all == tokens.deep_view(),
            all.len() == tokens@.len(),
            spec_compile_sequence(all, DEFAULT_AMPLITUDE_PER_MILLE, tempo as int)
                == spec_with_prefix(out@, spec_compile_sequence(all.skip(idx as int), amplitude, tempo as int)),
        decreases tokens@.len() - idx,
    {
        proof {
            assert(all[idx as int] == tokens@[idx as int]@);
            assert(all.skip(idx as int)[0] == all[idx as int]);
            assert(all.skip(idx as int).skip(1) =~= all.skip(idx as int + 1));
        }
        let token: &Vec<u8> = &tokens[idx];
        let ghost prefix = out@;
        match get_dynamic(token.as_slice()) {
            Ok(level) => {
                amplitude = level;
            },
            Err(_) => {
                match compile_note(token.as_slice(), amplitude, tempo) {
                    Ok(note) => {
                        out.push(note);
                        proof {
                            match spec_compile_sequence(
                                all.skip(idx as int + 1),
                                amplitude,
                                tempo as int,
                            ) {
                                Ok(rest) => {
                                    assert(prefix + (seq![note] + rest) =~= prefix.push(note)
                                        + rest);
                                },
                                Err(_) => {},
                            }
                        }
                    },
                    Err(e) => {
                        return Err(e);
                    },
                }
            },
        }
        idx = idx + 1;
    }
    proof {
        assert(all.skip(idx as int) =~= Seq::<Seq<u8>>::empty());
        assert(out@ + Seq::<CompiledNote>::empty() =~= out@);
        lemma_compiled_amplitudes(all, DEFAULT_AMPLITUDE_PER_MILLE, tempo as int);
    }
    Ok(out)
}

/// What building the final notes yields: each compiled note paired
/// with the frequency the caller resolved for it, the first frequency
/// above the Nyquist limit deciding the error.
pub open spec fn spec_build_notes(
    compiled: Seq<CompiledNote>,
    freqs: Seq<u64>,
    sample_rate: int,
) -> Result<Seq<Note>, CompileError>
    decreases compiled.len(),
{
    if compiled.len() == 0 {
        Ok(Seq::empty())
    } else if spec_violates_nyquist(freqs[0] as int, sample_rate) {
        Err(CompileError::NyquistViolation)
    } else {
        let note = Note {
            frequency_millihz: freqs[0],
            amplitude_per_mille: compiled[0].amplitude_per_mille,
            num_samples: spec_num_samples(sample_rate, compiled[0].duration_nanos as int) as u128,
        };
        match spec_build_notes(compiled.skip(1), freqs.skip(1), sample_rate) {
            Ok(rest) => Ok(seq![note] + rest),
            Err(e) => Err(e),
        }
    }
}

/// Pair each compiled note with the frequency resolved for it — in
/// millihertz, `reference × 2^(pitch_semitones/12)` rounded, or zero
/// for a pause — and validate every frequency against the Nyquist
/// limit of the sample rate, before any audio is produced.
pub fn build_notes(compiled: &Vec<CompiledNote>, freqs: &Vec<u64>, sample_rate: u32) -> (r: Result<
    Vec<Note>,
    CompileError,
>)
    requires
        freqs@.len() == compiled@.len(),
        forall|i: int| 0 <= i < compiled@.len() ==> #[trigger] compiled@[i].amplitude_per_mille
            <= 1000,
    ensures
        match r {
            Ok(notes) => spec_build_notes(compiled@, freqs@, sample_rate as int) == Ok::<
                Seq<Note>,
                CompileError,
            >(notes@),
            Err(e) => spec_build_notes(compiled@, freqs@, sample_rate as int) == Err::<
                Seq<Note>,
                CompileError,
            >(e),
        },
{
    let mut out: Vec<Note> = Vec::new();
    let mut idx: usize = 0;
    proof {
        assert(compiled@.skip(0) =~= compiled@);
        assert(freqs@.skip(0) =~= freqs@);
        match spec_build_notes(compiled@, freqs@, sample_rate as int) {
            Ok(rest) => {
                assert(Seq::<Note>::empty() + rest =~= rest);
            },
            Err(_) => {},
        }
    }
    while idx < compiled.len()
        invariant
            idx <= compiled@.len(),
            freqs@.len() == compiled@.len(),
            forall|i: int| 0 <= i < compiled@.len() ==> #[trigger] compiled@[i].amplitude_per_mille
                <= 1000,
            spec_build_notes(compiled@, freqs@, sample_rate as int) == (match spec_build_notes(
                compiled@.skip(idx as int),
                freqs@.skip(idx as int),
                sample_rate as int,
            ) {
                Ok(rest) => Ok::<Seq<Note>, CompileError>(out@ + rest),
                Err(e) => Err::<Seq<Note>, CompileError>(e),
            }),
        decreases compiled@.len() - idx,
    {
        proof {
            assert(compiled@.skip(idx as int).skip(1) =~= compiled@.skip(idx as int + 1));
            assert(freqs@.skip(idx as int).skip(1) =~= freqs@.skip(idx as int + 1));
        }
        let c: CompiledNote = compiled[idx];
        let f: u64 = freqs[idx];
        let ghost prefix = out@;
        match Note::new(f, c.amplitude_per_mille, sample_rate, c.duration_nanos) {
            Ok(note) => {
                out.push(note);
                proof {
                    match spec_build_notes(
                        compiled@.skip(idx as int + 1),
                        freqs@.skip(idx as int + 1),
                        sample_rate as int,
                    ) {
                        Ok(rest) => {
                            assert(prefix + (seq![note] + rest) =~= prefix.push(note) + rest);
                        },
                        Err(_) => {},
                    }
                }
            },
            Err(e) => {
                return Err(e);
            },
        }
        idx = idx + 1;
    }
    proof {
        assert(compiled@.skip(idx as int) =~= Seq::<CompiledNote>::empty());
        assert(out@ + Seq::<Note>::empty() =~= out@);
    }
    Ok(out)
}

/// Hold the last note of a sequence until an external stop: force its
/// sample count to the sustain sentinel. This is the caller-level
/// fermata policy the sequencer itself knows nothing of.
pub fn apply_fermata(notes: &mut Vec<Note>)
    requires
        old(notes)@.len() > 0,
    ensures
        final(notes)@ == old(notes)@.update(
            old(notes)@.len() - 1,
            (Note { num_samples: 0, ..old(notes)@.last() }),
        ),
{
    let idx: usize = notes.len() - 1;
    let last: Note = notes[idx];
    let sustained = last.sustained();
    notes.set(idx, sustained);
}

} // verus!
