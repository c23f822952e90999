//! Duration resolution: from a note value and a tempo to a wall-clock
//! duration in nanoseconds, plus the extra time added by dots.
//!
//! A quarter note (`note_value = 4`) is one beat, so one beat lasts
//! `60000 / tempo` milliseconds and a whole note four times that. The
//! base duration is therefore `240000 / (tempo × note_value)`
//! milliseconds, rounded down to whole milliseconds, and is carried as
//! nanoseconds so that dotting loses nothing.

use vstd::prelude::*;

use vstd::arithmetic::div_mod::lemma_div_denominator;
use vstd::arithmetic::power2::is_pow2;
use vstd::arithmetic::power2::lemma_pow2_pos;
use vstd::arithmetic::power2::lemma_pow2_strictly_increases;
use vstd::arithmetic::power2::lemma_pow2_unfold;
use vstd::arithmetic::power2::pow2;

use crate::errors::ArgumentParseError;

verus! {

/// Nanoseconds in one millisecond.
pub const NANOS_PER_MILLI: u64 = 1_000_000;

/// Milliseconds a whole note lasts at one beat per minute, a quarter
/// note being one beat: `4 × 60000`.
pub const WHOLE_NOTE_MS_AT_ONE_BPM: u64 = 240_000;

/// Base duration of a note in whole milliseconds: a whole note lasts
/// `240000 / tempo` milliseconds, and the note value divides it.
pub open spec fn spec_note_duration_ms(note_value: int, tempo: int) -> int {
    WHOLE_NOTE_MS_AT_ONE_BPM as int / (tempo * note_value)
}

/// The duration added by `num_dots` dots: each dot adds half of the
/// previously added value, starting from half the base duration, each
/// term rounded down to whole nanoseconds.
pub open spec fn spec_dot_total(num_dots: nat, base_nanos: nat) -> nat
    decreases num_dots,
{
    if num_dots == 0 {
        0
    } else {
        spec_dot_total((num_dots - 1) as nat, base_nanos) + base_nanos / pow2(num_dots)
    }
}

/// The dotting terms never add up to the base duration itself:
/// `base/2 + base/4 + ... + base/2^n` stays at least `base/2^n` short
/// of `base`.
pub proof fn lemma_dot_total_bounded(num_dots: nat, base_nanos: nat)
    ensures
        spec_dot_total(num_dots, base_nanos) + base_nanos / pow2(num_dots) <= base_nanos,
    decreases num_dots,
{
    if num_dots == 0 {
        assert(pow2(0) == 1) by {
            vstd::arithmetic::power2::lemma2_to64();
        }
    } else {
        lemma_dot_total_bounded((num_dots - 1) as nat, base_nanos);
        lemma_pow2_unfold(num_dots);
        lemma_pow2_pos((num_dots - 1) as nat);
        assert(base_nanos / pow2(num_dots) + base_nanos / pow2(num_dots) <= base_nanos / pow2(
            (num_dots - 1) as nat,
        )) by {
            let h = base_nanos / pow2(num_dots);
            lemma_div_denominator(base_nanos as int, pow2((num_dots - 1) as nat) as int, 2);
            assert(h == (base_nanos / pow2((num_dots - 1) as nat)) / 2);
        }
    }
}

/// Whether `note_value` is a power of two, decided by halving. The
/// contract is vstd's recursive `is_pow2`.
fn is_power_of_two(note_value: u32) -> (r: bool)
    ensures
        r == is_pow2(note_value as int),
{
    proof {
        reveal(is_pow2);
    }
    if note_value == 0 {
        return false;
    }
    let mut x: u32 = note_value;
    while x % 2 == 0
        invariant
            1 <= x <= note_value,
            is_pow2(note_value as int) == is_pow2(x as int),
        decreases x,
    {
        proof {
            reveal(is_pow2);
        }
        x = x / 2;
    }
    proof {
        reveal(is_pow2);
    }
    x == 1
}

/// Resolve a note value and a tempo to a duration in nanoseconds.
///
/// The note value must be a power of two (1 a whole note, 2 a half,
/// 4 a quarter, ...); any other value is a recoverable error. The
/// duration is `240000 / (tempo × note_value)` whole milliseconds.
pub fn get_note_duration(note_value: u32, tempo: u32) -> (r: Result<u64, ArgumentParseError>)
    requires
        tempo >= 1,
    ensures
        match r {
            Ok(d) => is_pow2(note_value as int) && d == spec_note_duration_ms(
                note_value as int,
                tempo as int,
            ) * NANOS_PER_MILLI && d <= 240_000_000_000,
            Err(e) => !is_pow2(note_value as int) && e@ == "note value is not a power of two"@,
        },
{
    if !is_power_of_two(note_value) {
        return Err(ArgumentParseError::new("note value is not a power of two"));
    }
    proof {
        reveal(is_pow2);
        assert(note_value >= 1);
        assert((tempo as int) * (note_value as int) < 0x1_0000_0000_0000_0000 && (tempo as int) * (
        note_value as int) >= 1) by (nonlinear_arith)
            requires
                1 <= tempo < 0x1_0000_0000 && 1 <= note_value < 0x1_0000_0000,
        ;
    }
    let divisor: u64 = (tempo as u64) * (note_value as u64);
    let ms: u64 = WHOLE_NOTE_MS_AT_ONE_BPM / divisor;
    proof {
        vstd::arithmetic::div_mod::lemma_div_nonincreasing(
            WHOLE_NOTE_MS_AT_ONE_BPM as int,
            divisor as int,
        );
    }
    Ok(ms * NANOS_PER_MILLI)
}

/// The duration added to `note_duration` nanoseconds by `num_dots`
/// dots: the first dot adds half the base duration, and every further
/// dot half of what the previous one added.
pub fn get_dotting_duration(num_dots: usize, note_duration: u64) -> (r: u64)
    requires
        num_dots <= 4,
    ensures
        r == spec_dot_total(num_dots as nat, note_duration as nat),
{
    proof {
        vstd::arithmetic::power2::lemma2_to64();
    }
    let mut added: u64 = 0;
    let mut divisor: u64 = 1;
    let mut i: usize = 0;
    while i < num_dots
        invariant
            i <= num_dots <= 4,
            divisor == pow2(i as nat),
            added == spec_dot_total(i as nat, note_duration as nat),
            added + note_duration as nat / pow2(i as nat) <= note_duration,
        decreases num_dots - i,
    {
        proof {
            lemma_pow2_unfold((i + 1) as nat);
            lemma_pow2_pos(i as nat);
            lemma_div_denominator(note_duration as int, pow2(i as nat) as int, 2);
            lemma_dot_total_bounded((i + 1) as nat, note_duration as nat);
            lemma_pow2_strictly_increases(i as nat, 4);
            vstd::arithmetic::power2::lemma2_to64();
        }
        divisor = divisor * 2;
        added = added + note_duration / divisor;
        i = i + 1;
    }
    added
}

/// The base duration is inversely proportional to the note value:
/// doubling the note value halves the resolved milliseconds.
pub proof fn lemma_duration_halves_with_note_value(note_value: int, tempo: int)
    requires
        note_value >= 1,
        tempo >= 1,
    ensures
        spec_note_duration_ms(2 * note_value, tempo) == spec_note_duration_ms(note_value, tempo)
            / 2,
{
    assert(tempo * note_value >= 1) by (nonlinear_arith)
        requires
            tempo >= 1 && note_value >= 1,
    ;
    lemma_div_denominator(WHOLE_NOTE_MS_AT_ONE_BPM as int, tempo * note_value, 2);
    assert(tempo * (2 * note_value) == (tempo * note_value) * 2) by (nonlinear_arith);
}

/// The base duration is directly proportional to `1/tempo`: doubling
/// the tempo halves the resolved milliseconds.
pub proof fn lemma_duration_halves_with_tempo(note_value: int, tempo: int)
    requires
        note_value >= 1,
        tempo >= 1,
    ensures
        spec_note_duration_ms(note_value, 2 * tempo) == spec_note_duration_ms(note_value, tempo)
            / 2,
{
    assert(tempo * note_value >= 1) by (nonlinear_arith)
        requires
            tempo >= 1 && note_value >= 1,
    ;
    lemma_div_denominator(WHOLE_NOTE_MS_AT_ONE_BPM as int, tempo * note_value, 2);
    assert((2 * tempo) * note_value == (tempo * note_value) * 2) by (nonlinear_arith);
}

/// A single dot extends an even base duration to exactly one and a
/// half times the base: `base + base/2 == 3×base/2`, with nothing
/// rounded away. Durations from `get_note_duration` are whole
/// milliseconds of nanoseconds, hence always even.
pub proof fn lemma_single_dot_is_exact(base_nanos: nat)
    requires
        base_nanos % 2 == 0,
    ensures
        base_nanos + spec_dot_total(1, base_nanos) == 3 * base_nanos / 2,
        (3 * base_nanos) % 2 == 0,
{
    vstd::arithmetic::power2::lemma2_to64();
    assert(spec_dot_total(0, base_nanos) == 0);
    assert(spec_dot_total(1, base_nanos) == base_nanos / pow2(1));
    let h = base_nanos as int / 2int;
    assert(base_nanos == 2 * h);
    assert(3 * base_nanos == 2 * (3 * h));
    assert(2 * (3 * h) / 2 == 3 * h) by (nonlinear_arith);
}

} // verus!
