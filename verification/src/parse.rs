//! The note-token grammar, and dynamics tokens.
//!
//! A note token is, in order: an optional letter `a`..`g` (either
//! case), any number of accidentals (`#` sharp, `b` flat), an optional
//! octave number, an optional `:` followed by a one- or two-digit note
//! value, and up to four dots. A token with no letter is a pause. A
//! dynamics token is one of `ppp pp p mp mf f ff fff` and sets the
//! loudness of the notes that follow it.

use vstd::prelude::*;

use vstd::arithmetic::div_mod::lemma_fundamental_div_mod;

use crate::ascii::{COLON, DIGIT_NINE, DIGIT_ZERO, DOT, HASH, LOWER_A, LOWER_B, LOWER_F, LOWER_G,
    LOWER_M, LOWER_P, UPPER_A, UPPER_G};
use crate::errors::CompileError;

verus! {

/// The note value assumed when a token names none: a quarter note.
pub const DEFAULT_NOTE_VALUE: u32 = 4;

/// Whether a byte is a note letter, `A`..`G` in either case.
pub open spec fn spec_is_letter(c: u8) -> bool {
    (UPPER_A <= c && c <= UPPER_G) || (LOWER_A <= c && c <= LOWER_G)
}

/// Whether a byte is an accidental: `#` (sharp) or `b` (flat).
pub open spec fn spec_is_accidental(c: u8) -> bool {
    c == HASH || c == LOWER_B
}

/// Whether a byte is a decimal digit.
pub open spec fn spec_is_digit(c: u8) -> bool {
    DIGIT_ZERO <= c && c <= DIGIT_NINE
}

/// Where the run of accidentals beginning at `i` ends.
pub open spec fn spec_accidental_run_end(s: Seq<u8>, i: int) -> int
    decreases s.len() - i,
{
    if i < 0 || i >= s.len() {
        i
    } else if spec_is_accidental(s[i]) {
        spec_accidental_run_end(s, i + 1)
    } else {
        i
    }
}

/// Where the run of digits beginning at `i` ends.
pub open spec fn spec_digit_run_end(s: Seq<u8>, i: int) -> int
    decreases s.len() - i,
{
    if i < 0 || i >= s.len() {
        i
    } else if spec_is_digit(s[i]) {
        spec_digit_run_end(s, i + 1)
    } else {
        i
    }
}

/// Where the run of dots beginning at `i` ends.
pub open spec fn spec_dot_run_end(s: Seq<u8>, i: int) -> int
    decreases s.len() - i,
{
    if i < 0 || i >= s.len() {
        i
    } else if s[i] == DOT {
        spec_dot_run_end(s, i + 1)
    } else {
        i
    }
}

/// End of the letter part: one byte when the token starts with a note
/// letter, nothing otherwise.
pub open spec fn spec_letter_end(s: Seq<u8>) -> int {
    if s.len() > 0 && spec_is_letter(s[0]) {
        1
    } else {
        0
    }
}

/// End of the accidentals part.
pub open spec fn spec_acc_end(s: Seq<u8>) -> int {
    spec_accidental_run_end(s, spec_letter_end(s))
}

/// End of the octave digits.
pub open spec fn spec_octave_end(s: Seq<u8>) -> int {
    spec_digit_run_end(s, spec_acc_end(s))
}

/// Whether the token carries an explicit `:value` part.
pub open spec fn spec_has_value(s: Seq<u8>) -> bool {
    spec_octave_end(s) < s.len() && s[spec_octave_end(s)] == COLON
}

/// End of the note-value digits (only meaningful after a `:`).
pub open spec fn spec_value_end(s: Seq<u8>) -> int {
    spec_digit_run_end(s, spec_octave_end(s) + 1)
}

/// Where the trailing dots begin.
pub open spec fn spec_dots_start(s: Seq<u8>) -> int {
    if spec_has_value(s) {
        spec_value_end(s)
    } else {
        spec_octave_end(s)
    }
}

/// Where the trailing dots end.
pub open spec fn spec_dots_end(s: Seq<u8>) -> int {
    spec_dot_run_end(s, spec_dots_start(s))
}

/// Whether a byte string belongs to the note-token grammar: an
/// explicit note value has one or two digits, at most four dots
/// follow, and nothing else is left over.
pub open spec fn spec_token_ok(s: Seq<u8>) -> bool {
    &&& (spec_has_value(s) ==> 1 <= spec_value_end(s) - (spec_octave_end(s) + 1) <= 2)
    &&& spec_dots_end(s) == s.len()
    &&& spec_dots_end(s) - spec_dots_start(s) <= 4
}

/// The number the decimal digits `s[i..j]` spell, the empty run
/// spelling zero.
pub open spec fn spec_digits_value(s: Seq<u8>, i: int, j: int) -> nat
    decreases j - i,
{
    if j <= i {
        0
    } else {
        spec_digits_value(s, i, j - 1) * 10 + (s[j - 1] - DIGIT_ZERO) as nat
    }
}

/// How many times the byte `c` occurs in `s[i..j]`.
pub open spec fn spec_count_byte(s: Seq<u8>, i: int, j: int, c: u8) -> nat
    decreases j - i,
{
    if j <= i {
        0
    } else {
        spec_count_byte(s, i, j - 1, c) + if s[j - 1] == c {
            1nat
        } else {
            0nat
        }
    }
}

/// The token's letter, if it has one; a token without one is a pause.
pub open spec fn spec_token_letter(s: Seq<u8>) -> Option<u8> {
    if spec_letter_end(s) == 1 {
        Some(s[0])
    } else {
        None
    }
}

/// How many sharps the token carries.
pub open spec fn spec_token_sharps(s: Seq<u8>) -> nat {
    spec_count_byte(s, spec_letter_end(s), spec_acc_end(s), HASH)
}

/// How many flats the token carries.
pub open spec fn spec_token_flats(s: Seq<u8>) -> nat {
    spec_count_byte(s, spec_letter_end(s), spec_acc_end(s), LOWER_B)
}

/// The octave number the token names, if any.
pub open spec fn spec_token_octave(s: Seq<u8>) -> Option<nat> {
    if spec_octave_end(s) > spec_acc_end(s) {
        Some(spec_digits_value(s, spec_acc_end(s), spec_octave_end(s)))
    } else {
        None
    }
}

/// The note value the token names, or a quarter note when it names
/// none.
pub open spec fn spec_token_value(s: Seq<u8>) -> nat {
    if spec_has_value(s) {
        spec_digits_value(s, spec_octave_end(s) + 1, spec_value_end(s))
    } else {
        DEFAULT_NOTE_VALUE as nat
    }
}

/// How many dots the token carries.
pub open spec fn spec_token_dots(s: Seq<u8>) -> nat {
    (spec_dots_end(s) - spec_dots_start(s)) as nat
}

/// An octave number beyond the 32-bit range is rejected rather than
/// wrapped.
pub open spec fn spec_token_octave_fits(s: Seq<u8>) -> bool {
    spec_token_octave(s) matches Some(v) ==> v <= u32::MAX
}

/// A note token, parsed: the symbolic fields the resolvers work from.
#[derive(Clone, Copy, Debug, PartialEq, Eq)]
pub struct NoteToken {
    /// The note letter, or `None` for a pause.
    pub letter: Option<u8>,
    /// Number of `#` accidentals.
    pub sharps: usize,
    /// Number of `b` accidentals.
    pub flats: usize,
    /// The octave number, or `None` for the reference octave.
    pub octave: Option<u32>,
    /// Divisor of the whole note: the token's `:value`, or 4.
    pub note_value: u32,
    /// Number of dots extending the duration.
    pub dots: usize,
}

/// Whether a parsed token carries exactly the fields the grammar reads
/// out of the byte string.
pub open spec fn spec_token_matches(t: NoteToken, s: Seq<u8>) -> bool {
    &&& t.letter == spec_token_letter(s)
    &&& t.sharps as nat == spec_token_sharps(s)
    &&& t.flats as nat == spec_token_flats(s)
    &&& (match (t.octave, spec_token_octave(s)) {
        (Some(a), Some(b)) => a as nat == b,
        (None, None) => true,
        _ => false,
    })
    &&& t.note_value as nat == spec_token_value(s)
    &&& t.dots as nat == spec_token_dots(s)
}

/// The loudness a dynamics token names, in thousandths of full scale:
/// the eight indications from `ppp` up to `fff` divide full scale into
/// eight even steps.
pub open spec fn spec_dynamic_level(s: Seq<u8>) -> Option<u32> {
    if s == seq![LOWER_P, LOWER_P, LOWER_P] {
        Some(125u32)
    } else if s == seq![LOWER_P, LOWER_P] {
        Some(250u32)
    } else if s == seq![LOWER_P] {
        Some(375u32)
    } else if s == seq![LOWER_M, LOWER_P] {
        Some(500u32)
    } else if s == seq![LOWER_M, LOWER_F] {
        Some(625u32)
    } else if s == seq![LOWER_F] {
        Some(750u32)
    } else if s == seq![LOWER_F, LOWER_F] {
        Some(875u32)
    } else if s == seq![LOWER_F, LOWER_F, LOWER_F] {
        Some(1000u32)
    } else {
        None
    }
}

/// Longer digit runs spell numbers at least as large.
proof fn lemma_digits_value_monotone(s: Seq<u8>, from: int, i: int, j: int)
    requires
        from <= i <= j,
    ensures
        spec_digits_value(s, from, j) >= spec_digits_value(s, from, i),
    decreases j - i,
{
    if j > i {
        lemma_digits_value_monotone(s, from, i, j - 1);
    }
}

/// Scan to the end of the run of accidentals starting at `start`.
fn find_acc_end(s: &[u8], start: usize) -> (e: usize)
    requires
        start <= s@.len(),
    ensures
        start <= e <= s@.len(),
        e as int == spec_accidental_run_end(s@, start as int),
{
    let mut i: usize = start;
    while i < s.len() && (s[i] == HASH || s[i] == LOWER_B)
        invariant
            start <= i <= s@.len(),
            spec_accidental_run_end(s@, start as int) == spec_accidental_run_end(s@, i as int),
        decreases s@.len() - i,
    {
        i = i + 1;
    }
    i
}

/// Scan to the end of the run of digits starting at `start`.
fn find_digit_end(s: &[u8], start: usize) -> (e: usize)
    requires
        start <= s@.len(),
    ensures
        start <= e <= s@.len(),
        e as int == spec_digit_run_end(s@, start as int),
        forall|k: int| start <= k < e ==> spec_is_digit(#[trigger] s@[k]),
{
    let mut i: usize = start;
    while i < s.len() && DIGIT_ZERO <= s[i] && s[i] <= DIGIT_NINE
        invariant
            start <= i <= s@.len(),
            spec_digit_run_end(s@, start as int) == spec_digit_run_end(s@, i as int),
            forall|k: int| start <= k < i ==> spec_is_digit(#[trigger] s@[k]),
        decreases s@.len() - i,
    {
        i = i + 1;
    }
    i
}

/// Scan to the end of the run of dots starting at `start`.
fn find_dot_end(s: &[u8], start: usize) -> (e: usize)
    requires
        start <= s@.len(),
    ensures
        start <= e <= s@.len(),
        e as int == spec_dot_run_end(s@, start as int),
{
    let mut i: usize = start;
    while i < s.len() && s[i] == DOT
        invariant
            start <= i <= s@.len(),
            spec_dot_run_end(s@, start as int) == spec_dot_run_end(s@, i as int),
        decreases s@.len() - i,
    {
        i = i + 1;
    }
    i
}

/// Count how often `c` occurs in `s[from..to]`.
fn count_byte_in(s: &[u8], from: usize, to: usize, c: u8) -> (r: usize)
    requires
        from <= to <= s@.len(),
    ensures
        r as nat == spec_count_byte(s@, from as int, to as int, c),
        r <= to - from,
{
    let mut i: usize = from;
    let mut count: usize = 0;
    while i < to
        invariant
            from <= i <= to <= s@.len(),
            count as nat == spec_count_byte(s@, from as int, i as int, c),
            count <= i - from,
        decreases to - i,
    {
        if s[i] == c {
            count = count + 1;
        }
        i = i + 1;
    }
    count
}

/// Spell out the digits `s[from..to]` as a number, or report that it
/// does not fit in 32 bits.
fn parse_digits_u32(s: &[u8], from: usize, to: usize) -> (r: Option<u32>)
    requires
        from <= to <= s@.len(),
        forall|k: int| from <= k < to ==> spec_is_digit(#[trigger] s@[k]),
    ensures
        match r {
            Some(v) => v as nat == spec_digits_value(s@, from as int, to as int),
            None => spec_digits_value(s@, from as int, to as int) > u32::MAX,
        },
{
    let mut i: usize = from;
    let mut acc: u32 = 0;
    while i < to
        invariant
            from <= i <= to <= s@.len(),
            forall|k: int| from <= k < to ==> spec_is_digit(#[trigger] s@[k]),
            acc as nat == spec_digits_value(s@, from as int, i as int),
        decreases to - i,
    {
        assert(spec_is_digit(s@[i as int]));
        let d: u32 = (s[i] - DIGIT_ZERO) as u32;
        if acc > (u32::MAX - d) / 10 {
            proof {
                lemma_fundamental_div_mod((u32::MAX - d) as int, 10);
                assert(spec_digits_value(s@, from as int, (i + 1) as int) > u32::MAX);
                lemma_digits_value_monotone(s@, from as int, (i + 1) as int, to as int);
            }
            return None;
        }
        acc = acc * 10 + d;
        i = i + 1;
    }
    Some(acc)
}

/// Two or fewer digits spell at most 99.
proof fn lemma_digits_value_small(s: Seq<u8>, from: int, to: int)
    requires
        0 <= from <= to <= s.len(),
        to - from <= 2,
        forall|k: int| from <= k < to ==> spec_is_digit(#[trigger] s[k]),
    ensures
        spec_digits_value(s, from, to) <= 99,
{
    if to > from {
        assert(spec_digits_value(s, from, from) == 0);
        assert(spec_digits_value(s, from, from + 1) <= 9);
    }
}

/// Parse one token of the note grammar. A byte string outside the
/// grammar — or one whose octave number does not fit in 32 bits — is
/// a recoverable `InvalidToken` error.
pub fn parse_note_token(s: &[u8]) -> (r: Result<NoteToken, CompileError>)
    ensures
        match r {
            Ok(t) => spec_token_ok(s@) && spec_token_octave_fits(s@) && spec_token_matches(t, s@),
            Err(e) => e == CompileError::InvalidToken && !(spec_token_ok(s@)
                && spec_token_octave_fits(s@)),
        },
{
    let n: usize = s.len();
    let mut letter: Option<u8> = None;
    let mut i: usize = 0;
    if n > 0 {
        let c: u8 = s[0];
        if (UPPER_A <= c && c <= UPPER_G) || (LOWER_A <= c && c <= LOWER_G) {
            letter = Some(c);
            i = 1;
        }
    }
    assert(i as int == spec_letter_end(s@));
    let acc_end: usize = find_acc_end(s, i);
    let sharps: usize = count_byte_in(s, i, acc_end, HASH);
    let flats: usize = count_byte_in(s, i, acc_end, LOWER_B);
    let octave_end: usize = find_digit_end(s, acc_end);
    let octave: Option<u32> = if octave_end > acc_end {
        match parse_digits_u32(s, acc_end, octave_end) {
            Some(v) => Some(v),
            None => {
                return Err(CompileError::InvalidToken);
            },
        }
    } else {
        None
    };
    let mut note_value: u32 = DEFAULT_NOTE_VALUE;
    let dots_start: usize;
    if octave_end < n && s[octave_end] == COLON {
        let value_end: usize = find_digit_end(s, octave_end + 1);
        let ndigits: usize = value_end - (octave_end + 1);
        if ndigits < 1 || ndigits > 2 {
            return Err(CompileError::InvalidToken);
        }
        proof {
            lemma_digits_value_small(s@, octave_end as int + 1, value_end as int);
        }
        note_value = match parse_digits_u32(s, octave_end + 1, value_end) {
            Some(v) => v,
            None => {
                return Err(CompileError::InvalidToken);
            },
        };
        dots_start = value_end;
    } else {
        dots_start = octave_end;
    }
    let dots_end: usize = find_dot_end(s, dots_start);
    if dots_end != n {
        return Err(CompileError::InvalidToken);
    }
    let dots: usize = dots_end - dots_start;
    if dots > 4 {
        return Err(CompileError::InvalidToken);
    }
    Ok(NoteToken { letter, sharps, flats, octave, note_value, dots })
}

/// Recognize a dynamics token and return the loudness it names, in
/// thousandths of full scale; any other byte string is reported as not
/// a dynamics token.
pub fn get_dynamic(s: &[u8]) -> (r: Result<u32, CompileError>)
    ensures
        match r {
            Ok(v) => spec_dynamic_level(s@) == Some(v),
            Err(e) => e == CompileError::InvalidToken && spec_dynamic_level(s@) is None,
        },
{
    proof {
        if s@.len() == 1 {
            assert(s@ =~= seq![s@[0]]);
        }
        if s@.len() == 2 {
            assert(s@ =~= seq![s@[0], s@[1]]);
        }
        if s@.len() == 3 {
            assert(s@ =~= seq![s@[0], s@[1], s@[2]]);
        }
    }
    if s.len() == 1 {
        if s[0] == LOWER_P {
            Ok(375)
        } else if s[0] == LOWER_F {
            Ok(750)
        } else {
            Err(CompileError::InvalidToken)
        }
    } else if s.len() == 2 {
        if s[0] == LOWER_P && s[1] == LOWER_P {
            Ok(250)
        } else if s[0] == LOWER_M && s[1] == LOWER_P {
            Ok(500)
        } else if s[0] == LOWER_M && s[1] == LOWER_F {
            Ok(625)
        } else if s[0] == LOWER_F && s[1] == LOWER_F {
            Ok(875)
        } else {
            Err(CompileError::InvalidToken)
        }
    } else if s.len() == 3 {
        if s[0] == LOWER_P && s[1] == LOWER_P && s[2] == LOWER_P {
            Ok(125)
        } else if s[0] == LOWER_F && s[1] == LOWER_F && s[2] == LOWER_F {
            Ok(1000)
        } else {
            Err(CompileError::InvalidToken)
        }
    } else {
        Err(CompileError::InvalidToken)
    }
}

} // verus!
