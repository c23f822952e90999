//! Error types reported while compiling a note sequence.
//!
//! Every failure is detected before any audio is produced; once the
//! real-time pull loop runs, the player never fails, it only reports
//! the end of the stream.

use vstd::prelude::*;

verus! {

/// Why compiling a note sequence failed.
#[derive(Clone, Copy, Debug, PartialEq, Eq, Structural)]
pub enum CompileError {
    /// A token did not match the note grammar, or its octave number
    /// does not fit in a 32-bit integer.
    InvalidToken,
    /// The note letter was not one of `A`..`G` (case-insensitive).
    InvalidPitch,
    /// The note value was not a power of two.
    InvalidDuration,
    /// The requested frequency exceeds half the sample rate.
    NyquistViolation,
    /// No notes were given to the player.
    EmptySequence,
}

/// An error carrying a human-readable message, reported when a single
/// argument cannot be turned into a note duration.
#[derive(Debug)]
pub struct ArgumentParseError {
    msg: String,
}

impl ArgumentParseError {
    /// The stored message, as a mathematical sequence of characters.
    pub closed spec fn view(&self) -> Seq<char> {
        self.msg@
    }

    /// Wrap a message in an error value.
    pub fn new(msg: &str) -> (e: Self)
        ensures
            e@ == msg@,
    {
        ArgumentParseError { msg: msg.to_string() }
    }

    /// Read the message back.
    pub fn message(&self) -> (m: &str)
        ensures
            m@ == self@,
    {
        self.msg.as_str()
    }
}

} // verus!
