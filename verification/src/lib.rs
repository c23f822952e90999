//! A verified core for a monophonic note player.
//!
//! The library turns symbolic notes (pitch letter, accidentals, octave,
//! note value, dots, dynamics) into an integer description of an audio
//! stream: a queue of notes, each with a frequency in millihertz, an
//! amplitude in thousandths of full scale, and an exact sample count.
//! A `Player` walks that queue one sample at a time and keeps the
//! oscillator phase continuous across note boundaries.
//!
//! Everything here is integer arithmetic; evaluating the sine wave (and
//! the `2^(n/12)` pitch exponential) is floating-point work that belongs
//! to the embedding application, which receives exact integer sample
//! parameters from `Player::get_next_sample`.

pub mod ascii;
pub mod compile;
pub mod duration;
pub mod errors;
pub mod note;
pub mod parse;
pub mod pitch;
pub mod player;

pub use compile::CompiledNote;
pub use errors::ArgumentParseError;
pub use errors::CompileError;
pub use note::Note;
pub use player::Player;
pub use player::SampleParams;
