//! The sequencer: walks an ordered queue of notes one sample at a
//! time and keeps the oscillator phase continuous across note
//! boundaries.
//!
//! Each pull either yields the integer parameters of one sample —
//! frequency, amplitude and the oscillator phase position — or signals
//! the end of the stream. The caller computes the actual sample value
//! as `amplitude × sin(2π × frequency × phase_position / sample_rate)`.
//!
//! The phase position is a single monotonically advancing 32-bit
//! counter owned by the player. While the frequency is unchanged it
//! advances by one per sample; when the frequency changes at a note
//! boundary it is rescaled by the ratio of the outgoing to the
//! incoming frequency, which maps the old phase angle onto the
//! equivalent angle of the new waveform and so avoids an audible
//! click. Every operation here is loop-free and allocation-free: the
//! pull happens inside a hard real-time audio callback.

use vstd::prelude::*;

use vstd::arithmetic::div_mod::lemma_mod_bound;
use vstd::arithmetic::div_mod::lemma_small_mod;

use crate::errors::CompileError;
use crate::note::Note;

verus! {

/// One more than the largest phase position: the counter wraps at
/// thirty-two bits. Wrapping is harmless, the sine being periodic.
pub const PHASE_MODULUS: u64 = 0x1_0000_0000;

/// The integer description of one output sample: the sample's value is
/// `amplitude × sin(2π × frequency × phase_position / sample_rate)`.
#[derive(Clone, Copy, Debug, PartialEq, Eq, Structural)]
pub struct SampleParams {
    /// Frequency of the note being played, in millihertz.
    pub frequency_millihz: u64,
    /// Amplitude of the note being played, in thousandths.
    pub amplitude_per_mille: u32,
    /// The oscillator phase position to evaluate the sine at.
    pub phase_position: u32,
}

/// The mathematical state of a player: the notes still queued, the
/// note being played, how many of its samples were produced, and the
/// oscillator phase.
pub struct PlayerModel {
    /// Notes not yet reached, in playback order.
    pub queue: Seq<Note>,
    /// The note being played; `None` once the queue is exhausted.
    pub current: Option<Note>,
    /// Samples of the current note already produced.
    pub sample_num: nat,
    /// The oscillator phase position.
    pub phase: nat,
    /// The target sample rate in hertz.
    pub sample_rate: nat,
}

/// The invariants every reachable player state satisfies: the phase
/// fits its 32-bit counter, and a finite note is never overdrawn.
pub open spec fn spec_model_wf(m: PlayerModel) -> bool {
    &&& m.phase < PHASE_MODULUS
    &&& (m.current matches Some(n) ==> (n.num_samples > 0 ==> m.sample_num <= n.num_samples))
}

/// The phase position after a frequency change, rescaled by the ratio
/// `last / next` and rounded to the nearest integer (halves up), so
/// that the new waveform continues at the amplitude the old one
/// reached. A transition to a rest (`next == 0`) restarts the phase at
/// zero: the rest is silent whatever the phase, and the note after it
/// then starts at a zero crossing, which is where the rest left off.
/// A ratio that overflows the counter saturates at its maximum.
pub open spec fn spec_rescaled_phase(last: nat, next: nat, phase: nat) -> nat {
    if next == 0 {
        0
    } else {
        let q = (2 * last * phase + next) / (2 * next);
        if q > 0xFFFF_FFFF {
            0xFFFF_FFFF as nat
        } else {
            q
        }
    }
}

/// The queue-walking rule, evaluated once per requested sample,
/// before the sample is produced:
/// - an exhausted player stays exhausted;
/// - a note with the sustain sentinel (`num_samples == 0`) never
///   advances;
/// - a finite note whose samples are all produced hands over to the
///   next queued note (which immediately counts the sample about to be
///   produced from it), or to the terminal state when none is queued —
///   the sole transition into exhaustion;
/// - otherwise the current note simply counts one more sample.
///
/// A note with `num_samples == n > 0` is thus the source of exactly
/// `n` produced samples.
pub open spec fn spec_advance(m: PlayerModel) -> PlayerModel {
    match m.current {
        None => m,
        Some(cur) => {
            if cur.num_samples == 0 {
                m
            } else if m.sample_num >= cur.num_samples {
                if m.queue.len() > 0 {
                    let n2 = m.queue[0];
                    PlayerModel {
                        queue: m.queue.skip(1),
                        current: Some(n2),
                        sample_num: if n2.num_samples == 0 {
                            0nat
                        } else {
                            1nat
                        },
                        ..m
                    }
                } else {
                    PlayerModel { current: None, sample_num: 0nat, ..m }
                }
            } else {
                PlayerModel { sample_num: (m.sample_num + 1) as nat, ..m }
            }
        },
    }
}

/// One pull: advance the queue-walking state, then produce the sample
/// parameters, or `None` at the end of the stream. The phase advances
/// by one while the frequency is unchanged from the previous sample
/// and is rescaled — using the outgoing frequency against the incoming
/// one at the exact boundary sample — when it changes.
pub open spec fn spec_step(m: PlayerModel) -> (PlayerModel, Option<SampleParams>) {
    match m.current {
        None => (m, None),
        Some(cur) => {
            let m1 = spec_advance(m);
            match m1.current {
                None => (m1, None),
                Some(n) => {
                    if n.frequency_millihz == cur.frequency_millihz {
                        let out = SampleParams {
                            frequency_millihz: n.frequency_millihz,
                            amplitude_per_mille: n.amplitude_per_mille,
                            phase_position: m1.phase as u32,
                        };
                        (
                            PlayerModel {
                                phase: (m1.phase + 1) % (PHASE_MODULUS as nat),
                                ..m1
                            },
                            Some(out),
                        )
                    } else {
                        let p = spec_rescaled_phase(
                            cur.frequency_millihz as nat,
                            n.frequency_millihz as nat,
                            m1.phase,
                        );
                        let out = SampleParams {
                            frequency_millihz: n.frequency_millihz,
                            amplitude_per_mille: n.amplitude_per_mille,
                            phase_position: p as u32,
                        };
                        (PlayerModel { phase: p, ..m1 }, Some(out))
                    }
                },
            }
        },
    }
}

/// The player state after `k` pulls.
pub open spec fn spec_run(m: PlayerModel, k: nat) -> PlayerModel
    decreases k,
{
    if k == 0 {
        m
    } else {
        spec_step(spec_run(m, (k - 1) as nat)).0
    }
}

/// What the pull numbered `k` (counting from zero) returns.
pub open spec fn spec_output_at(m: PlayerModel, k: nat) -> Option<SampleParams> {
    spec_step(spec_run(m, k)).1
}

/// The sequencer: owns the note queue, the cursor into it, and the
/// oscillator phase.
pub struct Player {
    notes: Vec<Note>,
    next_index: usize,
    sample_rate: u32,
    sample_num: u128,
    current_note: Option<Note>,
    phase_position: u32,
}

impl View for Player {
    type V = PlayerModel;

    closed spec fn view(&self) -> PlayerModel {
        PlayerModel {
            queue: self.notes@.skip(self.next_index as int),
            current: self.current_note,
            sample_num: self.sample_num as nat,
            phase: self.phase_position as nat,
            sample_rate: self.sample_rate as nat,
        }
    }
}

impl Player {
    /// The player's representation invariant: the cursor stays within
    /// the queue and the model invariants hold.
    pub closed spec fn wf(&self) -> bool {
        &&& self.next_index <= self.notes@.len()
        &&& spec_model_wf(self@)
    }

    /// Build a player over a non-empty sequence of notes: the first
    /// note becomes current, nothing is produced yet, and the phase
    /// starts at zero. An empty sequence is rejected at construction
    /// time, before any audio is produced.
    pub fn new(notes: Vec<Note>, sample_rate: u32) -> (r: Result<Player, CompileError>)
        ensures
            match r {
                Ok(p) => notes@.len() > 0 && p.wf() && p@ == (PlayerModel {
                    queue: notes@.skip(1),
                    current: Some(notes@[0]),
                    sample_num: 0nat,
                    phase: 0nat,
                    sample_rate: sample_rate as nat,
                }),
                Err(e) => e == CompileError::EmptySequence && notes@.len() == 0,
            },
    {
        if notes.len() == 0 {
            return Err(CompileError::EmptySequence);
        }
        let first: Note = notes[0];
        let p = Player {
            notes,
            next_index: 1,
            sample_rate,
            sample_num: 0,
            current_note: Some(first),
            phase_position: 0,
        };
        Ok(p)
    }

    /// The sample rate the player was built for.
    pub fn sample_rate(&self) -> (r: u32)
        ensures
            r as nat == self@.sample_rate,
    {
        self.sample_rate
    }

    /// Pop the next queued note, if any.
    pub fn next_note(&mut self) -> (r: Option<Note>)
        requires
            old(self).wf(),
        ensures
            final(self).wf(),
            old(self)@.queue.len() == 0 ==> r is None && final(self)@ == old(self)@,
            old(self)@.queue.len() > 0 ==> r == Some(old(self)@.queue[0]) && final(self)@ == (
            PlayerModel { queue: old(self)@.queue.skip(1), ..old(self)@ }),
    {
        if self.next_index < self.notes.len() {
            let n: Note = self.notes[self.next_index];
            self.next_index = self.next_index + 1;
            proof {
                assert(self.notes@.skip(self.next_index as int) =~= old(
                    self,
                )@.queue.skip(1));
            }
            Some(n)
        } else {
            None
        }
    }

    /// Apply the queue-walking rule once and return the note the next
    /// sample is to be produced from, or `None` at the end of the
    /// stream.
    pub fn next_note_val(&mut self) -> (r: Option<Note>)
        requires
            old(self).wf(),
        ensures
            final(self).wf(),
            final(self)@ == spec_advance(old(self)@),
            r == spec_advance(old(self)@).current,
    {
        let cur: Note = match self.current_note {
            None => {
                return None;
            },
            Some(n) => n,
        };
        if cur.num_samples == 0 {
            return Some(cur);
        }
        if self.sample_num >= cur.num_samples {
            self.sample_num = 0;
            let next = self.next_note();
            self.current_note = next;
            match next {
                None => None,
                Some(n2) => {
                    if n2.num_samples != 0 {
                        self.sample_num = 1;
                    }
                    Some(n2)
                },
            }
        } else {
            self.sample_num = self.sample_num + 1;
            Some(cur)
        }
    }

    /// Produce the parameters of the next sample, or `None` once the
    /// queue is exhausted. This never fails: the terminal state only
    /// reports "no sample". The check-then-advance happens before the
    /// phase is touched, and the phase is compared against the
    /// frequency of the outgoing sample at the exact boundary.
    pub fn get_next_sample(&mut self) -> (r: Option<SampleParams>)
        requires
            old(self).wf(),
        ensures
            final(self).wf(),
            final(self)@ == spec_step(old(self)@).0,
            r == spec_step(old(self)@).1,
    {
        let cur: Note = match self.current_note {
            None => {
                return None;
            },
            Some(n) => n,
        };
        let next: Note = match self.next_note_val() {
            None => {
                return None;
            },
            Some(n) => n,
        };
        if next.frequency_millihz == cur.frequency_millihz {
            let out_phase: u32 = self.phase_position;
            proof {
                if self.phase_position == 0xFFFF_FFFFu32 {
                    assert((self@.phase + 1) % (PHASE_MODULUS as nat) == 0) by {
                        lemma_mod_bound((self@.phase + 1) as int, PHASE_MODULUS as int);
                    }
                } else {
                    lemma_small_mod((self@.phase + 1) as nat, PHASE_MODULUS as nat);
                }
            }
            if self.phase_position == 0xFFFF_FFFFu32 {
                self.phase_position = 0;
            } else {
                self.phase_position = self.phase_position + 1;
            }
            Some(
                SampleParams {
                    frequency_millihz: next.frequency_millihz,
                    amplitude_per_mille: next.amplitude_per_mille,
                    phase_position: out_phase,
                },
            )
        } else {
            let p: u32 = rescaled_phase(
                cur.frequency_millihz,
                next.frequency_millihz,
                self.phase_position,
            );
            self.phase_position = p;
            Some(
                SampleParams {
                    frequency_millihz: next.frequency_millihz,
                    amplitude_per_mille: next.amplitude_per_mille,
                    phase_position: p,
                },
            )
        }
    }
}

/// One pull keeps a player state well-formed.
pub proof fn lemma_step_preserves_wf(m: PlayerModel)
    requires
        spec_model_wf(m),
    ensures
        spec_model_wf(spec_step(m).0),
{
    if m.current is Some {
        let m1 = spec_advance(m);
        if m1.current is Some {
            if m1.current->Some_0.frequency_millihz == m.current->Some_0.frequency_millihz {
                lemma_mod_bound((m1.phase + 1) as int, PHASE_MODULUS as int);
            }
        }
    }
}

/// Any number of pulls keeps a player state well-formed.
pub proof fn lemma_run_preserves_wf(m: PlayerModel, k: nat)
    requires
        spec_model_wf(m),
    ensures
        spec_model_wf(spec_run(m, k)),
    decreases k,
{
    if k > 0 {
        lemma_run_preserves_wf(m, (k - 1) as nat);
        lemma_step_preserves_wf(spec_run(m, (k - 1) as nat));
    }
}

/// A note with the sustain sentinel never self-terminates: however
/// many samples have been pulled, it is still the current note and the
/// next pull still yields a sample.
pub proof fn lemma_sustain_never_ends(m: PlayerModel, k: nat)
    requires
        spec_model_wf(m),
        m.current matches Some(n) && n.num_samples == 0,
    ensures
        spec_run(m, k).current == m.current,
        spec_output_at(m, k) is Some,
    decreases k,
{
    if k > 0 {
        lemma_sustain_never_ends(m, (k - 1) as nat);
    }
}

/// A single queued note with a finite sample count is the source of
/// exactly as many samples as it asks for: with `j` of its
/// `n.num_samples` samples already produced and nothing else queued,
/// every pull up to the remaining count yields a sample from that very
/// note, and the pull after the last one reports the end of the
/// stream, the player now exhausted.
pub proof fn lemma_round_trip(m: PlayerModel, k: nat)
    requires
        spec_model_wf(m),
        m.queue.len() == 0,
        m.current matches Some(n) && n.num_samples > 0 && m.sample_num < n.num_samples,
        k <= m.current->Some_0.num_samples - m.sample_num,
    ensures
        spec_run(m, k).queue.len() == 0,
        spec_run(m, k).current == m.current,
        spec_run(m, k).sample_num == m.sample_num + k,
        k < m.current->Some_0.num_samples - m.sample_num ==> spec_output_at(m, k) is Some,
        k == m.current->Some_0.num_samples - m.sample_num ==> spec_output_at(m, k) is None
            && spec_run(m, (k + 1) as nat).current is None,
    decreases k,
{
    if k > 0 {
        lemma_round_trip(m, (k - 1) as nat);
    }
}

/// While a finite note still has samples left, pulls neither advance
/// the queue nor change the current note; they only count samples.
proof fn lemma_note_holds(m: PlayerModel, k: nat)
    requires
        spec_model_wf(m),
        m.current matches Some(n) && n.num_samples > 0 && m.sample_num < n.num_samples,
        k < m.current->Some_0.num_samples - m.sample_num,
    ensures
        spec_run(m, k).current == m.current,
        spec_run(m, k).sample_num == m.sample_num + k,
        spec_run(m, k).queue == m.queue,
    decreases k,
{
    if k > 0 {
        lemma_note_holds(m, (k - 1) as nat);
    }
}

/// A rest is silence for its whole duration: while a note with
/// frequency zero is current, every sample pulled from it carries
/// frequency zero, whatever its amplitude, so its value is
/// `amplitude × sin(0) == 0`.
pub proof fn lemma_rest_is_silent(m: PlayerModel, k: nat)
    requires
        spec_model_wf(m),
        m.current matches Some(n) && n.frequency_millihz == 0 && n.num_samples > 0
            && m.sample_num < n.num_samples,
        k < m.current->Some_0.num_samples - m.sample_num,
    ensures
        spec_output_at(m, k) matches Some(s) && s.frequency_millihz == 0,
{
    lemma_note_holds(m, k);
}

/// Phase continuity: whenever two consecutive pulls yield samples of
/// equal frequency — in particular across the boundary between two
/// notes of the same pitch — the phase position advances by at most
/// one, exactly as it does inside a note. The waveform therefore
/// moves on by at most one sample's worth of sine increment, never an
/// arbitrary jump.
pub proof fn lemma_phase_continuity(m: PlayerModel, k: nat, s1: SampleParams, s2: SampleParams)
    requires
        spec_model_wf(m),
        spec_output_at(m, k) == Some(s1),
        spec_output_at(m, (k + 1) as nat) == Some(s2),
        s2.frequency_millihz == s1.frequency_millihz,
    ensures
        s2.phase_position == s1.phase_position || s2.phase_position as nat == ((s1.phase_position
            + 1) as nat) % (PHASE_MODULUS as nat),
{
    let w = spec_run(m, k);
    let w1 = spec_run(m, (k + 1) as nat);
    lemma_run_preserves_wf(m, k);
    lemma_step_preserves_wf(w);
    assert(w1 == spec_step(w).0);
    assert(spec_step(w).1 == Some(s1));
    assert(spec_step(w1).1 == Some(s2));
}

/// The executable phase rescaling: `round(last / next × phase)`,
/// computed exactly in wide integers — `(2·last·phase + next) /
/// (2·next)` is the rounded-to-nearest quotient — so that no rounding
/// drift accumulates across many short notes.
pub fn rescaled_phase(last: u64, next: u64, phase: u32) -> (r: u32)
    ensures
        r as nat == spec_rescaled_phase(last as nat, next as nat, phase as nat),
{
    if next == 0 {
        return 0;
    }
    proof {
        assert(2 * (last as int) * (phase as int) + next
            < 0x1_0000_0000_0000_0000_0000_0000_0000_0000int) by (nonlinear_arith)
            requires
                last < 0x1_0000_0000_0000_0000 && phase < 0x1_0000_0000 && next
                    < 0x1_0000_0000_0000_0000,
        ;
    }
    let numerator: u128 = 2 * (last as u128) * (phase as u128) + (next as u128);
    let denominator: u128 = 2 * (next as u128);
    let q: u128 = numerator / denominator;
    if q > 0xFFFF_FFFF {
        0xFFFF_FFFF
    } else {
        q as u32
    }
}

} // verus!
