//! The quadrature decoder of one encoder channel.
//!
//! A rotary encoder drives two lines, phase A and phase B, with square waves a quarter
//! period apart. The decoder keeps a single bit of history, the level of phase A at the
//! last poll. It reports a turn when phase A falls and reads the direction off phase B
//! at that moment: one report per detent.

use vstd::prelude::*;
use crate::signal::{decode, direction_at_fall, Direction, Level};

verus! {

/// The state of one encoder channel: the level that phase A had at the last poll.
#[derive(Clone, Copy, Debug, PartialEq, Eq, Structural)]
pub struct Encoder {
    pub last_state_a: Level,
}

impl Encoder {
    /// One poll as a function: the decoder afterwards and what the poll reports.
    pub open spec fn step(self, a: Level, b: Level) -> (Encoder, Option<Direction>) {
        (Encoder { last_state_a: a }, decode(self.last_state_a, a, b))
    }

    /// The decoder after it was polled on each pair of `samples` in turn. The first
    /// component of a pair is phase A's level, the second phase B's.
    pub open spec fn after(self, samples: Seq<(Level, Level)>) -> Encoder
        decreases samples.len(),
    {
        if samples.len() == 0 {
            self
        } else {
            self.after(samples.drop_last()).step(samples.last().0, samples.last().1).0
        }
    }

    /// What the poll on `samples[i]` reports when the decoder is polled on each pair of
    /// `samples` in turn.
    pub open spec fn output(self, samples: Seq<(Level, Level)>, i: int) -> Option<Direction> {
        self.after(samples.take(i)).step(samples[i].0, samples[i].1).1
    }

    /// The level of phase A that the decoder remembers when it comes to `samples[i]`.
    pub open spec fn level_before(self, samples: Seq<(Level, Level)>, i: int) -> Level {
        if i <= 0 {
            self.last_state_a
        } else {
            samples[i - 1].0
        }
    }

    /// A decoder for a channel whose phase A line reads `initial_a` at start-up.
    pub fn new(initial_a: Level) -> (r: Encoder)
        ensures
            r.last_state_a == initial_a,
    {
        Encoder { last_state_a: initial_a }
    }

    /// Polls the channel with the levels just read from its two lines.
    ///
    /// Reports a direction exactly when phase A fell since the last poll; a rising edge
    /// and an unchanged level report nothing. The level of phase A is remembered for the
    /// next poll, so a poll without a change leaves the decoder as it was.
    pub fn update(&mut self, a: Level, b: Level) -> (r: Option<Direction>)
        ensures
            (*final(self), r) == old(self).step(a, b),
            final(self).last_state_a == a,
            r == decode(old(self).last_state_a, a, b),
            a == Level::High ==> r is None,
            a == old(self).last_state_a ==> r is None && *final(self) == *old(self),
    {
        if a != self.last_state_a {
            self.last_state_a = a;
            if a == Level::Low {
                if b == Level::Low {
                    return Some(Direction::Clockwise);
                } else {
                    return Some(Direction::CounterClockwise);
                }
            }
        }
        None
    }
}

/// After any polls the decoder remembers the level of phase A at the last of them.
pub proof fn lemma_state_follows_phase_a(enc: Encoder, samples: Seq<(Level, Level)>)
    ensures
        enc.after(samples).last_state_a == enc.level_before(samples, samples.len() as int),
{
    if samples.len() > 0 {
        assert(samples.last() == samples[samples.len() - 1]);
    }
}

/// Over any sequence of polls, the decoder reports one direction at each poll at which
/// phase A has fallen since the poll before and nothing at any other poll; the direction
/// is clockwise when phase B is `Low` at that poll and counter-clockwise when it is `High`.
pub proof fn lemma_one_direction_per_falling_edge(
    enc: Encoder,
    samples: Seq<(Level, Level)>,
    i: int,
)
    requires
        0 <= i < samples.len(),
    ensures
        enc.output(samples, i) == decode(enc.level_before(samples, i), samples[i].0, samples[i].1),
        enc.output(samples, i) is Some <==> enc.level_before(samples, i) == Level::High
            && samples[i].0 == Level::Low,
        enc.output(samples, i) is Some
            ==> enc.output(samples, i) == Some(direction_at_fall(samples[i].1)),
        enc.output(samples, i) == Some(Direction::Clockwise) ==> samples[i].1 == Level::Low,
        enc.output(samples, i) == Some(Direction::CounterClockwise)
            ==> samples[i].1 == Level::High,
{
    lemma_state_follows_phase_a(enc, samples.take(i));
}

/// A poll that finds phase A `High` reports nothing, whatever the earlier polls were and
/// whatever the level of phase B is: a rising edge is never a turn.
pub proof fn lemma_rising_edge_is_silent(enc: Encoder, samples: Seq<(Level, Level)>, i: int)
    requires
        0 <= i < samples.len(),
        samples[i].0 == Level::High,
    ensures
        enc.output(samples, i) is None,
{
}

/// Polling any number of times while phase A keeps the level that the decoder remembers
/// reports nothing at any of the polls and leaves the decoder as it was.
pub proof fn lemma_steady_level_is_silent(enc: Encoder, samples: Seq<(Level, Level)>)
    requires
        forall|i: int| 0 <= i < samples.len() ==> (#[trigger] samples[i]).0 == enc.last_state_a,
    ensures
        enc.after(samples) == enc,
        forall|i: int| 0 <= i < samples.len() ==> enc.output(samples, i) is None,
    decreases samples.len(),
{
    if samples.len() > 0 {
        lemma_steady_level_is_silent(enc, samples.drop_last());
        assert(samples.last() == samples[samples.len() - 1]);
    }
    assert forall|i: int| 0 <= i < samples.len() implies enc.output(samples, i) is None by {
        lemma_one_direction_per_falling_edge(enc, samples, i);
        if i > 0 {
            assert(samples[i - 1].0 == enc.last_state_a);
        }
    }
}

} // verus!
