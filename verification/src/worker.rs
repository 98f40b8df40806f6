//! The channel workers: what each polling loop decides.
//!
//! A worker owns the state of one channel, a decoder or a last seen level together with
//! a debounce gate, and is driven from outside: the loop around it sleeps, reads the
//! clock and the lines, and hands the readings to `poll`. `poll` says whether a tap is
//! to be sent and what the worker remembers afterwards. Nothing here waits or blocks,
//! and a worker shares nothing with another.
//!
//! Time stamps are in nanoseconds of a monotonic clock.

use vstd::prelude::*;
use crate::debounce::{distance, DebounceGate, BUTTON_DEBOUNCE_NS, ENCODER_DEBOUNCE_NS};
use crate::decoder::Encoder;
use crate::keys::{Key, KeyMapping, Tap};
use crate::signal::{direction_at_fall, Level};

verus! {

/// The pause between two polls of an encoder channel: 100 microseconds.
pub const ENCODER_POLL_INTERVAL_NS: u64 = 100_000;

/// The pause between two polls of the button channel: 10 ms.
pub const BUTTON_POLL_INTERVAL_NS: u64 = 10_000_000;

/// What one poll of an encoder channel reads: the clock and the two lines.
#[derive(Clone, Copy, Debug, PartialEq, Eq, Structural)]
pub struct EncoderSample {
    pub at: u64,
    pub a: Level,
    pub b: Level,
}

/// What one poll of the button channel reads: the clock and the line.
#[derive(Clone, Copy, Debug, PartialEq, Eq, Structural)]
pub struct ButtonSample {
    pub at: u64,
    pub level: Level,
}

/// The worker of one encoder channel: its decoder, its debounce gate and its two keys.
#[derive(Clone, Copy, Debug, PartialEq, Eq, Structural)]
pub struct EncoderWorker {
    pub encoder: Encoder,
    pub gate: DebounceGate,
    pub keys: KeyMapping,
}

/// The worker of the button channel: the level seen last, its debounce gate and its key.
#[derive(Clone, Copy, Debug, PartialEq, Eq, Structural)]
pub struct ButtonWorker {
    pub last_state: Level,
    pub gate: DebounceGate,
    pub key: Key,
}

impl EncoderWorker {
    /// One poll as a function: the worker afterwards and the tap to send, if any.
    ///
    /// While the window since the last tap is running, the poll is skipped: the lines
    /// are not looked at and nothing changes. Otherwise the decoder is polled. A turn
    /// taps the key of its direction and starts the window anew.
    pub open spec fn step(self, now: u64, a: Level, b: Level) -> (EncoderWorker, Option<Tap>) {
        if !self.gate.admits(now) {
            (self, None)
        } else {
            let (encoder, turn) = self.encoder.step(a, b);
            match turn {
                Some(direction) => (
                    EncoderWorker { encoder, gate: self.gate.accepting(now), keys: self.keys },
                    Some(Tap { key: self.keys.spec_key_for(direction) }),
                ),
                None => (EncoderWorker { encoder, gate: self.gate, keys: self.keys }, None),
            }
        }
    }

    /// The worker after the polls of `samples`, made in turn.
    pub open spec fn after(self, samples: Seq<EncoderSample>) -> EncoderWorker
        decreases samples.len(),
    {
        if samples.len() == 0 {
            self
        } else {
            let s = samples.last();
            self.after(samples.drop_last()).step(s.at, s.a, s.b).0
        }
    }

    /// The tap, if any, that the poll of `samples[i]` sends when the polls of `samples`
    /// are made in turn.
    pub open spec fn output(self, samples: Seq<EncoderSample>, i: int) -> Option<Tap> {
        self.after(samples.take(i)).step(samples[i].at, samples[i].a, samples[i].b).1
    }

    /// A worker for a channel with the given keys whose phase A line reads `initial_a`
    /// at `now`, the moment the worker starts. The window is that of an encoder, and the
    /// first of them runs from `now`.
    pub fn new(keys: KeyMapping, initial_a: Level, now: u64) -> (r: EncoderWorker)
        ensures
            r == (EncoderWorker {
                encoder: Encoder { last_state_a: initial_a },
                gate: DebounceGate { window: ENCODER_DEBOUNCE_NS, last_accepted: now },
                keys,
            }),
    {
        EncoderWorker {
            encoder: Encoder::new(initial_a),
            gate: DebounceGate::new(ENCODER_DEBOUNCE_NS, now),
            keys,
        }
    }

    /// Whether a poll at `now` would look at the lines at all: whether the window since
    /// the last tap is over.
    pub fn is_armed(&self, now: u64) -> (r: bool)
        ensures
            r == self.gate.admits(now),
    {
        self.gate.is_open(now)
    }

    /// One poll at `now` with the levels just read from the two lines.
    ///
    /// Sends a tap exactly when the window since the last tap is over and phase A has
    /// fallen since the last poll that was not skipped. The key is the one bound to the
    /// direction, which phase B's level gives. With the tap the window starts anew at
    /// `now`. A poll within the window is skipped and changes nothing, and neither does
    /// one that finds phase A at the level remembered.
    pub fn poll(&mut self, now: u64, a: Level, b: Level) -> (r: Option<Tap>)
        ensures
            (*final(self), r) == old(self).step(now, a, b),
            r is Some <==> old(self).gate.admits(now)
                && old(self).encoder.last_state_a == Level::High && a == Level::Low,
            r is Some ==> r == Some(Tap { key: old(self).keys.spec_key_for(direction_at_fall(b)) }),
            r is Some ==> final(self).gate == old(self).gate.accepting(now),
            r is None ==> final(self).gate == old(self).gate,
            final(self).keys == old(self).keys,
            old(self).gate.admits(now) ==> final(self).encoder.last_state_a == a,
            !old(self).gate.admits(now) ==> *final(self) == *old(self),
            a == old(self).encoder.last_state_a ==> r is None && *final(self) == *old(self),
            a == Level::High ==> r is None,
    {
        if !self.gate.is_open(now) {
            return None;
        }
        match self.encoder.update(a, b) {
            Some(direction) => {
                self.gate.accept(now);
                Some(Tap { key: self.keys.key_for(direction) })
            },
            None => None,
        }
    }
}

impl ButtonWorker {
    /// One poll as a function: the worker afterwards and the tap to send, if any.
    ///
    /// A level that has not changed is nothing to act on. A change within the window
    /// since the last change is not taken note of: the worker goes on remembering the
    /// old level. A change after the window is remembered and starts the window anew;
    /// it sends a tap when the new level is `Low`, the button pressed, and nothing when
    /// it is `High`.
    pub open spec fn step(self, now: u64, level: Level) -> (ButtonWorker, Option<Tap>) {
        if level == self.last_state || !self.gate.admits(now) {
            (self, None)
        } else {
            (
                ButtonWorker { last_state: level, gate: self.gate.accepting(now), key: self.key },
                if level == Level::Low {
                    Some(Tap { key: self.key })
                } else {
                    None
                },
            )
        }
    }

    /// The worker after the polls of `samples`, made in turn.
    pub open spec fn after(self, samples: Seq<ButtonSample>) -> ButtonWorker
        decreases samples.len(),
    {
        if samples.len() == 0 {
            self
        } else {
            let s = samples.last();
            self.after(samples.drop_last()).step(s.at, s.level).0
        }
    }

    /// The tap, if any, that the poll of `samples[i]` sends when the polls of `samples`
    /// are made in turn.
    pub open spec fn output(self, samples: Seq<ButtonSample>, i: int) -> Option<Tap> {
        self.after(samples.take(i)).step(samples[i].at, samples[i].level).1
    }

    /// Whether the poll of `samples[i]` takes note of a changed level when the polls of
    /// `samples` are made in turn.
    pub open spec fn notes_change(self, samples: Seq<ButtonSample>, i: int) -> bool {
        let before = self.after(samples.take(i));
        samples[i].level != before.last_state && before.gate.admits(samples[i].at)
    }

    /// A worker for a button with the given key whose line reads `initial` at `now`, the
    /// moment the worker starts. The window is that of the button, and the first of them
    /// runs from `now`.
    pub fn new(key: Key, initial: Level, now: u64) -> (r: ButtonWorker)
        ensures
            r == (ButtonWorker {
                last_state: initial,
                gate: DebounceGate { window: BUTTON_DEBOUNCE_NS, last_accepted: now },
                key,
            }),
    {
        ButtonWorker { last_state: initial, gate: DebounceGate::new(BUTTON_DEBOUNCE_NS, now), key }
    }

    /// One poll at `now` with the level just read from the line.
    ///
    /// Sends a tap exactly when the level has changed to `Low` and the window since the
    /// last change taken note of is over. A change to `High` after the window is
    /// remembered and starts the window anew, as a change to `Low` does, but sends
    /// nothing. An unchanged level, or a change within the window, changes nothing.
    pub fn poll(&mut self, now: u64, level: Level) -> (r: Option<Tap>)
        ensures
            (*final(self), r) == old(self).step(now, level),
            r is Some <==> old(self).last_state == Level::High && level == Level::Low
                && old(self).gate.admits(now),
            r is Some ==> r == Some(Tap { key: old(self).key }),
            final(self).key == old(self).key,
            level != old(self).last_state && old(self).gate.admits(now)
                ==> final(self).last_state == level
                && final(self).gate == old(self).gate.accepting(now),
            level == old(self).last_state || !old(self).gate.admits(now)
                ==> *final(self) == *old(self),
            level == Level::High ==> r is None,
    {
        if level == self.last_state {
            return None;
        }
        if !self.gate.offer(now) {
            return None;
        }
        self.last_state = level;
        if level == Level::Low {
            Some(Tap { key: self.key })
        } else {
            None
        }
    }
}

/// One more poll is one more step of the worker. The keys and the window never change.
pub proof fn lemma_encoder_after_next(w: EncoderWorker, samples: Seq<EncoderSample>, k: int)
    requires
        0 <= k < samples.len(),
    ensures
        w.after(samples.take(k + 1)) == w.after(samples.take(k)).step(
            samples[k].at,
            samples[k].a,
            samples[k].b,
        ).0,
        w.after(samples.take(k)).keys == w.keys,
        w.after(samples.take(k)).gate.window == w.gate.window,
        w.after(samples.take(k + 1)).keys == w.keys,
        w.after(samples.take(k + 1)).gate.window == w.gate.window,
    decreases k,
{
    assert(samples.take(k + 1).drop_last() =~= samples.take(k));
    assert(samples.take(k + 1).last() == samples[k]);
    if k > 0 {
        lemma_encoder_after_next(w, samples, k - 1);
    } else {
        assert(samples.take(0).len() == 0);
    }
}

/// With a window above zero, the worker's debounce gate remembers the time of a tap, or
/// a later time, at every poll after it.
proof fn lemma_encoder_gate_grows(w: EncoderWorker, samples: Seq<EncoderSample>, i: int, k: int)
    requires
        0 <= i < k <= samples.len(),
        w.gate.window > 0,
        w.output(samples, i) is Some,
    ensures
        w.after(samples.take(k)).gate.last_accepted >= samples[i].at,
        w.after(samples.take(k)).gate.window == w.gate.window,
    decreases k,
{
    lemma_encoder_after_next(w, samples, k - 1);
    if k - 1 > i {
        lemma_encoder_gate_grows(w, samples, i, k - 1);
    }
}

/// Whatever the polls of an encoder channel read, a tap is sent exactly at a poll that
/// is not skipped and finds phase A fallen; its key is the one bound to the direction
/// that phase B's level gives at that poll, so it is one of the two keys of the
/// channel. A poll that finds phase A `High` sends nothing.
pub proof fn lemma_encoder_tap_is_a_turn(w: EncoderWorker, samples: Seq<EncoderSample>, i: int)
    requires
        0 <= i < samples.len(),
    ensures
        w.output(samples, i) is Some <==> w.after(samples.take(i)).gate.admits(samples[i].at)
            && w.after(samples.take(i)).encoder.last_state_a == Level::High
            && samples[i].a == Level::Low,
        w.output(samples, i) is Some ==> w.output(samples, i) == Some(
            Tap { key: w.keys.spec_key_for(direction_at_fall(samples[i].b)) },
        ),
        w.output(samples, i) is Some ==> w.output(samples, i)->0.key == w.keys.clockwise
            || w.output(samples, i)->0.key == w.keys.counter_clockwise,
        samples[i].a == Level::High ==> w.output(samples, i) is None,
{
    if i > 0 {
        lemma_encoder_after_next(w, samples, i - 1);
    } else {
        assert(samples.take(0).len() == 0);
    }
}

/// Whatever the polls of an encoder channel read, and in whatever order their time
/// stamps come, no two taps of the channel are closer together than the window, whatever
/// their directions. With a window above zero the later tap also bears the later time
/// stamp.
pub proof fn lemma_encoder_taps_are_spaced(
    w: EncoderWorker,
    samples: Seq<EncoderSample>,
    i: int,
    j: int,
)
    requires
        0 <= i < j < samples.len(),
        w.output(samples, i) is Some,
        w.output(samples, j) is Some,
    ensures
        distance(samples[i].at, samples[j].at) >= w.gate.window,
        w.gate.window > 0 ==> samples[i].at + w.gate.window <= samples[j].at,
{
    if w.gate.window > 0 {
        lemma_encoder_gate_grows(w, samples, i, j);
    }
}

/// Polling an encoder channel any number of times while phase A keeps the level that
/// the decoder remembers sends no tap and leaves the worker as it was, whatever the
/// clock and phase B read.
pub proof fn lemma_encoder_steady_is_silent(w: EncoderWorker, samples: Seq<EncoderSample>)
    requires
        forall|i: int|
            0 <= i < samples.len() ==> (#[trigger] samples[i]).a == w.encoder.last_state_a,
    ensures
        w.after(samples) == w,
        forall|i: int| 0 <= i < samples.len() ==> w.output(samples, i) is None,
    decreases samples.len(),
{
    if samples.len() > 0 {
        lemma_encoder_steady_is_silent(w, samples.drop_last());
        assert(samples.last() == samples[samples.len() - 1]);
    }
    assert forall|i: int| 0 <= i < samples.len() implies w.output(samples, i) is None by {
        lemma_encoder_steady_is_silent(w, samples.take(i));
        assert(samples[i].a == w.encoder.last_state_a);
    }
}

/// One more poll is one more step of the worker. The key and the window never change.
pub proof fn lemma_button_after_next(w: ButtonWorker, samples: Seq<ButtonSample>, k: int)
    requires
        0 <= k < samples.len(),
    ensures
        w.after(samples.take(k + 1)) == w.after(samples.take(k)).step(
            samples[k].at,
            samples[k].level,
        ).0,
        w.after(samples.take(k)).key == w.key,
        w.after(samples.take(k)).gate.window == w.gate.window,
        w.after(samples.take(k + 1)).key == w.key,
        w.after(samples.take(k + 1)).gate.window == w.gate.window,
    decreases k,
{
    assert(samples.take(k + 1).drop_last() =~= samples.take(k));
    assert(samples.take(k + 1).last() == samples[k]);
    if k > 0 {
        lemma_button_after_next(w, samples, k - 1);
    } else {
        assert(samples.take(0).len() == 0);
    }
}

/// With a window above zero, the worker's debounce gate remembers the time of a change
/// that the worker took note of, or a later time, at every poll after it.
proof fn lemma_button_gate_grows(w: ButtonWorker, samples: Seq<ButtonSample>, i: int, k: int)
    requires
        0 <= i < k <= samples.len(),
        w.gate.window > 0,
        w.notes_change(samples, i),
    ensures
        w.after(samples.take(k)).gate.last_accepted >= samples[i].at,
        w.after(samples.take(k)).gate.window == w.gate.window,
    decreases k,
{
    lemma_button_after_next(w, samples, k - 1);
    if k - 1 > i {
        lemma_button_gate_grows(w, samples, i, k - 1);
    }
}

/// Whatever the polls of the button read, a tap is sent exactly at a poll that takes
/// note of a change to `Low`, and it is a tap of the button's key. A poll that finds
/// the line `High` sends nothing: letting go of the button is no tap.
pub proof fn lemma_button_tap_is_a_press(w: ButtonWorker, samples: Seq<ButtonSample>, i: int)
    requires
        0 <= i < samples.len(),
    ensures
        w.output(samples, i) is Some <==> w.notes_change(samples, i)
            && samples[i].level == Level::Low,
        w.output(samples, i) is Some ==> w.output(samples, i) == Some(Tap { key: w.key }),
        samples[i].level == Level::High ==> w.output(samples, i) is None,
{
    if i > 0 {
        lemma_button_after_next(w, samples, i - 1);
    } else {
        assert(samples.take(0).len() == 0);
    }
}

/// Whatever the polls of the button read, and in whatever order their time stamps come,
/// no two changes that the worker takes note of are closer together than the window;
/// so no two taps are, since every tap is such a change. With a window above zero the
/// later change also bears the later time stamp.
pub proof fn lemma_button_changes_are_spaced(
    w: ButtonWorker,
    samples: Seq<ButtonSample>,
    i: int,
    j: int,
)
    requires
        0 <= i < j < samples.len(),
        w.notes_change(samples, i) || w.output(samples, i) is Some,
        w.notes_change(samples, j) || w.output(samples, j) is Some,
    ensures
        distance(samples[i].at, samples[j].at) >= w.gate.window,
        w.gate.window > 0 ==> samples[i].at + w.gate.window <= samples[j].at,
{
    lemma_button_tap_is_a_press(w, samples, i);
    lemma_button_tap_is_a_press(w, samples, j);
    if w.gate.window > 0 {
        lemma_button_gate_grows(w, samples, i, j);
    }
}

/// Polling the button any number of times while the line keeps the level that the
/// worker remembers sends no tap and leaves the worker as it was, whatever the clock
/// reads.
pub proof fn lemma_button_steady_is_silent(w: ButtonWorker, samples: Seq<ButtonSample>)
    requires
        forall|i: int| 0 <= i < samples.len() ==> (#[trigger] samples[i]).level == w.last_state,
    ensures
        w.after(samples) == w,
        forall|i: int| 0 <= i < samples.len() ==> w.output(samples, i) is None,
    decreases samples.len(),
{
    if samples.len() > 0 {
        lemma_button_steady_is_silent(w, samples.drop_last());
        assert(samples.last() == samples[samples.len() - 1]);
    }
    assert forall|i: int| 0 <= i < samples.len() implies w.output(samples, i) is None by {
        lemma_button_steady_is_silent(w, samples.take(i));
        assert(samples[i].level == w.last_state);
    }
}

} // verus!
