//! The debounce gate: a minimum interval between accepted detections.
//!
//! A debounce gate is a pure time filter. It remembers when it last accepted a detection
//! and admits the next one only when at least the window has passed since then. It does
//! not tell contact bounce from a fast turn: whatever comes sooner than the window is
//! dropped, and that is no error.
//!
//! Time stamps and windows are in nanoseconds of a monotonic clock.

use vstd::prelude::*;

verus! {

/// The debounce window of an encoder channel: 5 ms.
pub const ENCODER_DEBOUNCE_NS: u64 = 5_000_000;

/// The debounce window of the button channel: 50 ms.
pub const BUTTON_DEBOUNCE_NS: u64 = 50_000_000;

/// The time stamp for a clock reading of `nanos` nanoseconds: the reading itself, or the
/// largest time stamp there is where the reading is beyond it.
pub open spec fn spec_time_stamp(nanos: u128) -> u64 {
    if nanos <= u64::MAX {
        nanos as u64
    } else {
        u64::MAX
    }
}

/// The time stamp for a clock reading of `nanos` nanoseconds since the clock was started.
/// A reading too large for a time stamp, which takes a clock some 584 years to reach,
/// gives the largest time stamp.
#[verifier::when_used_as_spec(spec_time_stamp)]
pub fn time_stamp(nanos: u128) -> (t: u64)
    ensures
        t == spec_time_stamp(nanos),
        nanos <= u64::MAX ==> t == nanos,
        nanos > u64::MAX ==> t == u64::MAX,
{
    if nanos <= u64::MAX as u128 {
        nanos as u64
    } else {
        u64::MAX
    }
}

/// How far apart two time stamps are.
pub open spec fn distance(t1: u64, t2: u64) -> int {
    if t1 <= t2 {
        t2 - t1
    } else {
        t1 - t2
    }
}

/// A debounce gate: its window and the time stamp of the detection it accepted last.
#[derive(Clone, Copy, Debug, PartialEq, Eq, Structural)]
pub struct DebounceGate {
    pub window: u64,
    pub last_accepted: u64,
}

impl DebounceGate {
    /// The time that has passed at `now` since the last accepted detection. A time stamp
    /// from before that detection counts as no time passed.
    pub open spec fn elapsed_at(self, now: u64) -> int {
        if now >= self.last_accepted {
            now - self.last_accepted
        } else {
            0
        }
    }

    /// Whether a detection at `now` is let through: the time passed is the window or
    /// more. A detection exactly one window after the last one is let through.
    pub open spec fn admits(self, now: u64) -> bool {
        self.elapsed_at(now) >= self.window
    }

    /// This gate after it accepted a detection at `now`.
    pub open spec fn accepting(self, now: u64) -> DebounceGate {
        DebounceGate { window: self.window, last_accepted: now }
    }

    /// Offering a detection as a function: this gate afterwards and whether the
    /// detection was accepted.
    pub open spec fn step(self, now: u64) -> (DebounceGate, bool) {
        if self.admits(now) {
            (self.accepting(now), true)
        } else {
            (self, false)
        }
    }

    /// This gate after the detections at the time stamps `offered` were offered in turn.
    pub open spec fn after(self, offered: Seq<u64>) -> DebounceGate
        decreases offered.len(),
    {
        if offered.len() == 0 {
            self
        } else {
            self.after(offered.drop_last()).step(offered.last()).0
        }
    }

    /// Whether the detection at `offered[i]` is accepted when the detections at
    /// `offered` are offered in turn.
    pub open spec fn accepts(self, offered: Seq<u64>, i: int) -> bool {
        self.after(offered.take(i)).step(offered[i]).1
    }

    /// A gate with the given window that counts `now` as its last accepted detection,
    /// so that nothing is let through before `now + window`.
    pub fn new(window: u64, now: u64) -> (r: DebounceGate)
        ensures
            r == (DebounceGate { window, last_accepted: now }),
    {
        DebounceGate { window, last_accepted: now }
    }

    /// The time that has passed at `now` since the last accepted detection.
    pub fn elapsed(&self, now: u64) -> (r: u64)
        ensures
            r == self.elapsed_at(now),
    {
        if now >= self.last_accepted {
            now - self.last_accepted
        } else {
            0
        }
    }

    /// Whether a detection at `now` would be let through.
    pub fn is_open(&self, now: u64) -> (r: bool)
        ensures
            r == self.admits(now),
            r == (self.elapsed_at(now) >= self.window),
    {
        self.elapsed(now) >= self.window
    }

    /// Records that a detection at `now` was accepted: the window starts anew there.
    pub fn accept(&mut self, now: u64)
        ensures
            *final(self) == old(self).accepting(now),
            final(self).last_accepted == now,
            final(self).window == old(self).window,
    {
        self.last_accepted = now;
    }

    /// Offers a detection at `now`. It is accepted, and recorded, exactly when it comes
    /// a window or more after the last accepted one; a rejected one changes nothing.
    pub fn offer(&mut self, now: u64) -> (r: bool)
        ensures
            (*final(self), r) == old(self).step(now),
            r == old(self).admits(now),
            r ==> *final(self) == old(self).accepting(now),
            !r ==> *final(self) == *old(self),
    {
        if self.is_open(now) {
            self.accept(now);
            true
        } else {
            false
        }
    }
}

/// Offering one more detection is one more step. The window never changes.
pub proof fn lemma_after_next(gate: DebounceGate, offered: Seq<u64>, k: int)
    requires
        0 <= k < offered.len(),
    ensures
        gate.after(offered.take(k + 1)) == gate.after(offered.take(k)).step(offered[k]).0,
        gate.after(offered.take(k)).window == gate.window,
    decreases k,
{
    assert(offered.take(k + 1).drop_last() =~= offered.take(k));
    assert(offered.take(k + 1).last() == offered[k]);
    if k > 0 {
        lemma_after_next(gate, offered, k - 1);
    } else {
        assert(offered.take(0).len() == 0);
    }
}

/// With a window above zero, the time stamp that a debounce gate remembers never goes
/// back: once the detection at `offered[i]` was accepted, that time stamp or a later one
/// is remembered.
proof fn lemma_last_accepted_grows(gate: DebounceGate, offered: Seq<u64>, i: int, k: int)
    requires
        0 <= i < k <= offered.len(),
        gate.window > 0,
        gate.accepts(offered, i),
    ensures
        gate.after(offered.take(k)).last_accepted >= offered[i],
        gate.after(offered.take(k)).window == gate.window,
    decreases k,
{
    lemma_after_next(gate, offered, k - 1);
    if k - 1 > i {
        lemma_after_next(gate, offered, i);
        lemma_last_accepted_grows(gate, offered, i, k - 1);
    }
}

/// A detection exactly one window after the last accepted one is let through.
pub proof fn lemma_boundary_is_admitted(gate: DebounceGate, now: u64)
    requires
        now == gate.last_accepted + gate.window,
    ensures
        gate.admits(now),
{
}

/// Anything sooner than one window after the last accepted detection is held back.
pub proof fn lemma_inside_window_is_rejected(gate: DebounceGate, now: u64)
    requires
        gate.last_accepted <= now < gate.last_accepted + gate.window,
    ensures
        !gate.admits(now),
{
}

/// Whatever detections are offered to a debounce gate, and in whatever order their time
/// stamps come, no two that it accepts are closer together than the window. With a
/// window above zero the later of two accepted detections also bears the later time
/// stamp.
pub proof fn lemma_accepted_are_spaced(gate: DebounceGate, offered: Seq<u64>, i: int, j: int)
    requires
        0 <= i < j < offered.len(),
        gate.accepts(offered, i),
        gate.accepts(offered, j),
    ensures
        distance(offered[i], offered[j]) >= gate.window,
        gate.window > 0 ==> offered[i] + gate.window <= offered[j],
{
    if gate.window > 0 {
        lemma_last_accepted_grows(gate, offered, i, j);
    }
}

/// A detection that a debounce gate accepts is no closer than the window to the time
/// stamp that the debounce gate started from. With a window above zero it is also the
/// later of the two.
pub proof fn lemma_accepted_after_start(gate: DebounceGate, offered: Seq<u64>, i: int)
    requires
        0 <= i < offered.len(),
        gate.accepts(offered, i),
    ensures
        distance(gate.last_accepted, offered[i]) >= gate.window,
        gate.window > 0 ==> gate.last_accepted + gate.window <= offered[i],
{
    if gate.window > 0 {
        lemma_start_is_kept(gate, offered, i);
    }
}

/// With a window above zero, a debounce gate never remembers a time stamp before the
/// one that it started from.
proof fn lemma_start_is_kept(gate: DebounceGate, offered: Seq<u64>, k: int)
    requires
        0 <= k <= offered.len(),
        gate.window > 0,
    ensures
        gate.after(offered.take(k)).last_accepted >= gate.last_accepted,
        gate.after(offered.take(k)).window == gate.window,
    decreases k,
{
    if k > 0 {
        lemma_after_next(gate, offered, k - 1);
        lemma_start_is_kept(gate, offered, k - 1);
    } else {
        assert(offered.take(0).len() == 0);
    }
}

} // verus!
