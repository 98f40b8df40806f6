//! Keys, key events and taps: what a channel hands to the output sink.

use vstd::prelude::*;
use crate::signal::Direction;

verus! {

/// The keys that the channels can be bound to, named as the input layer that takes the
/// events names them.
#[derive(Clone, Copy, Debug, PartialEq, Eq, Structural)]
pub enum Key {
    Left,
    Right,
    Up,
    Down,
    A,
    D,
    W,
    S,
    KpPlus,
    KpMinus,
    Enter,
}

/// What happens to a key in one event.
#[derive(Clone, Copy, Debug, PartialEq, Eq, Structural)]
pub enum KeyAction {
    /// The key goes down.
    Press,
    /// The key comes up.
    Release,
}

/// One event for the output sink.
#[derive(Clone, Copy, Debug, PartialEq, Eq, Structural)]
pub struct KeyEvent {
    pub key: Key,
    pub action: KeyAction,
}

/// A momentary press of a key: the key goes down and comes up at once. A tap is what
/// one accepted detection of a channel amounts to; a key is never held.
#[derive(Clone, Copy, Debug, PartialEq, Eq, Structural)]
pub struct Tap {
    pub key: Key,
}

/// The two keys of an encoder channel, one for each direction.
#[derive(Clone, Copy, Debug, PartialEq, Eq, Structural)]
pub struct KeyMapping {
    pub clockwise: Key,
    pub counter_clockwise: Key,
}

impl KeyAction {
    /// The number that stands for the action in an event of the input layer: 1 for a
    /// key that goes down, 0 for one that comes up.
    pub open spec fn spec_value(self) -> i32 {
        match self {
            KeyAction::Press => 1i32,
            KeyAction::Release => 0i32,
        }
    }

    /// The number that stands for the action in an event of the input layer.
    #[verifier::when_used_as_spec(spec_value)]
    pub fn value(self) -> (v: i32)
        ensures
            v == self.spec_value(),
            v == 1 <==> self == KeyAction::Press,
            v == 0 <==> self == KeyAction::Release,
    {
        match self {
            KeyAction::Press => 1,
            KeyAction::Release => 0,
        }
    }
}

impl Tap {
    /// The events of the tap in the order in which the sink gets them: the press, then
    /// the release, both of the tap's key.
    pub open spec fn spec_events(self) -> Seq<KeyEvent> {
        seq![
            KeyEvent { key: self.key, action: KeyAction::Press },
            KeyEvent { key: self.key, action: KeyAction::Release },
        ]
    }

    /// The events of the tap, to be handed to the sink in one piece: exactly two, the
    /// press of the key and right after it the release of the same key.
    pub fn events(&self) -> (r: [KeyEvent; 2])
        ensures
            r@ == self.spec_events(),
            r@.len() == 2,
            r@[0] == (KeyEvent { key: self.key, action: KeyAction::Press }),
            r@[1] == (KeyEvent { key: self.key, action: KeyAction::Release }),
    {
        [
            KeyEvent { key: self.key, action: KeyAction::Press },
            KeyEvent { key: self.key, action: KeyAction::Release },
        ]
    }
}

impl KeyMapping {
    /// The key that a turn in the given direction taps.
    pub open spec fn spec_key_for(self, direction: Direction) -> Key {
        match direction {
            Direction::Clockwise => self.clockwise,
            Direction::CounterClockwise => self.counter_clockwise,
        }
    }

    /// The key that a turn in the given direction taps.
    #[verifier::when_used_as_spec(spec_key_for)]
    pub fn key_for(self, direction: Direction) -> (k: Key)
        ensures
            k == self.spec_key_for(direction),
    {
        match direction {
            Direction::Clockwise => self.clockwise,
            Direction::CounterClockwise => self.counter_clockwise,
        }
    }
}

/// The events that reach the sink when the taps of `taps` are handed to it one after
/// the other, each in one piece.
pub open spec fn event_stream(taps: Seq<Tap>) -> Seq<KeyEvent>
    decreases taps.len(),
{
    if taps.len() == 0 {
        Seq::empty()
    } else {
        event_stream(taps.drop_last()) + taps.last().spec_events()
    }
}

/// In the events of any sequence of taps, from whichever channels they come, each tap
/// stands as two events side by side: the press of its key and right after it the
/// release of the same key. No event of another tap stands between the two.
pub proof fn lemma_taps_stay_whole(taps: Seq<Tap>, k: int)
    requires
        0 <= k < taps.len(),
    ensures
        event_stream(taps).len() == 2 * taps.len(),
        event_stream(taps)[2 * k] == (KeyEvent { key: taps[k].key, action: KeyAction::Press }),
        event_stream(taps)[2 * k + 1] == (KeyEvent {
            key: taps[k].key,
            action: KeyAction::Release,
        }),
    decreases taps.len(),
{
    lemma_event_stream_len(taps);
    lemma_event_stream_len(taps.drop_last());
    if k < taps.len() - 1 {
        lemma_taps_stay_whole(taps.drop_last(), k);
    }
}

/// Every tap adds two events.
pub proof fn lemma_event_stream_len(taps: Seq<Tap>)
    ensures
        event_stream(taps).len() == 2 * taps.len(),
    decreases taps.len(),
{
    if taps.len() > 0 {
        lemma_event_stream_len(taps.drop_last());
    }
}

} // verus!
