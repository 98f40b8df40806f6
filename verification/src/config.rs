//! The configuration of the channels: which lines they read and which keys they tap.

use vstd::prelude::*;
use crate::keys::{Key, KeyMapping, Tap};
use crate::signal::Level;
use crate::worker::{ButtonWorker, EncoderWorker};

verus! {

/// One encoder channel: the numbers of the lines of its two phases and its two keys.
#[derive(Clone, Copy, Debug, PartialEq, Eq, Structural)]
pub struct EncoderChannel {
    pub pin_a: u8,
    pub pin_b: u8,
    pub keys: KeyMapping,
}

/// The button channel: the number of its line and its key.
#[derive(Clone, Copy, Debug, PartialEq, Eq, Structural)]
pub struct ButtonChannel {
    pub pin: u8,
    pub key: Key,
}

/// The channels of a device: any number of encoders and one button. It is fixed at
/// start-up and does not change while the workers run.
#[derive(Debug)]
pub struct Config {
    pub encoders: Vec<EncoderChannel>,
    pub button: ButtonChannel,
}

/// The keys of the given encoder channels in the order of the channels, for each the
/// clockwise key and then the counter-clockwise one.
pub open spec fn encoder_keys(encoders: Seq<EncoderChannel>) -> Seq<Key> {
    Seq::new(
        2 * encoders.len(),
        |i: int|
            if i % 2 == 0 {
                encoders[i / 2].keys.clockwise
            } else {
                encoders[i / 2].keys.counter_clockwise
            },
    )
}

impl Config {
    /// Every key that a worker of these channels may ever tap: the keys of the encoders
    /// in the order of the channels, then the key of the button.
    pub open spec fn spec_keys(self) -> Seq<Key> {
        encoder_keys(self.encoders@).push(self.button.key)
    }

    /// The standard layout: five encoders, on the lines 17 and 27, 23 and 24, 5 and 6,
    /// 19 and 26, 20 and 21, which tap left and right, up and down, A and D, W and S,
    /// keypad plus and keypad minus; and the button on line 10, which taps enter.
    pub fn standard() -> (c: Config)
        ensures
            c.encoders@ == seq![
                EncoderChannel {
                    pin_a: 17,
                    pin_b: 27,
                    keys: KeyMapping { clockwise: Key::Left, counter_clockwise: Key::Right },
                },
                EncoderChannel {
                    pin_a: 23,
                    pin_b: 24,
                    keys: KeyMapping { clockwise: Key::Up, counter_clockwise: Key::Down },
                },
                EncoderChannel {
                    pin_a: 5,
                    pin_b: 6,
                    keys: KeyMapping { clockwise: Key::A, counter_clockwise: Key::D },
                },
                EncoderChannel {
                    pin_a: 19,
                    pin_b: 26,
                    keys: KeyMapping { clockwise: Key::W, counter_clockwise: Key::S },
                },
                EncoderChannel {
                    pin_a: 20,
                    pin_b: 21,
                    keys: KeyMapping { clockwise: Key::KpPlus, counter_clockwise: Key::KpMinus },
                },
            ],
            c.button == (ButtonChannel { pin: 10, key: Key::Enter }),
            c.spec_keys() == seq![
                Key::Left,
                Key::Right,
                Key::Up,
                Key::Down,
                Key::A,
                Key::D,
                Key::W,
                Key::S,
                Key::KpPlus,
                Key::KpMinus,
                Key::Enter,
            ],
    {
        let mut encoders: Vec<EncoderChannel> = Vec::new();
        encoders.push(
            EncoderChannel {
                pin_a: 17,
                pin_b: 27,
                keys: KeyMapping { clockwise: Key::Left, counter_clockwise: Key::Right },
            },
        );
        encoders.push(
            EncoderChannel {
                pin_a: 23,
                pin_b: 24,
                keys: KeyMapping { clockwise: Key::Up, counter_clockwise: Key::Down },
            },
        );
        encoders.push(
            EncoderChannel {
                pin_a: 5,
                pin_b: 6,
                keys: KeyMapping { clockwise: Key::A, counter_clockwise: Key::D },
            },
        );
        encoders.push(
            EncoderChannel {
                pin_a: 19,
                pin_b: 26,
                keys: KeyMapping { clockwise: Key::W, counter_clockwise: Key::S },
            },
        );
        encoders.push(
            EncoderChannel {
                pin_a: 20,
                pin_b: 21,
                keys: KeyMapping { clockwise: Key::KpPlus, counter_clockwise: Key::KpMinus },
            },
        );
        let c = Config { encoders, button: ButtonChannel { pin: 10, key: Key::Enter } };
        assert(c.spec_keys() =~= seq![
            Key::Left,
            Key::Right,
            Key::Up,
            Key::Down,
            Key::A,
            Key::D,
            Key::W,
            Key::S,
            Key::KpPlus,
            Key::KpMinus,
            Key::Enter,
        ]);
        c
    }

    /// Every key that a worker of these channels may ever tap, to be made known to the
    /// input layer before the first event: the keys of the encoders in the order of the
    /// channels, for each the clockwise key and then the counter-clockwise one, and
    /// last the key of the button.
    pub fn keys(&self) -> (r: Vec<Key>)
        ensures
            r@ == self.spec_keys(),
            r@.len() == 2 * self.encoders@.len() + 1,
    {
        let mut r: Vec<Key> = Vec::new();
        let mut i: usize = 0;
        while i < self.encoders.len()
            invariant
                0 <= i <= self.encoders@.len(),
                r@ == encoder_keys(self.encoders@.take(i as int)),
            decreases self.encoders@.len() - i,
        {
            let channel = self.encoders[i];
            r.push(channel.keys.clockwise);
            r.push(channel.keys.counter_clockwise);
            i = i + 1;
            assert(r@ =~= encoder_keys(self.encoders@.take(i as int)));
        }
        assert(self.encoders@.take(i as int) =~= self.encoders@);
        r.push(self.button.key);
        r
    }
}

/// The keys made known hold both keys of every encoder channel and the key of the
/// button.
pub proof fn lemma_keys_hold_every_channel(c: Config, k: int)
    requires
        0 <= k < c.encoders@.len(),
    ensures
        c.spec_keys().contains(c.encoders@[k].keys.clockwise),
        c.spec_keys().contains(c.encoders@[k].keys.counter_clockwise),
        c.spec_keys().contains(c.button.key),
{
    let keys = c.spec_keys();
    let n = c.encoders@.len() as int;
    assert(keys[2 * k] == c.encoders@[k].keys.clockwise);
    assert(keys[2 * k + 1] == c.encoders@[k].keys.counter_clockwise);
    assert(keys[2 * n] == c.button.key);
}

/// The keys made known hold nothing but keys of the channels.
pub proof fn lemma_keys_hold_nothing_else(c: Config, key: Key)
    requires
        c.spec_keys().contains(key),
    ensures
        key == c.button.key || exists|k: int|
            0 <= k < c.encoders@.len() && (key == (#[trigger] c.encoders@[k]).keys.clockwise
                || key == c.encoders@[k].keys.counter_clockwise),
{
    let keys = c.spec_keys();
    let i = choose|i: int| 0 <= i < keys.len() && keys[i] == key;
    if i < 2 * c.encoders@.len() {
        let k = i / 2;
        let channel = c.encoders@[k];
        assert(key == channel.keys.clockwise || key == channel.keys.counter_clockwise);
    }
}

/// Whatever a worker of an encoder channel of the configuration taps was made known:
/// the key of every tap is among the keys of the configuration.
pub proof fn lemma_encoder_taps_are_known(
    c: Config,
    k: int,
    w: EncoderWorker,
    now: u64,
    a: Level,
    b: Level,
)
    requires
        0 <= k < c.encoders@.len(),
        w.keys == c.encoders@[k].keys,
    ensures
        w.step(now, a, b).1 is Some ==> c.spec_keys().contains(w.step(now, a, b).1->0.key),
        w.step(now, a, b).0.keys == c.encoders@[k].keys,
{
    lemma_keys_hold_every_channel(c, k);
}

/// Whatever the worker of the button of the configuration taps was made known.
pub proof fn lemma_button_taps_are_known(c: Config, w: ButtonWorker, now: u64, level: Level)
    requires
        w.key == c.button.key,
    ensures
        w.step(now, level).1 is Some ==> w.step(now, level).1 == Some(Tap { key: c.button.key })
            && c.spec_keys().contains(c.button.key),
        w.step(now, level).0.key == c.button.key,
{
    let keys = c.spec_keys();
    assert(keys[2 * c.encoders@.len() as int] == c.button.key);
}

} // verus!
