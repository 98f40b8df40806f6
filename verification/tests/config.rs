use encoder_input::config::{ButtonChannel, Config, EncoderChannel};
use encoder_input::keys::{Key, KeyMapping};
use encoder_input::signal::Level;
use encoder_input::worker::{ButtonWorker, EncoderWorker};

#[test]
fn standard_layout_has_five_encoders_and_the_button() {
    let config = Config::standard();
    let pins: Vec<(u8, u8)> = config.encoders.iter().map(|c| (c.pin_a, c.pin_b)).collect();
    assert_eq!(pins, vec![(17, 27), (23, 24), (5, 6), (19, 26), (20, 21)]);
    let keys: Vec<(Key, Key)> = config
        .encoders
        .iter()
        .map(|c| (c.keys.clockwise, c.keys.counter_clockwise))
        .collect();
    assert_eq!(
        keys,
        vec![
            (Key::Left, Key::Right),
            (Key::Up, Key::Down),
            (Key::A, Key::D),
            (Key::W, Key::S),
            (Key::KpPlus, Key::KpMinus),
        ]
    );
    assert_eq!(config.button, ButtonChannel { pin: 10, key: Key::Enter });
}

#[test]
fn standard_layout_makes_eleven_keys_known() {
    assert_eq!(
        Config::standard().keys(),
        vec![
            Key::Left,
            Key::Right,
            Key::Up,
            Key::Down,
            Key::A,
            Key::D,
            Key::W,
            Key::S,
            Key::KpPlus,
            Key::KpMinus,
            Key::Enter,
        ]
    );
}

#[test]
fn keys_of_a_layout_without_encoders_is_the_button_key() {
    let config = Config { encoders: Vec::new(), button: ButtonChannel { pin: 4, key: Key::A } };
    assert_eq!(config.keys(), vec![Key::A]);
}

#[test]
fn keys_follow_the_channels_in_order() {
    let config = Config {
        encoders: vec![
            EncoderChannel {
                pin_a: 1,
                pin_b: 2,
                keys: KeyMapping { clockwise: Key::S, counter_clockwise: Key::W },
            },
            EncoderChannel {
                pin_a: 3,
                pin_b: 4,
                keys: KeyMapping { clockwise: Key::S, counter_clockwise: Key::Enter },
            },
        ],
        button: ButtonChannel { pin: 5, key: Key::Down },
    };
    assert_eq!(config.keys(), vec![Key::S, Key::W, Key::S, Key::Enter, Key::Down]);
}

#[test]
fn every_tap_of_the_standard_layout_was_made_known() {
    let config = Config::standard();
    let known = config.keys();
    for channel in &config.encoders {
        for b in [Level::Low, Level::High] {
            let mut worker = EncoderWorker::new(channel.keys, Level::High, 0);
            let tap = worker.poll(5_000_000, Level::Low, b).unwrap();
            assert!(known.contains(&tap.key));
        }
    }
    let mut button = ButtonWorker::new(config.button.key, Level::High, 0);
    let tap = button.poll(50_000_000, Level::Low).unwrap();
    assert!(known.contains(&tap.key));
}
