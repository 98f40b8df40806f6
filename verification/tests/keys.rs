use encoder_input::keys::{Key, KeyAction, KeyEvent, KeyMapping, Tap};
use encoder_input::signal::Direction;

const ALL_KEYS: [Key; 11] = [
    Key::Left,
    Key::Right,
    Key::Up,
    Key::Down,
    Key::A,
    Key::D,
    Key::W,
    Key::S,
    Key::KpPlus,
    Key::KpMinus,
    Key::Enter,
];

#[test]
fn press_is_one_and_release_is_zero() {
    assert_eq!(KeyAction::Press.value(), 1);
    assert_eq!(KeyAction::Release.value(), 0);
}

#[test]
fn tap_is_a_press_then_a_release_of_the_same_key() {
    for key in ALL_KEYS {
        let events = Tap { key }.events();
        assert_eq!(events.len(), 2);
        assert_eq!(events[0], KeyEvent { key, action: KeyAction::Press });
        assert_eq!(events[1], KeyEvent { key, action: KeyAction::Release });
    }
}

#[test]
fn tap_values_are_down_then_up() {
    let events = Tap { key: Key::Enter }.events();
    let values: Vec<i32> = events.iter().map(|e| e.action.value()).collect();
    assert_eq!(values, vec![1, 0]);
}

#[test]
fn mapping_gives_the_key_of_the_direction() {
    let keys = KeyMapping { clockwise: Key::Left, counter_clockwise: Key::Right };
    assert_eq!(keys.key_for(Direction::Clockwise), Key::Left);
    assert_eq!(keys.key_for(Direction::CounterClockwise), Key::Right);
}

#[test]
fn taps_handed_over_whole_never_interleave() {
    let taps = [
        Tap { key: Key::Left },
        Tap { key: Key::Enter },
        Tap { key: Key::W },
        Tap { key: Key::Left },
    ];
    let mut stream = Vec::new();
    for tap in taps {
        stream.extend_from_slice(&tap.events());
    }
    assert_eq!(stream.len(), 8);
    for (k, tap) in taps.iter().enumerate() {
        assert_eq!(stream[2 * k], KeyEvent { key: tap.key, action: KeyAction::Press });
        assert_eq!(stream[2 * k + 1], KeyEvent { key: tap.key, action: KeyAction::Release });
    }
}
