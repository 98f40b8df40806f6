use encoder_input::debounce::{DebounceGate, BUTTON_DEBOUNCE_NS, ENCODER_DEBOUNCE_NS};
use encoder_input::decoder::Encoder;
use encoder_input::keys::{Key, KeyMapping, Tap};
use encoder_input::signal::Level;
use encoder_input::worker::{
    ButtonSample, ButtonWorker, EncoderSample, EncoderWorker, BUTTON_POLL_INTERVAL_NS,
    ENCODER_POLL_INTERVAL_NS,
};

const MS: u64 = 1_000_000;
const LEFT_RIGHT: KeyMapping = KeyMapping { clockwise: Key::Left, counter_clockwise: Key::Right };

/// Polls an encoder worker on each sample in turn and collects the taps.
fn run_encoder(worker: &mut EncoderWorker, samples: &[EncoderSample]) -> Vec<Option<Tap>> {
    samples.iter().map(|s| worker.poll(s.at, s.a, s.b)).collect()
}

/// Polls a button worker on each sample in turn and collects the taps.
fn run_button(worker: &mut ButtonWorker, samples: &[ButtonSample]) -> Vec<Option<Tap>> {
    samples.iter().map(|s| worker.poll(s.at, s.level)).collect()
}

#[test]
fn poll_intervals_are_a_tenth_of_a_millisecond_and_ten_milliseconds() {
    assert_eq!(ENCODER_POLL_INTERVAL_NS, 100_000);
    assert_eq!(BUTTON_POLL_INTERVAL_NS, 10_000_000);
}

#[test]
fn new_encoder_worker_starts_its_window_at_the_start() {
    let worker = EncoderWorker::new(LEFT_RIGHT, Level::Low, 77);
    assert_eq!(
        worker,
        EncoderWorker {
            encoder: Encoder { last_state_a: Level::Low },
            gate: DebounceGate { window: ENCODER_DEBOUNCE_NS, last_accepted: 77 },
            keys: LEFT_RIGHT,
        }
    );
    assert!(!worker.is_armed(77));
    assert!(!worker.is_armed(77 + 5 * MS - 1));
    assert!(worker.is_armed(77 + 5 * MS));
}

#[test]
fn new_button_worker_starts_its_window_at_the_start() {
    let worker = ButtonWorker::new(Key::Enter, Level::High, 9);
    assert_eq!(
        worker,
        ButtonWorker {
            last_state: Level::High,
            gate: DebounceGate { window: BUTTON_DEBOUNCE_NS, last_accepted: 9 },
            key: Key::Enter,
        }
    );
}

#[test]
fn encoder_turn_taps_the_key_of_its_direction() {
    let mut worker = EncoderWorker::new(LEFT_RIGHT, Level::High, 0);
    assert_eq!(worker.poll(10 * MS, Level::Low, Level::Low), Some(Tap { key: Key::Left }));
    assert_eq!(worker.gate.last_accepted, 10 * MS);
    assert_eq!(worker.poll(20 * MS, Level::High, Level::Low), None);
    assert_eq!(worker.gate.last_accepted, 10 * MS);
    assert_eq!(worker.poll(30 * MS, Level::Low, Level::High), Some(Tap { key: Key::Right }));
    assert_eq!(worker.gate.last_accepted, 30 * MS);
    assert_eq!(worker.keys, LEFT_RIGHT);
}

#[test]
fn encoder_poll_inside_the_window_is_skipped() {
    let mut worker = EncoderWorker::new(LEFT_RIGHT, Level::High, 0);
    let before = worker;
    // The line has fallen, but the first window is not over: nothing is looked at.
    assert_eq!(worker.poll(5 * MS - 1, Level::Low, Level::Low), None);
    assert_eq!(worker, before);
    // Once the window is over the fall is still there to be seen.
    assert_eq!(worker.poll(5 * MS, Level::Low, Level::Low), Some(Tap { key: Key::Left }));
}

#[test]
fn encoder_tap_exactly_one_window_after_the_last_is_sent() {
    let mut worker = EncoderWorker::new(LEFT_RIGHT, Level::High, 0);
    assert!(worker.poll(10 * MS, Level::Low, Level::Low).is_some());
    // The rise inside the window goes unseen, a poll at the boundary sees a steady line.
    assert_eq!(worker.poll(12 * MS, Level::High, Level::High), None);
    assert_eq!(worker.encoder.last_state_a, Level::Low);
    assert_eq!(worker.poll(15 * MS, Level::High, Level::High), None);
    assert_eq!(worker.encoder.last_state_a, Level::High);
    assert_eq!(worker.poll(15 * MS, Level::Low, Level::High), Some(Tap { key: Key::Right }));
    assert_eq!(worker.gate.last_accepted, 15 * MS);
}

#[test]
fn encoder_rising_edge_sends_nothing() {
    for b in [Level::Low, Level::High] {
        let mut worker = EncoderWorker::new(LEFT_RIGHT, Level::Low, 0);
        assert_eq!(worker.poll(10 * MS, Level::High, b), None);
        assert_eq!(worker.encoder.last_state_a, Level::High);
        assert_eq!(worker.gate.last_accepted, 0);
    }
}

#[test]
fn encoder_steady_line_sends_nothing_and_changes_nothing() {
    for level in [Level::High, Level::Low] {
        let mut worker = EncoderWorker::new(LEFT_RIGHT, level, 0);
        let before = worker;
        for i in 0..2000u64 {
            let b = if i % 2 == 0 { Level::Low } else { Level::High };
            assert_eq!(worker.poll(i * ENCODER_POLL_INTERVAL_NS, level, b), None);
            assert_eq!(worker, before);
        }
    }
}

#[test]
fn encoder_taps_are_never_closer_than_the_window() {
    let mut samples = Vec::new();
    // Phase A toggles every 0.3 ms for 100 ms, far faster than the window allows.
    for i in 0..1000u64 {
        let at = i * ENCODER_POLL_INTERVAL_NS;
        let a = if (i / 3) % 2 == 0 { Level::High } else { Level::Low };
        let b = if (i / 7) % 2 == 0 { Level::High } else { Level::Low };
        samples.push(EncoderSample { at, a, b });
    }
    let mut worker = EncoderWorker::new(LEFT_RIGHT, Level::High, 0);
    let taps = run_encoder(&mut worker, &samples);
    let times: Vec<u64> = samples
        .iter()
        .zip(taps.iter())
        .filter(|(_, tap)| tap.is_some())
        .map(|(s, _)| s.at)
        .collect();
    assert!(times.len() >= 10);
    assert!(times[0] >= ENCODER_DEBOUNCE_NS);
    for pair in times.windows(2) {
        assert!(pair[1] - pair[0] >= ENCODER_DEBOUNCE_NS);
    }
    for (s, tap) in samples.iter().zip(taps.iter()) {
        if let Some(tap) = tap {
            assert_eq!(s.a, Level::Low);
            let key = if s.b == Level::Low { Key::Left } else { Key::Right };
            assert_eq!(tap.key, key);
        }
    }
}

#[test]
fn button_press_taps_and_release_does_not() {
    let mut worker = ButtonWorker::new(Key::Enter, Level::High, 0);
    assert_eq!(worker.poll(100 * MS, Level::Low), Some(Tap { key: Key::Enter }));
    assert_eq!(worker.last_state, Level::Low);
    assert_eq!(worker.gate.last_accepted, 100 * MS);
    assert_eq!(worker.poll(200 * MS, Level::High), None);
    assert_eq!(worker.last_state, Level::High);
    assert_eq!(worker.gate.last_accepted, 200 * MS);
}

#[test]
fn button_change_inside_the_window_is_not_taken_note_of() {
    let mut worker = ButtonWorker::new(Key::Enter, Level::High, 0);
    let before = worker;
    assert_eq!(worker.poll(50 * MS - 1, Level::Low), None);
    assert_eq!(worker, before);
    // Still held when the window is over: the press is seen then.
    assert_eq!(worker.poll(50 * MS, Level::Low), Some(Tap { key: Key::Enter }));
}

#[test]
fn button_release_starts_the_window_anew() {
    let mut worker = ButtonWorker::new(Key::Enter, Level::High, 0);
    assert!(worker.poll(100 * MS, Level::Low).is_some());
    assert_eq!(worker.poll(160 * MS, Level::High), None);
    // A press 20 ms after the release is within the window of the release.
    assert_eq!(worker.poll(180 * MS, Level::Low), None);
    assert_eq!(worker.last_state, Level::High);
    assert_eq!(worker.poll(210 * MS, Level::Low), Some(Tap { key: Key::Enter }));
}

#[test]
fn button_steady_line_sends_nothing_and_changes_nothing() {
    for level in [Level::High, Level::Low] {
        let mut worker = ButtonWorker::new(Key::Enter, level, 0);
        let before = worker;
        for i in 0..500u64 {
            assert_eq!(worker.poll(i * BUTTON_POLL_INTERVAL_NS, level), None);
            assert_eq!(worker, before);
        }
    }
}

#[test]
fn button_bounce_gives_one_tap() {
    // The contact bounces for 6 ms while it closes, sampled every millisecond.
    let mut samples = Vec::new();
    let levels = [Level::Low, Level::High, Level::Low, Level::High, Level::Low, Level::Low];
    for (i, level) in levels.into_iter().enumerate() {
        samples.push(ButtonSample { at: 100 * MS + (i as u64) * MS, level });
    }
    for i in 0..20u64 {
        let at = 110 * MS + i * BUTTON_POLL_INTERVAL_NS;
        samples.push(ButtonSample { at, level: Level::Low });
    }
    let mut worker = ButtonWorker::new(Key::Enter, Level::High, 0);
    let taps = run_button(&mut worker, &samples);
    assert_eq!(taps.iter().filter(|t| t.is_some()).count(), 1);
    assert_eq!(taps[0], Some(Tap { key: Key::Enter }));
}

#[test]
fn button_taps_are_never_closer_than_the_window() {
    let mut samples = Vec::new();
    // The line toggles every 20 ms for four seconds.
    for i in 0..400u64 {
        let level = if (i / 2) % 2 == 0 { Level::High } else { Level::Low };
        samples.push(ButtonSample { at: i * BUTTON_POLL_INTERVAL_NS, level });
    }
    let mut worker = ButtonWorker::new(Key::Enter, Level::High, 0);
    let taps = run_button(&mut worker, &samples);
    let times: Vec<u64> = samples
        .iter()
        .zip(taps.iter())
        .filter(|(_, tap)| tap.is_some())
        .map(|(s, _)| s.at)
        .collect();
    assert!(times.len() >= 10);
    for pair in times.windows(2) {
        assert!(pair[1] - pair[0] >= BUTTON_DEBOUNCE_NS);
    }
    for (s, tap) in samples.iter().zip(taps.iter()) {
        if tap.is_some() {
            assert_eq!(s.level, Level::Low);
        }
    }
}
