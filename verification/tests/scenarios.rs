use debounced_button::{Button, Duration, Instant, Phase, Probe};

const MS: u64 = 1_000;

fn at(ms: u64) -> Instant {
    Instant { ticks: ms * MS }
}

fn five_ms_button() -> Button {
    Button::new(true, Duration { ticks: 5 * MS })
}

fn feed(button: &mut Button, level: bool, time: Instant) {
    assert!(button.accepts(time));
    let outcome: Result<(), ()> = button.poll(Ok(level), time);
    assert_eq!(outcome, Ok(()));
}

fn pressed(debounce_ms: u64) -> Button {
    let mut button = Button::new(true, Duration { ticks: debounce_ms * MS });
    feed(&mut button, true, at(0));
    feed(&mut button, true, at(debounce_ms + 1));
    assert_eq!(button.phase(), Phase::On);
    assert!(button.state());
    assert!(button.toggle_state());
    button
}

#[test]
fn new_button_is_off_and_has_seen_nothing() {
    let button = five_ms_button();
    assert_eq!(button.phase(), Phase::Off);
    assert!(!button.state());
    assert!(!button.last_state());
    assert!(!button.toggle_state());
    assert!(button.accepts(at(0)));
}

#[test]
fn probe_follows_the_polarity() {
    assert_eq!(Button::new(true, Duration { ticks: 5 * MS }).probe(), Probe::IsHigh);
    assert_eq!(Button::new(false, Duration { ticks: 5 * MS }).probe(), Probe::IsLow);
}

#[test]
fn press_and_release_with_a_five_millisecond_debounce() {
    let mut button = five_ms_button();

    feed(&mut button, false, at(0));
    assert_eq!(button.phase(), Phase::Off);
    assert!(!button.state());

    feed(&mut button, true, at(1));
    assert_eq!(button.phase(), Phase::DebouncingOn);
    assert!(!button.state());

    feed(&mut button, true, at(7));
    assert_eq!(button.phase(), Phase::On);
    assert!(button.state());
    assert!(button.toggle_state());

    feed(&mut button, false, at(8));
    assert_eq!(button.phase(), Phase::DebouncingOff);
    assert!(button.state());

    feed(&mut button, false, at(14));
    assert_eq!(button.phase(), Phase::Off);
    assert!(!button.state());
    assert!(button.toggle_state());
}

#[test]
fn idle_input_keeps_the_button_off() {
    let mut button = five_ms_button();
    for ms in 0..200 {
        feed(&mut button, false, at(ms));
        assert_eq!(button.phase(), Phase::Off);
        assert!(!button.state());
        assert!(!button.last_state());
        assert!(!button.toggle_state());
    }
}

#[test]
fn bounce_shorter_than_the_debounce_interval_is_rejected() {
    let mut button = five_ms_button();
    feed(&mut button, false, at(0));
    feed(&mut button, true, at(10));
    feed(&mut button, true, at(12));
    feed(&mut button, true, at(15));
    assert_eq!(button.phase(), Phase::DebouncingOn);
    for ms in 16..60 {
        feed(&mut button, false, at(ms));
        assert!(!button.state());
        assert!(!button.toggle_state());
    }
    assert_eq!(button.phase(), Phase::Off);
}

#[test]
fn press_is_confirmed_only_after_more_than_the_debounce_interval() {
    let mut button = five_ms_button();
    feed(&mut button, true, at(3));
    feed(&mut button, true, Instant { ticks: 7_999 });
    assert!(!button.state());
    feed(&mut button, true, at(8));
    assert_eq!(button.phase(), Phase::DebouncingOn);
    assert!(!button.state());
    assert!(!button.toggle_state());
    feed(&mut button, true, Instant { ticks: 8_001 });
    assert_eq!(button.phase(), Phase::On);
    assert!(button.state());
    assert!(button.toggle_state());
    for ms in 9..40 {
        feed(&mut button, true, at(ms));
        assert_eq!(button.phase(), Phase::On);
        assert!(button.state());
        assert!(button.toggle_state());
    }
}

#[test]
fn elapsed_time_counts_from_the_recorded_edge_not_from_zero() {
    let mut button = five_ms_button();
    feed(&mut button, false, at(100));
    feed(&mut button, true, at(101));
    feed(&mut button, true, at(105));
    assert_eq!(button.phase(), Phase::DebouncingOn);
    assert!(!button.state());
    feed(&mut button, true, at(107));
    assert!(button.state());
}

#[test]
fn pending_press_is_abandoned_after_the_timeout() {
    let mut button = five_ms_button();
    feed(&mut button, true, at(1));
    feed(&mut button, false, at(22));
    assert_eq!(button.phase(), Phase::Off);
    assert!(!button.state());
    assert!(!button.toggle_state());
}

#[test]
fn timeout_is_twenty_milliseconds() {
    let mut button = five_ms_button();
    feed(&mut button, true, at(1));
    feed(&mut button, false, at(11));
    assert_eq!(button.phase(), Phase::DebouncingOn);
    feed(&mut button, false, at(21));
    assert_eq!(button.phase(), Phase::DebouncingOn);
    feed(&mut button, false, Instant { ticks: 21_001 });
    assert_eq!(button.phase(), Phase::Off);

    let timeout: fugit::Duration<u64, 1, 1_000_000> = fugit::ExtU64::millis(20);
    assert_eq!(timeout.ticks(), 20 * MS);
}

#[test]
fn pending_press_survives_a_short_dropout() {
    let mut button = five_ms_button();
    feed(&mut button, true, at(1));
    feed(&mut button, false, at(3));
    assert_eq!(button.phase(), Phase::DebouncingOn);
    feed(&mut button, true, at(10));
    assert_eq!(button.phase(), Phase::On);
    assert!(button.state());
}

#[test]
fn release_is_confirmed_without_flipping_the_toggle() {
    let mut button = pressed(5);
    feed(&mut button, false, at(50));
    assert_eq!(button.phase(), Phase::DebouncingOff);
    assert!(button.state());
    feed(&mut button, false, at(55));
    assert_eq!(button.phase(), Phase::DebouncingOff);
    assert!(button.state());
    feed(&mut button, false, at(56));
    assert_eq!(button.phase(), Phase::Off);
    assert!(!button.state());
    assert!(button.toggle_state());
}

#[test]
fn pending_release_is_abandoned_after_the_timeout() {
    let mut button = pressed(5);
    feed(&mut button, false, at(50));
    feed(&mut button, true, at(60));
    assert_eq!(button.phase(), Phase::DebouncingOff);
    feed(&mut button, true, at(71));
    assert_eq!(button.phase(), Phase::On);
    assert!(button.state());
    assert!(button.toggle_state());
}

#[test]
fn toggle_flips_once_per_press() {
    let mut button = five_ms_button();
    let mut now: u64 = 0;
    let mut expected = false;
    for _ in 0..6 {
        feed(&mut button, true, at(now));
        feed(&mut button, true, at(now + 6));
        expected = !expected;
        assert_eq!(button.toggle_state(), expected);
        feed(&mut button, false, at(now + 10));
        feed(&mut button, false, at(now + 16));
        assert_eq!(button.toggle_state(), expected);
        assert!(!button.state());
        now += 30;
    }
}

#[test]
fn last_state_trails_state_by_one_poll() {
    let script: [(bool, u64); 24] = [
        (false, 0), (true, 1), (true, 7), (true, 8), (false, 9), (false, 15), (false, 16),
        (true, 20), (false, 22), (false, 45), (true, 50), (true, 56), (false, 57), (true, 60),
        (true, 80), (false, 81), (false, 90), (true, 91), (true, 97), (false, 98), (false, 104),
        (true, 105), (true, 111), (false, 112),
    ];
    let mut button = five_ms_button();
    let mut changes = 0;
    for (level, ms) in script {
        let before = button.state();
        feed(&mut button, level, at(ms));
        assert_eq!(button.last_state(), before);
        if button.state() != before {
            changes += 1;
        }
    }
    assert!(changes >= 7);
}

#[test]
fn failed_read_is_handed_back_and_changes_nothing() {
    let mut button = five_ms_button();
    feed(&mut button, true, at(1));
    feed(&mut button, true, at(7));
    let outcome: Result<(), &str> = button.poll(Err("pin fault"), at(8));
    assert_eq!(outcome, Err("pin fault"));
    assert_eq!(button.phase(), Phase::On);
    assert!(button.state());
    assert!(!button.last_state());
    assert!(button.toggle_state());

    let outcome: Result<(), &str> = button.poll(Err("pin fault"), at(0));
    assert_eq!(outcome, Err("pin fault"));
    assert_eq!(button.phase(), Phase::On);
}

#[test]
fn clock_that_runs_backwards_is_not_accepted() {
    let mut button = five_ms_button();
    feed(&mut button, true, at(10));
    assert!(button.accepts(at(10)));
    assert!(!button.accepts(at(9)));
}

#[test]
fn spans_beyond_half_the_tick_range_are_not_accepted() {
    let button = five_ms_button();
    assert!(button.accepts(Instant { ticks: 0x7FFF_FFFF_FFFF_FFFF }));
    assert!(!button.accepts(Instant { ticks: 0x8000_0000_0000_0000 }));

    let mut button = five_ms_button();
    feed(&mut button, true, Instant { ticks: 0x7FFF_FFFF_FFFF_FFFF });
    assert!(!button.accepts(Instant { ticks: u64::MAX }));
}

#[test]
fn longest_measurable_span_is_measured() {
    let mut button = five_ms_button();
    feed(&mut button, true, at(0));
    feed(&mut button, true, Instant { ticks: 0x7FFF_FFFF_FFFF_FFFF });
    assert_eq!(button.phase(), Phase::On);
}

#[test]
fn zero_debounce_confirms_on_the_first_later_poll() {
    let mut button = Button::new(true, Duration { ticks: 0 });
    feed(&mut button, true, at(1));
    feed(&mut button, true, at(1));
    assert_eq!(button.phase(), Phase::DebouncingOn);
    feed(&mut button, true, Instant { ticks: 1_001 });
    assert_eq!(button.phase(), Phase::On);
}

#[test]
fn debounce_above_the_timeout_still_confirms_a_held_level() {
    let mut button = Button::new(true, Duration { ticks: 30 * MS });
    feed(&mut button, true, at(0));
    feed(&mut button, true, at(25));
    assert_eq!(button.phase(), Phase::DebouncingOn);
    feed(&mut button, true, at(31));
    assert_eq!(button.phase(), Phase::On);

    let mut button = Button::new(true, Duration { ticks: 30 * MS });
    feed(&mut button, true, at(0));
    feed(&mut button, false, at(21));
    assert_eq!(button.phase(), Phase::Off);
}
