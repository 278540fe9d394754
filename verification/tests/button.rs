use weather_station::button::{
    ButtonAction, ButtonEvent, DebounceState, Debouncer, DEBOUNCE_DURATION_MS,
};

#[test]
fn new_debouncer_waits_for_high() {
    let debouncer = Debouncer::new();
    assert_eq!(debouncer.state, DebounceState::Idle);
    assert_eq!(debouncer.action(), ButtonAction::WaitForHigh);
}

#[test]
fn clean_press_is_one_press() {
    let mut debouncer = Debouncer::new();
    assert!(!debouncer.step(ButtonEvent::High));
    assert_eq!(debouncer.state, DebounceState::PressDetected);
    assert_eq!(debouncer.action(), ButtonAction::Hold(250));
    assert_eq!(DEBOUNCE_DURATION_MS, 250);
    assert!(!debouncer.step(ButtonEvent::HoldElapsed));
    assert_eq!(debouncer.state, DebounceState::Settling);
    assert_eq!(debouncer.action(), ButtonAction::WaitForLow);
    assert!(debouncer.step(ButtonEvent::Low));
    assert_eq!(debouncer.state, DebounceState::Idle);
}

#[test]
fn bounce_within_the_hold_window_is_one_press() {
    let mut debouncer = Debouncer::new();
    let events = vec![
        ButtonEvent::High,
        ButtonEvent::Low,
        ButtonEvent::High,
        ButtonEvent::Low,
        ButtonEvent::HoldElapsed,
        ButtonEvent::Low,
    ];
    assert_eq!(debouncer.feed(&events), 1);
    assert_eq!(debouncer.state, DebounceState::Idle);
}

#[test]
fn bounce_does_not_move_the_debouncer() {
    let mut debouncer = Debouncer::new();
    assert!(!debouncer.step(ButtonEvent::High));
    for _ in 0..10 {
        assert!(!debouncer.step(ButtonEvent::Low));
        assert_eq!(debouncer.state, DebounceState::PressDetected);
        assert!(!debouncer.step(ButtonEvent::High));
        assert_eq!(debouncer.state, DebounceState::PressDetected);
    }
}

#[test]
fn low_while_idle_is_no_press() {
    let mut debouncer = Debouncer::new();
    assert!(!debouncer.step(ButtonEvent::Low));
    assert!(!debouncer.step(ButtonEvent::HoldElapsed));
    assert_eq!(debouncer.state, DebounceState::Idle);
}

#[test]
fn held_button_waits_for_release() {
    let mut debouncer = Debouncer::new();
    let events = vec![
        ButtonEvent::High,
        ButtonEvent::HoldElapsed,
        ButtonEvent::High,
        ButtonEvent::HoldElapsed,
        ButtonEvent::High,
    ];
    assert_eq!(debouncer.feed(&events), 0);
    assert_eq!(debouncer.state, DebounceState::Settling);
    assert!(debouncer.step(ButtonEvent::Low));
}

#[test]
fn two_presses_are_two_presses() {
    let mut debouncer = Debouncer::new();
    let press = [ButtonEvent::High, ButtonEvent::HoldElapsed, ButtonEvent::Low];
    let mut events = Vec::new();
    events.extend_from_slice(&press);
    events.extend_from_slice(&press);
    assert_eq!(debouncer.feed(&events), 2);
    assert_eq!(debouncer.state, DebounceState::Idle);
}

#[test]
fn feeding_nothing_changes_nothing() {
    let mut debouncer = Debouncer::new();
    assert_eq!(debouncer.feed(&Vec::new()), 0);
    assert_eq!(debouncer.state, DebounceState::Idle);
}
