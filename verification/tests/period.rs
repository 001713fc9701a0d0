use blink_core::machine::{ButtonOutcome, Controller, Mode};

#[test]
fn period_steps_down_and_wraps_around() {
    let mut c = Controller::new(Mode::DirectPeriod);
    assert_eq!(c.delay_ms, 2000);

    let expected = [1500, 1000, 500, 2000, 1500, 1000, 500, 2000];
    for &ms in expected.iter() {
        let out = c.on_button_edge();
        assert_eq!(out, ButtonOutcome::RestartTimerMs(ms));
        assert_eq!(c.delay_ms, ms);
        assert!(500 <= c.delay_ms && c.delay_ms <= 2000);
    }
}

#[test]
fn direct_period_tick_always_toggles_and_keeps_state() {
    let mut c = Controller::new(Mode::DirectPeriod);
    let before = c;
    for _ in 0..3 {
        let toggled = c.on_timer_tick();
        assert!(toggled);
    }
    assert_eq!(c, before);
}

#[test]
fn direct_period_presses_ignore_click_state() {
    let mut c = Controller::new(Mode::DirectPeriod);
    c.on_timer_tick();
    c.on_button_edge();
    c.on_button_edge();
    assert_eq!(c.click_count, 0);
    assert_eq!(c.last_click_tick, 0);
    assert!(!c.is_blinking);
}
