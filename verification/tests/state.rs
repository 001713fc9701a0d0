use blink_core::machine::{Controller, Mode};

#[test]
fn new_controller_starts_idle() {
    let c = Controller::new(Mode::DoubleClickBlink);
    assert_eq!(c.mode, Mode::DoubleClickBlink);
    assert_eq!(c.delay_ms, 2000);
    assert_eq!(c.tick_count, 0);
    assert_eq!(c.click_count, 0);
    assert_eq!(c.last_click_tick, 0);
    assert!(!c.is_blinking);
    assert_eq!(c.blink_toggle_count, 0);
    assert!(c.is_well_formed());

    let a = Controller::new(Mode::DirectPeriod);
    assert!(a.is_well_formed());
}

#[test]
fn well_formedness_check_rejects_bad_states() {
    let good = Controller::new(Mode::DoubleClickBlink);

    let too_many_clicks = Controller { click_count: 2, ..good };
    assert!(!too_many_clicks.is_well_formed());

    let toggle_count_at_limit = Controller {
        is_blinking: true,
        blink_toggle_count: 6,
        ..good
    };
    assert!(!toggle_count_at_limit.is_well_formed());

    let idle_with_pending_toggles = Controller { blink_toggle_count: 3, ..good };
    assert!(!idle_with_pending_toggles.is_well_formed());

    let period_too_short = Controller { delay_ms: 250, ..good };
    assert!(!period_too_short.is_well_formed());

    let period_too_long = Controller { delay_ms: 2500, ..good };
    assert!(!period_too_long.is_well_formed());

    let period_off_grid = Controller { delay_ms: 750, ..good };
    assert!(!period_off_grid.is_well_formed());
}

#[test]
fn stepping_preserves_well_formedness() {
    let mut c = Controller::new(Mode::DoubleClickBlink);
    for i in 0..40 {
        if i % 3 == 0 {
            c.on_button_edge();
        } else {
            c.on_timer_tick();
        }
        assert!(c.is_well_formed());
    }

    let mut a = Controller::new(Mode::DirectPeriod);
    for _ in 0..9 {
        a.on_button_edge();
        a.on_timer_tick();
        assert!(a.is_well_formed());
    }
}
