use blink_core::machine::{ButtonOutcome, Controller, Mode};

#[test]
fn double_click_within_window_blinks() {
    let mut c = Controller::new(Mode::DoubleClickBlink);
    assert!(!c.is_blinking);
    assert_eq!(c.click_count, 0);

    let toggled = c.on_timer_tick();
    assert!(!toggled);
    assert_eq!(c.tick_count, 1);

    let out = c.on_button_edge();
    assert_eq!(out, ButtonOutcome::KeepPeriod);
    assert_eq!(c.click_count, 1);
    assert_eq!(c.last_click_tick, 1);
    assert!(!c.is_blinking);

    c.on_timer_tick();
    c.on_timer_tick();
    assert_eq!(c.tick_count, 3);

    let out = c.on_button_edge();
    assert_eq!(out, ButtonOutcome::KeepPeriod);
    assert!(c.is_blinking);
    assert_eq!(c.click_count, 0);
    assert_eq!(c.last_click_tick, 3);
}

#[test]
fn full_double_click_then_blink_scenario() {
    let mut c = Controller::new(Mode::DoubleClickBlink);
    c.on_timer_tick();
    c.on_button_edge();
    c.on_timer_tick();
    c.on_timer_tick();
    c.on_button_edge();
    assert!(c.is_blinking);

    for i in 0..6 {
        let toggled = c.on_timer_tick();
        assert!(toggled, "tick {} of the episode must toggle the LED", i);
    }
    assert!(!c.is_blinking);
    assert_eq!(c.blink_toggle_count, 0);

    let toggled = c.on_timer_tick();
    assert!(!toggled);
}

#[test]
fn stale_gap_restarts_click_sequence() {
    let mut c = Controller::new(Mode::DoubleClickBlink);
    c.on_timer_tick();
    c.on_button_edge();
    assert_eq!(c.click_count, 1);
    assert_eq!(c.last_click_tick, 1);

    for _ in 0..5 {
        c.on_timer_tick();
    }
    assert_eq!(c.tick_count, 6);

    // Gap of 5 ticks: the press does not combine with the stale one.  The
    // count restarts from zero and the current press is then counted, so it
    // stands as the first of the next potential pair.
    c.on_button_edge();
    assert!(!c.is_blinking);
    assert_eq!(c.click_count, 1);
    assert_eq!(c.last_click_tick, 6);

    // One further press within the window completes a double click.
    c.on_timer_tick();
    c.on_button_edge();
    assert!(c.is_blinking);
    assert_eq!(c.click_count, 0);
}

#[test]
fn gap_of_three_ticks_still_combines() {
    let mut c = Controller::new(Mode::DoubleClickBlink);
    c.on_timer_tick();
    c.on_button_edge();
    c.on_timer_tick();
    c.on_timer_tick();
    c.on_timer_tick();
    assert_eq!(c.tick_count, 4);
    c.on_button_edge();
    assert!(c.is_blinking);
    assert_eq!(c.click_count, 0);
}

#[test]
fn first_press_at_tick_zero_leaves_no_record() {
    // A press before the first tick records tick 0, which doubles as the
    // "no press recorded" sentinel: the window check is skipped on the next
    // press, however late it comes.
    let mut c = Controller::new(Mode::DoubleClickBlink);
    c.on_button_edge();
    assert_eq!(c.click_count, 1);
    assert_eq!(c.last_click_tick, 0);

    for _ in 0..10 {
        c.on_timer_tick();
    }
    c.on_button_edge();
    assert!(c.is_blinking);
}

#[test]
fn tick_increments_clock_regardless_of_blink_state() {
    let mut idle = Controller::new(Mode::DoubleClickBlink);
    let toggled = idle.on_timer_tick();
    assert!(!toggled);
    assert_eq!(idle.tick_count, 1);

    let mut armed = Controller {
        is_blinking: true,
        blink_toggle_count: 2,
        tick_count: 7,
        ..Controller::new(Mode::DoubleClickBlink)
    };
    let toggled = armed.on_timer_tick();
    assert!(toggled);
    assert_eq!(armed.tick_count, 8);
    assert_eq!(armed.blink_toggle_count, 3);
}

#[test]
fn tick_count_wraps_at_integer_width() {
    let mut c = Controller {
        tick_count: u32::MAX,
        ..Controller::new(Mode::DoubleClickBlink)
    };
    c.on_timer_tick();
    assert_eq!(c.tick_count, 0);
}

#[test]
fn blink_episode_is_six_toggles_despite_button_noise() {
    let mut c = Controller::new(Mode::DoubleClickBlink);
    c.on_timer_tick();
    c.on_button_edge();
    c.on_timer_tick();
    c.on_button_edge();
    assert!(c.is_blinking);
    assert_eq!(c.blink_toggle_count, 0);

    let mut toggles: u32 = 0;
    for _ in 0..2 {
        if c.on_timer_tick() {
            toggles += 1;
        }
    }
    // A lone press in the middle of the episode neither toggles the LED nor
    // disturbs the toggle count.
    c.on_button_edge();
    assert!(c.is_blinking);
    assert_eq!(c.blink_toggle_count, 2);

    for _ in 0..4 {
        if c.on_timer_tick() {
            toggles += 1;
        }
    }
    assert_eq!(toggles, 6);
    assert!(!c.is_blinking);
    assert_eq!(c.blink_toggle_count, 0);
}
