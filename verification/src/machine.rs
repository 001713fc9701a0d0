//! The controller state machine: its state, its two event handlers, and the
//! specification-level transition functions that the handlers are proved to
//! implement.

use vstd::prelude::*;

verus! {

/// How many LED toggles one blink episode performs before disarming
/// (six toggles: three full on/off cycles).
pub const BLINK_TOGGLE_LIMIT: u32 = 6;

/// Maximum tick gap between two presses for them to count as a double click.
pub const DOUBLE_CLICK_WINDOW_TICKS: u32 = 4;

/// Timer period the controller starts from, in milliseconds.
pub const PERIOD_INITIAL_MS: u32 = 2000;

/// Amount by which each press shortens the period in direct-period mode.
pub const PERIOD_STEP_MS: u32 = 500;

/// Smallest period allowed; stepping below it wraps back to the initial one.
pub const PERIOD_MIN_MS: u32 = 500;

/// Which of the two behaviours the controller runs.
#[derive(Clone, Copy, Debug, PartialEq, Eq, Structural)]
pub enum Mode {
    /// Every button press steps the timer period down; the LED toggles on
    /// every tick, free-running at whatever period is current.
    DirectPeriod,
    /// Button presses feed the double-click detector; a double click arms a
    /// bounded blink episode driven by the timer ticks.
    DoubleClickBlink,
}

/// What the button-edge handler asks its caller to do after the state step.
#[derive(Clone, Copy, Debug, PartialEq, Eq, Structural)]
pub enum ButtonOutcome {
    /// Leave the timer as it is.
    KeepPeriod,
    /// Restart the timer with this period in milliseconds.
    RestartTimerMs(u32),
}

/// The whole controller state.  Every field is a plain scalar; the state is
/// mutated only by [`Controller::on_button_edge`] and
/// [`Controller::on_timer_tick`].
#[derive(Clone, Copy, Debug, PartialEq, Eq, Structural)]
pub struct Controller {
    /// Selected behaviour; fixed at construction.
    pub mode: Mode,
    /// Current timer period in milliseconds (direct-period mode).
    pub delay_ms: u32,
    /// Logical clock: number of timer ticks seen, wrapping at the integer
    /// width (double-click mode).
    pub tick_count: u32,
    /// Presses counted toward the current double-click attempt.
    pub click_count: u32,
    /// Value of `tick_count` at the most recent press; `0` doubles as
    /// "no press recorded yet".
    pub last_click_tick: u32,
    /// Whether a blink episode is in progress.
    pub is_blinking: bool,
    /// LED toggles performed in the current blink episode.
    pub blink_toggle_count: u32,
}

/// Successor of a tick count, wrapping at the `u32` width.
pub open spec fn wrap_inc(x: u32) -> u32 {
    if x == u32::MAX {
        0u32
    } else {
        (x + 1) as u32
    }
}

/// Tick distance from `last` up to `current`, as `u32` wrapping subtraction
/// computes it.
pub open spec fn wrap_gap(current: u32, last: u32) -> u32 {
    if current >= last {
        (current - last) as u32
    } else {
        (current + 0x1_0000_0000 - last) as u32
    }
}

/// A press arriving now is stale with respect to the previous one: a press
/// was recorded (`last_click_tick` non-zero) and the tick gap since it is at
/// least the double-click window.
pub open spec fn stale_gap(s: Controller) -> bool {
    s.last_click_tick != 0 && wrap_gap(s.tick_count, s.last_click_tick)
        >= DOUBLE_CLICK_WINDOW_TICKS
}

/// One button edge in double-click mode.  A press whose gap from the
/// recorded previous press is stale does not combine with it: the count
/// restarts from zero and the current press is then counted, leaving one
/// press pending.  A fresh press is simply counted, and a double click
/// fires exactly when the count reaches two.  The press tick is always
/// recorded.
pub open spec fn spec_click_step(s: Controller) -> Controller {
    let incremented: u32 = (s.click_count + 1) as u32;
    let after_window: u32 = if stale_gap(s) {
        1u32
    } else {
        incremented
    };
    let fires: bool = after_window == 2;
    Controller {
        click_count: if fires {
            0u32
        } else {
            after_window
        },
        is_blinking: if fires {
            true
        } else {
            s.is_blinking
        },
        last_click_tick: s.tick_count,
        ..s
    }
}

/// One button edge in direct-period mode: the period steps down by
/// [`PERIOD_STEP_MS`], wrapping to [`PERIOD_INITIAL_MS`] when the step would
/// take it below [`PERIOD_MIN_MS`].
pub open spec fn spec_period_step(s: Controller) -> Controller {
    Controller {
        delay_ms: if s.delay_ms < PERIOD_MIN_MS + PERIOD_STEP_MS {
            PERIOD_INITIAL_MS
        } else {
            (s.delay_ms - PERIOD_STEP_MS) as u32
        },
        ..s
    }
}

/// State after one button edge, in either mode.
pub open spec fn spec_button_step(s: Controller) -> Controller {
    match s.mode {
        Mode::DirectPeriod => spec_period_step(s),
        Mode::DoubleClickBlink => spec_click_step(s),
    }
}

/// Action requested by one button edge: direct-period mode reprograms the
/// timer with the new period; double-click mode never touches the timer.
pub open spec fn spec_button_outcome(s: Controller) -> ButtonOutcome {
    match s.mode {
        Mode::DirectPeriod => ButtonOutcome::RestartTimerMs(spec_period_step(s).delay_ms),
        Mode::DoubleClickBlink => ButtonOutcome::KeepPeriod,
    }
}

/// State after one timer tick.  Direct-period mode keeps no tick state.  In
/// double-click mode an armed episode counts one more toggle and disarms on
/// reaching the limit, and the logical clock always advances by one,
/// wrapping at the integer width.
pub open spec fn spec_tick_step(s: Controller) -> Controller {
    match s.mode {
        Mode::DirectPeriod => s,
        Mode::DoubleClickBlink => {
            let counted: u32 = if s.is_blinking {
                (s.blink_toggle_count + 1) as u32
            } else {
                s.blink_toggle_count
            };
            let done: bool = s.is_blinking && counted >= BLINK_TOGGLE_LIMIT;
            Controller {
                is_blinking: if done {
                    false
                } else {
                    s.is_blinking
                },
                blink_toggle_count: if done {
                    0u32
                } else {
                    counted
                },
                tick_count: wrap_inc(s.tick_count),
                ..s
            }
        },
    }
}

/// Whether one timer tick toggles the LED: always in direct-period mode,
/// and exactly while an episode is armed in double-click mode.
pub open spec fn spec_tick_toggles(s: Controller) -> bool {
    match s.mode {
        Mode::DirectPeriod => true,
        Mode::DoubleClickBlink => s.is_blinking,
    }
}

/// The state every controller starts from: initial period, clock at zero,
/// no press recorded, not blinking.
pub open spec fn spec_initial(mode: Mode) -> Controller {
    Controller {
        mode,
        delay_ms: PERIOD_INITIAL_MS,
        tick_count: 0u32,
        click_count: 0u32,
        last_click_tick: 0u32,
        is_blinking: false,
        blink_toggle_count: 0u32,
    }
}

impl Controller {
    /// Well-formedness: what holds of the initial state and is preserved by
    /// both handlers.  At rest at most one press is pending, an episode has
    /// performed fewer toggles than the limit, a disarmed controller has a
    /// zero toggle count, and the period is a whole number of steps within
    /// its range.
    pub open spec fn wf(self) -> bool {
        &&& self.click_count <= 1
        &&& self.blink_toggle_count < BLINK_TOGGLE_LIMIT
        &&& (!self.is_blinking ==> self.blink_toggle_count == 0)
        &&& PERIOD_MIN_MS <= self.delay_ms <= PERIOD_INITIAL_MS
        &&& self.delay_ms % PERIOD_STEP_MS == 0
    }

    /// A fresh controller in the given mode.
    pub fn new(mode: Mode) -> (c: Controller)
        ensures
            c == spec_initial(mode),
            c.wf(),
    {
        Controller {
            mode,
            delay_ms: PERIOD_INITIAL_MS,
            tick_count: 0u32,
            click_count: 0u32,
            last_click_tick: 0u32,
            is_blinking: false,
            blink_toggle_count: 0u32,
        }
    }

    /// Runtime check of [`Controller::wf`], for callers outside verified
    /// code that must refuse an ill-formed state rather than step it.
    pub fn is_well_formed(&self) -> (b: bool)
        ensures
            b == self.wf(),
    {
        self.click_count <= 1 && self.blink_toggle_count < BLINK_TOGGLE_LIMIT
            && (self.is_blinking || self.blink_toggle_count == 0)
            && PERIOD_MIN_MS <= self.delay_ms && self.delay_ms <= PERIOD_INITIAL_MS
            && self.delay_ms % PERIOD_STEP_MS == 0
    }

    /// Handle one button edge.  The state takes exactly one
    /// [`spec_button_step`]; the returned outcome is the timer action the
    /// caller must perform, [`ButtonOutcome::RestartTimerMs`] carrying the
    /// new period in direct-period mode and [`ButtonOutcome::KeepPeriod`] in
    /// double-click mode.
    pub fn on_button_edge(&mut self) -> (outcome: ButtonOutcome)
        requires
            old(self).wf(),
        ensures
            *final(self) == spec_button_step(*old(self)),
            outcome == spec_button_outcome(*old(self)),
            final(self).wf(),
            old(self).mode is DoubleClickBlink ==> outcome is KeepPeriod,
            old(self).mode is DirectPeriod ==> outcome
                == ButtonOutcome::RestartTimerMs(final(self).delay_ms),
    {
        match self.mode {
            Mode::DirectPeriod => {
                if self.delay_ms < PERIOD_MIN_MS + PERIOD_STEP_MS {
                    self.delay_ms = PERIOD_INITIAL_MS;
                } else {
                    self.delay_ms = self.delay_ms - PERIOD_STEP_MS;
                }
                ButtonOutcome::RestartTimerMs(self.delay_ms)
            },
            Mode::DoubleClickBlink => {
                self.click_count = self.click_count + 1;
                if self.last_click_tick != 0 && gap_since(self.tick_count, self.last_click_tick)
                    >= DOUBLE_CLICK_WINDOW_TICKS {
                    // The previous press is stale: restart the sequence at
                    // the current press alone.
                    self.click_count = 1;
                }
                if self.click_count == 2 {
                    self.is_blinking = true;
                    self.click_count = 0;
                }
                self.last_click_tick = self.tick_count;
                ButtonOutcome::KeepPeriod
            },
        }
    }

    /// Handle one timer tick.  The state takes exactly one
    /// [`spec_tick_step`]; the result says whether the caller must toggle
    /// the LED now.  In double-click mode the logical clock advances by
    /// exactly one per tick (wrapping at the integer width) whatever the
    /// blink state, and the LED is toggled exactly while an episode is
    /// armed.
    pub fn on_timer_tick(&mut self) -> (toggle_led: bool)
        requires
            old(self).wf(),
        ensures
            *final(self) == spec_tick_step(*old(self)),
            toggle_led == spec_tick_toggles(*old(self)),
            final(self).wf(),
            old(self).mode is DoubleClickBlink ==> final(self).tick_count == wrap_inc(
                old(self).tick_count,
            ),
            old(self).mode is DoubleClickBlink ==> (toggle_led <==> old(self).is_blinking),
            old(self).mode is DirectPeriod ==> toggle_led && *final(self) == *old(self),
    {
        match self.mode {
            Mode::DirectPeriod => true,
            Mode::DoubleClickBlink => {
                let toggle: bool = self.is_blinking;
                if self.is_blinking {
                    self.blink_toggle_count = self.blink_toggle_count + 1;
                    if self.blink_toggle_count >= BLINK_TOGGLE_LIMIT {
                        self.is_blinking = false;
                        self.blink_toggle_count = 0;
                    }
                }
                if self.tick_count == u32::MAX {
                    self.tick_count = 0;
                } else {
                    self.tick_count = self.tick_count + 1;
                }
                toggle
            },
        }
    }
}

/// Tick distance from `last` up to `current`, wrapping as `u32` subtraction
/// does; the executable twin of [`wrap_gap`].
fn gap_since(current: u32, last: u32) -> (g: u32)
    ensures
        g == wrap_gap(current, last),
{
    if current >= last {
        current - last
    } else {
        u32::MAX - last + current + 1
    }
}

} // verus!
