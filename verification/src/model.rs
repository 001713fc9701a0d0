//! Specification-level runs of the controller: interrupt events as a
//! sequence, the state reached by folding the per-event transition over it,
//! and counts of the ticks consumed and the LED toggles produced along the
//! way.  The behaviour lemmas are stated over these functions.

use vstd::prelude::*;

use crate::machine::{spec_button_step, spec_tick_step, spec_tick_toggles, Controller};

verus! {

/// One interrupt event, as the controller sees it.
#[derive(Clone, Copy, Debug, PartialEq, Eq, Structural)]
pub enum Event {
    /// A qualifying button transition.
    ButtonEdge,
    /// One firing of the periodic timer.
    TimerTick,
}

/// State after handling one event.
pub open spec fn spec_step(s: Controller, e: Event) -> Controller {
    match e {
        Event::ButtonEdge => spec_button_step(s),
        Event::TimerTick => spec_tick_step(s),
    }
}

/// Whether handling this event toggles the LED: button edges never do, a
/// tick does as [`spec_tick_toggles`] says.
pub open spec fn spec_step_toggles(s: Controller, e: Event) -> bool {
    match e {
        Event::ButtonEdge => false,
        Event::TimerTick => spec_tick_toggles(s),
    }
}

/// State after handling a whole sequence of events in order.
pub open spec fn spec_run(s: Controller, events: Seq<Event>) -> Controller
    decreases events.len(),
{
    if events.len() == 0 {
        s
    } else {
        spec_run(spec_step(s, events[0]), events.drop_first())
    }
}

/// How many of the events are timer ticks.
pub open spec fn num_ticks(events: Seq<Event>) -> nat
    decreases events.len(),
{
    if events.len() == 0 {
        0nat
    } else {
        (if events[0] is TimerTick {
            1nat
        } else {
            0nat
        }) + num_ticks(events.drop_first())
    }
}

/// How many LED toggles a run of the events performs, starting from `s`.
pub open spec fn num_toggles(s: Controller, events: Seq<Event>) -> nat
    decreases events.len(),
{
    if events.len() == 0 {
        0nat
    } else {
        (if spec_step_toggles(s, events[0]) {
            1nat
        } else {
            0nat
        }) + num_toggles(spec_step(s, events[0]), events.drop_first())
    }
}

} // verus!
