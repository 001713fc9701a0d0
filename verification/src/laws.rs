//! Behaviour of the controller over whole runs of interrupt events: the
//! state invariant is preserved forever, the double-click window works as
//! stated in either direction, a blink episode performs exactly its six
//! toggles, ticks advance the logical clock one by one, and the period
//! cycles through its range.

use vstd::prelude::*;

use crate::machine::{
    spec_button_step, wrap_gap, wrap_inc, Controller, BLINK_TOGGLE_LIMIT,
    DOUBLE_CLICK_WINDOW_TICKS, PERIOD_INITIAL_MS, PERIOD_MIN_MS,
};
use crate::model::{num_ticks, num_toggles, spec_run, spec_step, Event};

verus! {

/// Logical clock value after `n` further ticks, wrapping at the `u32`
/// width.
pub open spec fn wrap_add(t: u32, n: nat) -> u32
    decreases n,
{
    if n == 0 {
        t
    } else {
        wrap_inc(wrap_add(t, (n - 1) as nat))
    }
}

/// Every event handler preserves the state invariant.
pub proof fn lemma_wf_step(s: Controller, e: Event)
    requires
        s.wf(),
    ensures
        spec_step(s, e).wf(),
{
}

/// The state invariant holds of every state a well-formed controller can
/// ever reach, whatever interrupts arrive in whatever order.
pub proof fn lemma_wf_run(s: Controller, events: Seq<Event>)
    requires
        s.wf(),
    ensures
        spec_run(s, events).wf(),
    decreases events.len(),
{
    if events.len() > 0 {
        lemma_wf_step(s, events[0]);
        lemma_wf_run(spec_step(s, events[0]), events.drop_first());
    }
}

/// The timer period is never observed outside its range, over any run of
/// events from any well-formed state.
pub proof fn lemma_delay_ms_in_range(s: Controller, events: Seq<Event>)
    requires
        s.wf(),
    ensures
        PERIOD_MIN_MS <= spec_run(s, events).delay_ms <= PERIOD_INITIAL_MS,
{
    lemma_wf_run(s, events);
}

/// In direct-period mode, four presses bring the period back to where it
/// started: the reachable periods form one cycle through the range.
pub proof fn lemma_period_cycles_every_four_edges(s: Controller)
    requires
        s.wf(),
        s.mode is DirectPeriod,
    ensures
        spec_button_step(spec_button_step(spec_button_step(spec_button_step(s)))).delay_ms
            == s.delay_ms,
{
}

/// Incrementing the clock moves the wrapping gap from any fixed origin up
/// by one, as long as the gap has not wrapped all the way around.
proof fn lemma_wrap_gap_inc(c: u32, t: u32)
    requires
        wrap_gap(c, t) < u32::MAX,
    ensures
        wrap_gap(wrap_inc(c), t) == wrap_gap(c, t) + 1,
{
}

/// After `n` increments the wrapping gap from the starting value is exactly
/// `n`, for any `n` below the wrap-around.
proof fn lemma_wrap_gap_of_add(t: u32, n: nat)
    requires
        n < 0x1_0000_0000,
    ensures
        wrap_gap(wrap_add(t, n), t) == n,
    decreases n,
{
    if n > 0 {
        lemma_wrap_gap_of_add(t, (n - 1) as nat);
        lemma_wrap_gap_inc(wrap_add(t, (n - 1) as nat), t);
    }
}

/// A run made of timer ticks alone advances the logical clock by exactly
/// one per tick and leaves the click state — pending count and recorded
/// press tick — untouched, whatever the blink state does meanwhile.
pub proof fn lemma_tick_run_advances_clock(s: Controller, events: Seq<Event>)
    requires
        s.wf(),
        s.mode is DoubleClickBlink,
        forall|i: int| 0 <= i < events.len() ==> events[i] is TimerTick,
    ensures
        spec_run(s, events).wf(),
        spec_run(s, events).mode == s.mode,
        spec_run(s, events).click_count == s.click_count,
        spec_run(s, events).last_click_tick == s.last_click_tick,
        spec_run(s, events).tick_count == wrap_add(s.tick_count, events.len()),
    decreases events.len(),
{
    if events.len() > 0 {
        let s1 = spec_step(s, events[0]);
        lemma_wf_step(s, events[0]);
        lemma_tick_run_advances_clock(s1, events.drop_first());
        lemma_wrap_add_commutes_with_inc(s.tick_count, (events.len() - 1) as nat);
    }
}

/// Starting the increments one later or finishing with one more increment
/// reaches the same clock value.
proof fn lemma_wrap_add_commutes_with_inc(t: u32, n: nat)
    ensures
        wrap_add(wrap_inc(t), n) == wrap_inc(wrap_add(t, n)),
    decreases n,
{
    if n > 0 {
        lemma_wrap_add_commutes_with_inc(t, (n - 1) as nat);
    }
}

/// Two consecutive presses whose tick gap stays below the double-click
/// window arm a blink episode and clear the pending click count.  `s` is
/// any reachable state with no press pending toward a double click;
/// `ticks_between` are the timer ticks between the two presses, fewer than
/// the window.
pub proof fn lemma_double_click_within_window(s: Controller, ticks_between: Seq<Event>)
    requires
        s.wf(),
        s.mode is DoubleClickBlink,
        s.click_count == 0,
        forall|i: int| 0 <= i < ticks_between.len() ==> ticks_between[i] is TimerTick,
        ticks_between.len() < DOUBLE_CLICK_WINDOW_TICKS,
    ensures
        spec_button_step(spec_run(spec_button_step(s), ticks_between)).is_blinking,
        spec_button_step(spec_run(spec_button_step(s), ticks_between)).click_count == 0,
{
    let s1 = spec_button_step(s);
    assert(s1.click_count == 1);
    lemma_tick_run_advances_clock(s1, ticks_between);
    let s2 = spec_run(s1, ticks_between);
    lemma_wrap_gap_of_add(s1.tick_count, ticks_between.len());
    assert(s2.last_click_tick != 0 ==> wrap_gap(s2.tick_count, s2.last_click_tick)
        < DOUBLE_CLICK_WINDOW_TICKS);
}

/// A press whose gap from the recorded previous press is at least the
/// double-click window does not combine with it: no blink episode is armed
/// by it.  The count restarts from zero and the current press is then
/// counted, so exactly one press — the current one — is left pending, the
/// first of the next potential pair.
pub proof fn lemma_stale_click_does_not_combine(s: Controller)
    requires
        s.wf(),
        s.mode is DoubleClickBlink,
        s.last_click_tick != 0,
        wrap_gap(s.tick_count, s.last_click_tick) >= DOUBLE_CLICK_WINDOW_TICKS,
    ensures
        spec_button_step(s).is_blinking == s.is_blinking,
        spec_button_step(s).click_count == 1,
        spec_button_step(s).last_click_tick == s.tick_count,
{
}

/// A sequence with a timer tick somewhere in it contains at least one tick.
proof fn lemma_num_ticks_pos(events: Seq<Event>, i: int)
    requires
        0 <= i < events.len(),
        events[i] is TimerTick,
    ensures
        num_ticks(events) >= 1,
    decreases events.len(),
{
    if i > 0 {
        lemma_num_ticks_pos(events.drop_first(), i - 1);
    }
}

/// Once a blink episode is armed, exactly six LED toggles — three full
/// on/off cycles — happen before the controller disarms, however much
/// button activity is interleaved with the six ticks that drive them.
/// `events` is any run whose ticks number exactly the toggle limit, ending
/// on the tick that completes the episode.
pub proof fn lemma_blink_episode(s: Controller, events: Seq<Event>)
    requires
        s.wf(),
        s.mode is DoubleClickBlink,
        s.is_blinking,
        s.blink_toggle_count == 0,
        num_ticks(events) == BLINK_TOGGLE_LIMIT,
        events.len() > 0,
        events.last() is TimerTick,
    ensures
        num_toggles(s, events) == BLINK_TOGGLE_LIMIT,
        !spec_run(s, events).is_blinking,
        spec_run(s, events).blink_toggle_count == 0,
{
    lemma_blink_episode_from_midway(s, events);
}

/// The induction behind [`lemma_blink_episode`]: from any armed state, a
/// run whose ticks exactly complete the episode toggles the LED once per
/// tick and ends disarmed with a cleared toggle count.
proof fn lemma_blink_episode_from_midway(s: Controller, events: Seq<Event>)
    requires
        s.wf(),
        s.mode is DoubleClickBlink,
        s.is_blinking,
        num_ticks(events) + s.blink_toggle_count == BLINK_TOGGLE_LIMIT,
        events.len() > 0,
        events.last() is TimerTick,
    ensures
        num_toggles(s, events) == num_ticks(events),
        !spec_run(s, events).is_blinking,
        spec_run(s, events).blink_toggle_count == 0,
    decreases events.len(),
{
    let rest = events.drop_first();
    let s1 = spec_step(s, events[0]);
    lemma_wf_step(s, events[0]);
    assert(spec_run(s, events) == spec_run(s1, rest));
    if events[0] is ButtonEdge {
        assert(s1.is_blinking);
        assert(num_ticks(rest) == num_ticks(events));
        assert(num_toggles(s, events) == num_toggles(s1, rest));
        assert(rest.len() > 0);
        assert(rest.last() == events.last());
        lemma_blink_episode_from_midway(s1, rest);
    } else {
        assert(num_toggles(s, events) == 1 + num_toggles(s1, rest));
        assert(num_ticks(events) == 1 + num_ticks(rest));
        if num_ticks(events) == 1 {
            if rest.len() > 0 {
                assert(rest[rest.len() - 1] == events.last());
                lemma_num_ticks_pos(rest, rest.len() - 1);
                assert(false);
            }
            assert(rest.len() == 0);
            assert(num_toggles(s1, rest) == 0);
            assert(spec_run(s1, rest) == s1);
        } else {
            assert(s1.is_blinking);
            assert(num_ticks(rest) + s1.blink_toggle_count == BLINK_TOGGLE_LIMIT);
            assert(rest.len() > 0) by {
                if rest.len() == 0 {
                    assert(num_ticks(rest) == 0);
                }
            }
            assert(rest.last() == events.last());
            lemma_blink_episode_from_midway(s1, rest);
        }
    }
}

} // verus!
