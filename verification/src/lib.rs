//! Core logic of a one-button, one-LED interrupt-driven controller.
//!
//! The controller is a state machine advanced by two kinds of interrupt
//! events: a periodic timer tick and a button edge.  In its double-click
//! mode, two button presses that fall within a bounded tick window arm a
//! blink episode, during which the LED is toggled on every tick until a
//! fixed toggle limit is reached.  In its direct-period mode, every button
//! press instead steps the timer period down within a fixed range while the
//! LED free-runs.
//!
//! The state machine itself is pure: it receives events and answers with
//! the actions to perform (toggle the LED, reprogram the timer).  All
//! hardware access — pins, timers, the interrupt controller — lives outside
//! this crate, in the thin shell that owns the peripherals.

pub mod laws;
pub mod machine;
pub mod model;
