//! A verified countdown ("Pomodoro") interval timer.
//!
//! The crate holds the timer's state machine: it counts down from a
//! configured duration one second per tick, exposes start/pause/resume/reset
//! controls, and returns to idle when the countdown completes. Rendering and
//! the clock source that emits the ticks live outside the library; they only
//! feed events into [`timer::Timer::apply`] and display the snapshot it
//! returns.

pub mod timer;
