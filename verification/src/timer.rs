//! The timer engine: a three-state countdown machine driven by discrete
//! events.
//!
//! The mathematical model of a timer is [`TimerView`]; the one-step
//! transition relation of the machine is the spec function [`step`]. The
//! executable entry point [`Timer::apply`] is proved to follow `step`
//! exactly and to return the snapshot that [`snapshot_of`] assigns to the
//! new state.

use vstd::prelude::*;

verus! {

/// The phase the countdown is in.
#[derive(Clone, Copy, PartialEq, Eq, Structural, Debug)]
pub enum TimerState {
    /// Not counting down; the remaining time equals the configured duration
    /// after a reset, or whatever it held when the timer last left `Running`.
    Idle,
    /// Counting down: one second is consumed per tick.
    Running,
    /// Counting down is suspended; the remaining time is frozen.
    Paused,
}

/// A discrete event fed into the engine: the two user commands, and the
/// clock source's once-per-second notification.
#[derive(Clone, Copy, PartialEq, Eq, Structural, Debug)]
pub enum Event {
    /// Start, pause or resume the countdown, depending on the current state.
    ToggleTimer,
    /// Return to `Idle` and restore the configured duration.
    ResetTimer,
    /// One second has elapsed while the timer was running.
    Tick,
}

/// The configured duration used when no other one is given: 25 minutes.
pub const DEFAULT_INITIAL_SECONDS: u32 = 1500;

/// The mathematical model of a timer: what [`Timer`] looks like in
/// contracts.
#[verifier::ext_equal]
pub struct TimerView {
    /// Seconds left in the current countdown.
    pub remaining_seconds: nat,
    /// The fixed configured duration, constant for the life of the timer.
    pub initial_seconds: nat,
    /// The phase the countdown is in.
    pub state: TimerState,
}

impl TimerView {
    /// The timer's data invariant: the configured duration is positive and
    /// the remaining time never exceeds it.
    pub open spec fn inv(self) -> bool {
        0 < self.initial_seconds && self.remaining_seconds <= self.initial_seconds
    }
}

/// The one-step transition relation of the state machine: the state a timer
/// in state `pre` moves to when `event` arrives.
///
/// `ToggleTimer` cycles `Idle -> Running -> Paused -> Running` and never
/// touches the remaining time. `ResetTimer` returns to `Idle` with the full
/// configured duration from any state. A `Tick` is consumed only while
/// `Running`: it decrements the remaining time while more than one second is
/// left, and completes the cycle — back to `Idle`, duration restored — on
/// the tick that would reach zero, so the display never lingers at `00:00`.
/// A stray `Tick` in `Idle` or `Paused` is a no-op.
pub open spec fn step(pre: TimerView, event: Event) -> TimerView {
    match event {
        Event::ToggleTimer => match pre.state {
            TimerState::Idle => TimerView { state: TimerState::Running, ..pre },
            TimerState::Running => TimerView { state: TimerState::Paused, ..pre },
            TimerState::Paused => TimerView { state: TimerState::Running, ..pre },
        },
        Event::ResetTimer => TimerView {
            state: TimerState::Idle,
            remaining_seconds: pre.initial_seconds,
            ..pre
        },
        Event::Tick => match pre.state {
            TimerState::Running => if pre.remaining_seconds > 1 {
                TimerView { remaining_seconds: (pre.remaining_seconds - 1) as nat, ..pre }
            } else {
                TimerView {
                    state: TimerState::Idle,
                    remaining_seconds: pre.initial_seconds,
                    ..pre
                }
            },
            _ => pre,
        },
    }
}

/// The state reached from `pre` after `n` consecutive `Tick` events.
pub open spec fn run_ticks(pre: TimerView, n: nat) -> TimerView
    decreases n,
{
    if n == 0 {
        pre
    } else {
        run_ticks(step(pre, Event::Tick), (n - 1) as nat)
    }
}

/// The toggle button's caption in each state.
pub open spec fn spec_label(state: TimerState) -> Seq<char> {
    match state {
        TimerState::Idle => "Start"@,
        TimerState::Running => "Pause"@,
        TimerState::Paused => "Resume"@,
    }
}

/// The mathematical model of a [`Snapshot`].
#[verifier::ext_equal]
pub struct SnapshotView {
    /// Whole minutes left.
    pub minutes: nat,
    /// Seconds left beyond the whole minutes, always below 60.
    pub seconds: nat,
    /// The toggle button's caption.
    pub label: Seq<char>,
}

/// The snapshot a timer in state `v` presents for rendering: the remaining
/// time split into minutes and seconds, and the toggle button's caption.
pub open spec fn snapshot_of(v: TimerView) -> SnapshotView {
    SnapshotView {
        minutes: v.remaining_seconds / 60,
        seconds: v.remaining_seconds % 60,
        label: spec_label(v.state),
    }
}

/// Everything the rendering layer needs to display the timer. A pure
/// projection of the timer's state; holding one has no effect on the
/// engine.
#[derive(Clone, Debug)]
pub struct Snapshot {
    /// Whole minutes left.
    pub minutes: u32,
    /// Seconds left beyond the whole minutes, always in `0..=59`.
    pub seconds: u32,
    /// The toggle button's caption: `"Start"`, `"Pause"` or `"Resume"`.
    pub label: String,
}

impl View for Snapshot {
    type V = SnapshotView;

    open spec fn view(&self) -> SnapshotView {
        SnapshotView {
            minutes: self.minutes as nat,
            seconds: self.seconds as nat,
            label: self.label@,
        }
    }
}

/// The countdown timer. Its fields change only through [`Timer::apply`],
/// and the invariant [`TimerView::inv`] holds of every value of this type.
pub struct Timer {
    remaining_seconds: u32,
    initial_seconds: u32,
    state: TimerState,
}

impl View for Timer {
    type V = TimerView;

    closed spec fn view(&self) -> TimerView {
        TimerView {
            remaining_seconds: self.remaining_seconds as nat,
            initial_seconds: self.initial_seconds as nat,
            state: self.state,
        }
    }
}

impl Timer {
    #[verifier::type_invariant]
    spec fn type_inv(self) -> bool {
        self@.inv()
    }

    /// A fresh timer: idle, with the full configured duration remaining.
    pub fn new(initial_seconds: u32) -> (t: Timer)
        requires
            0 < initial_seconds,
        ensures
            t@.state == TimerState::Idle,
            t@.remaining_seconds == initial_seconds as nat,
            t@.initial_seconds == initial_seconds as nat,
            t@.inv(),
    {
        Timer {
            remaining_seconds: initial_seconds,
            initial_seconds,
            state: TimerState::Idle,
        }
    }

    /// The single update entry point: consume one event, move to the state
    /// that [`step`] prescribes, and return the snapshot of that new state.
    ///
    /// Total over every state–event combination, never panics, and keeps
    /// the remaining time within the configured duration; the returned
    /// snapshot always has its seconds field below 60.
    pub fn apply(&mut self, event: Event) -> (snap: Snapshot)
        ensures
            final(self)@ == step(old(self)@, event),
            final(self)@.inv(),
            snap@ == snapshot_of(final(self)@),
            snap@.seconds < 60,
    {
        proof {
            use_type_invariant(&*self);
        }
        match event {
            Event::ToggleTimer => {
                match self.state {
                    TimerState::Idle => {
                        self.state = TimerState::Running;
                    },
                    TimerState::Running => {
                        self.state = TimerState::Paused;
                    },
                    TimerState::Paused => {
                        self.state = TimerState::Running;
                    },
                }
            },
            Event::ResetTimer => {
                self.state = TimerState::Idle;
                self.remaining_seconds = self.initial_seconds;
            },
            Event::Tick => {
                if self.state == TimerState::Running {
                    if self.remaining_seconds > 1 {
                        self.remaining_seconds = self.remaining_seconds - 1;
                    } else {
                        self.state = TimerState::Idle;
                        self.remaining_seconds = self.initial_seconds;
                    }
                }
            },
        }
        proof {
            assert(self@ =~= step(old(self)@, event));
        }
        self.snapshot()
    }

    /// The display-relevant projection of the current state: remaining time
    /// as minutes and seconds, and the toggle button's caption.
    pub fn snapshot(&self) -> (snap: Snapshot)
        ensures
            snap@ == snapshot_of(self@),
            snap@.seconds < 60,
    {
        let label = match self.state {
            TimerState::Idle => String::from_str("Start"),
            TimerState::Running => String::from_str("Pause"),
            TimerState::Paused => String::from_str("Resume"),
        };
        let snap = Snapshot { minutes: self.remaining_seconds / 60, seconds: self.remaining_seconds % 60, label };
        proof {
            assert(snap@ =~= snapshot_of(self@));
        }
        snap
    }

    /// Whether the clock source must be subscribed: true exactly while the
    /// timer is running. The owning shell recomputes this after every
    /// [`Timer::apply`] call and keeps the tick subscription alive if and
    /// only if it returns true.
    pub fn needs_ticks(&self) -> (b: bool)
        ensures
            b == (self@.state == TimerState::Running),
    {
        self.state == TimerState::Running
    }

    /// The phase the countdown is in.
    pub fn state(&self) -> (s: TimerState)
        ensures
            s == self@.state,
    {
        self.state
    }

    /// Seconds left in the current countdown.
    pub fn remaining_seconds(&self) -> (r: u32)
        ensures
            r as nat == self@.remaining_seconds,
    {
        self.remaining_seconds
    }

    /// The fixed configured duration.
    pub fn initial_seconds(&self) -> (r: u32)
        ensures
            r as nat == self@.initial_seconds,
            0 < r,
            self@.inv(),
    {
        proof {
            use_type_invariant(&*self);
        }
        self.initial_seconds
    }
}

impl Default for Timer {
    /// A fresh timer with the default 25-minute duration.
    fn default() -> (t: Timer)
        ensures
            t@.state == TimerState::Idle,
            t@.remaining_seconds == DEFAULT_INITIAL_SECONDS as nat,
            t@.initial_seconds == DEFAULT_INITIAL_SECONDS as nat,
    {
        Timer::new(DEFAULT_INITIAL_SECONDS)
    }
}

/// Every step of the machine preserves the data invariant: from a state
/// with a positive duration and the remaining time within it, any event
/// leads to such a state again.
pub proof fn lemma_step_preserves_inv(v: TimerView, event: Event)
    requires
        v.inv(),
    ensures
        step(v, event).inv(),
{
}

/// Resetting is idempotent: a second `ResetTimer` right after a first one
/// changes neither the state — idle, with the full configured duration —
/// nor the snapshot presented for rendering.
pub proof fn lemma_reset_idempotent(v: TimerView)
    ensures
        step(step(v, Event::ResetTimer), Event::ResetTimer) == step(v, Event::ResetTimer),
        step(v, Event::ResetTimer).state == TimerState::Idle,
        step(v, Event::ResetTimer).remaining_seconds == v.initial_seconds,
        snapshot_of(step(step(v, Event::ResetTimer), Event::ResetTimer)) == snapshot_of(
            step(v, Event::ResetTimer),
        ),
{
    assert(step(step(v, Event::ResetTimer), Event::ResetTimer) =~= step(v, Event::ResetTimer));
}

/// The countdown is monotonic and completes exactly on time: from a running
/// state with `n > 0` seconds left, each of the first `n - 1` ticks leaves
/// the timer running with one second less, and the `n`-th tick completes
/// the cycle — idle again, with the configured duration restored. No
/// intermediate state ever holds more than the configured duration.
pub proof fn lemma_monotonic_countdown(v: TimerView, n: nat)
    requires
        v.state == TimerState::Running,
        v.remaining_seconds == n,
        0 < n,
    ensures
        run_ticks(v, n).state == TimerState::Idle,
        run_ticks(v, n).remaining_seconds == v.initial_seconds,
        run_ticks(v, n).initial_seconds == v.initial_seconds,
        forall|i: nat|
            i < n ==> (#[trigger] run_ticks(v, i)).state == TimerState::Running
                && run_ticks(v, i).remaining_seconds == n - i
                && run_ticks(v, i).initial_seconds == v.initial_seconds,
    decreases n,
{
    let w = step(v, Event::Tick);
    if n == 1 {
        assert(run_ticks(v, 1) == run_ticks(w, 0));
    } else {
        lemma_monotonic_countdown(w, (n - 1) as nat);
        assert(run_ticks(v, n) == run_ticks(w, (n - 1) as nat));
        assert forall|i: nat|
            i < n implies (#[trigger] run_ticks(v, i)).state == TimerState::Running
            && run_ticks(v, i).remaining_seconds == n - i
            && run_ticks(v, i).initial_seconds == v.initial_seconds by {
            if 0 < i {
                assert(run_ticks(v, i) == run_ticks(w, (i - 1) as nat));
                assert(run_ticks(w, (i - 1) as nat).state == TimerState::Running);
            }
        }
    }
}

/// Ticks are ignored outside `Running`: any number of stray `Tick` events
/// delivered to an idle or paused timer leaves it exactly as it was.
pub proof fn lemma_ticks_ignored_when_not_running(v: TimerView, n: nat)
    requires
        v.state != TimerState::Running,
    ensures
        run_ticks(v, n) == v,
    decreases n,
{
    if 0 < n {
        lemma_ticks_ignored_when_not_running(v, (n - 1) as nat);
    }
}

/// Pausing freezes time: toggling a running timer yields a paused one with
/// the remaining time unchanged, and no number of stray ticks delivered
/// while paused changes it.
pub proof fn lemma_pause_freezes(v: TimerView, n: nat)
    requires
        v.state == TimerState::Running,
    ensures
        step(v, Event::ToggleTimer).state == TimerState::Paused,
        step(v, Event::ToggleTimer).remaining_seconds == v.remaining_seconds,
        run_ticks(step(v, Event::ToggleTimer), n) == step(v, Event::ToggleTimer),
        run_ticks(step(v, Event::ToggleTimer), n).remaining_seconds == v.remaining_seconds,
{
    lemma_ticks_ignored_when_not_running(step(v, Event::ToggleTimer), n);
}

/// Toggling cycles the phases without touching the clock: from idle,
/// three `ToggleTimer` events visit `Running`, `Paused`, `Running`, and the
/// remaining time is the same after each of the three transitions.
pub proof fn lemma_toggle_cycle(v: TimerView)
    requires
        v.state == TimerState::Idle,
    ensures
        step(v, Event::ToggleTimer).state == TimerState::Running,
        step(v, Event::ToggleTimer).remaining_seconds == v.remaining_seconds,
        step(step(v, Event::ToggleTimer), Event::ToggleTimer).state == TimerState::Paused,
        step(step(v, Event::ToggleTimer), Event::ToggleTimer).remaining_seconds
            == v.remaining_seconds,
        step(
            step(step(v, Event::ToggleTimer), Event::ToggleTimer),
            Event::ToggleTimer,
        ).state == TimerState::Running,
        step(
            step(step(v, Event::ToggleTimer), Event::ToggleTimer),
            Event::ToggleTimer,
        ).remaining_seconds == v.remaining_seconds,
{
}

} // verus!

