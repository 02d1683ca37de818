//! The event vocabulary of the application loop.
//!
//! A background producer merges three cadences into one serialized stream:
//! a render tick, a countdown tick every [`TIMER_TICK`] milliseconds, and
//! terminal input. The controller itself posts [`AppEvent`]s into the same
//! stream, so self-triggered transitions are handled in the same order as
//! external events. The producer and the queue live outside this crate;
//! here stands the typed vocabulary they deliver, with raw input already
//! reduced to the keys the controller reacts to.

use vstd::prelude::*;

verus! {

/// Length of one countdown tick, in milliseconds.
pub const TIMER_TICK: u64 = 10;

/// A key press, reduced to the keys the controller distinguishes.
#[derive(Debug, Clone, Copy, PartialEq, Eq, Structural)]
pub enum Key {
    /// The space bar.
    Space,
    Enter,
    Left,
    Right,
    /// `q`, the quit key outside the running clock.
    CharQ,
    /// `r` or `R`, the restart key on the timeout screen.
    CharR,
    /// `p`, the pause toggle while the clock runs.
    CharP,
    /// `Ctrl-C`, which quits from any screen.
    CtrlC,
    /// Any other key; the controller ignores it.
    Other,
}

/// An event of the serialized stream the controller consumes.
#[derive(Debug, Clone, Copy, PartialEq, Eq, Structural)]
pub enum Event {
    /// Render tick: triggers a redraw and never mutates the clock.
    Tick,
    /// Countdown tick: [`TIMER_TICK`] milliseconds have elapsed.
    TimerTick,
    /// A key reported by the terminal.
    Key(Key),
    /// An event the controller posted for itself.
    App(AppEvent),
}

/// An event the controller posts into its own stream.
#[derive(Debug, Clone, Copy, PartialEq, Eq, Structural)]
pub enum AppEvent {
    /// A countdown tick left a player with no remaining time.
    Timeout,
    /// The space bar asked to pass the clock to the opponent.
    HitClock,
    /// Quit the application.
    Quit,
}

} // verus!
