//! The timer's phases, snapshot, configuration and the events it emits.

use vstd::prelude::*;

verus! {

/// Phase of the timer.
///
/// The machine itself only ever uses `Idle`, `Work` and `Paused`; the two
/// break phases are part of the shared vocabulary (tray icons, front end).
#[derive(Clone, Copy, Debug, PartialEq, Eq, Hash, Structural)]
pub enum Phase {
    Idle,
    Work,
    ShortBreak,
    LongBreak,
    Paused,
}

impl Default for Phase {
    fn default() -> (r: Self)
        ensures
            r == Phase::Idle,
    {
        Phase::Idle
    }
}

/// Kind of a session as recorded in the history.
#[derive(Clone, Copy, Debug, PartialEq, Eq, Hash, Structural)]
pub enum SessionKind {
    Work,
    ShortBreak,
    LongBreak,
}

/// Snapshot of the timer handed to the front end.
#[derive(Clone, Debug, PartialEq, Eq, Structural)]
pub struct TimerState {
    pub phase: Phase,
    pub remaining_seconds: u32,
    pub session_count: u32,
    pub current_duration_seconds: u32,
}

impl Default for TimerState {
    fn default() -> (r: Self)
        ensures
            r == (TimerState {
                phase: Phase::Idle,
                remaining_seconds: 1500,
                session_count: 0,
                current_duration_seconds: 1500,
            }),
    {
        TimerState {
            phase: Phase::Idle,
            remaining_seconds: 1500,
            session_count: 0,
            current_duration_seconds: 1500,
        }
    }
}

/// Length of a work session, in seconds.
#[derive(Clone, Copy, Debug, PartialEq, Eq, Structural)]
pub struct TimerConfig {
    pub work_seconds: u32,
}

impl Default for TimerConfig {
    fn default() -> (r: Self)
        ensures
            r == (TimerConfig { work_seconds: 1500 }),
    {
        TimerConfig { work_seconds: 1500 }
    }
}

/// What the machine reports to its driver.
///
/// - `Tick(remaining_seconds)`: the countdown moved on;
/// - `StateChanged { phase, count }`: a phase transition;
/// - `Completed { kind }`: the session is over (fired ahead of the deadline
///   so that the animation lands on it);
/// - `PlayKakonAudio`: the moment to strike the bamboo sound.
#[derive(Clone, Debug, PartialEq, Eq, Structural)]
pub enum TimerEvent {
    Tick(u32),
    StateChanged { phase: Phase, count: u32 },
    Completed { kind: SessionKind },
    PlayKakonAudio,
}

} // verus!
