//! The settings model (everything but the audio volumes, which are
//! fractions kept by the application shell).

use vstd::prelude::*;

use crate::timer_machine::{MachineView, TimerMachine};
use crate::timer_state::TimerConfig;

verus! {

/// How much sound the timer makes: none, the bamboo strike only, or the
/// strike plus running water during work.
#[derive(Clone, Copy, Debug, PartialEq, Eq, Hash, Structural)]
pub enum AudioMode {
    Silent,
    KakonOnly,
    Full,
}

impl Default for AudioMode {
    fn default() -> (r: Self)
        ensures
            r == AudioMode::Full,
    {
        AudioMode::Full
    }
}

/// Colour theme of the window.
#[derive(Clone, Copy, Debug, PartialEq, Eq, Hash, Structural)]
pub enum Theme {
    System,
    Light,
    Dark,
}

impl Default for Theme {
    fn default() -> (r: Self)
        ensures
            r == Theme::System,
    {
        Theme::System
    }
}

/// Which volume a volume change is about.
#[derive(Clone, Copy, Debug, PartialEq, Eq, Hash, Structural)]
pub enum VolumeKind {
    Master,
    Water,
    Kakon,
}

/// Session lengths, in seconds.
#[derive(Clone, Debug, PartialEq, Eq, Structural)]
pub struct DurationsSettings {
    pub work_seconds: u32,
    pub short_break_seconds: u32,
    pub long_break_seconds: u32,
    pub sessions_until_long_break: u32,
}

impl Default for DurationsSettings {
    fn default() -> (r: Self)
        ensures
            r == (DurationsSettings {
                work_seconds: 1500,
                short_break_seconds: 300,
                long_break_seconds: 900,
                sessions_until_long_break: 4,
            }),
    {
        DurationsSettings {
            work_seconds: 1500,
            short_break_seconds: 300,
            long_break_seconds: 900,
            sessions_until_long_break: 4,
        }
    }
}

/// The timer configuration taken from the session lengths: the work length.
impl From<&DurationsSettings> for TimerConfig {
    fn from(d: &DurationsSettings) -> (r: Self) {
        TimerConfig { work_seconds: d.work_seconds }
    }
}

impl vstd::std_specs::convert::FromSpecImpl<&DurationsSettings> for TimerConfig {
    open spec fn obeys_from_spec() -> bool {
        true
    }

    open spec fn from_spec(d: &DurationsSettings) -> Self {
        TimerConfig { work_seconds: d.work_seconds }
    }
}

/// Application behaviour.
#[derive(Clone, Debug, PartialEq, Eq, Structural)]
pub struct BehaviorSettings {
    pub launch_at_login: bool,
    pub hide_dock_icon: bool,
    pub auto_show_window_on_start: bool,
    /// Start the next work session by itself when one completes.
    pub loop_sessions: bool,
}

impl Default for BehaviorSettings {
    fn default() -> (r: Self)
        ensures
            r == (BehaviorSettings {
                launch_at_login: false,
                hide_dock_icon: false,
                auto_show_window_on_start: true,
                loop_sessions: false,
            }),
    {
        BehaviorSettings {
            launch_at_login: false,
            hide_dock_icon: false,
            auto_show_window_on_start: true,
            loop_sessions: false,
        }
    }
}

/// Appearance of the window.
#[derive(Clone, Debug, PartialEq, Eq, Structural)]
pub struct AppearanceSettings {
    pub theme: Theme,
}

impl Default for AppearanceSettings {
    fn default() -> (r: Self)
        ensures
            r == (AppearanceSettings { theme: Theme::System }),
    {
        AppearanceSettings { theme: Theme::System }
    }
}

/// Hand new settings to the timer: the work length is queued for the next
/// session (the running one keeps its length), loop mode applies at once.
pub fn apply_timer_settings(
    machine: &mut TimerMachine,
    durations: &DurationsSettings,
    behavior: &BehaviorSettings,
)
    ensures
        final(machine)@ == (MachineView {
            pending_config: Some(TimerConfig { work_seconds: durations.work_seconds }),
            loop_mode: behavior.loop_sessions,
            ..old(machine)@
        }),
{
    machine.set_config(TimerConfig::from(durations));
    machine.set_loop_mode(behavior.loop_sessions);
}

} // verus!
