//! What the menu-bar item shows and what its menu does, apart from the
//! drawing itself: the `MM:SS` title, the icon per phase, the meaning of
//! each menu entry and the front-end channel of each timer event.

use vstd::prelude::*;

use crate::text::{digit_char, lemma_two_digits_below_hundred, push_two_digits, str_eq, two_digits};
use crate::timer_machine::TimerMachine;
use crate::timer_state::{Phase, SessionKind, TimerEvent};

verus! {

/// The title for `remaining_seconds`: minutes and seconds, each padded with
/// zeros to two digits; an hour or more is not cut down (`60:00`).
pub open spec fn title_text(remaining_seconds: u32) -> Seq<char> {
    two_digits((remaining_seconds / 60) as nat) + seq![':'] + two_digits(
        (remaining_seconds % 60) as nat,
    )
}

/// Remaining seconds → `MM:SS`.
pub fn format_title(remaining_seconds: u32) -> (r: String)
    ensures
        r@ == title_text(remaining_seconds),
{
    proof {
        reveal_strlit(":");
    }
    let m = remaining_seconds / 60;
    let s = remaining_seconds % 60;
    let mut out = String::new();
    push_two_digits(&mut out, m);
    out.append(":");
    push_two_digits(&mut out, s);
    assert(out@ =~= title_text(remaining_seconds));
    out
}

/// Below a hundred minutes the title is exactly `MM:SS`: five characters,
/// the two digits of the minutes, a colon and the two digits of the seconds.
pub proof fn law_title_is_mm_ss(remaining_seconds: u32)
    requires
        remaining_seconds < 6000,
    ensures
        ({
            let t = title_text(remaining_seconds);
            let m = (remaining_seconds / 60) as nat;
            let s = (remaining_seconds % 60) as nat;
            &&& t.len() == 5
            &&& t[0] == digit_char(m / 10)
            &&& t[1] == digit_char(m % 10)
            &&& t[2] == ':'
            &&& t[3] == digit_char(s / 10)
            &&& t[4] == digit_char(s % 10)
        }),
{
    lemma_two_digits_below_hundred((remaining_seconds / 60) as nat);
    lemma_two_digits_below_hundred((remaining_seconds % 60) as nat);
}

/// The icon file of each phase: `Idle` and `Paused` share one, the two
/// breaks share one, `Work` has its own.
pub open spec fn icon_file(phase: Phase) -> Seq<char> {
    match phase {
        Phase::Idle | Phase::Paused => "tray-idle.png"@,
        Phase::Work => "tray-work.png"@,
        Phase::ShortBreak | Phase::LongBreak => "tray-break.png"@,
    }
}

/// Phase → icon file name.
pub fn phase_to_icon_name(phase: Phase) -> (r: &'static str)
    ensures
        r@ == icon_file(phase),
{
    match phase {
        Phase::Idle | Phase::Paused => "tray-idle.png",
        Phase::Work => "tray-work.png",
        Phase::ShortBreak | Phase::LongBreak => "tray-break.png",
    }
}

/// A timer operation offered by the menu.
#[derive(Clone, Copy, Debug, PartialEq, Eq, Structural)]
pub enum TimerAction {
    Start,
    Pause,
    Reset,
    Skip,
}

/// What a menu entry asks for.
#[derive(Clone, Copy, Debug, PartialEq, Eq, Structural)]
pub enum MenuCommand {
    Timer(TimerAction),
    OpenWindow,
    OpenSettings,
    Quit,
    Unknown,
}

/// The command of each menu entry id.
pub open spec fn command_of(id: Seq<char>) -> MenuCommand {
    if id == "start"@ {
        MenuCommand::Timer(TimerAction::Start)
    } else if id == "pause"@ {
        MenuCommand::Timer(TimerAction::Pause)
    } else if id == "reset"@ {
        MenuCommand::Timer(TimerAction::Reset)
    } else if id == "skip"@ {
        MenuCommand::Timer(TimerAction::Skip)
    } else if id == "open_window"@ {
        MenuCommand::OpenWindow
    } else if id == "open_settings"@ {
        MenuCommand::OpenSettings
    } else if id == "quit"@ {
        MenuCommand::Quit
    } else {
        MenuCommand::Unknown
    }
}

/// Menu entry id → command.
pub fn menu_command(id: &str) -> (r: MenuCommand)
    ensures
        r == command_of(id@),
{
    if str_eq(id, "start") {
        MenuCommand::Timer(TimerAction::Start)
    } else if str_eq(id, "pause") {
        MenuCommand::Timer(TimerAction::Pause)
    } else if str_eq(id, "reset") {
        MenuCommand::Timer(TimerAction::Reset)
    } else if str_eq(id, "skip") {
        MenuCommand::Timer(TimerAction::Skip)
    } else if str_eq(id, "open_window") {
        MenuCommand::OpenWindow
    } else if str_eq(id, "open_settings") {
        MenuCommand::OpenSettings
    } else if str_eq(id, "quit") {
        MenuCommand::Quit
    } else {
        MenuCommand::Unknown
    }
}

/// Run a menu's timer operation on the machine.
pub fn apply_timer_action(machine: &mut TimerMachine, action: TimerAction, now: u128) -> (events:
    Vec<TimerEvent>)
    requires
        action == TimerAction::Start ==> old(machine)@.start_fits(now as int),
    ensures
        ({
            let (after, evs) = match action {
                TimerAction::Start => old(machine)@.start_spec(now as int),
                TimerAction::Pause => old(machine)@.pause_spec(now as int),
                TimerAction::Reset => old(machine)@.reset_spec(),
                TimerAction::Skip => old(machine)@.skip_spec(),
            };
            final(machine)@ == after && events@ == evs
        }),
{
    match action {
        TimerAction::Start => machine.start(now),
        TimerAction::Pause => machine.pause(now),
        TimerAction::Reset => machine.reset(),
        TimerAction::Skip => machine.skip(now),
    }
}

/// The front-end channel of each event; the sound request is not sent to
/// the front end.
pub open spec fn channel_of(event: TimerEvent) -> Option<Seq<char>> {
    match event {
        TimerEvent::Tick(_) => Some("timer:tick"@),
        TimerEvent::StateChanged { .. } => Some("timer:state_changed"@),
        TimerEvent::Completed { .. } => Some("timer:completed"@),
        TimerEvent::PlayKakonAudio => None,
    }
}

/// Every tick, whatever its count (the final `0` too), goes to the front
/// end on `timer:tick`; state changes and `Completed` have channels of
/// their own, and the sound request is never sent.
pub proof fn law_every_event_kind_has_its_channel(n: u32, phase: Phase, count: u32)
    ensures
        channel_of(TimerEvent::Tick(n)) == Some("timer:tick"@),
        channel_of(TimerEvent::StateChanged { phase, count }) == Some("timer:state_changed"@),
        channel_of(TimerEvent::Completed { kind: SessionKind::Work }) == Some("timer:completed"@),
        channel_of(TimerEvent::PlayKakonAudio) is None,
{
}

/// Event → front-end channel name.
pub fn event_channel(event: &TimerEvent) -> (r: Option<&'static str>)
    ensures
        match r {
            Some(s) => channel_of(*event) == Some(s@),
            None => channel_of(*event) is None,
        },
{
    match event {
        TimerEvent::Tick(_) => Some("timer:tick"),
        TimerEvent::StateChanged { .. } => Some("timer:state_changed"),
        TimerEvent::Completed { .. } => Some("timer:completed"),
        TimerEvent::PlayKakonAudio => None,
    }
}

} // verus!
