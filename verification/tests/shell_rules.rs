use tokiodoshi::audio::{kind_str_to_volume_kind, sound_cue, AudioGate, SoundCue};
use tokiodoshi::error::AppError;
use tokiodoshi::persistence::migrations;
use tokiodoshi::session::iso8601;
use tokiodoshi::settings::{
    AppearanceSettings, AudioMode, BehaviorSettings, DurationsSettings, Theme, VolumeKind,
};
use tokiodoshi::timer_machine::{TimerMachine, NANOS_PER_SEC};
use tokiodoshi::timer_state::{Phase, SessionKind, TimerConfig, TimerEvent, TimerState};
use tokiodoshi::tray::{
    apply_timer_action, event_channel, format_title, menu_command, MenuCommand, TimerAction,
};

#[test]
fn iso8601_matches_the_front_end_format() {
    assert_eq!(iso8601(1_780_317_296_789).unwrap(), "2026-06-01T12:34:56.789Z");
    assert_eq!(iso8601(0).unwrap(), "1970-01-01T00:00:00.000Z");
    assert!(iso8601(i64::MAX).is_none());
    assert_eq!(iso8601(19_782 * 86_400_000).unwrap(), "2024-02-29T00:00:00.000Z");
    assert_eq!(iso8601(253_402_300_799_999).unwrap(), "9999-12-31T23:59:59.999Z");
}

#[test]
fn iso8601_covers_exactly_the_calendar_range() {
    assert_eq!(iso8601(-8_334_601_228_800_000).unwrap(), "-262143-01-01T00:00:00.000Z");
    assert!(iso8601(-8_334_601_228_800_001).is_none());
    assert_eq!(iso8601(8_210_266_876_799_999).unwrap(), "+262142-12-31T23:59:59.999Z");
    assert!(iso8601(8_210_266_876_800_000).is_none());
    assert!(iso8601(i64::MIN).is_none());
}

#[test]
fn app_error_messages_name_the_variant() {
    let e = AppError::Store("missing key".to_string());
    assert_eq!(e.to_message(), "Store: missing key");
    assert_eq!(AppError::Sql("syntax".to_string()).to_message(), "Sql: syntax");
    assert_eq!(AppError::Audio("device".to_string()).to_message(), "Audio: device");
    assert_eq!(
        AppError::NotFound("session 42".to_string()).to_message(),
        "NotFound: session 42"
    );
    let io = std::io::Error::new(std::io::ErrorKind::NotFound, "missing.toml");
    let e: AppError = io.into();
    let msg = e.to_message();
    assert!(msg.starts_with("Io: "));
    assert!(msg.contains("missing.toml"));
}

#[test]
fn unknown_volume_name_is_reported_in_the_message() {
    match kind_str_to_volume_kind("bass") {
        Err(AppError::NotFound(msg)) => assert_eq!(msg, "invalid kind: bass"),
        other => panic!("unexpected {other:?}"),
    }
    assert!(kind_str_to_volume_kind("water ").is_err());
}

#[test]
fn migrations_create_the_sessions_table() {
    let m = migrations();
    assert_eq!(m.len(), 1);
    assert_eq!(m[0].version, 1);
    assert_eq!(m[0].description, "create sessions table");
    assert!(m[0].sql.contains("CREATE TABLE IF NOT EXISTS sessions"));
    assert!(m[0].sql.contains("idx_sessions_started_at"));
}

#[test]
fn menu_ids_select_commands() {
    assert_eq!(menu_command("start"), MenuCommand::Timer(TimerAction::Start));
    assert_eq!(menu_command("pause"), MenuCommand::Timer(TimerAction::Pause));
    assert_eq!(menu_command("reset"), MenuCommand::Timer(TimerAction::Reset));
    assert_eq!(menu_command("skip"), MenuCommand::Timer(TimerAction::Skip));
    assert_eq!(menu_command("open_window"), MenuCommand::OpenWindow);
    assert_eq!(menu_command("open_settings"), MenuCommand::OpenSettings);
    assert_eq!(menu_command("quit"), MenuCommand::Quit);
    assert_eq!(menu_command("Quit"), MenuCommand::Unknown);
    assert_eq!(menu_command(""), MenuCommand::Unknown);
}

#[test]
fn menu_actions_drive_the_machine() {
    let mut m = TimerMachine::new(TimerConfig { work_seconds: 4 });
    let t = 1_000 * NANOS_PER_SEC;
    let events = apply_timer_action(&mut m, TimerAction::Start, t);
    assert_eq!(events[0], TimerEvent::StateChanged { phase: Phase::Work, count: 0 });
    apply_timer_action(&mut m, TimerAction::Pause, t + NANOS_PER_SEC);
    assert_eq!(m.state().phase, Phase::Paused);
    let events = apply_timer_action(&mut m, TimerAction::Skip, t + 2 * NANOS_PER_SEC);
    assert!(events.is_empty());
    apply_timer_action(&mut m, TimerAction::Start, t + 3 * NANOS_PER_SEC);
    let events = apply_timer_action(&mut m, TimerAction::Skip, t + 4 * NANOS_PER_SEC);
    assert_eq!(events.len(), 2);
    let events = apply_timer_action(&mut m, TimerAction::Reset, t + 5 * NANOS_PER_SEC);
    assert_eq!(events, vec![TimerEvent::StateChanged { phase: Phase::Idle, count: 0 }]);
}

#[test]
fn events_go_to_their_channels() {
    assert_eq!(event_channel(&TimerEvent::Tick(3)), Some("timer:tick"));
    assert_eq!(
        event_channel(&TimerEvent::StateChanged { phase: Phase::Idle, count: 0 }),
        Some("timer:state_changed")
    );
    assert_eq!(
        event_channel(&TimerEvent::Completed { kind: SessionKind::Work }),
        Some("timer:completed")
    );
    assert_eq!(event_channel(&TimerEvent::PlayKakonAudio), None);
}

#[test]
fn title_past_a_hundred_minutes_grows() {
    assert_eq!(format_title(5999), "99:59");
    assert_eq!(format_title(6000), "100:00");
    assert_eq!(format_title(61), "01:01");
    assert_eq!(format_title(u32::MAX), "71582788:15");
}

#[test]
fn water_plays_only_in_full_mode() {
    let mut g = AudioGate::new();
    assert!(g.may_start_water(true));
    assert!(!g.may_start_water(false));
    assert!(g.water_started());
    assert!(!g.may_start_water(true));
    assert!(g.set_mode(AudioMode::KakonOnly));
    assert!(!g.water_playing());
    assert!(!g.may_start_water(true));
    assert!(!g.water_started());
    assert!(g.may_play_kakon(true, true));
    assert!(!g.set_mode(AudioMode::Silent));
    assert!(!g.may_play_kakon(true, true));
    assert!(!g.set_mode(AudioMode::Full));
    assert!(g.may_start_water(true));
    assert!(!g.water_stopped());
    assert!(!g.may_play_kakon(false, true));
    assert!(!g.may_play_kakon(true, false));
}

#[test]
fn defaults_match_the_documented_settings() {
    let d = DurationsSettings::default();
    assert_eq!(d.work_seconds, 1500);
    assert_eq!(d.short_break_seconds, 300);
    assert_eq!(d.long_break_seconds, 900);
    assert_eq!(d.sessions_until_long_break, 4);
    let b = BehaviorSettings::default();
    assert!(!b.launch_at_login);
    assert!(!b.hide_dock_icon);
    assert!(b.auto_show_window_on_start);
    assert!(!b.loop_sessions);
    assert_eq!(AppearanceSettings::default().theme, Theme::System);
    assert_eq!(AudioMode::default(), AudioMode::Full);
    assert_eq!(Theme::default(), Theme::System);
    assert_eq!(Phase::default(), Phase::Idle);
    let s = TimerState::default();
    assert_eq!(s.remaining_seconds, 1500);
    assert_eq!(s.current_duration_seconds, 1500);
    assert_eq!(s.session_count, 0);
    assert_eq!(s.phase, Phase::Idle);
}

#[test]
fn timer_config_takes_the_work_length() {
    let mut d = DurationsSettings::default();
    d.work_seconds = 42;
    let c: TimerConfig = (&d).into();
    assert_eq!(c, TimerConfig { work_seconds: 42 });
    let _ = VolumeKind::Master;
}

#[test]
fn sound_follows_the_phase() {
    assert_eq!(
        sound_cue(&TimerEvent::StateChanged { phase: Phase::Work, count: 0 }),
        Some(SoundCue::StartWater)
    );
    assert_eq!(
        sound_cue(&TimerEvent::StateChanged { phase: Phase::Paused, count: 0 }),
        Some(SoundCue::StopWater)
    );
    assert_eq!(sound_cue(&TimerEvent::PlayKakonAudio), Some(SoundCue::StrikeKakon));
    assert_eq!(sound_cue(&TimerEvent::Tick(1)), None);
    assert_eq!(sound_cue(&TimerEvent::Completed { kind: SessionKind::Work }), None);
}
