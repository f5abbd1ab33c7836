use tokiodoshi::tray::{format_title, phase_to_icon_name};
use tokiodoshi::timer_state::Phase;

#[test]
fn format_title_zero() {
    assert_eq!(format_title(0), "00:00");
}

#[test]
fn format_title_two_minutes_five_seconds() {
    assert_eq!(format_title(125), "02:05");
}

#[test]
fn format_title_just_under_one_hour() {
    assert_eq!(format_title(3599), "59:59");
}

#[test]
fn format_title_over_one_hour_does_not_truncate() {
    assert_eq!(format_title(3600), "60:00");
}

#[test]
fn phase_to_icon_name_work() {
    assert_eq!(phase_to_icon_name(Phase::Work), "tray-work.png");
}

#[test]
fn phase_to_icon_name_idle_and_paused_share_icon() {
    assert_eq!(phase_to_icon_name(Phase::Idle), "tray-idle.png");
    assert_eq!(phase_to_icon_name(Phase::Paused), "tray-idle.png");
}

#[test]
fn phase_to_icon_name_short_and_long_break_share_icon() {
    assert_eq!(phase_to_icon_name(Phase::ShortBreak), "tray-break.png");
    assert_eq!(phase_to_icon_name(Phase::LongBreak), "tray-break.png");
}
