use tokiodoshi::timer_machine::{TimerMachine, KAKON_LEAD_MS, NANOS_PER_MILLI, NANOS_PER_SEC};
use tokiodoshi::timer_state::{Phase, SessionKind, TimerConfig, TimerEvent};

fn fast_config() -> TimerConfig {
    TimerConfig { work_seconds: 4 }
}

fn secs(s: u128) -> u128 {
    s * NANOS_PER_SEC
}

fn millis(ms: u128) -> u128 {
    ms * NANOS_PER_MILLI
}

fn t0() -> u128 {
    secs(1_700_000_000)
}

#[test]
fn initial_state_is_idle() {
    let m = TimerMachine::new(fast_config());
    let s = m.state();
    assert_eq!(s.phase, Phase::Idle);
    assert_eq!(s.session_count, 0);
    assert!(m.end_at().is_none());
    assert_eq!(s.current_duration_seconds, 4);
}

#[test]
fn start_transitions_to_work() {
    let mut m = TimerMachine::new(fast_config());
    let now = t0();
    let events = m.start(now);
    assert_eq!(events.len(), 2);
    assert!(matches!(events[0], TimerEvent::StateChanged { phase: Phase::Work, count: 0 }));
    assert!(matches!(events[1], TimerEvent::Tick(4)));
    let s = m.state();
    assert_eq!(s.phase, Phase::Work);
    assert_eq!(s.remaining_seconds, 4);
    assert_eq!(m.end_at(), Some(now + secs(4)));
}

#[test]
fn poll_emits_tick_with_decreasing_remaining() {
    let mut m = TimerMachine::new(fast_config());
    let now = t0();
    m.start(now);
    let events = m.poll(now + secs(1));
    assert!(matches!(events[0], TimerEvent::Tick(3)));
    let events = m.poll(now + secs(3));
    assert!(matches!(events[0], TimerEvent::Tick(1)));
    assert_eq!(m.state().remaining_seconds, 1);
}

#[test]
fn completed_fires_before_end_at_by_kakon_lead_ms() {
    let mut m = TimerMachine::new(fast_config());
    let now = t0();
    m.start(now);
    let pre = now + secs(4) - millis(KAKON_LEAD_MS as u128);
    let events = m.poll(pre);
    assert_eq!(events.len(), 2);
    assert!(matches!(events[0], TimerEvent::Tick(_)));
    assert!(matches!(events[1], TimerEvent::Completed { kind: SessionKind::Work }));
    assert_eq!(m.state().phase, Phase::Work);
}

#[test]
fn completed_is_emitted_only_once_then_state_changed_at_end_at() {
    let mut m = TimerMachine::new(fast_config());
    let now = t0();
    m.start(now);
    let pre = now + secs(4) - millis(KAKON_LEAD_MS as u128);
    let _ = m.poll(pre);
    let mid = pre + millis(100);
    let events = m.poll(mid);
    assert!(events.iter().all(|e| !matches!(e, TimerEvent::Completed { .. })));
    let end = now + secs(4);
    let events = m.poll(end);
    assert_eq!(events.len(), 3);
    assert!(matches!(events[0], TimerEvent::Tick(0)));
    assert!(matches!(events[1], TimerEvent::PlayKakonAudio));
    assert!(matches!(events[2], TimerEvent::StateChanged { phase: Phase::Idle, count: 1 }));
    let s = m.state();
    assert_eq!(s.phase, Phase::Idle);
    assert_eq!(s.session_count, 1);
    assert_eq!(s.remaining_seconds, 4);
}

#[test]
fn loop_mode_auto_starts_next_session_after_natural_completion() {
    let mut m = TimerMachine::new(fast_config());
    m.set_loop_mode(true);
    let now = t0();
    m.start(now);
    let pre = now + secs(4) - millis(KAKON_LEAD_MS as u128);
    m.poll(pre);
    let events = m.poll(now + secs(4));
    assert_eq!(events.len(), 5);
    assert!(matches!(events[0], TimerEvent::Tick(0)));
    assert!(matches!(events[1], TimerEvent::PlayKakonAudio));
    assert!(matches!(events[2], TimerEvent::StateChanged { phase: Phase::Idle, count: 1 }));
    assert!(matches!(events[3], TimerEvent::StateChanged { phase: Phase::Work, count: 1 }));
    assert!(matches!(events[4], TimerEvent::Tick(4)));
    assert_eq!(m.state().phase, Phase::Work);
    assert_eq!(m.state().remaining_seconds, 4);
}

#[test]
fn loop_mode_does_not_auto_start_after_skip() {
    let mut m = TimerMachine::new(fast_config());
    m.set_loop_mode(true);
    let now = t0();
    m.start(now);
    let events = m.skip(now + secs(1));
    assert!(events
        .iter()
        .all(|e| !matches!(e, TimerEvent::StateChanged { phase: Phase::Work, .. })));
    assert_eq!(m.state().phase, Phase::Idle);
}

#[test]
fn loop_mode_off_returns_to_idle_after_completion() {
    let mut m = TimerMachine::new(fast_config());
    let now = t0();
    m.start(now);
    let events = m.poll(now + secs(4));
    assert!(events
        .iter()
        .all(|e| !matches!(e, TimerEvent::StateChanged { phase: Phase::Work, .. })));
    assert_eq!(m.state().phase, Phase::Idle);
}

#[test]
fn large_time_jump_emits_completed_and_state_changed_in_one_poll() {
    let mut m = TimerMachine::new(fast_config());
    let now = t0();
    m.start(now);
    let events = m.poll(now + secs(3600));
    assert_eq!(events.len(), 4);
    assert!(matches!(events[0], TimerEvent::Tick(0)));
    assert!(matches!(events[1], TimerEvent::Completed { kind: SessionKind::Work }));
    assert!(matches!(events[2], TimerEvent::PlayKakonAudio));
    assert!(matches!(events[3], TimerEvent::StateChanged { phase: Phase::Idle, count: 1 }));
}

#[test]
fn pause_then_resume_preserves_remaining() {
    let mut m = TimerMachine::new(fast_config());
    let now = t0();
    m.start(now);
    let pause_now = now + secs(1);
    m.pause(pause_now);
    assert_eq!(m.state().phase, Phase::Paused);
    assert_eq!(m.state().remaining_seconds, 3);

    let resume_now = pause_now + secs(60);
    let events = m.start(resume_now);
    assert!(matches!(events[0], TimerEvent::StateChanged { phase: Phase::Work, .. }));
    assert_eq!(m.state().remaining_seconds, 3);

    let events = m.poll(resume_now + secs(1));
    assert!(matches!(events[0], TimerEvent::Tick(2)));
}

#[test]
fn skip_completes_current_work_and_returns_to_idle() {
    let mut m = TimerMachine::new(fast_config());
    let now = t0();
    m.start(now);
    let events = m.skip(now + secs(2));
    assert_eq!(events.len(), 2);
    assert!(matches!(events[0], TimerEvent::Completed { kind: SessionKind::Work }));
    assert!(matches!(events[1], TimerEvent::StateChanged { phase: Phase::Idle, count: 1 }));
    assert_eq!(m.state().phase, Phase::Idle);
    assert_eq!(m.state().session_count, 1);
}

#[test]
fn reset_clears_everything() {
    let mut m = TimerMachine::new(fast_config());
    let now = t0();
    m.start(now);
    m.poll(now + secs(2));
    m.reset();
    assert_eq!(m.state().phase, Phase::Idle);
    assert_eq!(m.state().session_count, 0);
    assert_eq!(m.state().remaining_seconds, 4);
    assert!(m.end_at().is_none());
}

#[test]
fn set_config_applies_at_next_start_not_current_session() {
    let mut m = TimerMachine::new(fast_config());
    let now = t0();
    m.start(now);
    m.set_config(TimerConfig { work_seconds: 10 });
    assert_eq!(m.state().current_duration_seconds, 4);

    m.poll(now + secs(4));
    assert_eq!(m.state().phase, Phase::Idle);
    assert_eq!(m.state().current_duration_seconds, 4);

    let events = m.start(now + secs(10));
    assert!(matches!(events[0], TimerEvent::StateChanged { phase: Phase::Work, .. }));
    assert_eq!(m.state().current_duration_seconds, 10);
    assert_eq!(m.state().remaining_seconds, 10);
}

#[test]
fn reset_commits_pending_config() {
    let mut m = TimerMachine::new(fast_config());
    m.set_config(TimerConfig { work_seconds: 30 });
    m.reset();
    assert_eq!(m.state().current_duration_seconds, 30);
    assert_eq!(m.state().remaining_seconds, 30);
}
