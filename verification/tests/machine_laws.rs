use tokiodoshi::settings::{apply_timer_settings, BehaviorSettings, DurationsSettings};
use tokiodoshi::timer_machine::{TimerMachine, KAKON_AUDIO_LEAD_MS, NANOS_PER_MILLI, NANOS_PER_SEC};
use tokiodoshi::timer_state::{Phase, SessionKind, TimerConfig, TimerEvent};

fn secs(s: u128) -> u128 {
    s * NANOS_PER_SEC
}

fn t0() -> u128 {
    secs(1_700_000_000)
}

fn machine(work_seconds: u32) -> TimerMachine {
    TimerMachine::new(TimerConfig { work_seconds })
}

#[test]
fn resume_deadline_is_resume_time_plus_frozen_remaining() {
    let mut m = machine(10);
    m.start(t0());
    m.pause(t0() + 2_500_000_000);
    assert_eq!(m.state().remaining_seconds, 7);
    m.start(t0() + secs(1000));
    assert_eq!(m.end_at(), Some(t0() + secs(1000) + 7_500_000_000));
    assert_eq!(m.state().remaining_seconds, 7);
}

#[test]
fn sound_is_requested_once_per_session() {
    let mut m = machine(4);
    m.start(t0());
    let audio_at = t0() + secs(4) - (KAKON_AUDIO_LEAD_MS as u128) * NANOS_PER_MILLI;
    let events = m.poll(audio_at);
    assert_eq!(events, vec![TimerEvent::PlayKakonAudio]);
    let events = m.poll(audio_at + 50 * NANOS_PER_MILLI);
    assert_eq!(events, vec![TimerEvent::Tick(0), TimerEvent::Completed { kind: SessionKind::Work }]);
    let events = m.poll(t0() + secs(4));
    assert_eq!(
        events,
        vec![TimerEvent::Tick(0), TimerEvent::StateChanged { phase: Phase::Idle, count: 1 }]
    );
}

#[test]
fn completed_survives_pause_and_resume() {
    let mut m = machine(4);
    m.start(t0());
    let pre = t0() + secs(4) - 1_200 * NANOS_PER_MILLI;
    let events = m.poll(pre);
    assert!(events.contains(&TimerEvent::Completed { kind: SessionKind::Work }));
    m.pause(pre + NANOS_PER_MILLI);
    m.start(pre + secs(30));
    let events = m.skip(pre + secs(31));
    assert_eq!(events, vec![TimerEvent::StateChanged { phase: Phase::Idle, count: 1 }]);
}

#[test]
fn session_counter_moves_only_on_completion_and_reset() {
    let mut m = machine(4);
    m.start(t0());
    m.pause(t0() + secs(1));
    m.start(t0() + secs(2));
    assert_eq!(m.state().session_count, 0);
    m.skip(t0() + secs(3));
    assert_eq!(m.state().session_count, 1);
    m.start(t0() + secs(10));
    m.poll(t0() + secs(20));
    assert_eq!(m.state().session_count, 2);
    m.reset();
    assert_eq!(m.state().session_count, 0);
}

#[test]
fn countdown_never_increases() {
    let mut m = machine(90);
    m.start(t0());
    let mut last = m.state().remaining_seconds;
    let mut t = t0();
    while t < t0() + secs(85) {
        t += 333_000_000;
        m.poll(t);
        let now_left = m.state().remaining_seconds;
        assert!(now_left <= last);
        last = now_left;
    }
    assert_eq!(last, 4);
}

#[test]
fn pending_config_does_not_touch_paused_session() {
    let mut m = machine(60);
    m.start(t0());
    m.pause(t0() + secs(10));
    m.set_config(TimerConfig { work_seconds: 5 });
    m.start(t0() + secs(20));
    assert_eq!(m.state().current_duration_seconds, 60);
    assert_eq!(m.state().remaining_seconds, 50);
    m.skip(t0() + secs(21));
    assert_eq!(m.state().remaining_seconds, 60);
    m.start(t0() + secs(22));
    assert_eq!(m.state().current_duration_seconds, 5);
}

#[test]
fn loop_mode_commits_pending_config_for_the_next_session() {
    let mut m = machine(4);
    m.set_loop_mode(true);
    m.start(t0());
    m.set_config(TimerConfig { work_seconds: 7 });
    let events = m.poll(t0() + secs(4));
    assert_eq!(events.last(), Some(&TimerEvent::Tick(7)));
    assert_eq!(m.state().phase, Phase::Work);
    assert_eq!(m.state().current_duration_seconds, 7);
    assert_eq!(m.end_at(), Some(t0() + secs(11)));
}

#[test]
fn operations_outside_their_phase_do_nothing() {
    let mut m = machine(4);
    assert!(m.pause(t0()).is_empty());
    assert!(m.skip(t0()).is_empty());
    assert!(m.poll(t0()).is_empty());
    m.start(t0());
    assert!(m.start(t0() + secs(1)).is_empty());
    assert_eq!(m.end_at(), Some(t0() + secs(4)));
}

#[test]
fn zero_length_session_has_no_deadline() {
    let mut m = machine(0);
    let events = m.start(t0());
    assert_eq!(
        events,
        vec![TimerEvent::StateChanged { phase: Phase::Work, count: 0 }, TimerEvent::Tick(0)]
    );
    assert_eq!(m.end_at(), None);
    assert!(m.poll(t0() + secs(5)).is_empty());
    m.pause(t0() + secs(5));
    assert_eq!(m.state().remaining_seconds, 0);
}

#[test]
fn first_poll_in_the_last_second_still_announces_completed() {
    let mut m = machine(4);
    m.start(t0());
    let events = m.poll(t0() + secs(4) - 500 * NANOS_PER_MILLI);
    assert_eq!(events, vec![TimerEvent::Tick(0), TimerEvent::Completed { kind: SessionKind::Work }]);
    let events = m.poll(t0() + secs(4) - 300 * NANOS_PER_MILLI);
    assert!(events.is_empty());
    let events = m.poll(t0() + secs(4));
    assert_eq!(events.iter().filter(|e| **e == TimerEvent::Tick(0)).count(), 1);
    assert_eq!(events[0], TimerEvent::Tick(0));
    assert!(!events.contains(&TimerEvent::Completed { kind: SessionKind::Work }));
}

#[test]
fn clock_going_back_while_paused_keeps_the_frozen_time() {
    let mut m = machine(4);
    m.start(t0());
    m.pause(t0() - secs(10));
    assert_eq!(m.state().remaining_seconds, 14);
}

#[test]
fn settings_queue_work_length_and_set_loop_mode() {
    let mut m = machine(4);
    m.start(t0());
    let mut d = DurationsSettings::default();
    d.work_seconds = 60;
    let mut b = BehaviorSettings::default();
    b.loop_sessions = true;
    apply_timer_settings(&mut m, &d, &b);
    assert_eq!(m.state().current_duration_seconds, 4);
    let events = m.poll(t0() + secs(4));
    assert_eq!(events.last(), Some(&TimerEvent::Tick(60)));
}
