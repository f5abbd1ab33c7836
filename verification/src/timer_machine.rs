//! The work-session state machine.
//!
//! Phases are `Idle`, `Work` and `Paused`; a finished work session goes back
//! to `Idle` (or straight into the next session when loop mode is on).
//! A new configuration only takes effect at the next `start` from `Idle` or
//! at `reset`; the running session keeps its length.
//!
//! `Completed` is announced `KAKON_LEAD_MS` before the deadline so that the
//! front end's falling animation hits the stone right at the deadline, and
//! `PlayKakonAudio` is announced `KAKON_AUDIO_LEAD_MS` before it.
//!
//! Wall-clock instants are nanoseconds since the UNIX epoch (`u128`).

use vstd::prelude::*;

use crate::timer_state::{Phase, SessionKind, TimerConfig, TimerEvent, TimerState};

verus! {

/// How long before the deadline `Completed` is announced (the animation's lead).
pub const KAKON_LEAD_MS: u64 = 1200;

/// How long before the deadline the bamboo sound is requested.
pub const KAKON_AUDIO_LEAD_MS: u64 = 100;

/// Nanoseconds in a second.
pub const NANOS_PER_SEC: u128 = 1_000_000_000;

/// Nanoseconds in a millisecond.
pub const NANOS_PER_MILLI: u128 = 1_000_000;

/// The animation's lead, in nanoseconds.
pub open spec fn kakon_lead_ns() -> int {
    KAKON_LEAD_MS * NANOS_PER_MILLI
}

/// The sound's lead, in nanoseconds.
pub open spec fn kakon_audio_lead_ns() -> int {
    KAKON_AUDIO_LEAD_MS * NANOS_PER_MILLI
}

/// Whole seconds in a span of `ns` nanoseconds, kept to the low 32 bits as a
/// `u32` count of seconds is.
pub open spec fn whole_seconds(ns: int) -> u32 {
    ((ns / NANOS_PER_SEC as int) % 0x1_0000_0000) as u32
}

/// The session counter after one more completed session (it saturates).
pub open spec fn next_count(c: u32) -> u32 {
    if c == u32::MAX {
        c
    } else {
        (c + 1) as u32
    }
}

/// The abstract state of a `TimerMachine`.
pub struct MachineView {
    pub state: TimerState,
    pub config: TimerConfig,
    pub pending_config: Option<TimerConfig>,
    pub end_at: Option<u128>,
    pub paused_remaining: Option<u128>,
    pub completed_emitted: bool,
    pub audio_emitted: bool,
    pub loop_mode: bool,
}

impl MachineView {
    /// A fresh machine for `config`.
    pub open spec fn initial(config: TimerConfig) -> MachineView {
        MachineView {
            state: TimerState {
                phase: Phase::Idle,
                remaining_seconds: config.work_seconds,
                session_count: 0,
                current_duration_seconds: config.work_seconds,
            },
            config,
            pending_config: None,
            end_at: None,
            paused_remaining: None,
            completed_emitted: false,
            audio_emitted: false,
            loop_mode: false,
        }
    }

    /// Well-formedness: the machine is in one of its three phases, and each
    /// phase carries exactly the bookkeeping that belongs to it.
    pub open spec fn inv(self) -> bool {
        &&& (self.state.phase == Phase::Idle || self.state.phase == Phase::Work
            || self.state.phase == Phase::Paused)
        &&& self.state.phase == Phase::Idle ==> {
            &&& self.end_at is None
            &&& self.paused_remaining is None
            &&& !self.completed_emitted
            &&& !self.audio_emitted
            &&& self.state.remaining_seconds == self.config.work_seconds
            &&& self.state.current_duration_seconds == self.config.work_seconds
        }
        &&& self.state.phase == Phase::Work ==> self.paused_remaining is None
        &&& self.state.phase == Phase::Paused ==> {
            &&& self.end_at is None
            &&& self.paused_remaining matches Some(r)
            &&& self.state.remaining_seconds == whole_seconds(r as int)
        }
    }

    /// `start` at `now` computes a deadline that fits: from `Idle`, `now`
    /// plus the committed session length; from `Paused`, `now` plus what
    /// was left; otherwise nothing is computed.
    pub open spec fn start_fits(self, now: int) -> bool {
        if self.state.phase == Phase::Idle {
            now + self.committed_config().work_seconds * NANOS_PER_SEC <= u128::MAX
        } else if self.state.phase == Phase::Paused {
            match self.paused_remaining {
                Some(r) => now + r <= u128::MAX,
                None => now + self.state.remaining_seconds * NANOS_PER_SEC <= u128::MAX,
            }
        } else {
            true
        }
    }

    /// `poll` at `now` computes a deadline that fits: only when it ends a
    /// session in loop mode, which starts the next one at `now`.
    pub open spec fn poll_fits(self, now: int) -> bool {
        (self.state.phase == Phase::Work && self.end_at is Some && now >= self.end_at->0
            && self.loop_mode) ==> now + self.committed_config().work_seconds * NANOS_PER_SEC
            <= u128::MAX
    }

    /// The configuration in force once a pending one is committed.
    pub open spec fn committed_config(self) -> TimerConfig {
        match self.pending_config {
            Some(p) => p,
            None => self.config,
        }
    }

    /// Back to `Idle` after a work session; the counter and any pending
    /// configuration are kept.
    pub open spec fn into_idle(self) -> MachineView {
        MachineView {
            state: TimerState {
                phase: Phase::Idle,
                remaining_seconds: self.config.work_seconds,
                session_count: self.state.session_count,
                current_duration_seconds: self.config.work_seconds,
            },
            end_at: None,
            paused_remaining: None,
            completed_emitted: false,
            audio_emitted: false,
            ..self
        }
    }

    /// `start`: a new session from `Idle` (committing a pending
    /// configuration), a resume from `Paused`, nothing otherwise.
    pub open spec fn start_spec(self, now: int) -> (MachineView, Seq<TimerEvent>) {
        if self.state.phase == Phase::Idle {
            let c = self.committed_config();
            let w = c.work_seconds;
            (
                MachineView {
                    state: TimerState {
                        phase: Phase::Work,
                        remaining_seconds: w,
                        session_count: self.state.session_count,
                        current_duration_seconds: w,
                    },
                    config: c,
                    pending_config: None,
                    end_at: if w > 0 {
                        Some((now + w * NANOS_PER_SEC) as u128)
                    } else {
                        None
                    },
                    completed_emitted: false,
                    audio_emitted: false,
                    ..self
                },
                seq![
                    TimerEvent::StateChanged { phase: Phase::Work, count: self.state.session_count },
                    TimerEvent::Tick(w),
                ],
            )
        } else if self.state.phase == Phase::Paused {
            let rem: int = match self.paused_remaining {
                Some(r) => r as int,
                None => self.state.remaining_seconds * NANOS_PER_SEC,
            };
            (
                MachineView {
                    state: TimerState {
                        phase: Phase::Work,
                        remaining_seconds: whole_seconds(rem),
                        ..self.state
                    },
                    end_at: Some((now + rem) as u128),
                    paused_remaining: None,
                    ..self
                },
                seq![TimerEvent::StateChanged { phase: Phase::Work, count: self.state.session_count }],
            )
        } else {
            (self, seq![])
        }
    }

    /// `pause`: while working, freeze what is left until the deadline.
    pub open spec fn pause_spec(self, now: int) -> (MachineView, Seq<TimerEvent>) {
        if self.state.phase == Phase::Work {
            let rem: int = match self.end_at {
                Some(e) => if e >= now { e - now } else { 0 },
                None => self.state.remaining_seconds * NANOS_PER_SEC,
            };
            (
                MachineView {
                    state: TimerState {
                        phase: Phase::Paused,
                        remaining_seconds: whole_seconds(rem),
                        ..self.state
                    },
                    paused_remaining: Some(rem as u128),
                    end_at: None,
                    ..self
                },
                seq![TimerEvent::StateChanged { phase: Phase::Paused, count: self.state.session_count }],
            )
        } else {
            (self, seq![])
        }
    }

    /// `reset`: commit a pending configuration and start over from `Idle`
    /// with a zero counter.
    pub open spec fn reset_spec(self) -> (MachineView, Seq<TimerEvent>) {
        let c = self.committed_config();
        (
            MachineView {
                state: TimerState {
                    phase: Phase::Idle,
                    remaining_seconds: c.work_seconds,
                    session_count: 0,
                    current_duration_seconds: c.work_seconds,
                },
                config: c,
                pending_config: None,
                end_at: None,
                paused_remaining: None,
                completed_emitted: false,
                audio_emitted: false,
                loop_mode: self.loop_mode,
            },
            seq![TimerEvent::StateChanged { phase: Phase::Idle, count: 0 }],
        )
    }

    /// `skip`: while working, count the session as done and go to `Idle`,
    /// announcing `Completed` unless it was announced already.
    pub open spec fn skip_spec(self) -> (MachineView, Seq<TimerEvent>) {
        if self.state.phase == Phase::Work {
            let count = next_count(self.state.session_count);
            let idle = MachineView {
                state: TimerState { session_count: count, ..self.state },
                ..self
            }.into_idle();
            (
                idle,
                (if self.completed_emitted {
                    seq![]
                } else {
                    seq![TimerEvent::Completed { kind: SessionKind::Work }]
                }) + seq![TimerEvent::StateChanged { phase: Phase::Idle, count }],
            )
        } else {
            (self, seq![])
        }
    }

    /// The deadline is reached: `Tick(0)`, the announcements not made yet,
    /// the move to `Idle`, and in loop mode the start of the next session.
    pub open spec fn finish_spec(self, now: int) -> (MachineView, Seq<TimerEvent>) {
        let count = next_count(self.state.session_count);
        let idle = MachineView {
            state: TimerState { remaining_seconds: 0, session_count: count, ..self.state },
            ..self
        }.into_idle();
        let events = seq![TimerEvent::Tick(0)] + (if self.completed_emitted {
            seq![]
        } else {
            seq![TimerEvent::Completed { kind: SessionKind::Work }]
        }) + (if self.audio_emitted {
            seq![]
        } else {
            seq![TimerEvent::PlayKakonAudio]
        }) + seq![TimerEvent::StateChanged { phase: Phase::Idle, count }];
        if self.loop_mode {
            (idle.start_spec(now).0, events + idle.start_spec(now).1)
        } else {
            (idle, events)
        }
    }

    /// `poll`: the countdown as seen at `now`.
    pub open spec fn poll_spec(self, now: int) -> (MachineView, Seq<TimerEvent>) {
        if self.state.phase != Phase::Work {
            (self, seq![])
        } else {
            match self.end_at {
                None => (self, seq![]),
                Some(e) => {
                    let secs = whole_seconds(e - now);
                    let ticked = MachineView {
                        state: TimerState { remaining_seconds: secs, ..self.state },
                        ..self
                    };
                    if now >= e {
                        self.finish_spec(now)
                    } else if !self.audio_emitted && now >= e - kakon_audio_lead_ns() {
                        (
                            MachineView { audio_emitted: true, ..ticked },
                            if secs > 0 {
                                seq![TimerEvent::Tick(secs), TimerEvent::PlayKakonAudio]
                            } else {
                                seq![TimerEvent::PlayKakonAudio]
                            },
                        )
                    } else if !self.completed_emitted && now >= e - kakon_lead_ns() {
                        (
                            MachineView { completed_emitted: true, ..ticked },
                            seq![
                                TimerEvent::Tick(secs),
                                TimerEvent::Completed { kind: SessionKind::Work },
                            ],
                        )
                    } else {
                        (ticked, if secs == 0 { seq![] } else { seq![TimerEvent::Tick(secs)] })
                    }
                },
            }
        }
    }
}

/// The work-session state machine. Its abstract state is `MachineView`.
pub struct TimerMachine {
    state: TimerState,
    config: TimerConfig,
    pending_config: Option<TimerConfig>,
    end_at: Option<u128>,
    paused_remaining: Option<u128>,
    /// `Completed` was already announced in this session.
    completed_emitted: bool,
    /// `PlayKakonAudio` was already announced in this session.
    audio_emitted: bool,
    /// Start the next session by itself after a natural completion.
    loop_mode: bool,
}

impl View for TimerMachine {
    type V = MachineView;

    closed spec fn view(&self) -> MachineView {
        MachineView {
            state: self.state,
            config: self.config,
            pending_config: self.pending_config,
            end_at: self.end_at,
            paused_remaining: self.paused_remaining,
            completed_emitted: self.completed_emitted,
            audio_emitted: self.audio_emitted,
            loop_mode: self.loop_mode,
        }
    }
}

/// Whole seconds in `ns` nanoseconds, as a `u32` count.
fn whole_seconds_of(ns: u128) -> (r: u32)
    ensures
        r == whole_seconds(ns as int),
{
    ((ns / NANOS_PER_SEC) % 0x1_0000_0000) as u32
}

impl TimerMachine {
    /// A machine in `Idle` showing a full session of `config`.
    pub fn new(config: TimerConfig) -> (r: Self)
        ensures
            r@ == MachineView::initial(config),
            r@.inv(),
    {
        let work_seconds = config.work_seconds;
        TimerMachine {
            state: TimerState {
                phase: Phase::Idle,
                remaining_seconds: work_seconds,
                session_count: 0,
                current_duration_seconds: work_seconds,
            },
            config,
            pending_config: None,
            end_at: None,
            paused_remaining: None,
            completed_emitted: false,
            audio_emitted: false,
            loop_mode: false,
        }
    }

    /// Turn loop mode on or off; it takes effect at once.
    pub fn set_loop_mode(&mut self, enabled: bool)
        ensures
            old(self)@.inv() ==> final(self)@.inv(),
            final(self)@ == (MachineView { loop_mode: enabled, ..old(self)@ }),
    {
        self.loop_mode = enabled;
    }

    /// A snapshot of the current state.
    pub fn state(&self) -> (r: TimerState)
        ensures
            r == self@.state,
    {
        TimerState {
            phase: self.state.phase,
            remaining_seconds: self.state.remaining_seconds,
            session_count: self.state.session_count,
            current_duration_seconds: self.state.current_duration_seconds,
        }
    }

    /// Whether `start` may be called at `now` (its deadline fits).
    pub fn can_start(&self, now: u128) -> (r: bool)
        ensures
            r == self@.start_fits(now as int),
    {
        match self.state.phase {
            Phase::Idle => {
                let work_seconds = match self.pending_config {
                    Some(p) => p.work_seconds,
                    None => self.config.work_seconds,
                };
                now <= u128::MAX - (work_seconds as u128) * NANOS_PER_SEC
            },
            Phase::Paused => match self.paused_remaining {
                Some(rem) => now <= u128::MAX - rem,
                None => now <= u128::MAX - (self.state.remaining_seconds as u128) * NANOS_PER_SEC,
            },
            _ => true,
        }
    }

    /// Whether `poll` may be called at `now` (a session it restarts fits).
    pub fn can_poll(&self, now: u128) -> (r: bool)
        ensures
            r == self@.poll_fits(now as int),
    {
        match (self.state.phase, self.end_at) {
            (Phase::Work, Some(e)) => if now >= e && self.loop_mode {
                let work_seconds = match self.pending_config {
                    Some(p) => p.work_seconds,
                    None => self.config.work_seconds,
                };
                now <= u128::MAX - (work_seconds as u128) * NANOS_PER_SEC
            } else {
                true
            },
            _ => true,
        }
    }

    /// The deadline of the running session, if it runs and has one.
    pub fn end_at(&self) -> (r: Option<u128>)
        ensures
            r == self@.end_at,
    {
        self.end_at
    }

    /// Queue a configuration for the next `start` from `Idle` or `reset`;
    /// the running session is not touched.
    pub fn set_config(&mut self, c: TimerConfig)
        ensures
            old(self)@.inv() ==> final(self)@.inv(),
            final(self)@ == (MachineView { pending_config: Some(c), ..old(self)@ }),
    {
        self.pending_config = Some(c);
    }

    fn commit_pending_config(&mut self)
        ensures
            final(self)@ == (MachineView {
                config: old(self)@.committed_config(),
                pending_config: None,
                ..old(self)@
            }),
    {
        match self.pending_config {
            Some(p) => {
                self.config = p;
                self.pending_config = None;
            },
            None => {},
        }
    }

    /// `Idle` → `Work` (committing a pending configuration), `Paused` →
    /// `Work` keeping what was left; nothing while already working.
    pub fn start(&mut self, now: u128) -> (events: Vec<TimerEvent>)
        requires
            old(self)@.start_fits(now as int),
        ensures
            old(self)@.inv() ==> final(self)@.inv(),
            final(self)@ == old(self)@.start_spec(now as int).0,
            events@ == old(self)@.start_spec(now as int).1,
    {
        match self.state.phase {
            Phase::Idle => {
                self.commit_pending_config();
                self.completed_emitted = false;
                self.audio_emitted = false;
                let work_seconds = self.config.work_seconds;
                self.state.current_duration_seconds = work_seconds;
                self.state.remaining_seconds = work_seconds;
                self.state.phase = Phase::Work;
                self.end_at = if work_seconds > 0 {
                    Some(now + (work_seconds as u128) * NANOS_PER_SEC)
                } else {
                    None
                };
                let mut events = Vec::new();
                events.push(
                    TimerEvent::StateChanged { phase: Phase::Work, count: self.state.session_count },
                );
                events.push(TimerEvent::Tick(work_seconds));
                events
            },
            Phase::Paused => {
                let remaining: u128 = match self.paused_remaining {
                    Some(r) => r,
                    None => (self.state.remaining_seconds as u128) * NANOS_PER_SEC,
                };
                self.state.phase = Phase::Work;
                self.state.remaining_seconds = whole_seconds_of(remaining);
                self.end_at = Some(now + remaining);
                self.paused_remaining = None;
                let mut events = Vec::new();
                events.push(
                    TimerEvent::StateChanged { phase: Phase::Work, count: self.state.session_count },
                );
                events
            },
            _ => Vec::new(),
        }
    }

    /// While working: keep what is left until the deadline and go to `Paused`.
    pub fn pause(&mut self, now: u128) -> (events: Vec<TimerEvent>)
        ensures
            old(self)@.inv() ==> final(self)@.inv(),
            final(self)@ == old(self)@.pause_spec(now as int).0,
            events@ == old(self)@.pause_spec(now as int).1,
    {
        match self.state.phase {
            Phase::Work => {
                let remaining: u128 = match self.end_at {
                    Some(end) => if end >= now { end - now } else { 0 },
                    None => (self.state.remaining_seconds as u128) * NANOS_PER_SEC,
                };
                self.paused_remaining = Some(remaining);
                self.state.phase = Phase::Paused;
                self.state.remaining_seconds = whole_seconds_of(remaining);
                self.end_at = None;
                let mut events = Vec::new();
                events.push(
                    TimerEvent::StateChanged { phase: Phase::Paused, count: self.state.session_count },
                );
                events
            },
            _ => Vec::new(),
        }
    }

    /// Commit a pending configuration and go back to a fresh `Idle` with a
    /// zero session counter.
    pub fn reset(&mut self) -> (events: Vec<TimerEvent>)
        ensures
            old(self)@.inv() ==> final(self)@.inv(),
            final(self)@ == old(self)@.reset_spec().0,
            events@ == old(self)@.reset_spec().1,
    {
        self.commit_pending_config();
        let work_seconds = self.config.work_seconds;
        self.state = TimerState {
            phase: Phase::Idle,
            remaining_seconds: work_seconds,
            session_count: 0,
            current_duration_seconds: work_seconds,
        };
        self.end_at = None;
        self.paused_remaining = None;
        self.completed_emitted = false;
        self.audio_emitted = false;
        let mut events = Vec::new();
        events.push(TimerEvent::StateChanged { phase: Phase::Idle, count: 0 });
        events
    }

    /// While working: count the session as done and go to `Idle`, with
    /// `Completed` if it was not announced yet. Loop mode does not apply.
    pub fn skip(&mut self, _now: u128) -> (events: Vec<TimerEvent>)
        ensures
            old(self)@.inv() ==> final(self)@.inv(),
            final(self)@ == old(self)@.skip_spec().0,
            events@ == old(self)@.skip_spec().1,
    {
        match self.state.phase {
            Phase::Work => {
                self.state.session_count = self.state.session_count.saturating_add(1);
                let already_completed = self.completed_emitted;
                self.transition_to_idle();
                let mut events = Vec::new();
                if !already_completed {
                    events.push(TimerEvent::Completed { kind: SessionKind::Work });
                }
                events.push(
                    TimerEvent::StateChanged { phase: Phase::Idle, count: self.state.session_count },
                );
                proof {
                    let count = next_count(old(self)@.state.session_count);
                    assert(events@ =~= (if old(self)@.completed_emitted {
                        seq![]
                    } else {
                        seq![TimerEvent::Completed { kind: SessionKind::Work }]
                    }) + seq![TimerEvent::StateChanged { phase: Phase::Idle, count }]);
                }
                events
            },
            _ => Vec::new(),
        }
    }

    /// The countdown as seen at `now`, called periodically by the driver.
    ///
    /// In order: past the deadline, `Tick(0)`, the announcements not made
    /// yet and the move to `Idle` (and, in loop mode, the next session);
    /// within `KAKON_AUDIO_LEAD_MS` of it, the sound request once; within
    /// `KAKON_LEAD_MS` of it, `Completed` once, together with a `Tick` of the
    /// whole seconds left; otherwise a `Tick` of the whole seconds left, or
    /// nothing once less than a second is left.
    pub fn poll(&mut self, now: u128) -> (events: Vec<TimerEvent>)
        requires
            old(self)@.poll_fits(now as int),
        ensures
            old(self)@.inv() ==> final(self)@.inv(),
            final(self)@ == old(self)@.poll_spec(now as int).0,
            events@ == old(self)@.poll_spec(now as int).1,
    {
        match self.state.phase {
            Phase::Work => {
                let end_at = match self.end_at {
                    Some(e) => e,
                    None => return Vec::new(),
                };
                let lead = (KAKON_LEAD_MS as u128) * NANOS_PER_MILLI;
                let pre_completion = if end_at >= lead { end_at - lead } else { 0 };
                let audio_lead = (KAKON_AUDIO_LEAD_MS as u128) * NANOS_PER_MILLI;
                let pre_audio = if end_at >= audio_lead { end_at - audio_lead } else { 0 };

                if now >= end_at {
                    let ghost before = self@;
                    self.state.remaining_seconds = 0;
                    self.state.session_count = self.state.session_count.saturating_add(1);
                    let count = self.state.session_count;
                    let mut events = Vec::new();
                    events.push(TimerEvent::Tick(0));
                    if !self.completed_emitted {
                        events.push(TimerEvent::Completed { kind: SessionKind::Work });
                    }
                    if !self.audio_emitted {
                        events.push(TimerEvent::PlayKakonAudio);
                    }
                    self.transition_to_idle();
                    events.push(TimerEvent::StateChanged { phase: Phase::Idle, count });
                    self.completed_emitted = false;
                    self.audio_emitted = false;
                    proof {
                        assert(events@ =~= seq![TimerEvent::Tick(0)] + (if before.completed_emitted {
                            seq![]
                        } else {
                            seq![TimerEvent::Completed { kind: SessionKind::Work }]
                        }) + (if before.audio_emitted {
                            seq![]
                        } else {
                            seq![TimerEvent::PlayKakonAudio]
                        }) + seq![TimerEvent::StateChanged { phase: Phase::Idle, count }]);
                    }
                    if self.loop_mode {
                        let mut more = self.start(now);
                        events.append(&mut more);
                    }
                    events
                } else if !self.audio_emitted && now >= pre_audio {
                    self.audio_emitted = true;
                    let secs = whole_seconds_of(end_at - now);
                    self.state.remaining_seconds = secs;
                    let mut events = Vec::new();
                    if secs > 0 {
                        events.push(TimerEvent::Tick(secs));
                    }
                    events.push(TimerEvent::PlayKakonAudio);
                    events
                } else if !self.completed_emitted && now >= pre_completion {
                    let secs = whole_seconds_of(end_at - now);
                    self.state.remaining_seconds = secs;
                    self.completed_emitted = true;
                    let mut events = Vec::new();
                    events.push(TimerEvent::Tick(secs));
                    events.push(TimerEvent::Completed { kind: SessionKind::Work });
                    events
                } else {
                    let secs = whole_seconds_of(end_at - now);
                    self.state.remaining_seconds = secs;
                    if secs == 0 {
                        Vec::new()
                    } else {
                        let mut events = Vec::new();
                        events.push(TimerEvent::Tick(secs));
                        events
                    }
                }
            },
            _ => Vec::new(),
        }
    }

    fn transition_to_idle(&mut self)
        ensures
            final(self)@ == old(self)@.into_idle(),
    {
        let work_seconds = self.config.work_seconds;
        self.state.phase = Phase::Idle;
        self.state.remaining_seconds = work_seconds;
        self.state.current_duration_seconds = work_seconds;
        self.end_at = None;
        self.paused_remaining = None;
        self.completed_emitted = false;
        self.audio_emitted = false;
    }
}

} // verus!
