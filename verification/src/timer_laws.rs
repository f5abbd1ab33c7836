//! What holds of the timer machine across its operations, one call at a
//! time and over whole runs of calls.

use vstd::prelude::*;

use crate::timer_machine::{next_count, whole_seconds, MachineView, NANOS_PER_SEC};
use crate::timer_state::{Phase, SessionKind, TimerConfig, TimerEvent, TimerState};

verus! {

// ---------------------------------------------------------------------------
// Counting events
// ---------------------------------------------------------------------------

/// How many events of `s` satisfy `p`.
pub open spec fn count_matching(s: Seq<TimerEvent>, p: spec_fn(TimerEvent) -> bool) -> nat
    decreases s.len(),
{
    if s.len() == 0 {
        0
    } else {
        count_matching(s.drop_last(), p) + if p(s.last()) {
            1nat
        } else {
            0nat
        }
    }
}

/// How many times `e` occurs in `s`.
pub open spec fn count_of(s: Seq<TimerEvent>, e: TimerEvent) -> nat {
    count_matching(s, |x: TimerEvent| x == e)
}

/// An event reporting the move to `Idle`, whatever its counter.
pub open spec fn is_idle_report(x: TimerEvent) -> bool {
    x matches TimerEvent::StateChanged { phase: Phase::Idle, .. }
}

/// How many moves to `Idle` `s` reports.
pub open spec fn idle_reports(s: Seq<TimerEvent>) -> nat {
    count_matching(s, |x: TimerEvent| is_idle_report(x))
}

/// One for a set flag, zero otherwise.
pub open spec fn flag(b: bool) -> nat {
    if b {
        1
    } else {
        0
    }
}

/// `Completed` for a work session.
pub open spec fn completed() -> TimerEvent {
    TimerEvent::Completed { kind: SessionKind::Work }
}

broadcast proof fn lemma_count_push(s: Seq<TimerEvent>, x: TimerEvent, p: spec_fn(TimerEvent) -> bool)
    ensures
        #[trigger] count_matching(s.push(x), p) == count_matching(s, p) + if p(x) {
            1nat
        } else {
            0nat
        },
{
    assert(s.push(x).drop_last() =~= s);
}

broadcast proof fn lemma_count_concat(a: Seq<TimerEvent>, b: Seq<TimerEvent>, p: spec_fn(TimerEvent) -> bool)
    ensures
        #[trigger] count_matching(a + b, p) == count_matching(a, p) + count_matching(b, p),
    decreases b.len(),
{
    if b.len() == 0 {
        assert(a + b =~= a);
    } else {
        let b0 = b.drop_last();
        lemma_count_concat(a, b0, p);
        assert(a + b =~= (a + b0).push(b.last()));
        assert(b =~= b0.push(b.last()));
        lemma_count_push(a + b0, b.last(), p);
        lemma_count_push(b0, b.last(), p);
    }
}

/// The counts of a two-event sequence.
proof fn lemma_pair_counts(x: TimerEvent, y: TimerEvent, e: TimerEvent)
    ensures
        count_of(seq![x, y], e) == flag(x == e) + flag(y == e),
        idle_reports(seq![x, y]) == flag(is_idle_report(x)) + flag(is_idle_report(y)),
{
    broadcast use lemma_count_push;

    assert(seq![x, y] =~= Seq::<TimerEvent>::empty().push(x).push(y));
}

// ---------------------------------------------------------------------------
// Calls as data, and runs of calls
// ---------------------------------------------------------------------------

/// One call on the machine, with its instant where it takes one.
pub enum MachineOp {
    Start(u128),
    Pause(u128),
    Poll(u128),
    Skip,
    Reset,
    SetConfig(TimerConfig),
    SetLoopMode(bool),
}

/// The effect and the events of one call.
pub open spec fn step(m: MachineView, op: MachineOp) -> (MachineView, Seq<TimerEvent>) {
    match op {
        MachineOp::Start(t) => m.start_spec(t as int),
        MachineOp::Pause(t) => m.pause_spec(t as int),
        MachineOp::Poll(t) => m.poll_spec(t as int),
        MachineOp::Skip => m.skip_spec(),
        MachineOp::Reset => m.reset_spec(),
        MachineOp::SetConfig(c) => (MachineView { pending_config: Some(c), ..m }, seq![]),
        MachineOp::SetLoopMode(b) => (MachineView { loop_mode: b, ..m }, seq![]),
    }
}

/// The final state and all the events, in order, of a run of calls.
pub open spec fn run(m: MachineView, ops: Seq<MachineOp>) -> (MachineView, Seq<TimerEvent>)
    decreases ops.len(),
{
    if ops.len() == 0 {
        (m, seq![])
    } else {
        let first = step(m, ops[0]);
        let rest = run(first.0, ops.drop_first());
        (rest.0, first.1 + rest.1)
    }
}

/// The instant of a call, or `clock` for a call that takes none.
pub open spec fn op_instant(op: MachineOp, clock: int) -> int {
    match op {
        MachineOp::Start(t) => t as int,
        MachineOp::Pause(t) => t as int,
        MachineOp::Poll(t) => t as int,
        _ => clock,
    }
}

/// The call may be made: its precondition holds.
pub open spec fn step_allowed(m: MachineView, op: MachineOp) -> bool {
    match op {
        MachineOp::Start(t) => m.start_fits(t as int),
        MachineOp::Poll(t) => m.poll_fits(t as int),
        _ => true,
    }
}

/// A run whose calls may be made, at instants that never go back from
/// `clock`.
pub open spec fn timely(m: MachineView, clock: int, ops: Seq<MachineOp>) -> bool
    decreases ops.len(),
{
    ops.len() == 0 || {
        &&& clock <= op_instant(ops[0], clock)
        &&& step_allowed(m, ops[0])
        &&& timely(step(m, ops[0]).0, op_instant(ops[0], clock), ops.drop_first())
    }
}

/// A call that keeps a session going (it never ends one by itself unless
/// the deadline is reached): poll, pause, start, and the two settings.
pub open spec fn within_session(op: MachineOp) -> bool {
    ||| op is Poll
    ||| op is Pause
    ||| op is Start
    ||| op is SetConfig
    ||| op is SetLoopMode
}

/// A call that does nothing to a paused machine but change its settings.
pub open spec fn while_paused(op: MachineOp) -> bool {
    ||| op is Poll
    ||| op is Pause
    ||| op is Skip
    ||| op is SetConfig
    ||| op is SetLoopMode
}

proof fn lemma_run_concat(m: MachineView, a: Seq<MachineOp>, b: Seq<MachineOp>)
    ensures
        run(m, a + b) == (run(run(m, a).0, b).0, run(m, a).1 + run(run(m, a).0, b).1),
    decreases a.len(),
{
    if a.len() == 0 {
        assert(a + b =~= b);
    } else {
        let m1 = step(m, a[0]).0;
        lemma_run_concat(m1, a.drop_first(), b);
        assert((a + b).drop_first() =~= a.drop_first() + b);
        assert((a + b)[0] == a[0]);
        let e1 = step(m, a[0]).1;
        let ra = run(m1, a.drop_first());
        let rb = run(ra.0, b);
        assert(e1 + (ra.1 + rb.1) =~= (e1 + ra.1) + rb.1);
    }
}

proof fn lemma_run_single(m: MachineView, op: MachineOp)
    ensures
        run(m, seq![op]) == (step(m, op).0, step(m, op).1),
{
    reveal_with_fuel(run, 2);
    assert(seq![op].drop_first() =~= Seq::<MachineOp>::empty());
    assert(step(m, op).1 + Seq::<TimerEvent>::empty() =~= step(m, op).1);
}

// ---------------------------------------------------------------------------
// What each call announces
// ---------------------------------------------------------------------------

/// A session is running or paused.
pub open spec fn in_session(m: MachineView) -> bool {
    m.state.phase == Phase::Work || m.state.phase == Phase::Paused
}

/// The finishing poll: exactly the announcements not made yet, and the
/// move to `Idle` (the restart of loop mode adds no announcement).
proof fn lemma_finish_counts(m: MachineView, now: int)
    requires
        m.inv(),
        m.state.phase == Phase::Work,
        m.end_at is Some,
        now >= m.end_at->0,
    ensures
        count_of(m.poll_spec(now).1, completed()) + flag(m.completed_emitted) == 1,
        count_of(m.poll_spec(now).1, TimerEvent::PlayKakonAudio) + flag(m.audio_emitted) == 1,
        idle_reports(m.poll_spec(now).1) >= 1,
{
    broadcast use {lemma_count_push, lemma_count_concat};

    let count = next_count(m.state.session_count);
    let idle = MachineView {
        state: TimerState { remaining_seconds: 0, session_count: count, ..m.state },
        ..m
    }.into_idle();
    if m.loop_mode {
        let more = idle.start_spec(now).1;
        lemma_pair_counts(more[0], more[1], completed());
        lemma_pair_counts(more[0], more[1], TimerEvent::PlayKakonAudio);
        assert(more =~= seq![more[0], more[1]]);
        assert(count_of(more, completed()) == 0);
        assert(count_of(more, TimerEvent::PlayKakonAudio) == 0);
    }
}

/// A poll that does not reach the deadline: no move to `Idle`, the phase
/// stays, and each announcement it makes is the one not made yet, after
/// which it counts as made.
proof fn lemma_poll_before_deadline_counts(m: MachineView, now: int)
    requires
        m.inv(),
        !(m.state.phase == Phase::Work && m.end_at is Some && now >= m.end_at->0),
    ensures
        ({
            let (after, evs) = m.poll_spec(now);
            &&& idle_reports(evs) == 0
            &&& after.state.phase == m.state.phase
            &&& after.inv()
            &&& count_of(evs, completed()) + flag(m.completed_emitted) == flag(
                after.completed_emitted,
            )
            &&& count_of(evs, TimerEvent::PlayKakonAudio) + flag(m.audio_emitted) == flag(
                after.audio_emitted,
            )
            &&& after.state.session_count == m.state.session_count
            &&& after.config == m.config
            &&& after.pending_config == m.pending_config
        }),
{
    broadcast use {lemma_count_push, lemma_count_concat};

    if m.state.phase == Phase::Work && m.end_at is Some {
        let e = m.end_at->0;
        let secs = whole_seconds(e - now);
        lemma_pair_counts(TimerEvent::Tick(secs), TimerEvent::PlayKakonAudio, completed());
        lemma_pair_counts(
            TimerEvent::Tick(secs),
            TimerEvent::PlayKakonAudio,
            TimerEvent::PlayKakonAudio,
        );
        lemma_pair_counts(TimerEvent::Tick(secs), completed(), completed());
        lemma_pair_counts(TimerEvent::Tick(secs), completed(), TimerEvent::PlayKakonAudio);
    }
}

/// One call within a session that does not report a move to `Idle`
/// keeps the session going, and its announcements are exactly the ones
/// that become made.
proof fn lemma_step_within_session(m: MachineView, op: MachineOp)
    requires
        m.inv(),
        in_session(m),
        within_session(op),
        idle_reports(step(m, op).1) == 0,
    ensures
        ({
            let (after, evs) = step(m, op);
            &&& after.inv()
            &&& in_session(after)
            &&& count_of(evs, completed()) + flag(m.completed_emitted) == flag(
                after.completed_emitted,
            )
            &&& count_of(evs, TimerEvent::PlayKakonAudio) + flag(m.audio_emitted) == flag(
                after.audio_emitted,
            )
        }),
{
    broadcast use {lemma_count_push, lemma_count_concat};

    match op {
        MachineOp::Poll(t) => {
            if m.state.phase == Phase::Work && m.end_at is Some && t >= m.end_at->0 {
                lemma_finish_counts(m, t as int);
            } else {
                lemma_poll_before_deadline_counts(m, t as int);
            }
        },
        _ => {},
    }
}

/// A run of such calls, none reporting a move to `Idle`, keeps the session
/// going, and all its announcements together are exactly the ones that
/// become made: never one twice.
proof fn lemma_run_within_session(m: MachineView, ops: Seq<MachineOp>)
    requires
        m.inv(),
        in_session(m),
        forall|i: int| 0 <= i < ops.len() ==> within_session(#[trigger] ops[i]),
        idle_reports(run(m, ops).1) == 0,
    ensures
        ({
            let (after, evs) = run(m, ops);
            &&& after.inv()
            &&& in_session(after)
            &&& count_of(evs, completed()) + flag(m.completed_emitted) == flag(
                after.completed_emitted,
            )
            &&& count_of(evs, TimerEvent::PlayKakonAudio) + flag(m.audio_emitted) == flag(
                after.audio_emitted,
            )
        }),
    decreases ops.len(),
{
    broadcast use {lemma_count_push, lemma_count_concat};

    if ops.len() > 0 {
        let (m1, e1) = step(m, ops[0]);
        let rest = ops.drop_first();
        assert(within_session(ops[0]));
        assert(idle_reports(e1) == 0);
        lemma_step_within_session(m, ops[0]);
        assert forall|i: int| 0 <= i < rest.len() implies within_session(#[trigger] rest[i]) by {
            assert(rest[i] == ops[i + 1]);
        }
        lemma_run_within_session(m1, rest);
    }
}

/// The call that ends a session (a poll at the deadline or a skip, the
/// first to report the move to `Idle`) makes the announcements not made
/// yet; a skip never requests the sound.
proof fn lemma_session_end_counts(m: MachineView, last: MachineOp)
    requires
        m.inv(),
        in_session(m),
        last is Poll || last is Skip,
        idle_reports(step(m, last).1) > 0,
    ensures
        count_of(step(m, last).1, completed()) + flag(m.completed_emitted) == 1,
        last is Poll ==> count_of(step(m, last).1, TimerEvent::PlayKakonAudio) + flag(
            m.audio_emitted,
        ) == 1,
        last is Skip ==> count_of(step(m, last).1, TimerEvent::PlayKakonAudio) == 0,
{
    broadcast use {lemma_count_push, lemma_count_concat};

    match last {
        MachineOp::Poll(t) => {
            if m.state.phase == Phase::Work && m.end_at is Some && t >= m.end_at->0 {
                lemma_finish_counts(m, t as int);
            } else {
                lemma_poll_before_deadline_counts(m, t as int);
            }
        },
        _ => {},
    }
}

// ---------------------------------------------------------------------------
// Laws of single calls
// ---------------------------------------------------------------------------

/// Every call keeps a well-formed machine well-formed: the machine never
/// leaves `Idle`, `Work` and `Paused`, an idle machine has no deadline and
/// shows a full session, and a paused one shows the time it froze.
pub proof fn law_operations_keep_wf(m: MachineView, op: MachineOp)
    requires
        m.inv(),
    ensures
        step(m, op).0.inv(),
{
}

/// Any run of calls keeps a well-formed machine well-formed; with
/// `law_fresh_machine`, every machine reached from a new one is.
pub proof fn law_runs_keep_wf(m: MachineView, ops: Seq<MachineOp>)
    requires
        m.inv(),
    ensures
        run(m, ops).0.inv(),
    decreases ops.len(),
{
    if ops.len() > 0 {
        law_runs_keep_wf(step(m, ops[0]).0, ops.drop_first());
    }
}

/// A new machine shows a full session in `Idle`, with loop mode off and
/// nothing pending; polling, pausing and skipping it do nothing, and
/// starting it reports the move to `Work` and a full countdown.
pub proof fn law_fresh_machine(c: TimerConfig, t: int)
    ensures
        ({
            let m = MachineView::initial(c);
            &&& m.inv()
            &&& m.state == TimerState {
                phase: Phase::Idle,
                remaining_seconds: c.work_seconds,
                session_count: 0,
                current_duration_seconds: c.work_seconds,
            }
            &&& !m.loop_mode
            &&& m.pending_config is None
            &&& m.end_at is None
            &&& m.poll_spec(t) == (m, Seq::<TimerEvent>::empty())
            &&& m.pause_spec(t) == (m, Seq::<TimerEvent>::empty())
            &&& m.skip_spec() == (m, Seq::<TimerEvent>::empty())
            &&& m.start_spec(t).1 == seq![
                TimerEvent::StateChanged { phase: Phase::Work, count: 0 },
                TimerEvent::Tick(c.work_seconds),
            ]
            &&& m.start_spec(t).0.state.phase == Phase::Work
        }),
{
}

/// Starting a running session does nothing at all, at any instant.
pub proof fn law_start_while_working_does_nothing(m: MachineView, now: int)
    requires
        m.state.phase == Phase::Work,
    ensures
        m.start_spec(now) == (m, Seq::<TimerEvent>::empty()),
{
}

/// Pausing freezes what is left, and no call made while paused changes it
/// (polls, pauses and skips do nothing; settings only queue). Resuming then
/// reports the move to `Work` and shows the same countdown, the new
/// deadline lies exactly the frozen time after the resume (time spent
/// paused does not count), a queued configuration stays queued, and the
/// session's counter and announcements are those from before the pause.
pub proof fn law_resume_after_paused_calls(m: MachineView, t1: int, ops: Seq<MachineOp>, t2: int)
    requires
        m.inv(),
        m.state.phase == Phase::Work,
        0 <= t1,
        forall|i: int| 0 <= i < ops.len() ==> while_paused(#[trigger] ops[i]),
    ensures
        ({
            let (paused, pause_events) = m.pause_spec(t1);
            let (waited, waiting_events) = run(paused, ops);
            let (resumed, events) = waited.start_spec(t2);
            let frozen: int = match m.end_at {
                Some(e) => if e >= t1 {
                    e - t1
                } else {
                    0
                },
                None => m.state.remaining_seconds * NANOS_PER_SEC,
            };
            &&& pause_events == seq![
                TimerEvent::StateChanged { phase: Phase::Paused, count: m.state.session_count },
            ]
            &&& waiting_events.len() == 0
            &&& waited.state == paused.state
            &&& events == seq![
                TimerEvent::StateChanged { phase: Phase::Work, count: m.state.session_count },
            ]
            &&& resumed.state == TimerState { phase: Phase::Work, ..paused.state }
            &&& resumed.state.remaining_seconds == whole_seconds(frozen)
            &&& resumed.state.current_duration_seconds == m.state.current_duration_seconds
            &&& resumed.end_at == Some((t2 + frozen) as u128)
            &&& resumed.config == m.config
            &&& resumed.pending_config == waited.pending_config
            &&& resumed.completed_emitted == m.completed_emitted
            &&& resumed.audio_emitted == m.audio_emitted
        }),
{
    let paused = m.pause_spec(t1).0;
    lemma_paused_calls(paused, ops);
}

/// Calls that do nothing to a paused machine leave everything but the
/// queued configuration and loop mode as it was, and report nothing.
proof fn lemma_paused_calls(p: MachineView, ops: Seq<MachineOp>)
    requires
        p.state.phase == Phase::Paused,
        forall|i: int| 0 <= i < ops.len() ==> while_paused(#[trigger] ops[i]),
    ensures
        run(p, ops).1.len() == 0,
        run(p, ops).0 == (MachineView {
            pending_config: run(p, ops).0.pending_config,
            loop_mode: run(p, ops).0.loop_mode,
            ..p
        }),
    decreases ops.len(),
{
    if ops.len() > 0 {
        let rest = ops.drop_first();
        assert(while_paused(ops[0]));
        assert forall|i: int| 0 <= i < rest.len() implies while_paused(#[trigger] rest[i]) by {
            assert(rest[i] == ops[i + 1]);
        }
        lemma_paused_calls(step(p, ops[0]).0, rest);
    }
}

/// A poll at or past the deadline ends the session: `Tick(0)` first, the
/// counter goes up by one, `Completed` and the sound come exactly when
/// they were not announced earlier in the session (the sound before the
/// move to `Idle`), the move to `Idle` is reported, and the next session
/// starts right away exactly in loop mode.
pub proof fn law_deadline_ends_session(m: MachineView, now: int)
    requires
        m.inv(),
        m.state.phase == Phase::Work,
        m.end_at is Some,
        now >= m.end_at->0,
    ensures
        ({
            let (after, events) = m.poll_spec(now);
            let count = next_count(m.state.session_count);
            let idle = TimerEvent::StateChanged { phase: Phase::Idle, count };
            &&& events[0] == TimerEvent::Tick(0)
            &&& after.state.session_count == count
            &&& events.contains(idle)
            &&& count_of(events, completed()) == 1 - flag(m.completed_emitted)
            &&& count_of(events, TimerEvent::PlayKakonAudio) == 1 - flag(m.audio_emitted)
            &&& (!m.audio_emitted ==> exists|i: int, j: int|
                0 <= i < j < events.len() && events[i] == TimerEvent::PlayKakonAudio
                    && events[j] == idle)
            &&& (after.state.phase == Phase::Work <==> m.loop_mode)
            &&& (!m.loop_mode ==> after.state.phase == Phase::Idle)
            &&& (m.loop_mode ==> after.state.current_duration_seconds
                == m.committed_config().work_seconds)
        }),
{
    lemma_finish_counts(m, now);
    let count = next_count(m.state.session_count);
    let idle = TimerEvent::StateChanged { phase: Phase::Idle, count };
    let cs = if m.completed_emitted {
        seq![]
    } else {
        seq![completed()]
    };
    let aus = if m.audio_emitted {
        seq![]
    } else {
        seq![TimerEvent::PlayKakonAudio]
    };
    let evs = seq![TimerEvent::Tick(0)] + cs + aus + seq![idle];
    let k = evs.len() - 1;
    assert(evs[k] == idle);
    let p = m.poll_spec(now).1;
    assert(p.subrange(0, evs.len() as int) =~= evs);
    assert(p[k] == idle);
    if !m.audio_emitted {
        let i: int = 1 + cs.len() as int;
        assert(evs[i] == TimerEvent::PlayKakonAudio);
        assert(p[i] == TimerEvent::PlayKakonAudio);
    }
}

/// A zero countdown belongs to the deadline: the poll that reaches it
/// (outside loop mode) reports `Tick(0)` exactly once, first; before it,
/// only the poll that announces `Completed` (with less than a second left)
/// reports one, and never more than once.
pub proof fn law_tick_zero_at_deadline(m: MachineView, now: int)
    requires
        m.inv(),
    ensures
        !(m.state.phase == Phase::Work && m.end_at is Some && now >= m.end_at->0) ==> count_of(
            m.poll_spec(now).1,
            TimerEvent::Tick(0),
        ) <= count_of(m.poll_spec(now).1, completed()),
        !(m.state.phase == Phase::Work && m.end_at is Some && now >= m.end_at->0) ==> count_of(
            m.poll_spec(now).1,
            TimerEvent::Tick(0),
        ) <= 1,
        m.state.phase == Phase::Work && m.end_at is Some && now >= m.end_at->0 && !m.loop_mode
            ==> count_of(m.poll_spec(now).1, TimerEvent::Tick(0)) == 1
            && m.poll_spec(now).1[0] == TimerEvent::Tick(0),
{
    broadcast use {lemma_count_push, lemma_count_concat};

    let z = TimerEvent::Tick(0);
    if m.state.phase == Phase::Work && m.end_at is Some {
        let e = m.end_at->0;
        let secs = whole_seconds(e - now);
        if now < e {
            lemma_pair_counts(TimerEvent::Tick(secs), TimerEvent::PlayKakonAudio, z);
            lemma_pair_counts(TimerEvent::Tick(secs), completed(), z);
            lemma_pair_counts(TimerEvent::Tick(secs), completed(), completed());
            lemma_pair_counts(TimerEvent::Tick(secs), TimerEvent::PlayKakonAudio, completed());
        }
    }
}

/// A skip ends the running session at once: the counter goes up by one,
/// `Completed` comes exactly when it was not announced yet, the sound is
/// never requested, and the machine stays in `Idle` even in loop mode.
pub proof fn law_skip_ends_session_without_restart(m: MachineView)
    requires
        m.inv(),
        m.state.phase == Phase::Work,
    ensures
        ({
            let (after, events) = m.skip_spec();
            let count = next_count(m.state.session_count);
            &&& after.state.phase == Phase::Idle
            &&& after.state.session_count == count
            &&& after.inv()
            &&& events.last() == TimerEvent::StateChanged { phase: Phase::Idle, count }
            &&& count_of(events, completed()) == 1 - flag(m.completed_emitted)
            &&& count_of(events, TimerEvent::PlayKakonAudio) == 0
        }),
{
    broadcast use {lemma_count_push, lemma_count_concat};

}

// ---------------------------------------------------------------------------
// Laws of whole sessions
// ---------------------------------------------------------------------------

/// Over a whole session — started from `Idle`, then any polls, pauses,
/// resumes and setting changes, up to the first poll or skip that reports
/// the move to `Idle` — `Completed` is announced exactly once, however the
/// session is paused and resumed and whatever the instants.
pub proof fn law_completed_exactly_once_per_session(
    m: MachineView,
    t0: u128,
    middle: Seq<MachineOp>,
    last: MachineOp,
)
    requires
        m.inv(),
        m.state.phase == Phase::Idle,
        forall|i: int| 0 <= i < middle.len() ==> within_session(#[trigger] middle[i]),
        last is Poll || last is Skip,
        idle_reports(run(m, seq![MachineOp::Start(t0)] + middle).1) == 0,
        idle_reports(run(m, seq![MachineOp::Start(t0)] + middle + seq![last]).1) > 0,
    ensures
        count_of(run(m, seq![MachineOp::Start(t0)] + middle + seq![last]).1, completed()) == 1,
{
    lemma_session_counts(m, t0, middle, last);
}

/// Over a whole session ended by the deadline — started from `Idle`, then
/// any polls, pauses, resumes and setting changes, up to the poll that
/// reports the move to `Idle` — the sound is requested exactly once, in
/// that poll's result or an earlier one.
pub proof fn law_sound_exactly_once_per_session(
    m: MachineView,
    t0: u128,
    middle: Seq<MachineOp>,
    t_end: u128,
)
    requires
        m.inv(),
        m.state.phase == Phase::Idle,
        forall|i: int| 0 <= i < middle.len() ==> within_session(#[trigger] middle[i]),
        idle_reports(run(m, seq![MachineOp::Start(t0)] + middle).1) == 0,
        idle_reports(
            run(m, seq![MachineOp::Start(t0)] + middle + seq![MachineOp::Poll(t_end)]).1,
        ) > 0,
    ensures
        count_of(
            run(m, seq![MachineOp::Start(t0)] + middle + seq![MachineOp::Poll(t_end)]).1,
            TimerEvent::PlayKakonAudio,
        ) == 1,
{
    lemma_session_counts(m, t0, middle, MachineOp::Poll(t_end));
}

/// A session ended by `reset` instead announces `Completed` at most once,
/// and requests the sound at most once.
pub proof fn law_at_most_once_until_reset(m: MachineView, t0: u128, middle: Seq<MachineOp>)
    requires
        m.inv(),
        m.state.phase == Phase::Idle,
        forall|i: int| 0 <= i < middle.len() ==> within_session(#[trigger] middle[i]),
        idle_reports(run(m, seq![MachineOp::Start(t0)] + middle).1) == 0,
    ensures
        count_of(run(m, seq![MachineOp::Start(t0)] + middle + seq![MachineOp::Reset]).1, completed())
            <= 1,
        count_of(
            run(m, seq![MachineOp::Start(t0)] + middle + seq![MachineOp::Reset]).1,
            TimerEvent::PlayKakonAudio,
        ) <= 1,
{
    broadcast use {lemma_count_push, lemma_count_concat};

    let first = seq![MachineOp::Start(t0)];
    let (s0, _) = lemma_session_start(m, t0, middle);
    lemma_run_concat(m, first + middle, seq![MachineOp::Reset]);
    lemma_run_single(s0, MachineOp::Reset);
}

/// The start and the middle of a session: after them the session is still
/// going, and what was announced is what is recorded as made.
proof fn lemma_session_start(m: MachineView, t0: u128, middle: Seq<MachineOp>) -> (r: (
    MachineView,
    Seq<TimerEvent>,
))
    requires
        m.inv(),
        m.state.phase == Phase::Idle,
        forall|i: int| 0 <= i < middle.len() ==> within_session(#[trigger] middle[i]),
        idle_reports(run(m, seq![MachineOp::Start(t0)] + middle).1) == 0,
    ensures
        r == run(m, seq![MachineOp::Start(t0)] + middle),
        r.0.inv(),
        in_session(r.0),
        count_of(r.1, completed()) == flag(r.0.completed_emitted),
        count_of(r.1, TimerEvent::PlayKakonAudio) == flag(r.0.audio_emitted),
{
    broadcast use {lemma_count_push, lemma_count_concat};

    let first = seq![MachineOp::Start(t0)];
    lemma_run_concat(m, first, middle);
    lemma_run_single(m, MachineOp::Start(t0));
    let (m1, e1) = m.start_spec(t0 as int);
    lemma_pair_counts(e1[0], e1[1], completed());
    lemma_pair_counts(e1[0], e1[1], TimerEvent::PlayKakonAudio);
    assert(e1 =~= seq![e1[0], e1[1]]);
    lemma_run_within_session(m1, middle);
    run(m, first + middle)
}

proof fn lemma_session_counts(m: MachineView, t0: u128, middle: Seq<MachineOp>, last: MachineOp)
    requires
        m.inv(),
        m.state.phase == Phase::Idle,
        forall|i: int| 0 <= i < middle.len() ==> within_session(#[trigger] middle[i]),
        last is Poll || last is Skip,
        idle_reports(run(m, seq![MachineOp::Start(t0)] + middle).1) == 0,
        idle_reports(run(m, seq![MachineOp::Start(t0)] + middle + seq![last]).1) > 0,
    ensures
        count_of(run(m, seq![MachineOp::Start(t0)] + middle + seq![last]).1, completed()) == 1,
        last is Poll ==> count_of(
            run(m, seq![MachineOp::Start(t0)] + middle + seq![last]).1,
            TimerEvent::PlayKakonAudio,
        ) == 1,
{
    broadcast use {lemma_count_push, lemma_count_concat};

    let first = seq![MachineOp::Start(t0)];
    let (s0, _) = lemma_session_start(m, t0, middle);
    lemma_run_concat(m, first + middle, seq![last]);
    lemma_run_single(s0, last);
    lemma_session_end_counts(s0, last);
}

// ---------------------------------------------------------------------------
// The countdown stays within the session
// ---------------------------------------------------------------------------

/// What the countdown is measured against: what is shown never exceeds the
/// session length, a running deadline lies at most one session after
/// `clock`, and a frozen remainder is at most one session.
pub open spec fn bounded_at(m: MachineView, clock: int) -> bool {
    &&& m.state.remaining_seconds <= m.state.current_duration_seconds
    &&& (m.state.phase == Phase::Work && m.end_at is Some ==> m.end_at->0 <= clock
        + m.state.current_duration_seconds * NANOS_PER_SEC)
    &&& (m.state.phase == Phase::Paused && m.paused_remaining is Some ==> m.paused_remaining->0
        <= m.state.current_duration_seconds * NANOS_PER_SEC)
}

proof fn lemma_whole_seconds_bounded(x: int, d: int)
    requires
        0 <= x <= d * NANOS_PER_SEC,
        0 <= d <= u32::MAX,
    ensures
        whole_seconds(x) <= d,
{
    let n = NANOS_PER_SEC as int;
    assert(x / n <= d) by (nonlinear_arith)
        requires
            0 <= x <= d * n,
            n > 0,
    ;
    assert(0 <= x / n) by (nonlinear_arith)
        requires
            0 <= x,
            n > 0,
    ;
    vstd::arithmetic::div_mod::lemma_small_mod((x / n) as nat, 0x1_0000_0000);
}

proof fn lemma_step_bounded(m: MachineView, clock: int, op: MachineOp)
    requires
        0 <= clock,
        bounded_at(m, clock),
        clock <= op_instant(op, clock),
        step_allowed(m, op),
    ensures
        bounded_at(step(m, op).0, op_instant(op, clock)),
{
    let d = m.state.current_duration_seconds as int;
    match op {
        MachineOp::Start(t) => {
            if m.state.phase == Phase::Paused {
                let rem: int = match m.paused_remaining {
                    Some(r) => r as int,
                    None => m.state.remaining_seconds * NANOS_PER_SEC,
                };
                assert(rem <= d * NANOS_PER_SEC) by (nonlinear_arith)
                    requires
                        m.paused_remaining is None ==> rem == m.state.remaining_seconds
                            * NANOS_PER_SEC,
                        m.paused_remaining is Some ==> rem <= d * NANOS_PER_SEC,
                        m.state.remaining_seconds <= d,
                ;
                lemma_whole_seconds_bounded(rem, d);
            }
        },
        MachineOp::Pause(t) => {
            if m.state.phase == Phase::Work {
                let rem: int = match m.end_at {
                    Some(e) => if e >= t {
                        e - t
                    } else {
                        0
                    },
                    None => m.state.remaining_seconds * NANOS_PER_SEC,
                };
                assert(rem <= d * NANOS_PER_SEC) by (nonlinear_arith)
                    requires
                        m.end_at is None ==> rem == m.state.remaining_seconds * NANOS_PER_SEC,
                        m.end_at is Some ==> rem <= d * NANOS_PER_SEC,
                        m.state.remaining_seconds <= d,
                ;
                lemma_whole_seconds_bounded(rem, d);
            }
        },
        MachineOp::Poll(t) => {
            if m.state.phase == Phase::Work && m.end_at is Some {
                let e = m.end_at->0;
                if t < e {
                    lemma_whole_seconds_bounded(e - t, d);
                }
            }
        },
        _ => {},
    }
}

proof fn lemma_run_bounded(m: MachineView, clock: int, ops: Seq<MachineOp>)
    requires
        0 <= clock,
        bounded_at(m, clock),
        timely(m, clock, ops),
    ensures
        run(m, ops).0.state.remaining_seconds <= run(m, ops).0.state.current_duration_seconds,
    decreases ops.len(),
{
    if ops.len() > 0 {
        lemma_step_bounded(m, clock, ops[0]);
        lemma_run_bounded(step(m, ops[0]).0, op_instant(ops[0], clock), ops.drop_first());
    }
}

/// Whatever calls are made on a new machine, at instants that never go
/// back, the seconds shown never exceed the length of the session shown.
pub proof fn law_shown_never_exceeds_length(c: TimerConfig, ops: Seq<MachineOp>)
    requires
        timely(MachineView::initial(c), 0, ops),
    ensures
        run(MachineView::initial(c), ops).0.state.remaining_seconds <= run(
            MachineView::initial(c),
            ops,
        ).0.state.current_duration_seconds,
{
    lemma_run_bounded(MachineView::initial(c), 0, ops);
}

// ---------------------------------------------------------------------------
// Settings, counter, countdown, reset
// ---------------------------------------------------------------------------

/// A new configuration waits for the next session: queuing it changes
/// nothing that is shown, the running session keeps its length through
/// polls before the deadline, pauses and resumes, and the next `start` from
/// `Idle` or a `reset` puts it in force.
pub proof fn law_config_waits_for_next_session(m: MachineView, c: TimerConfig, now: int)
    requires
        m.inv(),
    ensures
        ({
            let queued = MachineView { pending_config: Some(c), ..m };
            &&& queued.state == m.state
            &&& queued.config == m.config
            &&& queued.pause_spec(now).0.config == m.config
            &&& queued.pause_spec(now).0.state.current_duration_seconds
                == m.state.current_duration_seconds
            &&& (m.state.phase == Phase::Paused ==> queued.start_spec(now).0.config == m.config)
            &&& (m.state.phase == Phase::Paused ==> queued.start_spec(now).0.state.current_duration_seconds
                == m.state.current_duration_seconds)
            &&& (m.state.phase == Phase::Work && m.end_at is Some && now < m.end_at->0 ==> {
                &&& queued.poll_spec(now).0.config == m.config
                &&& queued.poll_spec(now).0.state.current_duration_seconds
                    == m.state.current_duration_seconds
            })
            &&& (m.state.phase == Phase::Idle ==> {
                &&& queued.start_spec(now).0.config == c
                &&& queued.start_spec(now).0.state.current_duration_seconds == c.work_seconds
                &&& queued.start_spec(now).0.state.remaining_seconds == c.work_seconds
            })
            &&& queued.reset_spec().0.config == c
            &&& queued.reset_spec().0.state.remaining_seconds == c.work_seconds
            &&& queued.reset_spec().0.state.current_duration_seconds == c.work_seconds
        }),
{
}

/// The session counter only moves when a session ends (by one, saturating)
/// or on `reset` (to zero); starting, pausing, resuming and queuing a
/// configuration leave it alone.
pub proof fn law_session_counter(m: MachineView, now: int)
    requires
        m.inv(),
    ensures
        m.start_spec(now).0.state.session_count == m.state.session_count,
        m.pause_spec(now).0.state.session_count == m.state.session_count,
        m.reset_spec().0.state.session_count == 0,
        m.state.phase == Phase::Work ==> m.skip_spec().0.state.session_count == next_count(
            m.state.session_count,
        ),
        m.state.phase != Phase::Work ==> m.skip_spec().0.state.session_count
            == m.state.session_count,
        m.poll_spec(now).0.state.session_count == (if m.state.phase == Phase::Work
            && m.end_at is Some && now >= m.end_at->0 {
            next_count(m.state.session_count)
        } else {
            m.state.session_count
        }),
{
}

/// While a session runs, the countdown shown never goes up as time goes on
/// (for sessions shorter than the `u32` range of seconds).
pub proof fn law_countdown_never_increases(m: MachineView, t1: int, t2: int)
    requires
        m.inv(),
        m.state.phase == Phase::Work,
        m.end_at is Some,
        0 <= t1 <= t2 < m.end_at->0,
        m.end_at->0 - t1 < 0x1_0000_0000 * NANOS_PER_SEC,
    ensures
        m.poll_spec(t1).0.state.phase == Phase::Work,
        m.poll_spec(t1).0.end_at == m.end_at,
        m.poll_spec(t1).0.poll_spec(t2).0.state.remaining_seconds
            <= m.poll_spec(t1).0.state.remaining_seconds,
        m.poll_spec(t1).0.state.remaining_seconds == whole_seconds(m.end_at->0 - t1),
{
    let e = m.end_at->0;
    let n = NANOS_PER_SEC as int;
    let a = e - t2;
    let b = e - t1;
    assert(a <= b);
    vstd::arithmetic::div_mod::lemma_div_is_ordered(a, b, n);
    assert(0 <= a / n);
    assert(b / n < 0x1_0000_0000) by (nonlinear_arith)
        requires
            0 <= b < 0x1_0000_0000 * n,
            n > 0,
    ;
    vstd::arithmetic::div_mod::lemma_small_mod((a / n) as nat, 0x1_0000_0000);
    vstd::arithmetic::div_mod::lemma_small_mod((b / n) as nat, 0x1_0000_0000);
}

/// A reset leaves the machine exactly as a new one built with the
/// configuration in force (a pending one committed), loop mode aside.
pub proof fn law_reset_is_fresh_start(m: MachineView)
    ensures
        m.reset_spec().0 == (MachineView {
            loop_mode: m.loop_mode,
            ..MachineView::initial(m.committed_config())
        }),
        m.reset_spec().0.inv(),
{
}

// ---------------------------------------------------------------------------
// The announcements' timing, and what state changes report
// ---------------------------------------------------------------------------

/// `Completed` is announced only in the last 1.2 s before the deadline, and
/// the sound request only in the last 0.1 s: a poll earlier than that makes
/// neither. Within its window, a poll announces what was not announced yet
/// (the sound's window coming first where the two overlap).
pub proof fn law_announcements_keep_their_lead(m: MachineView, e: u128, now: int)
    requires
        m.inv(),
        m.state.phase == Phase::Work,
        m.end_at == Some(e),
        now < e,
    ensures
        count_of(m.poll_spec(now).1, completed()) > 0 ==> now >= e - 1_200_000_000,
        count_of(m.poll_spec(now).1, TimerEvent::PlayKakonAudio) > 0 ==> now >= e - 100_000_000,
        !m.completed_emitted && e - 1_200_000_000 <= now < e - 100_000_000 ==> count_of(
            m.poll_spec(now).1,
            completed(),
        ) == 1,
        !m.audio_emitted && e - 100_000_000 <= now ==> count_of(
            m.poll_spec(now).1,
            TimerEvent::PlayKakonAudio,
        ) == 1,
{
    broadcast use {lemma_count_push, lemma_count_concat};

    let secs = whole_seconds(e - now);
    lemma_pair_counts(TimerEvent::Tick(secs), TimerEvent::PlayKakonAudio, completed());
    lemma_pair_counts(TimerEvent::Tick(secs), TimerEvent::PlayKakonAudio, TimerEvent::PlayKakonAudio);
    lemma_pair_counts(TimerEvent::Tick(secs), completed(), completed());
    lemma_pair_counts(TimerEvent::Tick(secs), completed(), TimerEvent::PlayKakonAudio);
    assert(seq![TimerEvent::PlayKakonAudio] =~= Seq::<TimerEvent>::empty().push(
        TimerEvent::PlayKakonAudio,
    ));
    assert(seq![TimerEvent::Tick(secs)] =~= Seq::<TimerEvent>::empty().push(TimerEvent::Tick(secs)));
}

/// The state a run of events reports last: the phase and counter of its
/// last `StateChanged`, if it has one.
pub open spec fn last_report(evs: Seq<TimerEvent>) -> Option<(Phase, u32)>
    decreases evs.len(),
{
    if evs.len() == 0 {
        None
    } else {
        match evs.last() {
            TimerEvent::StateChanged { phase, count } => Some((phase, count)),
            _ => last_report(evs.drop_last()),
        }
    }
}

proof fn lemma_last_report_concat(a: Seq<TimerEvent>, b: Seq<TimerEvent>)
    ensures
        last_report(a + b) == if last_report(b) is Some {
            last_report(b)
        } else {
            last_report(a)
        },
    decreases b.len(),
{
    if b.len() == 0 {
        assert(a + b =~= a);
    } else {
        assert((a + b).drop_last() =~= a + b.drop_last());
        lemma_last_report_concat(a, b.drop_last());
    }
}

proof fn lemma_last_report_small(x: TimerEvent, y: TimerEvent)
    ensures
        last_report(seq![x]) == last_report(Seq::<TimerEvent>::empty().push(x)),
        last_report(seq![x, y]) == (match y {
            TimerEvent::StateChanged { phase, count } => Some((phase, count)),
            _ => last_report(seq![x]),
        }),
        last_report(seq![x]) == (match x {
            TimerEvent::StateChanged { phase, count } => Some((phase, count)),
            _ => None::<(Phase, u32)>,
        }),
{
    assert(seq![x].drop_last() =~= Seq::<TimerEvent>::empty());
    assert(last_report(Seq::<TimerEvent>::empty()) is None);
    assert(seq![x, y].drop_last() =~= seq![x]);
    assert(Seq::<TimerEvent>::empty().push(x) =~= seq![x]);
}

/// Every call that changes the phase reports it, and the last state change
/// a call reports is the phase and counter the machine is left with.
pub proof fn law_reports_name_the_new_state(m: MachineView, op: MachineOp)
    requires
        m.inv(),
    ensures
        step(m, op).0.state.phase != m.state.phase ==> last_report(step(m, op).1) is Some,
        last_report(step(m, op).1) matches Some((p, c)) ==> p == step(m, op).0.state.phase && c
            == step(m, op).0.state.session_count,
{
    let z = TimerEvent::Tick(0);
    lemma_last_report_small(z, z);
    match op {
        MachineOp::Start(_) => {
            let w = m.committed_config().work_seconds;
            lemma_last_report_small(
                TimerEvent::StateChanged { phase: Phase::Work, count: m.state.session_count },
                TimerEvent::Tick(w),
            );
            lemma_last_report_small(
                TimerEvent::StateChanged { phase: Phase::Work, count: m.state.session_count },
                z,
            );
        },
        MachineOp::Pause(_) => {
            lemma_last_report_small(
                TimerEvent::StateChanged { phase: Phase::Paused, count: m.state.session_count },
                z,
            );
        },
        MachineOp::Poll(t) => {
            lemma_poll_reports(m, t as int);
        },
        MachineOp::Skip => {
            let count = next_count(m.state.session_count);
            let sc = TimerEvent::StateChanged { phase: Phase::Idle, count };
            lemma_last_report_small(sc, z);
            let head: Seq<TimerEvent> = if m.completed_emitted {
                seq![]
            } else {
                seq![completed()]
            };
            lemma_last_report_concat(head, seq![sc]);
        },
        MachineOp::Reset => {
            lemma_last_report_small(TimerEvent::StateChanged { phase: Phase::Idle, count: 0 }, z);
        },
        _ => {
            assert(last_report(Seq::<TimerEvent>::empty()) is None);
        },
    }
}

proof fn lemma_poll_reports(m: MachineView, now: int)
    requires
        m.inv(),
    ensures
        m.poll_spec(now).0.state.phase != m.state.phase ==> last_report(m.poll_spec(now).1) is Some,
        last_report(m.poll_spec(now).1) matches Some((p, c)) ==> p == m.poll_spec(now).0.state.phase
            && c == m.poll_spec(now).0.state.session_count,
{
    let z = TimerEvent::Tick(0);
    if m.state.phase == Phase::Work && m.end_at is Some {
        let e = m.end_at->0;
        let secs = whole_seconds(e - now);
        if now >= e {
            let count = next_count(m.state.session_count);
            let sc = TimerEvent::StateChanged { phase: Phase::Idle, count };
            let cs: Seq<TimerEvent> = if m.completed_emitted {
                seq![]
            } else {
                seq![completed()]
            };
            let aus: Seq<TimerEvent> = if m.audio_emitted {
                seq![]
            } else {
                seq![TimerEvent::PlayKakonAudio]
            };
            let evs = seq![z] + cs + aus + seq![sc];
            lemma_last_report_small(sc, z);
            lemma_last_report_concat(seq![z] + cs + aus, seq![sc]);
            assert(last_report(evs) == Some((Phase::Idle, count)));
            if m.loop_mode {
                let idle = MachineView {
                    state: TimerState { remaining_seconds: 0, session_count: count, ..m.state },
                    ..m
                }.into_idle();
                let w = idle.committed_config().work_seconds;
                let wc = TimerEvent::StateChanged { phase: Phase::Work, count };
                lemma_last_report_small(wc, TimerEvent::Tick(w));
                lemma_last_report_concat(evs, idle.start_spec(now).1);
            }
        } else {
            lemma_last_report_small(TimerEvent::Tick(secs), TimerEvent::PlayKakonAudio);
            lemma_last_report_small(TimerEvent::Tick(secs), completed());
            lemma_last_report_small(TimerEvent::PlayKakonAudio, z);
            lemma_last_report_small(completed(), z);
            lemma_last_report_small(TimerEvent::Tick(secs), z);
        }
    }
    assert(last_report(Seq::<TimerEvent>::empty()) is None);
}

/// A reset reports exactly one thing: the move to `Idle` with a zero
/// counter, whatever the machine was doing.
pub proof fn law_reset_reports_idle(m: MachineView)
    ensures
        m.reset_spec().1 == seq![TimerEvent::StateChanged { phase: Phase::Idle, count: 0 }],
        m.reset_spec().0.state.phase == Phase::Idle,
        m.reset_spec().0.state.session_count == 0,
{
}

} // verus!
