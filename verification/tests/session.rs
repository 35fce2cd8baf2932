use pomodoro::command::Command;
use pomodoro::session::{EngineOp, Reply, Session, DEFAULT_DURATION, NANOS_PER_SEC};

#[test]
fn fresh_session_reports_default() {
    let s = Session::new();
    assert_eq!(s.remaining, DEFAULT_DURATION);
    assert_eq!(s.started_at, None);
    assert!(!s.engine);
    assert_eq!(s.remaining_at(123_456_789), DEFAULT_DURATION);
    assert_eq!(DEFAULT_DURATION, 1500 * NANOS_PER_SEC);
}

#[test]
fn stop_when_idle_is_noop() {
    let mut s = Session::new();
    let before = s;
    let cancel = s.stop(42 * NANOS_PER_SEC);
    assert!(!cancel);
    assert_eq!(s, before);
    assert_eq!(s.remaining_at(99 * NANOS_PER_SEC), DEFAULT_DURATION);
}

#[test]
fn start_twice_keeps_one_countdown() {
    let mut s = Session::new();
    let t0 = 1_000 * NANOS_PER_SEC;
    let spawn = s.start(t0, false);
    assert_eq!(spawn, Some(DEFAULT_DURATION));
    assert!(s.engine);
    let after_first = s;
    // The countdown is still live: the second start must change nothing
    // and must not ask for another countdown.
    let again = s.start(t0 + 5 * NANOS_PER_SEC, true);
    assert_eq!(again, None);
    assert_eq!(s, after_first);
}

#[test]
fn start_after_firing_launches_again() {
    let mut s = Session::new();
    let t0 = 1_000 * NANOS_PER_SEC;
    assert_eq!(s.start(t0, false), Some(DEFAULT_DURATION));
    // The countdown fired: the handle is no longer active, so a new start
    // launches a fresh countdown with the pending duration.
    let t1 = t0 + 2_000 * NANOS_PER_SEC;
    assert_eq!(s.start(t1, false), Some(DEFAULT_DURATION));
    assert_eq!(s.started_at, Some(t1));
}

#[test]
fn immediate_stop_keeps_full_duration() {
    let mut s = Session::new();
    let t0 = 7 * NANOS_PER_SEC;
    s.start(t0, false);
    let cancel = s.stop(t0);
    assert!(cancel);
    assert_eq!(s.remaining, DEFAULT_DURATION);
    assert_eq!(s.started_at, None);
    assert!(!s.engine);
}

#[test]
fn stop_after_expiry_resets_to_default() {
    let mut s = Session::new();
    let t0 = 10 * NANOS_PER_SEC;
    s.start(t0, false);
    // Stopped only after the whole duration has elapsed: the remainder is
    // zero, which behaves as a reset.
    let cancel = s.stop(t0 + DEFAULT_DURATION + NANOS_PER_SEC);
    assert!(cancel);
    assert_eq!(s, Session::new());
}

#[test]
fn remaining_floors_at_zero_while_running() {
    let mut s = Session::new();
    let t0 = 10 * NANOS_PER_SEC;
    s.start(t0, false);
    assert_eq!(s.remaining_at(t0 + 2 * DEFAULT_DURATION), 0);
}

#[test]
fn clock_running_backwards_counts_as_no_elapsed_time() {
    let mut s = Session::new();
    let t0 = 10 * NANOS_PER_SEC;
    s.start(t0, false);
    assert_eq!(s.remaining_at(t0 - 5), DEFAULT_DURATION);
    let cancel = s.stop(t0 - 5);
    assert!(cancel);
    assert_eq!(s.remaining, DEFAULT_DURATION);
}

#[test]
fn scenario_default_run() {
    // Start with the default 1500 s, query at once, stop after 10 s,
    // start again, then reset.
    let mut s = Session::new();
    let t0 = 1_700_000_000 * NANOS_PER_SEC;
    assert_eq!(s.start(t0, false), Some(1500 * NANOS_PER_SEC));
    assert_eq!(s.remaining_at(t0), 1500 * NANOS_PER_SEC);

    let cancel = s.stop(t0 + 10 * NANOS_PER_SEC);
    assert!(cancel);
    assert_eq!(s.remaining, 1490 * NANOS_PER_SEC);

    let t1 = t0 + 60 * NANOS_PER_SEC;
    assert_eq!(s.start(t1, false), Some(1490 * NANOS_PER_SEC));
    let snap = s.show(true);
    assert!(snap.active);
    assert_eq!(snap.end, Some((t1 + 1490 * NANOS_PER_SEC) / NANOS_PER_SEC));
    assert_eq!(snap.remaining_secs, 1490);

    let cancel = s.reset();
    assert!(cancel);
    assert_eq!(s.remaining_at(t1 + 90 * NANOS_PER_SEC), 1500 * NANOS_PER_SEC);
    let snap = s.show(false);
    assert!(!snap.active);
    assert_eq!(snap.end, None);
    assert_eq!(snap.remaining_secs, 1500);
}

#[test]
fn reset_from_any_state_yields_idle() {
    // From running.
    let mut s = Session::new();
    s.start(5 * NANOS_PER_SEC, false);
    assert!(s.reset());
    assert_eq!(s, Session::new());
    // From stopped with a remainder.
    let mut s = Session::new();
    s.start(5 * NANOS_PER_SEC, false);
    s.stop(15 * NANOS_PER_SEC);
    assert!(!s.reset());
    assert_eq!(s, Session::new());
    // From idle.
    let mut s = Session::new();
    assert!(!s.reset());
    assert_eq!(s, Session::new());
}

#[test]
fn show_after_firing_reports_inactive() {
    // A short countdown ran out without a stop: the handle reports that it
    // is no longer active, and the snapshot must say so.
    let mut s = Session::new();
    s.remaining = NANOS_PER_SEC;
    let t0 = 100 * NANOS_PER_SEC;
    assert_eq!(s.start(t0, false), Some(NANOS_PER_SEC));
    let snap = s.show(false);
    assert!(!snap.active);
    assert_eq!(snap.end, Some(101));
}

#[test]
fn handle_dispatches_commands() {
    let mut s = Session::new();
    let t0 = 50 * NANOS_PER_SEC;

    let (op, reply) = s.handle(Command::Start, t0, false);
    assert_eq!(op, EngineOp::Spawn(DEFAULT_DURATION));
    assert_eq!(reply, Reply::Silent);

    let (op, reply) = s.handle(Command::Remaining, t0 + 3 * NANOS_PER_SEC, true);
    assert_eq!(op, EngineOp::Keep);
    assert_eq!(reply, Reply::Remaining(DEFAULT_DURATION - 3 * NANOS_PER_SEC));

    let (op, reply) = s.handle(Command::Show, t0 + 3 * NANOS_PER_SEC, true);
    assert_eq!(op, EngineOp::Keep);
    match reply {
        Reply::Show(snap) => {
            assert!(snap.active);
            assert_eq!(snap.end, Some((t0 + DEFAULT_DURATION) / NANOS_PER_SEC));
            assert_eq!(snap.remaining_secs, 1500);
        }
        other => panic!("expected a snapshot reply, got {:?}", other),
    }

    let (op, reply) = s.handle(Command::Stop, t0 + 10 * NANOS_PER_SEC, true);
    assert_eq!(op, EngineOp::Cancel);
    assert_eq!(reply, Reply::Silent);
    assert_eq!(s.remaining, DEFAULT_DURATION - 10 * NANOS_PER_SEC);

    let (op, reply) = s.handle(Command::Reset, t0 + 11 * NANOS_PER_SEC, false);
    assert_eq!(op, EngineOp::Keep);
    assert_eq!(reply, Reply::Silent);
    assert_eq!(s, Session::new());

    let (op, reply) = s.handle(Command::Unknown, t0 + 12 * NANOS_PER_SEC, false);
    assert_eq!(op, EngineOp::Keep);
    assert_eq!(reply, Reply::Silent);
    assert_eq!(s, Session::new());
}
