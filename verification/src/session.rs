//! The state machine of one pomodoro session.
//!
//! A session is idle, running, or stopped with a remainder. All times are
//! plain `u64` values: durations in nanoseconds, instants in nanoseconds
//! since the epoch. The caller reads the clock and owns the actual
//! countdown handle; each mutating operation reports what the caller must
//! do with that handle.

use vstd::prelude::*;

use crate::command::Command;

verus! {

/// Nanoseconds in one second.
pub const NANOS_PER_SEC: u64 = 1_000_000_000;

/// Length of a fresh session: twenty-five minutes, in nanoseconds.
pub const DEFAULT_DURATION: u64 = 1500 * NANOS_PER_SEC;

/// One pomodoro session.
///
/// `remaining` is the duration the next (or current) countdown runs for;
/// `started_at` is set exactly while a countdown is active; `engine` says
/// whether the caller holds a live countdown handle for this session.
#[derive(Clone, Copy, PartialEq, Eq, Debug)]
pub struct Session {
    /// Pending duration in nanoseconds: the duration the current countdown
    /// was started with while running, otherwise the duration the next
    /// `start` will use.
    pub remaining: u64,
    /// Instant the active countdown began (nanoseconds since the epoch),
    /// or `None` when no countdown is active.
    pub started_at: Option<u64>,
    /// Whether a countdown handle is currently held.
    pub engine: bool,
}

impl Session {
    /// A countdown handle is held exactly while a start instant is
    /// recorded, and a projected end instant never overflows the clock.
    pub open spec fn wf(self) -> bool {
        &&& self.engine == (self.started_at is Some)
        &&& (self.started_at matches Some(s) ==> s + self.remaining <= u64::MAX)
    }

    /// The state of a fresh session: idle, default duration pending.
    pub open spec fn initial() -> Session {
        Session { remaining: DEFAULT_DURATION, started_at: None, engine: false }
    }
}

/// Time elapsed from `start` to `now`; zero if the clock ran backwards.
pub open spec fn spec_elapsed(now: u64, start: u64) -> int {
    if now >= start {
        now - start
    } else {
        0
    }
}

/// `a - b`, floored at zero: a duration never goes negative.
pub open spec fn spec_sub_floor(a: u64, b: int) -> u64 {
    if a >= b {
        (a - b) as u64
    } else {
        0
    }
}

/// Remaining time of the session at instant `now`: live while running,
/// the stored remainder (or pending default) otherwise.
pub open spec fn spec_remaining(s: Session, now: u64) -> u64 {
    match s.started_at {
        Some(st) => spec_sub_floor(s.remaining, spec_elapsed(now, st)),
        None => s.remaining,
    }
}

/// Effect of the `start` command at instant `now`, where `engine_active`
/// reports whether a held countdown has neither fired nor been cancelled.
/// Returns the new state and the duration of a countdown the caller must
/// launch, if any: a start while a countdown is still active is a no-op.
pub open spec fn spec_start(s: Session, now: u64, engine_active: bool) -> (Session, Option<u64>) {
    if s.engine && engine_active {
        (s, None)
    } else {
        (Session { remaining: s.remaining, started_at: Some(now), engine: true }, Some(s.remaining))
    }
}

/// Effect of the `reset` command: back to the fresh state, telling the
/// caller whether a held countdown must be cancelled.
pub open spec fn spec_reset(s: Session) -> (Session, bool) {
    (Session::initial(), s.engine)
}

/// Effect of the `stop` command at instant `now`. While running, the
/// elapsed time is deducted from the duration the countdown was started
/// with; a remainder of exactly zero behaves as `reset`. When no countdown
/// is active, `stop` is a no-op. The second component tells the caller
/// whether a held countdown must be cancelled.
pub open spec fn spec_stop(s: Session, now: u64) -> (Session, bool) {
    match s.started_at {
        Some(st) => {
            let diff = spec_sub_floor(s.remaining, spec_elapsed(now, st));
            if diff == 0 {
                (Session::initial(), true)
            } else {
                (Session { remaining: diff, started_at: None, engine: false }, true)
            }
        },
        None => (s, false),
    }
}

/// A snapshot of the session, as the `show` query reports it.
#[derive(Clone, Copy, PartialEq, Eq, Debug)]
pub struct Snapshot {
    /// Projected end of the active countdown, in whole seconds since the
    /// epoch; `None` when no countdown is active.
    pub end: Option<u64>,
    /// The stored pending duration, in whole seconds.
    pub remaining_secs: u64,
    /// Whether a countdown is active right now: a handle is held and it
    /// has neither fired nor been cancelled.
    pub active: bool,
}

/// The snapshot the `show` query reports: the projected end instant while
/// a countdown runs, the stored duration in seconds, and whether the held
/// countdown is still live.
pub open spec fn spec_show(s: Session, engine_active: bool) -> Snapshot {
    Snapshot {
        end: match s.started_at {
            Some(st) => Some((((st + s.remaining) / (NANOS_PER_SEC as int)) as u64)),
            None => None,
        },
        remaining_secs: (s.remaining / NANOS_PER_SEC) as u64,
        active: s.engine && engine_active,
    }
}

impl Session {
    /// A fresh, idle session with the default duration pending.
    pub fn new() -> (s: Session)
        ensures
            s == Session::initial(),
            s.wf(),
    {
        Session { remaining: DEFAULT_DURATION, started_at: None, engine: false }
    }

    /// Handle the `start` command. `now` is the current clock reading and
    /// `engine_active` whether the held countdown (if any) is still live.
    /// Returns `Some(d)` when the caller must launch a countdown of `d`
    /// nanoseconds; the session then records `now` as its start instant.
    pub fn start(&mut self, now: u64, engine_active: bool) -> (spawn: Option<u64>)
        requires
            old(self).wf(),
            now + old(self).remaining <= u64::MAX,
        ensures
            final(self).wf(),
            (*final(self), spawn) == spec_start(*old(self), now, engine_active),
    {
        if self.engine && engine_active {
            None
        } else {
            self.started_at = Some(now);
            self.engine = true;
            Some(self.remaining)
        }
    }

    /// Handle the `stop` command at instant `now`. Returns whether the
    /// caller must cancel the countdown it holds.
    pub fn stop(&mut self, now: u64) -> (cancel: bool)
        ensures
            old(self).wf() ==> final(self).wf(),
            (*final(self), cancel) == spec_stop(*old(self), now),
    {
        match self.started_at {
            Some(st) => {
                let elapsed: u64 = if now >= st {
                    now - st
                } else {
                    0
                };
                let diff: u64 = if self.remaining >= elapsed {
                    self.remaining - elapsed
                } else {
                    0
                };
                if diff == 0 {
                    self.remaining = DEFAULT_DURATION;
                } else {
                    self.remaining = diff;
                }
                self.started_at = None;
                self.engine = false;
                true
            },
            None => false,
        }
    }

    /// Handle the `reset` command: return to the fresh state. Returns
    /// whether the caller must cancel the countdown it holds.
    pub fn reset(&mut self) -> (cancel: bool)
        ensures
            final(self).wf(),
            (*final(self), cancel) == spec_reset(*old(self)),
    {
        let had_engine = self.engine;
        self.remaining = DEFAULT_DURATION;
        self.started_at = None;
        self.engine = false;
        had_engine
    }

    /// Remaining time at instant `now`, in nanoseconds: live while
    /// running, the stored remainder or pending default otherwise.
    pub fn remaining_at(&self, now: u64) -> (r: u64)
        ensures
            r == spec_remaining(*self, now),
    {
        match self.started_at {
            Some(st) => {
                let elapsed: u64 = if now >= st {
                    now - st
                } else {
                    0
                };
                if self.remaining >= elapsed {
                    self.remaining - elapsed
                } else {
                    0
                }
            },
            None => self.remaining,
        }
    }

    /// The `show` query: a read-only snapshot of the session, where
    /// `engine_active` reports whether the held countdown (if any) has
    /// neither fired nor been cancelled.
    pub fn show(&self, engine_active: bool) -> (snap: Snapshot)
        requires
            self.wf(),
        ensures
            snap == spec_show(*self, engine_active),
    {
        let end = match self.started_at {
            Some(st) => Some((st + self.remaining) / NANOS_PER_SEC),
            None => None,
        };
        Snapshot { end, remaining_secs: self.remaining / NANOS_PER_SEC, active: self.engine && engine_active }
    }
}

/// What the caller must do with the countdown handle it holds after one
/// command has been handled.
#[derive(Clone, Copy, PartialEq, Eq, Structural, Debug)]
pub enum EngineOp {
    /// Leave any held handle as it is.
    Keep,
    /// Launch a countdown of this many nanoseconds and hold its handle.
    Spawn(u64),
    /// Cancel the held countdown and wait until it has fully stopped,
    /// before acting on any later command.
    Cancel,
}

/// The reply one handled command produces.
#[derive(Clone, Copy, PartialEq, Eq, Debug)]
pub enum Reply {
    /// No response payload.
    Silent,
    /// The remaining time, in nanoseconds.
    Remaining(u64),
    /// A snapshot of the whole session.
    Show(Snapshot),
}

/// Effect of one command on the session at instant `now`: the new state,
/// what to do with the countdown handle, and the reply to send.
pub open spec fn spec_handle(s: Session, cmd: Command, now: u64, engine_active: bool) -> (
    Session,
    EngineOp,
    Reply,
) {
    match cmd {
        Command::Start => {
            let r = spec_start(s, now, engine_active);
            let op = match r.1 {
                Some(d) => EngineOp::Spawn(d),
                None => EngineOp::Keep,
            };
            (r.0, op, Reply::Silent)
        },
        Command::Stop => {
            let r = spec_stop(s, now);
            (
                r.0,
                if r.1 {
                    EngineOp::Cancel
                } else {
                    EngineOp::Keep
                },
                Reply::Silent,
            )
        },
        Command::Reset => {
            let r = spec_reset(s);
            (
                r.0,
                if r.1 {
                    EngineOp::Cancel
                } else {
                    EngineOp::Keep
                },
                Reply::Silent,
            )
        },
        Command::Remaining => (s, EngineOp::Keep, Reply::Remaining(spec_remaining(s, now))),
        Command::Show => (s, EngineOp::Keep, Reply::Show(spec_show(s, engine_active))),
        Command::Unknown => (s, EngineOp::Keep, Reply::Silent),
    }
}

impl Session {
    /// Handle one command against the session. `now` is the current clock
    /// reading; `engine_active` whether the held countdown (if any) has
    /// neither fired nor been cancelled. Returns what to do with the
    /// countdown handle, and the reply to send.
    pub fn handle(&mut self, cmd: Command, now: u64, engine_active: bool) -> (r: (EngineOp, Reply))
        requires
            old(self).wf(),
            cmd is Start ==> now + old(self).remaining <= u64::MAX,
        ensures
            final(self).wf(),
            (*final(self), r.0, r.1) == spec_handle(*old(self), cmd, now, engine_active),
    {
        match cmd {
            Command::Start => {
                let spawn = self.start(now, engine_active);
                let op = match spawn {
                    Some(d) => EngineOp::Spawn(d),
                    None => EngineOp::Keep,
                };
                (op, Reply::Silent)
            },
            Command::Stop => {
                let cancel = self.stop(now);
                (
                    if cancel {
                        EngineOp::Cancel
                    } else {
                        EngineOp::Keep
                    },
                    Reply::Silent,
                )
            },
            Command::Reset => {
                let cancel = self.reset();
                (
                    if cancel {
                        EngineOp::Cancel
                    } else {
                        EngineOp::Keep
                    },
                    Reply::Silent,
                )
            },
            Command::Remaining => {
                let r = self.remaining_at(now);
                (EngineOp::Keep, Reply::Remaining(r))
            },
            Command::Show => {
                let snap = self.show(engine_active);
                (EngineOp::Keep, Reply::Show(snap))
            },
            Command::Unknown => (EngineOp::Keep, Reply::Silent),
        }
    }
}

/// Starting and then stopping before the countdown has run out deducts
/// exactly the time that passed in between: for a countdown started with
/// duration `d`, the stored remainder is `d - elapsed` — never more than
/// `d`, and short of `d` only by the elapsed time itself.
pub proof fn lemma_start_then_stop(s: Session, t_start: u64, t_stop: u64, engine_active: bool)
    requires
        !(s.engine && engine_active),
        t_start <= t_stop,
        t_stop - t_start < s.remaining,
    ensures
        ({
            let started = spec_start(s, t_start, engine_active).0;
            let stopped = spec_stop(started, t_stop).0;
            &&& stopped.remaining == s.remaining - (t_stop - t_start)
            &&& stopped.remaining <= s.remaining
            &&& stopped.remaining > 0
            &&& stopped.started_at is None
            &&& !stopped.engine
        }),
{
}

/// `reset` from any state yields an idle, well-formed session: no start
/// instant, no countdown handle, the remaining query reporting the default
/// duration, and a snapshot showing no activity and no projected end.
pub proof fn lemma_reset_yields_idle(s: Session, now: u64, engine_active: bool)
    ensures
        ({
            let r = spec_reset(s).0;
            &&& r == Session::initial()
            &&& r.wf()
            &&& r.started_at is None
            &&& !r.engine
            &&& spec_remaining(r, now) == DEFAULT_DURATION
            &&& spec_show(r, engine_active).active == false
            &&& spec_show(r, engine_active).end is None
        }),
{
}

/// Two `start` commands in a row, with no `stop` or `reset` in between,
/// leave exactly one active countdown: after the first, a handle is held,
/// and the second — the countdown still live — changes nothing and asks
/// for no new countdown to be launched.
pub proof fn lemma_start_twice(s: Session, t_first: u64, t_second: u64, engine_active: bool)
    ensures
        ({
            let first = spec_start(s, t_first, engine_active);
            let second = spec_start(first.0, t_second, true);
            &&& first.0.engine
            &&& second.0 == first.0
            &&& second.1 is None
        }),
{
}

/// `stop` while no countdown is active is a no-op; in particular, on a
/// fresh session it changes nothing, and the remaining query afterwards
/// still reports the default duration.
pub proof fn lemma_stop_when_idle(s: Session, t_stop: u64, query_at: u64)
    requires
        s.started_at is None,
    ensures
        spec_stop(s, t_stop) == (s, false),
        spec_stop(Session::initial(), t_stop).0 == Session::initial(),
        spec_remaining(spec_stop(Session::initial(), t_stop).0, query_at) == DEFAULT_DURATION,
{
}

} // verus!
