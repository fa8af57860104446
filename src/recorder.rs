use vstd::prelude::*;
use crate::sample::Sample;

verus! {

/// Where the sampling loop stands.
#[derive(Clone, Copy, Debug, PartialEq, Eq, Structural)]
pub enum Phase {
    /// Created, no cycle begun.
    Idle,
    /// Waiting for the provider's answer.
    Fetching,
    /// Waiting for the log append of a sample.
    Appending,
    /// Sleeping between two cycles.
    Waiting,
    /// Ended by a stop request or the cycle limit; ignores every event.
    Stopped,
}

/// What the outside world reports to the loop.
#[derive(Debug)]
pub enum Event {
    /// The loop may begin a cycle: at start, and when a sleep is over.
    Tick,
    /// The provider answered with a sample, or failed.
    Fetched(Option<Sample>),
    /// The append to the log succeeded (`true`) or failed.
    Written(bool),
}

/// What a finished cycle tells the user.
#[derive(Clone, Copy, Debug, PartialEq, Eq, Structural)]
pub enum Notice {
    Logged,
    FetchFailed,
    WriteFailed,
}

/// What the loop asks the outside world to do next.
#[derive(Debug)]
pub enum Action {
    /// Ask the provider for the current position.
    Fetch,
    /// Append this sample to the log.
    Append(Sample),
    /// Report the cycle's outcome, then sleep this many seconds and send `Tick`.
    Sleep { secs: u64, notice: Notice },
    /// The loop is over.
    Halt,
    /// The event does not fit the phase; nothing to do.
    Ignore,
}

/// An event without the sample it may carry.
#[derive(Clone, Copy, Debug, PartialEq, Eq, Structural)]
pub enum EventKind {
    Tick,
    FetchedSome,
    FetchedNone,
    Written(bool),
}

/// An action without the sample it may carry.
#[derive(Clone, Copy, Debug, PartialEq, Eq, Structural)]
pub enum ActionKind {
    Fetch,
    Append,
    Sleep(u64, Notice),
    Halt,
    Ignore,
}

pub open spec fn event_kind(e: Event) -> EventKind {
    match e {
        Event::Tick => EventKind::Tick,
        Event::Fetched(Some(_)) => EventKind::FetchedSome,
        Event::Fetched(None) => EventKind::FetchedNone,
        Event::Written(ok) => EventKind::Written(ok),
    }
}

pub open spec fn action_kind(a: Action) -> ActionKind {
    match a {
        Action::Fetch => ActionKind::Fetch,
        Action::Append(_) => ActionKind::Append,
        Action::Sleep { secs, notice } => ActionKind::Sleep(secs, notice),
        Action::Halt => ActionKind::Halt,
        Action::Ignore => ActionKind::Ignore,
    }
}

/// One more, staying at the largest value once there.
pub open spec fn bump(x: u64) -> u64 {
    if x < u64::MAX {
        (x + 1) as u64
    } else {
        x
    }
}

fn bump_exec(x: u64) -> (r: u64)
    ensures
        r == bump(x),
{
    if x < u64::MAX {
        x + 1
    } else {
        x
    }
}

/// State of the sampling loop: its settings (the sleep between cycles in
/// seconds, an optional number of cycles after which it stops, whether a
/// stop was requested), its phase and what it has counted so far.
#[derive(Clone, Copy, Debug)]
pub struct Recorder {
    pub interval: u64,
    pub limit: Option<u64>,
    pub stop_requested: bool,
    pub phase: Phase,
    pub cycles: u64,
    pub appended: u64,
    pub fetch_failures: u64,
    pub write_failures: u64,
}

impl Recorder {
    /// Whether a `Tick` now ends the loop rather than begin a cycle.
    pub open spec fn must_stop(self) -> bool {
        self.stop_requested || match self.limit {
            Some(k) => self.cycles >= k,
            None => false,
        }
    }

    /// The state after `e`. A cycle is fetch, then append on success, then
    /// sleep: a failed fetch or a failed append is counted and reported, and
    /// the loop sleeps and goes on as after a success.
    pub open spec fn next(self, e: EventKind) -> Recorder {
        match (self.phase, e) {
            (Phase::Idle, EventKind::Tick) | (Phase::Waiting, EventKind::Tick) => {
                if self.must_stop() {
                    Recorder { phase: Phase::Stopped, ..self }
                } else {
                    Recorder { phase: Phase::Fetching, ..self }
                }
            },
            (Phase::Fetching, EventKind::FetchedSome) => Recorder { phase: Phase::Appending, ..self },
            (Phase::Fetching, EventKind::FetchedNone) => Recorder {
                phase: Phase::Waiting,
                cycles: bump(self.cycles),
                fetch_failures: bump(self.fetch_failures),
                ..self
            },
            (Phase::Appending, EventKind::Written(true)) => Recorder {
                phase: Phase::Waiting,
                cycles: bump(self.cycles),
                appended: bump(self.appended),
                ..self
            },
            (Phase::Appending, EventKind::Written(false)) => Recorder {
                phase: Phase::Waiting,
                cycles: bump(self.cycles),
                write_failures: bump(self.write_failures),
                ..self
            },
            _ => self,
        }
    }

    /// The action that answers `e`.
    pub open spec fn reply(self, e: EventKind) -> ActionKind {
        match (self.phase, e) {
            (Phase::Idle, EventKind::Tick) | (Phase::Waiting, EventKind::Tick) => {
                if self.must_stop() {
                    ActionKind::Halt
                } else {
                    ActionKind::Fetch
                }
            },
            (Phase::Fetching, EventKind::FetchedSome) => ActionKind::Append,
            (Phase::Fetching, EventKind::FetchedNone) => ActionKind::Sleep(
                self.interval,
                Notice::FetchFailed,
            ),
            (Phase::Appending, EventKind::Written(true)) => ActionKind::Sleep(
                self.interval,
                Notice::Logged,
            ),
            (Phase::Appending, EventKind::Written(false)) => ActionKind::Sleep(
                self.interval,
                Notice::WriteFailed,
            ),
            _ => ActionKind::Ignore,
        }
    }

    /// A loop that sleeps `interval` seconds between cycles and stops after
    /// `limit` cycles, if one is given.
    pub fn new(interval: u64, limit: Option<u64>) -> (r: Recorder)
        ensures
            r == (Recorder {
                interval,
                limit,
                stop_requested: false,
                phase: Phase::Idle,
                cycles: 0,
                appended: 0,
                fetch_failures: 0,
                write_failures: 0,
            }),
    {
        Recorder {
            interval,
            limit,
            stop_requested: false,
            phase: Phase::Idle,
            cycles: 0,
            appended: 0,
            fetch_failures: 0,
            write_failures: 0,
        }
    }

    /// Asks the loop to end: the next `Tick` halts it, so the cycle under
    /// way is finished first.
    pub fn request_stop(&mut self)
        ensures
            *final(self) == (Recorder { stop_requested: true, ..*old(self) }),
    {
        self.stop_requested = true;
    }

    fn stop_due(&self) -> (r: bool)
        ensures
            r == self.must_stop(),
    {
        self.stop_requested || match self.limit {
            Some(k) => self.cycles >= k,
            None => false,
        }
    }

    /// Takes one event, moves to the next state and says what to do. An
    /// `Append` carries the sample that the provider gave.
    pub fn step(&mut self, e: Event) -> (a: Action)
        ensures
            *final(self) == old(self).next(event_kind(e)),
            action_kind(a) == old(self).reply(event_kind(e)),
            a matches Action::Append(s) ==> e matches Event::Fetched(Some(t)) && s@ == t@,
    {
        match (self.phase, e) {
            (Phase::Idle, Event::Tick) | (Phase::Waiting, Event::Tick) => {
                if self.stop_due() {
                    self.phase = Phase::Stopped;
                    Action::Halt
                } else {
                    self.phase = Phase::Fetching;
                    Action::Fetch
                }
            },
            (Phase::Fetching, Event::Fetched(Some(s))) => {
                self.phase = Phase::Appending;
                Action::Append(s)
            },
            (Phase::Fetching, Event::Fetched(None)) => {
                self.phase = Phase::Waiting;
                self.cycles = bump_exec(self.cycles);
                self.fetch_failures = bump_exec(self.fetch_failures);
                Action::Sleep { secs: self.interval, notice: Notice::FetchFailed }
            },
            (Phase::Appending, Event::Written(ok)) => {
                self.phase = Phase::Waiting;
                self.cycles = bump_exec(self.cycles);
                if ok {
                    self.appended = bump_exec(self.appended);
                    Action::Sleep { secs: self.interval, notice: Notice::Logged }
                } else {
                    self.write_failures = bump_exec(self.write_failures);
                    Action::Sleep { secs: self.interval, notice: Notice::WriteFailed }
                }
            },
            _ => Action::Ignore,
        }
    }
}

/// The state after `k` cycles in which the provider fails every time.
pub open spec fn after_failing(s: Recorder, k: nat) -> Recorder
    decreases k,
{
    if k == 0 {
        s
    } else {
        after_failing(s, (k - 1) as nat).next(EventKind::Tick).next(EventKind::FetchedNone)
    }
}

/// A provider that always fails does not halt the loop: from a loop that is
/// between cycles and not asked to stop, every one of `k` cycles fetches,
/// reports the failure and sleeps the full interval; after them the loop is
/// between cycles again with `k` more cycles and `k` more failures counted,
/// and the next `Tick` begins one more cycle with a fetch.
pub proof fn lemma_failures_keep_cycling(s: Recorder, k: nat)
    requires
        s.phase == Phase::Idle || s.phase == Phase::Waiting,
        !s.stop_requested,
        s.limit is None,
        s.cycles + k <= u64::MAX,
        s.fetch_failures + k <= u64::MAX,
    ensures
        forall|j: nat|
            j < k ==> (#[trigger] after_failing(s, j)).reply(EventKind::Tick) == ActionKind::Fetch
                && after_failing(s, j).next(EventKind::Tick).reply(EventKind::FetchedNone)
                == ActionKind::Sleep(s.interval, Notice::FetchFailed),
        k > 0 ==> after_failing(s, k).phase == Phase::Waiting,
        after_failing(s, k).reply(EventKind::Tick) == ActionKind::Fetch,
        after_failing(s, k).cycles == s.cycles + k,
        after_failing(s, k).fetch_failures == s.fetch_failures + k,
        after_failing(s, k).interval == s.interval,
        after_failing(s, k).limit == s.limit,
        after_failing(s, k).stop_requested == s.stop_requested,
        after_failing(s, k).appended == s.appended,
        after_failing(s, k).write_failures == s.write_failures,
    decreases k,
{
    if k > 0 {
        lemma_failures_keep_cycling(s, (k - 1) as nat);
        let p = after_failing(s, (k - 1) as nat);
        assert(p.phase == Phase::Idle || p.phase == Phase::Waiting);
        assert forall|j: nat| j < k implies (#[trigger] after_failing(s, j)).reply(EventKind::Tick)
            == ActionKind::Fetch && after_failing(s, j).next(EventKind::Tick).reply(
            EventKind::FetchedNone,
        ) == ActionKind::Sleep(s.interval, Notice::FetchFailed) by {
            if j == k - 1 {
                assert(after_failing(s, j) == p);
            }
        }
    }
}

} // verus!
