//! Watchdog session: keeps the companion service from outliving the host.
//!
//! The host runs the polling loop in a detached process of its own, so that
//! it survives a crash of the host. Each round it asks whether the parent
//! process still exists, hands the answer to [`WatchdogSession::poll`], and
//! carries out the returned action. Liveness is checked by polling behind this
//! one interface, so a platform's own exit notification can take its place
//! without changing the session.
use vstd::prelude::*;

verus! {

/// Seconds between two checks of the parent, by default.
pub const DEFAULT_POLL_INTERVAL_SECS: u64 = 5;

/// What a check of the parent process found.
#[derive(Clone, Copy, Debug, PartialEq, Eq, Structural)]
pub enum Liveness {
    Alive,
    Gone,
    /// The process table could not be read. Taken as alive, so that a
    /// passing failure of the query never kills the service.
    Unknown,
}

/// The processes that the termination signal goes to.
#[derive(Clone, Copy, Debug, PartialEq, Eq, Structural)]
pub enum KillTarget {
    /// The dependent process itself.
    Pid(u32),
    /// Every process that runs the service executable, for a session that
    /// never learned the dependent's pid.
    ByName,
}

/// What the polling loop does next.
#[derive(Clone, Copy, Debug, PartialEq, Eq, Structural)]
pub enum WatchAction {
    /// Sleep this many seconds, then check again.
    Sleep(u64),
    /// Send the termination signal, then end the loop.
    Terminate(KillTarget),
    /// The session is over: end the loop.
    Exit,
}

/// One watchdog session. It has no cancellation: only the parent's death ends it.
#[derive(Clone, Copy, Debug)]
pub struct WatchdogSession {
    pub parent_pid: u32,
    pub dependent_pid: Option<u32>,
    pub poll_interval_secs: u64,
    /// Set once the termination signal was ordered.
    pub finished: bool,
}

/// The target of the termination signal for a session.
pub open spec fn target_of(s: WatchdogSession) -> KillTarget {
    match s.dependent_pid {
        Some(pid) => KillTarget::Pid(pid),
        None => KillTarget::ByName,
    }
}

/// Next state and action after a check that found `parent`.
pub open spec fn poll_spec(s: WatchdogSession, parent: Liveness) -> (WatchdogSession, WatchAction) {
    if s.finished {
        (s, WatchAction::Exit)
    } else if parent == Liveness::Gone {
        (WatchdogSession { finished: true, ..s }, WatchAction::Terminate(target_of(s)))
    } else {
        (s, WatchAction::Sleep(s.poll_interval_secs))
    }
}

/// State after the checks `checks`, and the actions taken on the way.
pub open spec fn poll_all(s: WatchdogSession, checks: Seq<Liveness>) -> (WatchdogSession, Seq<WatchAction>)
    decreases checks.len(),
{
    if checks.len() == 0 {
        (s, Seq::empty())
    } else {
        let (next, action) = poll_spec(s, checks[0]);
        let (end, rest) = poll_all(next, checks.drop_first());
        (end, seq![action] + rest)
    }
}

impl WatchdogSession {
    /// A session that watches `parent_pid` every `poll_interval_secs` seconds
    /// and then terminates `dependent_pid`, or every process of the service
    /// executable when the pid is not known.
    pub fn begin(parent_pid: u32, dependent_pid: Option<u32>, poll_interval_secs: u64) -> (r: WatchdogSession)
        ensures
            r == (WatchdogSession { parent_pid, dependent_pid, poll_interval_secs, finished: false }),
    {
        WatchdogSession { parent_pid, dependent_pid, poll_interval_secs, finished: false }
    }

    /// Decides on one round of the loop, given what the check of the parent found.
    pub fn poll(&mut self, parent: Liveness) -> (action: WatchAction)
        ensures
            (*final(self), action) == poll_spec(*old(self), parent),
    {
        if self.finished {
            WatchAction::Exit
        } else if let Liveness::Gone = parent {
            self.finished = true;
            match self.dependent_pid {
                Some(pid) => WatchAction::Terminate(KillTarget::Pid(pid)),
                None => WatchAction::Terminate(KillTarget::ByName),
            }
        } else {
            WatchAction::Sleep(self.poll_interval_secs)
        }
    }
}

/// The session that ties the service `ollama_pid` to the host `parent_pid`,
/// checked at the default interval.
pub fn start_watchdog(parent_pid: u32, ollama_pid: u32) -> (r: WatchdogSession)
    ensures
        r == (WatchdogSession {
            parent_pid,
            dependent_pid: Some(ollama_pid),
            poll_interval_secs: DEFAULT_POLL_INTERVAL_SECS,
            finished: false,
        }),
{
    WatchdogSession::begin(parent_pid, Some(ollama_pid), DEFAULT_POLL_INTERVAL_SECS)
}

/// While the parent lives (or its liveness cannot be read), the session only
/// sleeps one interval at a time; at the first check that finds the parent
/// gone it orders the termination of the dependent, and from then on it only
/// exits. So the signal goes out at most one interval after the parent died.
pub proof fn lemma_parent_death_terminates_dependent(
    parent_pid: u32,
    dependent_pid: u32,
    interval: u64,
    alive: Seq<Liveness>,
    later: Seq<Liveness>,
)
    requires
        forall|i: int| 0 <= i < alive.len() ==> #[trigger] alive[i] != Liveness::Gone,
    ensures
        ({
            let s = WatchdogSession {
                parent_pid,
                dependent_pid: Some(dependent_pid),
                poll_interval_secs: interval,
                finished: false,
            };
            let checks = alive + seq![Liveness::Gone] + later;
            let (end, actions) = poll_all(s, checks);
            &&& actions.len() == checks.len()
            &&& forall|i: int| 0 <= i < alive.len() ==> #[trigger] actions[i] == WatchAction::Sleep(interval)
            &&& actions[alive.len() as int] == WatchAction::Terminate(KillTarget::Pid(dependent_pid))
            &&& forall|i: int| alive.len() < i < checks.len() ==> #[trigger] actions[i] == WatchAction::Exit
            &&& end.finished
        }),
    decreases alive.len(),
{
    let s = WatchdogSession {
        parent_pid,
        dependent_pid: Some(dependent_pid),
        poll_interval_secs: interval,
        finished: false,
    };
    let checks = alive + seq![Liveness::Gone] + later;
    if alive.len() == 0 {
        assert(checks.drop_first() =~= later);
        let done = WatchdogSession { finished: true, ..s };
        lemma_finished_only_exits(done, later);
    } else {
        let tail = alive.drop_first();
        assert forall|i: int| 0 <= i < tail.len() implies #[trigger] tail[i] != Liveness::Gone by {
            assert(tail[i] == alive[i + 1]);
        }
        lemma_parent_death_terminates_dependent(parent_pid, dependent_pid, interval, tail, later);
        assert(checks.drop_first() =~= tail + seq![Liveness::Gone] + later);
        assert(checks[0] == alive[0]);
        let (end, actions) = poll_all(s, checks);
        let rest = poll_all(s, tail + seq![Liveness::Gone] + later).1;
        assert(actions =~= seq![WatchAction::Sleep(interval)] + rest);
        assert forall|i: int| 0 <= i < alive.len() implies #[trigger] actions[i] == WatchAction::Sleep(interval) by {
            if i > 0 {
                assert(actions[i] == rest[i - 1]);
            }
        }
        assert forall|i: int| alive.len() < i < checks.len() implies #[trigger] actions[i] == WatchAction::Exit by {
            assert(actions[i] == rest[i - 1]);
        }
    }
}

/// A finished session only exits, whatever the checks find.
proof fn lemma_finished_only_exits(s: WatchdogSession, checks: Seq<Liveness>)
    requires
        s.finished,
    ensures
        poll_all(s, checks).0 == s,
        poll_all(s, checks).1 =~= Seq::new(checks.len(), |i: int| WatchAction::Exit),
    decreases checks.len(),
{
    if checks.len() > 0 {
        lemma_finished_only_exits(s, checks.drop_first());
    }
}

} // verus!
