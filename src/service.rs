//! Decisions of the service supervisor: which processes `stop` signals, when
//! `stop` has succeeded, and the steps of `start` and `restart`.
//!
//! The companion service binds one well-known TCP port; `stop` reclaims it by
//! signalling every process that owns the port, whether or not this host
//! spawned it. That also reaches an unrelated program that happens to bind the
//! same port: a known risk of this policy.
use vstd::prelude::*;

verus! {

/// The TCP port that the companion service binds.
pub const SERVICE_PORT: u16 = 11434;

/// File name of the service executable, found beside the host's own executable.
pub const SERVICE_EXECUTABLE: &'static str = "ollama-darwin-0.5.4";

/// The argument that the service executable is started with.
pub const SERVICE_ARGUMENT: &'static str = "serve";

/// The execute permission bits of owner, group and others.
pub const EXECUTE_BITS: u32 = 0o111;

/// Line break in a listing of port owners.
pub const NEWLINE: u8 = 10;

/// Whether `b` is an ASCII decimal digit.
pub open spec fn is_digit(b: u8) -> bool {
    48 <= b && b <= 57
}

/// Whether every byte of `line` is a decimal digit.
pub open spec fn all_digits(line: Seq<u8>) -> bool {
    forall|k: int| 0 <= k < line.len() ==> is_digit(#[trigger] line[k])
}

/// The number that the decimal digits of `line` spell.
pub open spec fn decimal_value(line: Seq<u8>) -> int
    decreases line.len(),
{
    if line.len() == 0 {
        0
    } else {
        decimal_value(line.drop_last()) * 10 + (line.last() - 48)
    }
}

/// Whether `line` names a process: one or more digits spelling a pid from 1 to
/// `u32::MAX`. Pid 0 never stands for a single process, so it is never taken.
pub open spec fn is_pid_line(line: Seq<u8>) -> bool {
    &&& line.len() > 0
    &&& all_digits(line)
    &&& 0 < decimal_value(line) <= u32::MAX
}

/// Length of the line of `s` that starts at `from`, up to the next line break.
pub open spec fn line_len(s: Seq<u8>, from: int) -> nat
    decreases s.len() - from,
{
    if from < 0 || from >= s.len() || s[from] == NEWLINE {
        0
    } else {
        1 + line_len(s, from + 1)
    }
}

/// A line never runs past the end of the listing.
pub proof fn lemma_line_len_bound(s: Seq<u8>, from: int)
    requires
        0 <= from <= s.len(),
    ensures
        line_len(s, from) <= s.len() - from,
    decreases s.len() - from,
{
    if from < s.len() && s[from] != NEWLINE {
        lemma_line_len_bound(s, from + 1);
    }
}

/// The pids named by the lines of `s` from offset `from` on, in order; lines
/// that name no pid are passed over.
pub open spec fn owners_from(s: Seq<u8>, from: int) -> Seq<u32>
    decreases s.len() + 1 - from,
{
    if from < 0 || from >= s.len() {
        Seq::empty()
    } else {
        proof {
            lemma_line_len_bound(s, from);
        }
        let line = s.subrange(from, from + line_len(s, from));
        let rest = owners_from(s, from + line_len(s, from) + 1);
        if is_pid_line(line) {
            seq![decimal_value(line) as u32] + rest
        } else {
            rest
        }
    }
}

/// The pids that a listing of port owners names, one per line.
pub open spec fn port_owners_spec(listing: Seq<u8>) -> Seq<u32> {
    owners_from(listing, 0)
}

proof fn lemma_decimal_grows(line: Seq<u8>)
    requires
        line.len() > 0,
        all_digits(line),
    ensures
        decimal_value(line) >= decimal_value(line.drop_last()),
        decimal_value(line.drop_last()) >= 0,
    decreases line.len(),
{
    if line.len() > 1 {
        lemma_decimal_grows(line.drop_last());
    }
}

/// A line that holds no break and ends at a break or at the end of `s` has
/// exactly its own length.
proof fn lemma_line_len(s: Seq<u8>, from: int, end: int)
    requires
        0 <= from <= end <= s.len(),
        forall|k: int| from <= k < end ==> s[k] != NEWLINE,
        end == s.len() || s[end] == NEWLINE,
    ensures
        line_len(s, from) == end - from,
    decreases end - from,
{
    if from < end {
        lemma_line_len(s, from + 1, end);
    }
}

/// Reads the pids that own the service port from a listing with one pid per
/// line (the terse output of a tool that lists open sockets). Lines that are
/// empty, hold anything but digits, or spell 0 or a number beyond `u32::MAX`
/// name no process and are passed over.
pub fn port_owners(listing: &[u8]) -> (pids: Vec<u32>)
    ensures
        pids@ == port_owners_spec(listing@),
{
    let n = listing.len();
    let mut pids: Vec<u32> = Vec::new();
    let mut start: usize = 0;
    let mut i: usize = 0;
    let mut value: u64 = 0;
    let mut fits: bool = true;
    while i < n
        invariant
            n == listing@.len(),
            start <= i <= n,
            forall|k: int| start <= k < i ==> listing@[k] != NEWLINE,
            pids@ + owners_from(listing@, start as int) == port_owners_spec(listing@),
            fits == (all_digits(listing@.subrange(start as int, i as int))
                && decimal_value(listing@.subrange(start as int, i as int)) <= u32::MAX),
            fits ==> value == decimal_value(listing@.subrange(start as int, i as int)),
        decreases n - i,
    {
        let b = listing[i];
        let ghost before = listing@.subrange(start as int, i as int);
        let ghost after = listing@.subrange(start as int, i + 1);
        if b == NEWLINE {
            proof {
                lemma_line_len(listing@, start as int, i as int);
            }
            if fits && start < i && value > 0 {
                pids.push(value as u32);
                proof {
                    assert(pids@ + owners_from(listing@, i + 1) =~= port_owners_spec(listing@));
                }
            }
            start = i + 1;
            value = 0;
            fits = true;
            proof {
                assert(listing@.subrange(start as int, start as int) =~= Seq::<u8>::empty());
            }
        } else {
            proof {
                assert(after.drop_last() =~= before);
                assert(after.last() == b);
                assert forall|k: int| 0 <= k < before.len() implies before[k] == #[trigger] after[k] by {}
            }
            if fits && 48 <= b && b <= 57 {
                let next = value * 10 + (b - 48) as u64;
                if next <= 0xffff_ffff {
                    value = next;
                } else {
                    fits = false;
                }
            } else {
                proof {
                    if all_digits(after) {
                        assert(is_digit(after[after.len() - 1]));
                        lemma_decimal_grows(after);
                    }
                }
                fits = false;
            }
        }
        i = i + 1;
    }
    proof {
        assert(owners_from(listing@, n + 1) =~= Seq::<u32>::empty());
        if start < n {
            lemma_line_len(listing@, start as int, n as int);
        } else {
            assert(owners_from(listing@, start as int) =~= Seq::<u32>::empty());
        }
    }
    if fits && start < n && value > 0 {
        pids.push(value as u32);
        proof {
            assert(pids@ + owners_from(listing@, n + 1) =~= port_owners_spec(listing@));
        }
    }
    proof {
        assert(pids@ + Seq::<u32>::empty() =~= pids@);
    }
    pids
}

/// How signalling one process ended.
#[derive(Clone, Copy, Debug, PartialEq, Eq, Structural)]
pub enum SignalResult {
    /// The process received the termination signal.
    Delivered,
    /// No such process exists (any more): nothing was left to stop.
    NoSuchProcess,
    /// The signal could not be sent (for one, permission was denied).
    Refused,
}

/// The result of signalling the process `pid`.
#[derive(Clone, Copy, Debug, PartialEq, Eq, Structural)]
pub struct SignalReport {
    pub pid: u32,
    pub result: SignalResult,
}

/// Why `stop` failed.
#[derive(Clone, Copy, Debug, PartialEq, Eq, Structural)]
pub enum StopError {
    /// The owners of the service port could not be listed.
    QueryFailed,
    /// The process with this pid owns the port and could not be signalled.
    SignalFailed(u32),
}

/// The pid of the first report whose signal was refused, if any.
pub open spec fn first_refused(reports: Seq<SignalReport>) -> Option<u32>
    decreases reports.len(),
{
    if reports.len() == 0 {
        None
    } else if reports[0].result == SignalResult::Refused {
        Some(reports[0].pid)
    } else {
        first_refused(reports.drop_first())
    }
}

/// Result of `stop` once the port owners were listed (or not) and each was signalled.
pub open spec fn stop_outcome_spec(listed: bool, reports: Seq<SignalReport>) -> Result<(), StopError> {
    if !listed {
        Err(StopError::QueryFailed)
    } else {
        match first_refused(reports) {
            None => Ok(()),
            Some(pid) => Err(StopError::SignalFailed(pid)),
        }
    }
}

proof fn lemma_first_refused(reports: Seq<SignalReport>)
    ensures
        first_refused(reports) is None <==> forall|i: int|
            0 <= i < reports.len() ==> #[trigger] reports[i].result != SignalResult::Refused,
        first_refused(reports) matches Some(pid) ==> exists|i: int|
            0 <= i < reports.len() && #[trigger] reports[i].result == SignalResult::Refused
                && reports[i].pid == pid,
    decreases reports.len(),
{
    if reports.len() > 0 {
        lemma_first_refused(reports.drop_first());
        if first_refused(reports) is None {
            assert forall|i: int| 0 <= i < reports.len() implies #[trigger] reports[i].result
                != SignalResult::Refused by {
                if i > 0 {
                    assert(reports.drop_first()[i - 1] == reports[i]);
                }
            }
        }
        if reports[0].result != SignalResult::Refused {
            if let Some(pid) = first_refused(reports) {
                let j = choose|j: int|
                    0 <= j < reports.drop_first().len() && #[trigger] reports.drop_first()[j].result
                        == SignalResult::Refused && reports.drop_first()[j].pid == pid;
                assert(reports[j + 1] == reports.drop_first()[j]);
            }
            if first_refused(reports) is Some {
                let j = choose|j: int|
                    0 <= j < reports.drop_first().len() && #[trigger] reports.drop_first()[j].result
                        == SignalResult::Refused;
                assert(reports[j + 1] == reports.drop_first()[j]);
            }
        }
    }
}

/// Decides how `stop` ended. `listed` tells whether the owners of the service
/// port could be listed; `reports` holds the result of signalling each owner.
/// A process that no longer exists counts as stopped: finding nothing to stop
/// is success. The first refused signal is the error.
pub fn stop_outcome(listed: bool, reports: &Vec<SignalReport>) -> (r: Result<(), StopError>)
    ensures
        r == stop_outcome_spec(listed, reports@),
        r is Ok <==> listed && forall|i: int|
            0 <= i < reports@.len() ==> #[trigger] reports@[i].result != SignalResult::Refused,
        r matches Err(StopError::SignalFailed(pid)) ==> exists|i: int|
            0 <= i < reports@.len() && #[trigger] reports@[i].result == SignalResult::Refused
                && reports@[i].pid == pid,
{
    proof {
        lemma_first_refused(reports@);
    }
    if !listed {
        return Err(StopError::QueryFailed);
    }
    let mut i: usize = 0;
    proof {
        assert(reports@.subrange(0, reports@.len() as int) =~= reports@);
    }
    while i < reports.len()
        invariant
            listed,
            i <= reports@.len(),
            first_refused(reports@) == first_refused(reports@.subrange(i as int, reports@.len() as int)),
        decreases reports@.len() - i,
    {
        let report = reports[i];
        proof {
            let rest = reports@.subrange(i as int, reports@.len() as int);
            assert(rest.drop_first() =~= reports@.subrange(i + 1, reports@.len() as int));
            assert(rest[0] == report);
        }
        if let SignalResult::Refused = report.result {
            return Err(StopError::SignalFailed(report.pid));
        }
        i = i + 1;
    }
    proof {
        assert(reports@.subrange(i as int, reports@.len() as int) =~= Seq::<SignalReport>::empty());
    }
    Ok(())
}

/// `stop` on a service with nothing bound to its port succeeds. With one
/// signal report for each pid that the listing names, a listing that names
/// none (an empty one among them) leaves nothing to signal, and that is
/// success; so is a stop whose every target had already gone.
pub proof fn lemma_stop_without_owner_succeeds(listing: Seq<u8>, reports: Seq<SignalReport>)
    requires
        reports.len() == port_owners_spec(listing).len(),
        forall|i: int| 0 <= i < reports.len() ==> #[trigger] reports[i].pid == port_owners_spec(listing)[i],
    ensures
        port_owners_spec(Seq::empty()).len() == 0,
        port_owners_spec(listing).len() == 0 ==> stop_outcome_spec(true, reports) == Ok::<(), StopError>(()),
        (forall|i: int| 0 <= i < reports.len() ==> #[trigger] reports[i].result == SignalResult::NoSuchProcess)
            ==> stop_outcome_spec(true, reports) == Ok::<(), StopError>(()),
{
    lemma_first_refused(reports);
}

/// A step of starting the service, carried out by the host.
#[derive(Clone, Copy, Debug, PartialEq, Eq, Structural)]
pub enum StartStep {
    /// Stop whatever owns the service port; a failure here is ignored.
    ClearPort,
    /// Resolve the service executable beside the host's own executable.
    Locate,
    /// Give the executable its execute bits (see [`executable_mode`]).
    MakeExecutable,
    /// Spawn the executable with [`SERVICE_ARGUMENT`].
    Spawn,
    /// Begin a watchdog session that ties the service with this pid to the host.
    Watch(u32),
}

/// How a step ended.
#[derive(Clone, Copy, Debug, PartialEq, Eq, Structural)]
pub enum StepReport {
    Succeeded,
    Failed,
    /// The service was spawned with this pid.
    Spawned(u32),
}

/// Why starting the service failed.
#[derive(Clone, Copy, Debug, PartialEq, Eq, Structural)]
pub enum SpawnError {
    /// The executable could not be found.
    NotFound,
    /// The executable could not be made executable.
    PermissionDenied,
    /// The operating system refused to spawn it.
    SpawnFailed,
    /// The service with this pid runs, but no watchdog could be begun for it.
    WatchdogFailed(u32),
}

/// Where a start stands.
#[derive(Clone, Copy, Debug, PartialEq, Eq, Structural)]
pub enum StartProgress {
    /// This step is to be carried out next.
    Pending(StartStep),
    /// The service runs with this pid and is watched.
    Running(u32),
    Failed(SpawnError),
}

/// Progress after the pending step ended as `report`; a finished start stays as it is.
pub open spec fn advance_spec(p: StartProgress, report: StepReport) -> StartProgress {
    match p {
        StartProgress::Pending(step) => match step {
            StartStep::ClearPort => StartProgress::Pending(StartStep::Locate),
            StartStep::Locate => if report == StepReport::Succeeded {
                StartProgress::Pending(StartStep::MakeExecutable)
            } else {
                StartProgress::Failed(SpawnError::NotFound)
            },
            StartStep::MakeExecutable => if report == StepReport::Succeeded {
                StartProgress::Pending(StartStep::Spawn)
            } else {
                StartProgress::Failed(SpawnError::PermissionDenied)
            },
            StartStep::Spawn => match report {
                StepReport::Spawned(pid) => StartProgress::Pending(StartStep::Watch(pid)),
                _ => StartProgress::Failed(SpawnError::SpawnFailed),
            },
            StartStep::Watch(pid) => if report == StepReport::Succeeded {
                StartProgress::Running(pid)
            } else {
                StartProgress::Failed(SpawnError::WatchdogFailed(pid))
            },
        },
        _ => p,
    }
}

/// Progress after the pending steps ended as `reports`, one after another.
pub open spec fn advance_all(p: StartProgress, reports: Seq<StepReport>) -> StartProgress
    decreases reports.len(),
{
    if reports.len() == 0 {
        p
    } else {
        advance_all(advance_spec(p, reports[0]), reports.drop_first())
    }
}

/// One start, or restart, of the service. The host asks for the next step,
/// carries it out, and reports how it ended, until the start is finished.
#[derive(Clone, Copy, Debug)]
pub struct ServiceStart {
    pub progress: StartProgress,
}

impl ServiceStart {
    /// A start; `clear_port` asks first for the best-effort stop of whatever
    /// owns the service port, as the platforms that need it do.
    pub fn start(clear_port: bool) -> (r: ServiceStart)
        ensures
            r.progress == StartProgress::Pending(
                if clear_port { StartStep::ClearPort } else { StartStep::Locate },
            ),
    {
        if clear_port {
            ServiceStart { progress: StartProgress::Pending(StartStep::ClearPort) }
        } else {
            ServiceStart { progress: StartProgress::Pending(StartStep::Locate) }
        }
    }

    /// A restart: a stop whose failure is ignored, then a start.
    pub fn restart() -> (r: ServiceStart)
        ensures
            r.progress == StartProgress::Pending(StartStep::ClearPort),
    {
        ServiceStart { progress: StartProgress::Pending(StartStep::ClearPort) }
    }

    /// The step to carry out next, or `None` once the start is finished.
    pub fn next_step(&self) -> (step: Option<StartStep>)
        ensures
            step == (match self.progress {
                StartProgress::Pending(s) => Some(s),
                _ => None,
            }),
    {
        match self.progress {
            StartProgress::Pending(s) => Some(s),
            _ => None,
        }
    }

    /// Records how the pending step ended.
    pub fn advance(&mut self, report: StepReport)
        ensures
            final(self).progress == advance_spec(old(self).progress, report),
    {
        let next = match self.progress {
            StartProgress::Pending(step) => match step {
                StartStep::ClearPort => StartProgress::Pending(StartStep::Locate),
                StartStep::Locate => match report {
                    StepReport::Succeeded => StartProgress::Pending(StartStep::MakeExecutable),
                    _ => StartProgress::Failed(SpawnError::NotFound),
                },
                StartStep::MakeExecutable => match report {
                    StepReport::Succeeded => StartProgress::Pending(StartStep::Spawn),
                    _ => StartProgress::Failed(SpawnError::PermissionDenied),
                },
                StartStep::Spawn => match report {
                    StepReport::Spawned(pid) => StartProgress::Pending(StartStep::Watch(pid)),
                    _ => StartProgress::Failed(SpawnError::SpawnFailed),
                },
                StartStep::Watch(pid) => match report {
                    StepReport::Succeeded => StartProgress::Running(pid),
                    _ => StartProgress::Failed(SpawnError::WatchdogFailed(pid)),
                },
            },
            other => other,
        };
        self.progress = next;
    }

    /// The result of a finished start: the pid of the running service, or
    /// why it failed; `None` while a step is pending.
    pub fn outcome(&self) -> (r: Option<Result<u32, SpawnError>>)
        ensures
            r == (match self.progress {
                StartProgress::Pending(_) => None,
                StartProgress::Running(pid) => Some(Ok(pid)),
                StartProgress::Failed(e) => Some(Err(e)),
            }),
    {
        match self.progress {
            StartProgress::Pending(_) => None,
            StartProgress::Running(pid) => Some(Ok(pid)),
            StartProgress::Failed(e) => Some(Err(e)),
        }
    }
}

/// A restart is resilient to finding nothing to stop: however its stop ends,
/// it goes on exactly as a start without the stop, and with every later step
/// succeeding it ends with the spawned service running.
pub proof fn lemma_restart_ignores_stop_failure(stop: StepReport, rest: Seq<StepReport>, pid: u32)
    ensures
        advance_all(StartProgress::Pending(StartStep::ClearPort), seq![stop] + rest)
            == advance_all(StartProgress::Pending(StartStep::Locate), rest),
        advance_all(
            StartProgress::Pending(StartStep::ClearPort),
            seq![stop, StepReport::Succeeded, StepReport::Succeeded, StepReport::Spawned(pid), StepReport::Succeeded],
        ) == StartProgress::Running(pid),
{
    assert((seq![stop] + rest).drop_first() =~= rest);
    let all = seq![stop, StepReport::Succeeded, StepReport::Succeeded, StepReport::Spawned(pid), StepReport::Succeeded];
    assert(all.drop_first().drop_first().drop_first().drop_first().drop_first() =~= Seq::<StepReport>::empty());
    reveal_with_fuel(advance_all, 6);
}

/// Mode bits that make a file executable by owner, group and others, keeping
/// every other bit of `mode`.
pub fn executable_mode(mode: u32) -> (r: u32)
    ensures
        r & EXECUTE_BITS == EXECUTE_BITS,
        r & !EXECUTE_BITS == mode & !EXECUTE_BITS,
        mode & EXECUTE_BITS == EXECUTE_BITS ==> r == mode,
{
    let r = mode | EXECUTE_BITS;
    assert(r & 0o111u32 == 0o111u32 && r & !0o111u32 == mode & !0o111u32
        && (mode & 0o111u32 == 0o111u32 ==> r == mode)) by (bit_vector)
        requires r == mode | 0o111u32;
    r
}

} // verus!
