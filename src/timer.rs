//! Countdown timer: the state that one ticking task and the command surface
//! share under a single lock.
//!
//! The ticking task itself (one iteration per second) lives with the host; it
//! hands back to [`CountdownTimer::tick`] the run token it was spawned with and
//! acts on the returned [`TickOutcome`]. The token is a cancellation token: a
//! task whose token is no longer current stops at its next iteration, so a
//! task that was paused and is still sleeping can never tick beside the task
//! that a later `resume` spawned.
use vstd::prelude::*;

verus! {

/// What one iteration of the ticking task must do.
#[derive(Clone, Copy, Debug, PartialEq, Eq, Structural)]
pub enum TickOutcome {
    /// Emit a tick event carrying the new remaining value, sleep a second, go on.
    Tick(u64),
    /// Emit the completion event and exit.
    Completed,
    /// The task was paused or superseded: exit without emitting anything.
    Stopped,
}

/// Countdown state: Idle until the first `start`, then Paused or Active.
#[derive(Clone, Copy, Debug)]
pub struct CountdownTimer {
    pub started: bool,
    pub is_active: bool,
    pub remaining: u64,
    /// Token of the ticking task that may decrement; only meaningful while active.
    pub run: u64,
}

/// State after `start(duration)`.
pub open spec fn start_spec(s: CountdownTimer, duration: u64) -> CountdownTimer {
    CountdownTimer { started: true, is_active: false, remaining: duration, run: s.run }
}

/// State after `pause`; the remaining value is kept.
pub open spec fn pause_spec(s: CountdownTimer) -> CountdownTimer {
    CountdownTimer { is_active: false, ..s }
}

/// The token after `run`, wrapping round after the largest value.
pub open spec fn next_token(run: u64) -> u64 {
    if run == u64::MAX { 0 } else { (run + 1) as u64 }
}

/// State after `resume`, and the token of the ticking task to spawn, if any.
pub open spec fn resume_spec(s: CountdownTimer) -> (CountdownTimer, Option<u64>) {
    if s.is_active {
        (s, None)
    } else {
        let token = next_token(s.run);
        (CountdownTimer { is_active: true, run: token, ..s }, Some(token))
    }
}

/// One iteration of the ticking task that holds `token`.
pub open spec fn tick_spec(s: CountdownTimer, token: u64) -> (CountdownTimer, TickOutcome) {
    if !s.is_active || token != s.run {
        (s, TickOutcome::Stopped)
    } else if s.remaining == 0 {
        (CountdownTimer { is_active: false, ..s }, TickOutcome::Completed)
    } else {
        let left = (s.remaining - 1) as u64;
        (CountdownTimer { remaining: left, ..s }, TickOutcome::Tick(left))
    }
}

/// Events that the timer sends to observers.
#[derive(Clone, Copy, Debug, PartialEq, Eq, Structural)]
pub enum TimerEvent {
    /// A tick event carrying the remaining seconds.
    Ticked(u64),
    /// The countdown reached zero.
    Completed,
}

/// A command on the timer, as the lock serialises them: the three user
/// commands, and one iteration of the ticking task holding a token.
#[derive(Clone, Copy, Debug, PartialEq, Eq, Structural)]
pub enum TimerCommand {
    Start(u64),
    Pause,
    Resume,
    Tick(u64),
}

/// The idle timer.
pub open spec fn idle_spec() -> CountdownTimer {
    CountdownTimer { started: false, is_active: false, remaining: 0, run: 0 }
}

/// Effect of one command: the next state and the event emitted, if any.
pub open spec fn step_spec(s: CountdownTimer, c: TimerCommand) -> (CountdownTimer, Option<TimerEvent>) {
    match c {
        TimerCommand::Start(d) => (start_spec(s, d), Some(TimerEvent::Ticked(d))),
        TimerCommand::Pause => (pause_spec(s), None),
        TimerCommand::Resume => (resume_spec(s).0, None),
        TimerCommand::Tick(token) => {
            let (next, outcome) = tick_spec(s, token);
            match outcome {
                TickOutcome::Tick(v) => (next, Some(TimerEvent::Ticked(v))),
                TickOutcome::Completed => (next, Some(TimerEvent::Completed)),
                TickOutcome::Stopped => (next, None),
            }
        },
    }
}

/// State reached from `s` by the commands `cmds`, and the events emitted on the way.
pub open spec fn run_commands(s: CountdownTimer, cmds: Seq<TimerCommand>) -> (CountdownTimer, Seq<TimerEvent>)
    decreases cmds.len(),
{
    if cmds.len() == 0 {
        (s, Seq::empty())
    } else {
        let (before, events) = run_commands(s, cmds.drop_last());
        let (after, emitted) = step_spec(before, cmds.last());
        match emitted {
            Some(e) => (after, events.push(e)),
            None => (after, events),
        }
    }
}

/// The value of the last tick event among `events`, if there is one.
pub open spec fn last_shown(events: Seq<TimerEvent>) -> Option<u64>
    decreases events.len(),
{
    if events.len() == 0 {
        None
    } else {
        match events.last() {
            TimerEvent::Ticked(v) => Some(v),
            TimerEvent::Completed => last_shown(events.drop_last()),
        }
    }
}

/// State after `n` iterations of the ticking task holding `token`, and their outcomes.
pub open spec fn run_ticker(s: CountdownTimer, token: u64, n: nat) -> (CountdownTimer, Seq<TickOutcome>)
    decreases n,
{
    if n == 0 {
        (s, Seq::empty())
    } else {
        let (next, first) = tick_spec(s, token);
        let (end, rest) = run_ticker(next, token, (n - 1) as nat);
        (end, seq![first] + rest)
    }
}

/// Outcomes of a task that starts from `remaining` and ticks to completion:
/// `remaining - 1`, ..., `0`, then the completion.
pub open spec fn countdown_outcomes(remaining: u64) -> Seq<TickOutcome> {
    Seq::new(
        (remaining + 1) as nat,
        |i: int|
            if i < remaining {
                TickOutcome::Tick((remaining - 1 - i) as u64)
            } else {
                TickOutcome::Completed
            },
    )
}

/// An active task whose token is current ticks `k` times, for `k` up to one
/// more than the remaining value, giving the first `k` outcomes of the countdown.
proof fn lemma_ticks_from(s: CountdownTimer, k: nat)
    requires
        s.is_active,
        k <= s.remaining + 1,
    ensures
        run_ticker(s, s.run, k).1 == countdown_outcomes(s.remaining).take(k as int),
        k <= s.remaining ==> run_ticker(s, s.run, k).0 == (CountdownTimer {
            remaining: (s.remaining - k) as u64,
            ..s
        }),
        k == s.remaining + 1 ==> run_ticker(s, s.run, k).0 == (CountdownTimer {
            is_active: false,
            remaining: 0,
            ..s
        }),
    decreases k,
{
    if k > 0 {
        let (next, first) = tick_spec(s, s.run);
        if s.remaining > 0 {
            lemma_ticks_from(next, (k - 1) as nat);
            assert(run_ticker(s, s.run, k).1 =~= countdown_outcomes(s.remaining).take(k as int));
        } else {
            assert(run_ticker(next, s.run, 0).1 =~= Seq::<TickOutcome>::empty());
            assert(run_ticker(s, s.run, k).1 =~= countdown_outcomes(s.remaining).take(k as int));
        }
    } else {
        assert(run_ticker(s, s.run, k).1 =~= countdown_outcomes(s.remaining).take(k as int));
    }
}

/// Starting the timer with `duration` and resuming it spawns one ticking
/// task. Left to run, that task emits exactly `duration` tick events with the
/// values `duration - 1` down to `0`, then one completion event, and leaves
/// the timer inactive at zero; any further iteration stops without an event.
pub proof fn lemma_start_resume_runs_to_completion(s: CountdownTimer, duration: u64)
    ensures
        ({
            let started = start_spec(s, duration);
            let (running, spawned) = resume_spec(started);
            let token = running.run;
            let (end, outcomes) = run_ticker(running, token, (duration + 1) as nat);
            &&& spawned == Some(token)
            &&& outcomes == countdown_outcomes(duration)
            &&& !end.is_active && end.remaining == 0
            &&& tick_spec(end, token) == (end, TickOutcome::Stopped)
        }),
{
    let started = start_spec(s, duration);
    let running = resume_spec(started).0;
    lemma_ticks_from(running, (duration + 1) as nat);
    assert(countdown_outcomes(duration).take(duration + 1) =~= countdown_outcomes(duration));
}

/// Whether `c` is a `pause` or an iteration of a ticking task.
pub open spec fn is_pause_or_tick(c: TimerCommand) -> bool {
    c matches TimerCommand::Pause || c matches TimerCommand::Tick(_)
}

/// A paused timer stays silent: until a `resume` (or a new `start`), no
/// command emits an event, none changes the remaining value, and the timer
/// stays inactive.
pub proof fn lemma_paused_timer_is_silent(s: CountdownTimer, cmds: Seq<TimerCommand>)
    requires
        forall|i: int| 0 <= i < cmds.len() ==> is_pause_or_tick(#[trigger] cmds[i]),
    ensures
        run_commands(pause_spec(s), cmds).1.len() == 0,
        run_commands(pause_spec(s), cmds).0.remaining == s.remaining,
        !run_commands(pause_spec(s), cmds).0.is_active,
    decreases cmds.len(),
{
    if cmds.len() > 0 {
        lemma_paused_timer_is_silent(s, cmds.drop_last());
    }
}

/// After any sequence of commands on an idle timer, once the timer has been
/// started, its remaining value equals the value of the last tick event
/// emitted (the duration itself when no tick has fired since the start). So
/// the value that `pause` returns is the one observers saw last.
pub proof fn lemma_pause_returns_last_shown(cmds: Seq<TimerCommand>)
    ensures
        ({
            let (s, events) = run_commands(idle_spec(), cmds);
            &&& s.started ==> last_shown(events) == Some(s.remaining)
            &&& !s.started ==> last_shown(events) == None::<u64> && s.remaining == 0
            &&& s.started ==> last_shown(events) == Some(pause_spec(s).remaining)
        }),
    decreases cmds.len(),
{
    if cmds.len() > 0 {
        lemma_pause_returns_last_shown(cmds.drop_last());
        let (before, events) = run_commands(idle_spec(), cmds.drop_last());
        let (after, emitted) = step_spec(before, cmds.last());
        if let Some(e) = emitted {
            assert(events.push(e).drop_last() =~= events);
        }
    } else {
        assert(run_commands(idle_spec(), cmds).1.len() == 0);
    }
}

/// A second `resume` without a `pause` in between spawns nothing and changes
/// nothing, and a task holding any token but the current one stops at once:
/// after `start(duration)` and two resumes exactly one task decrements, and
/// it emits `duration` tick events, not twice as many.
pub proof fn lemma_double_resume_single_ticker(s: CountdownTimer, duration: u64, other: u64)
    ensures
        ({
            let started = start_spec(s, duration);
            let (once, first) = resume_spec(started);
            let (twice, second) = resume_spec(once);
            &&& first == Some(once.run)
            &&& second == None::<u64>
            &&& twice == once
            &&& other != once.run ==> tick_spec(twice, other) == (twice, TickOutcome::Stopped)
            &&& run_ticker(twice, once.run, (duration + 1) as nat).1 == countdown_outcomes(duration)
        }),
{
    lemma_start_resume_runs_to_completion(s, duration);
}

impl CountdownTimer {
    /// An idle timer: never started, nothing remaining, no ticking task.
    pub fn new() -> (r: CountdownTimer)
        ensures
            r == idle_spec(),
    {
        CountdownTimer { started: false, is_active: false, remaining: 0, run: 0 }
    }

    /// Sets the remaining time to `duration` and makes the timer inactive.
    /// Returns the value of the tick event to emit at once, so that observers
    /// see the new duration before any ticking begins. Spawns nothing.
    pub fn start(&mut self, duration: u64) -> (shown: u64)
        ensures
            *final(self) == start_spec(*old(self), duration),
            shown == duration,
    {
        self.started = true;
        self.is_active = false;
        self.remaining = duration;
        duration
    }

    /// Stops ticking and returns the remaining value, read together with the
    /// change. Pausing a paused timer changes nothing and returns the same value.
    pub fn pause(&mut self) -> (remaining: u64)
        ensures
            *final(self) == pause_spec(*old(self)),
            remaining == old(self).remaining,
    {
        self.is_active = false;
        self.remaining
    }

    /// Makes the timer active. Returns the token of the one ticking task to
    /// spawn, or `None` when a task is already ticking.
    pub fn resume(&mut self) -> (spawn: Option<u64>)
        ensures
            (*final(self), spawn) == resume_spec(*old(self)),
    {
        if self.is_active {
            None
        } else {
            let token: u64 = if self.run == u64::MAX { 0 } else { self.run + 1 };
            self.is_active = true;
            self.run = token;
            Some(token)
        }
    }

    /// One iteration of the ticking task holding `token`, run under the lock.
    pub fn tick(&mut self, token: u64) -> (outcome: TickOutcome)
        ensures
            (*final(self), outcome) == tick_spec(*old(self), token),
    {
        if !self.is_active || token != self.run {
            TickOutcome::Stopped
        } else if self.remaining == 0 {
            self.is_active = false;
            TickOutcome::Completed
        } else {
            self.remaining = self.remaining - 1;
            TickOutcome::Tick(self.remaining)
        }
    }
}

} // verus!
