use focu::timer::{CountdownTimer, TickOutcome};

fn run_to_end(timer: &mut CountdownTimer, token: u64) -> Vec<TickOutcome> {
    let mut outcomes = Vec::new();
    loop {
        let outcome = timer.tick(token);
        outcomes.push(outcome);
        if !matches!(outcome, TickOutcome::Tick(_)) {
            break;
        }
    }
    outcomes
}

#[test]
fn start_then_resume_counts_down_to_completion() {
    let mut timer = CountdownTimer::new();
    assert_eq!(timer.start(3), 3);
    let token = timer.resume().expect("a ticking task is spawned");
    let outcomes = run_to_end(&mut timer, token);
    assert_eq!(
        outcomes,
        vec![
            TickOutcome::Tick(2),
            TickOutcome::Tick(1),
            TickOutcome::Tick(0),
            TickOutcome::Completed
        ]
    );
    assert!(!timer.is_active);
    assert_eq!(timer.remaining, 0);
    assert_eq!(timer.tick(token), TickOutcome::Stopped);
}

#[test]
fn zero_duration_completes_without_ticks() {
    let mut timer = CountdownTimer::new();
    assert_eq!(timer.start(0), 0);
    let token = timer.resume().unwrap();
    assert_eq!(timer.tick(token), TickOutcome::Completed);
    assert_eq!(timer.tick(token), TickOutcome::Stopped);
}

#[test]
fn start_does_not_begin_ticking() {
    let mut timer = CountdownTimer::new();
    timer.start(10);
    assert!(timer.started);
    assert!(!timer.is_active);
    assert_eq!(timer.tick(timer.run), TickOutcome::Stopped);
    assert_eq!(timer.remaining, 10);
}

#[test]
fn pause_resume_scenario() {
    let mut timer = CountdownTimer::new();
    timer.start(5);
    let first = timer.resume().unwrap();
    // two seconds of ticking: the task ticks at once, then once a second
    assert_eq!(timer.tick(first), TickOutcome::Tick(4));
    assert_eq!(timer.tick(first), TickOutcome::Tick(3));
    assert_eq!(timer.pause(), 3);
    let second = timer.resume().unwrap();
    assert_ne!(first, second);
    // the paused task wakes up and stops
    assert_eq!(timer.tick(first), TickOutcome::Stopped);
    assert_eq!(timer.tick(second), TickOutcome::Tick(2));
    assert_eq!(timer.tick(second), TickOutcome::Tick(1));
    assert_eq!(timer.tick(second), TickOutcome::Tick(0));
    assert_eq!(timer.tick(second), TickOutcome::Completed);
    assert_eq!(timer.tick(second), TickOutcome::Stopped);
    assert_eq!(timer.tick(first), TickOutcome::Stopped);
}

#[test]
fn pause_halts_ticks_and_reports_last_value() {
    let mut timer = CountdownTimer::new();
    timer.start(4);
    assert_eq!(timer.pause(), 4);
    let token = timer.resume().unwrap();
    assert_eq!(timer.tick(token), TickOutcome::Tick(3));
    assert_eq!(timer.pause(), 3);
    for _ in 0..5 {
        assert_eq!(timer.tick(token), TickOutcome::Stopped);
    }
    assert_eq!(timer.remaining, 3);
    assert_eq!(timer.pause(), 3);
    assert!(!timer.is_active);
}

#[test]
fn double_resume_spawns_one_task() {
    let mut timer = CountdownTimer::new();
    timer.start(4);
    let token = timer.resume().unwrap();
    assert_eq!(timer.resume(), None);
    let mut ticks = 0;
    loop {
        match timer.tick(token) {
            TickOutcome::Tick(_) => ticks += 1,
            _ => break,
        }
    }
    assert_eq!(ticks, 4);
}

#[test]
fn resume_before_start_completes_at_once() {
    let mut timer = CountdownTimer::new();
    assert!(!timer.started);
    let token = timer.resume().unwrap();
    assert_eq!(timer.tick(token), TickOutcome::Completed);
}

#[test]
fn token_wraps_after_largest() {
    let mut timer = CountdownTimer::new();
    timer.run = u64::MAX;
    timer.start(1);
    assert_eq!(timer.resume(), Some(0));
    assert_eq!(timer.tick(u64::MAX), TickOutcome::Stopped);
    assert_eq!(timer.tick(0), TickOutcome::Tick(0));
}

#[test]
fn restart_while_ticking_stops_the_task() {
    let mut timer = CountdownTimer::new();
    timer.start(3);
    let token = timer.resume().unwrap();
    assert_eq!(timer.tick(token), TickOutcome::Tick(2));
    assert_eq!(timer.start(7), 7);
    assert_eq!(timer.tick(token), TickOutcome::Stopped);
    assert_eq!(timer.remaining, 7);
}
