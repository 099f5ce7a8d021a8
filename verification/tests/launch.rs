use promethean_light_ui::launch::{
    Action, Event, LaunchAttempt, LaunchError, LaunchOutcome, Supervisor, MAX_ATTEMPTS,
    POLL_DELAY_SECS,
};
use promethean_light_ui::query::Reply;
use promethean_light_ui::status::HttpStatus;

const READY: &str = "Daemon started successfully";
const UNCONFIRMED: &str =
    "Daemon process started. It may still be loading - click 'Retry Connection' in a moment.";

fn answered(code: u16) -> Reply {
    Reply::Answered { status: HttpStatus::from_u16(code).unwrap() }
}

fn refused() -> Reply {
    Reply::Unreachable { reason: "connection refused".to_string() }
}

struct Trace {
    outcome: LaunchOutcome,
    spawns: u32,
    waits: u32,
    waited_secs: u64,
    probes: Vec<LaunchAttempt>,
    attempts: u32,
}

/// Plays the shell's part: carries out each move and reports back. The
/// daemon answers probe `n` with `health(n)`.
fn drive(spawn: Result<(), String>, health: &dyn Fn(u32) -> Reply) -> Trace {
    let mut supervisor = Supervisor::new();
    let mut action = supervisor.pending();
    let mut trace = Trace {
        outcome: LaunchOutcome::Unconfirmed,
        spawns: 0,
        waits: 0,
        waited_secs: 0,
        probes: Vec::new(),
        attempts: 0,
    };
    for _ in 0..100 {
        let event = match action {
            Action::Spawn => {
                trace.spawns += 1;
                match &spawn {
                    Ok(()) => Event::Spawned,
                    Err(reason) => Event::SpawnFailed { reason: reason.clone() },
                }
            }
            Action::Wait { secs } => {
                trace.waits += 1;
                trace.waited_secs += secs;
                Event::Waited
            }
            Action::Probe { attempt } => {
                trace.probes.push(attempt);
                Event::Probed { reply: health(attempt.attempt_number) }
            }
            Action::Finish { outcome } => {
                assert!(supervisor.is_finished());
                trace.outcome = outcome;
                trace.attempts = supervisor.attempts();
                assert_eq!(supervisor.waited_secs(), trace.waited_secs);
                return trace;
            }
        };
        assert!(!supervisor.is_finished());
        let next = supervisor.step(event);
        supervisor = next.0;
        action = next.1;
    }
    panic!("the launch did not finish");
}

#[test]
fn limits_are_twelve_attempts_three_seconds_apart() {
    assert_eq!(MAX_ATTEMPTS, 12);
    assert_eq!(POLL_DELAY_SECS, 3);
}

#[test]
fn first_move_is_the_spawn() {
    let supervisor = Supervisor::new();
    assert_eq!(supervisor.pending(), Action::Spawn);
    assert_eq!(supervisor.attempts(), 0);
    assert_eq!(supervisor.waited_secs(), 0);
    assert!(!supervisor.is_finished());
}

#[test]
fn ready_after_exactly_n_attempts_for_each_n() {
    for n in 1..=12u32 {
        let trace = drive(Ok(()), &|attempt| if attempt >= n { answered(200) } else { refused() });
        assert_eq!(trace.outcome, LaunchOutcome::Ready);
        assert_eq!(trace.attempts, n);
        assert_eq!(trace.probes.len(), n as usize);
        assert_eq!(trace.waits, n);
        assert_eq!(trace.waited_secs, 3 * n as u64);
        assert_eq!(trace.spawns, 1);
        assert_eq!(trace.outcome.into_result(), Ok(READY.to_string()));
    }
}

#[test]
fn ready_on_first_attempt_waits_three_seconds() {
    let trace = drive(Ok(()), &|_| answered(200));
    assert_eq!(trace.outcome, LaunchOutcome::Ready);
    assert_eq!(trace.probes, vec![LaunchAttempt { attempt_number: 1, elapsed_wait_secs: 3 }]);
    assert_eq!(trace.waited_secs, 3);
}

#[test]
fn ready_on_twelfth_attempt_is_still_ready() {
    let trace = drive(Ok(()), &|attempt| if attempt == 12 { answered(204) } else { answered(503) });
    assert_eq!(trace.outcome, LaunchOutcome::Ready);
    assert_eq!(trace.attempts, 12);
    assert_eq!(trace.waited_secs, 36);
}

#[test]
fn never_ready_ends_unconfirmed_after_twelve_attempts() {
    let trace = drive(Ok(()), &|_| refused());
    assert_eq!(trace.outcome, LaunchOutcome::Unconfirmed);
    assert_eq!(trace.attempts, 12);
    assert_eq!(trace.probes.len(), 12);
    assert_eq!(trace.waits, 12);
    assert_eq!(trace.waited_secs, 36);
    assert!(33 <= trace.waited_secs && trace.waited_secs <= 36);
    assert_eq!(trace.outcome.into_result(), Ok(UNCONFIRMED.to_string()));
}

#[test]
fn success_after_the_limit_is_never_seen() {
    let trace = drive(Ok(()), &|attempt| if attempt >= 13 { answered(200) } else { refused() });
    assert_eq!(trace.outcome, LaunchOutcome::Unconfirmed);
    assert_eq!(trace.probes.len(), 12);
}

#[test]
fn non_success_statuses_count_as_not_ready() {
    for code in [100u16, 199, 300, 301, 404, 500, 503, 999] {
        let trace = drive(Ok(()), &|_| answered(code));
        assert_eq!(trace.outcome, LaunchOutcome::Unconfirmed);
        assert_eq!(trace.attempts, 12);
    }
}

#[test]
fn every_2xx_status_counts_as_ready() {
    for code in [200u16, 201, 204, 250, 299] {
        let trace = drive(Ok(()), &|_| answered(code));
        assert_eq!(trace.outcome, LaunchOutcome::Ready);
        assert_eq!(trace.attempts, 1);
    }
}

#[test]
fn probes_are_numbered_and_timed_in_order() {
    let trace = drive(Ok(()), &|_| refused());
    for (index, attempt) in trace.probes.iter().enumerate() {
        assert_eq!(attempt.attempt_number, index as u32 + 1);
        assert_eq!(attempt.elapsed_wait_secs, 3 * (index as u64 + 1));
    }
}

#[test]
fn spawn_failure_ends_the_launch_before_any_probe() {
    let trace = drive(Err("program not found".to_string()), &|_| answered(200));
    assert_eq!(
        trace.outcome,
        LaunchOutcome::SpawnFailed { reason: "program not found".to_string() }
    );
    assert_eq!(trace.spawns, 1);
    assert_eq!(trace.waits, 0);
    assert_eq!(trace.waited_secs, 0);
    assert!(trace.probes.is_empty());
    assert_eq!(trace.attempts, 0);
    let result = trace.outcome.into_result();
    assert_eq!(result, Err(LaunchError::SpawnFailed { reason: "program not found".to_string() }));
    assert_eq!(result.unwrap_err().message(), "Failed to start daemon: program not found");
}

#[test]
fn spawn_failure_message_with_empty_reason() {
    let error = LaunchError::SpawnFailed { reason: String::new() };
    assert_eq!(error.message(), "Failed to start daemon: ");
}

#[test]
fn step_after_spawn_asks_for_a_delay() {
    let (supervisor, action) = Supervisor::new().step(Event::Spawned);
    assert_eq!(action, Action::Wait { secs: 3 });
    assert_eq!(supervisor.pending(), Action::Wait { secs: 3 });
    assert_eq!(supervisor.attempts(), 0);
}

#[test]
fn reports_that_answer_nothing_change_nothing() {
    let supervisor = Supervisor::new();
    let (supervisor, action) = supervisor.step(Event::Waited);
    assert_eq!(action, Action::Spawn);
    let (supervisor, action) = supervisor.step(Event::Probed { reply: answered(200) });
    assert_eq!(action, Action::Spawn);
    assert_eq!(supervisor.attempts(), 0);

    let (supervisor, _) = supervisor.step(Event::Spawned);
    let (supervisor, action) = supervisor.step(Event::Spawned);
    assert_eq!(action, Action::Wait { secs: 3 });
    let (supervisor, action) =
        supervisor.step(Event::SpawnFailed { reason: "late".to_string() });
    assert_eq!(action, Action::Wait { secs: 3 });
    let (supervisor, action) = supervisor.step(Event::Probed { reply: answered(200) });
    assert_eq!(action, Action::Wait { secs: 3 });
    assert_eq!(supervisor.attempts(), 0);

    let (supervisor, action) = supervisor.step(Event::Waited);
    let first = LaunchAttempt { attempt_number: 1, elapsed_wait_secs: 3 };
    assert_eq!(action, Action::Probe { attempt: first });
    let (supervisor, action) = supervisor.step(Event::Waited);
    assert_eq!(action, Action::Probe { attempt: first });
    let (supervisor, action) = supervisor.step(Event::Spawned);
    assert_eq!(action, Action::Probe { attempt: first });
    assert_eq!(supervisor.attempts(), 1);
    assert!(!supervisor.is_finished());
}

#[test]
fn finished_launch_repeats_its_outcome() {
    let (supervisor, _) = Supervisor::new().step(Event::Spawned);
    let (supervisor, _) = supervisor.step(Event::Waited);
    let (supervisor, action) = supervisor.step(Event::Probed { reply: answered(200) });
    assert_eq!(action, Action::Finish { outcome: LaunchOutcome::Ready });
    for event in [
        Event::Spawned,
        Event::Waited,
        Event::Probed { reply: refused() },
        Event::SpawnFailed { reason: "x".to_string() },
    ] {
        let supervisor = Supervisor::new();
        let (supervisor, _) = supervisor.step(Event::Spawned);
        let (supervisor, _) = supervisor.step(Event::Waited);
        let (supervisor, _) = supervisor.step(Event::Probed { reply: answered(200) });
        let (supervisor, action) = supervisor.step(event);
        assert_eq!(action, Action::Finish { outcome: LaunchOutcome::Ready });
        assert!(supervisor.is_finished());
        assert_eq!(supervisor.attempts(), 1);
    }
    assert!(supervisor.is_finished());
}

#[test]
fn failed_spawn_repeats_its_reason() {
    let (supervisor, action) =
        Supervisor::new().step(Event::SpawnFailed { reason: "denied".to_string() });
    let failed = Action::Finish {
        outcome: LaunchOutcome::SpawnFailed { reason: "denied".to_string() },
    };
    assert_eq!(action, failed);
    assert_eq!(supervisor.pending(), failed);
    let (supervisor, action) = supervisor.step(Event::Spawned);
    assert_eq!(action, failed);
    assert!(supervisor.is_finished());
}

#[test]
fn outcomes_map_to_the_users_messages() {
    assert_eq!(LaunchOutcome::Ready.into_result(), Ok(READY.to_string()));
    assert_eq!(LaunchOutcome::Unconfirmed.into_result(), Ok(UNCONFIRMED.to_string()));
    assert_eq!(
        LaunchOutcome::SpawnFailed { reason: "r".to_string() }.into_result(),
        Err(LaunchError::SpawnFailed { reason: "r".to_string() })
    );
}
