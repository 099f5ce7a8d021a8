//! Starting the daemon and waiting for it to become ready.
//!
//! The shell spawns the daemon, then alternates a fixed delay with a health
//! probe until a probe succeeds or the attempts run out. The `Supervisor`
//! decides each next move; the shell carries the moves out and reports back
//! what happened.

use crate::query::Reply;
use vstd::prelude::*;

verus! {

/// The number of health probes after which the supervisor stops waiting.
pub const MAX_ATTEMPTS: u32 = 12;

/// The delay before each health probe, in seconds.
pub const POLL_DELAY_SECS: u64 = 3;

/// What the user is told once a probe has succeeded.
pub open spec fn ready_message() -> Seq<char> {
    "Daemon started successfully"@
}

/// What the user is told when every probe has failed.
pub open spec fn unconfirmed_message() -> Seq<char> {
    "Daemon process started. It may still be loading - click 'Retry Connection' in a moment."@
}

/// What the user is told when the daemon could not be spawned.
pub open spec fn spawn_failed_message(reason: Seq<char>) -> Seq<char> {
    "Failed to start daemon: "@ + reason
}

/// How a launch ended, as a mathematical value.
pub enum OutcomeView {
    Ready,
    Unconfirmed,
    SpawnFailed(Seq<char>),
}

/// Where a launch stands.
pub enum Stage {
    /// The spawn has been asked for and its result is awaited.
    Spawning,
    /// The delay before the next probe is running.
    Waiting,
    /// A probe is in flight.
    Probing,
    /// The launch is over.
    Finished(OutcomeView),
}

/// The state of a launch: its stage and the number of probes begun so far.
pub struct LaunchModel {
    pub stage: Stage,
    pub attempts: nat,
}

/// What the shell reports back to the supervisor.
pub enum EventView {
    Spawned,
    SpawnFailed(Seq<char>),
    Waited,
    /// A probe ended; the flag says whether it found the daemon ready.
    Probed(bool),
}

/// What the supervisor asks the shell to do.
pub enum ActionView {
    Spawn,
    Wait { secs: nat },
    Probe { attempt_number: nat, elapsed_wait_secs: nat },
    Finish(OutcomeView),
}

impl LaunchModel {
    /// The state before anything has happened.
    pub open spec fn initial() -> LaunchModel {
        LaunchModel { stage: Stage::Spawning, attempts: 0 }
    }

    /// The states that a launch can reach.
    pub open spec fn wf(self) -> bool {
        match self.stage {
            Stage::Spawning => self.attempts == 0,
            Stage::Waiting => self.attempts < MAX_ATTEMPTS,
            Stage::Probing => 1 <= self.attempts <= MAX_ATTEMPTS,
            Stage::Finished(OutcomeView::Ready) => 1 <= self.attempts <= MAX_ATTEMPTS,
            Stage::Finished(OutcomeView::Unconfirmed) => self.attempts == MAX_ATTEMPTS,
            Stage::Finished(OutcomeView::SpawnFailed(_)) => self.attempts == 0,
        }
    }

    pub open spec fn finished(self) -> bool {
        self.stage is Finished
    }

    /// The seconds of delay that have been asked for and have elapsed: one
    /// delay precedes each probe.
    pub open spec fn waited_secs(self) -> nat {
        self.attempts * (POLL_DELAY_SECS as nat)
    }

    /// The move that the state is waiting on.
    pub open spec fn pending(self) -> ActionView {
        match self.stage {
            Stage::Spawning => ActionView::Spawn,
            Stage::Waiting => ActionView::Wait { secs: POLL_DELAY_SECS as nat },
            Stage::Probing => ActionView::Probe {
                attempt_number: self.attempts,
                elapsed_wait_secs: self.waited_secs(),
            },
            Stage::Finished(outcome) => ActionView::Finish(outcome),
        }
    }

    /// The state after an event. An event that does not answer the pending
    /// move changes nothing.
    pub open spec fn advance(self, event: EventView) -> LaunchModel {
        match (self.stage, event) {
            (Stage::Spawning, EventView::Spawned) => LaunchModel { stage: Stage::Waiting, ..self },
            (Stage::Spawning, EventView::SpawnFailed(reason)) => LaunchModel {
                stage: Stage::Finished(OutcomeView::SpawnFailed(reason)),
                ..self
            },
            (Stage::Waiting, EventView::Waited) => LaunchModel {
                stage: Stage::Probing,
                attempts: self.attempts + 1,
            },
            (Stage::Probing, EventView::Probed(ready)) => if ready {
                LaunchModel { stage: Stage::Finished(OutcomeView::Ready), ..self }
            } else if self.attempts >= MAX_ATTEMPTS {
                LaunchModel { stage: Stage::Finished(OutcomeView::Unconfirmed), ..self }
            } else {
                LaunchModel { stage: Stage::Waiting, ..self }
            },
            _ => self,
        }
    }
}

/// Why a launch failed.
#[derive(Clone, Debug, PartialEq, Eq)]
pub enum LaunchError {
    /// The daemon's process could not be created.
    SpawnFailed { reason: String },
}

impl LaunchError {
    /// The text of the error as shown to the user.
    pub open spec fn message_spec(self) -> Seq<char> {
        match self {
            LaunchError::SpawnFailed { reason } => spawn_failed_message(reason@),
        }
    }

    /// The text of the error as shown to the user.
    pub fn message(&self) -> (text: String)
        ensures
            text@ == self.message_spec(),
    {
        match self {
            LaunchError::SpawnFailed { reason } => {
                String::from_str("Failed to start daemon: ").concat(reason.as_str())
            },
        }
    }
}

/// How a launch ended.
#[derive(Clone, Debug, PartialEq, Eq)]
pub enum LaunchOutcome {
    /// A probe found the daemon ready.
    Ready,
    /// The daemon was spawned, but no probe found it ready.
    Unconfirmed,
    /// The daemon could not be spawned.
    SpawnFailed { reason: String },
}

impl View for LaunchOutcome {
    type V = OutcomeView;

    open spec fn view(&self) -> OutcomeView {
        match self {
            LaunchOutcome::Ready => OutcomeView::Ready,
            LaunchOutcome::Unconfirmed => OutcomeView::Unconfirmed,
            LaunchOutcome::SpawnFailed { reason } => OutcomeView::SpawnFailed(reason@),
        }
    }
}

impl LaunchOutcome {
    /// What the caller of a launch receives: a message in either case, and an
    /// error only when the daemon could not be spawned. A launch that ran out
    /// of attempts is no error.
    pub fn into_result(self) -> (result: Result<String, LaunchError>)
        ensures
            match self@ {
                OutcomeView::Ready => result matches Ok(text) && text@ == ready_message(),
                OutcomeView::Unconfirmed => result matches Ok(text) && text@
                    == unconfirmed_message(),
                OutcomeView::SpawnFailed(reason) => result matches Err(
                    LaunchError::SpawnFailed { reason: r },
                ) && r@ == reason,
            },
    {
        match self {
            LaunchOutcome::Ready => Ok(String::from_str("Daemon started successfully")),
            LaunchOutcome::Unconfirmed => Ok(
                String::from_str(
                    "Daemon process started. It may still be loading - click 'Retry Connection' in a moment.",
                ),
            ),
            LaunchOutcome::SpawnFailed { reason } => Err(LaunchError::SpawnFailed { reason }),
        }
    }
}

/// One health probe of a launch: its number, counted from 1, and the seconds
/// of delay that preceded it since the spawn.
#[derive(Clone, Copy, Debug, PartialEq, Eq, Structural)]
pub struct LaunchAttempt {
    pub attempt_number: u32,
    pub elapsed_wait_secs: u64,
}

/// What the shell reports back to the supervisor.
#[derive(Clone, Debug, PartialEq, Eq)]
pub enum Event {
    /// The daemon's process was created.
    Spawned,
    /// The daemon's process could not be created.
    SpawnFailed { reason: String },
    /// The delay that was asked for has elapsed.
    Waited,
    /// The health probe that was asked for has ended.
    Probed { reply: Reply },
}

impl View for Event {
    type V = EventView;

    open spec fn view(&self) -> EventView {
        match self {
            Event::Spawned => EventView::Spawned,
            Event::SpawnFailed { reason } => EventView::SpawnFailed(reason@),
            Event::Waited => EventView::Waited,
            Event::Probed { reply } => EventView::Probed(reply.succeeded()),
        }
    }
}

/// What the supervisor asks the shell to do next.
#[derive(Clone, Debug, PartialEq, Eq)]
pub enum Action {
    /// Spawn the daemon's process.
    Spawn,
    /// Let this many seconds pass.
    Wait { secs: u64 },
    /// Probe the daemon's health endpoint.
    Probe { attempt: LaunchAttempt },
    /// Stop, and hand the outcome to the caller.
    Finish { outcome: LaunchOutcome },
}

impl View for Action {
    type V = ActionView;

    open spec fn view(&self) -> ActionView {
        match self {
            Action::Spawn => ActionView::Spawn,
            Action::Wait { secs } => ActionView::Wait { secs: *secs as nat },
            Action::Probe { attempt } => ActionView::Probe {
                attempt_number: attempt.attempt_number as nat,
                elapsed_wait_secs: attempt.elapsed_wait_secs as nat,
            },
            Action::Finish { outcome } => ActionView::Finish(outcome@),
        }
    }
}

/// The stage of a supervisor, with the three ways of being finished apart.
#[derive(Clone, Copy, Debug, PartialEq, Eq, Structural)]
enum Progress {
    Spawning,
    Waiting,
    Probing,
    Ready,
    Unconfirmed,
    SpawnFailed,
}

/// Decides the moves of one launch.
#[derive(Debug)]
pub struct Supervisor {
    progress: Progress,
    attempts: u32,
    /// Why the spawn failed; empty unless it did.
    reason: String,
}

impl View for Supervisor {
    type V = LaunchModel;

    closed spec fn view(&self) -> LaunchModel {
        LaunchModel {
            stage: match self.progress {
                Progress::Spawning => Stage::Spawning,
                Progress::Waiting => Stage::Waiting,
                Progress::Probing => Stage::Probing,
                Progress::Ready => Stage::Finished(OutcomeView::Ready),
                Progress::Unconfirmed => Stage::Finished(OutcomeView::Unconfirmed),
                Progress::SpawnFailed => Stage::Finished(OutcomeView::SpawnFailed(self.reason@)),
            },
            attempts: self.attempts as nat,
        }
    }
}

impl Supervisor {
    #[verifier::type_invariant]
    spec fn reachable(self) -> bool {
        self@.wf()
    }

    /// A supervisor for a launch that has not begun: its first move is the spawn.
    pub fn new() -> (supervisor: Supervisor)
        ensures
            supervisor@ == LaunchModel::initial(),
    {
        Supervisor { progress: Progress::Spawning, attempts: 0, reason: String::new() }
    }

    /// The number of probes begun so far.
    pub fn attempts(&self) -> (attempts: u32)
        ensures
            attempts == self@.attempts,
            attempts <= MAX_ATTEMPTS,
            self@.wf(),
    {
        proof {
            use_type_invariant(self);
        }
        self.attempts
    }

    /// The seconds of delay that have elapsed since the spawn.
    pub fn waited_secs(&self) -> (secs: u64)
        ensures
            secs == self@.waited_secs(),
    {
        proof {
            use_type_invariant(self);
        }
        let attempts: u64 = self.attempts as u64;
        attempts * POLL_DELAY_SECS
    }

    /// Whether the launch is over.
    pub fn is_finished(&self) -> (finished: bool)
        ensures
            finished == self@.finished(),
    {
        match self.progress {
            Progress::Ready | Progress::Unconfirmed | Progress::SpawnFailed => true,
            _ => false,
        }
    }

    /// The move that the supervisor is waiting on.
    pub fn pending(&self) -> (action: Action)
        ensures
            action@ == self@.pending(),
    {
        proof {
            use_type_invariant(self);
        }
        match self.progress {
            Progress::Spawning => Action::Spawn,
            Progress::Waiting => Action::Wait { secs: POLL_DELAY_SECS },
            Progress::Probing => Action::Probe {
                attempt: LaunchAttempt {
                    attempt_number: self.attempts,
                    elapsed_wait_secs: self.waited_secs(),
                },
            },
            Progress::Ready => Action::Finish { outcome: LaunchOutcome::Ready },
            Progress::Unconfirmed => Action::Finish { outcome: LaunchOutcome::Unconfirmed },
            Progress::SpawnFailed => Action::Finish {
                outcome: LaunchOutcome::SpawnFailed { reason: self.reason.clone() },
            },
        }
    }

    /// Takes in what the shell reports and says what to do next. A report
    /// that does not answer the pending move changes nothing, and the pending
    /// move is asked for again.
    pub fn step(self, event: Event) -> (next: (Supervisor, Action))
        ensures
            next.0@ == self@.advance(event@),
            next.1@ == next.0@.pending(),
            next.0@.wf(),
    {
        proof {
            use_type_invariant(&self);
        }
        let supervisor = match (self.progress, event) {
            (Progress::Spawning, Event::Spawned) => Supervisor {
                progress: Progress::Waiting,
                attempts: self.attempts,
                reason: self.reason,
            },
            (Progress::Spawning, Event::SpawnFailed { reason }) => Supervisor {
                progress: Progress::SpawnFailed,
                attempts: self.attempts,
                reason,
            },
            (Progress::Waiting, Event::Waited) => Supervisor {
                progress: Progress::Probing,
                attempts: self.attempts + 1,
                reason: self.reason,
            },
            (Progress::Probing, Event::Probed { reply }) => {
                let progress = if reply.is_reachable() {
                    Progress::Ready
                } else if self.attempts >= MAX_ATTEMPTS {
                    Progress::Unconfirmed
                } else {
                    Progress::Waiting
                };
                Supervisor { progress, attempts: self.attempts, reason: self.reason }
            },
            _ => self,
        };
        let action = supervisor.pending();
        (supervisor, action)
    }
}

/// The report by which a shell that does as it is asked answers the pending
/// move of a launch. `spawn_failure` holds the reason if the spawn fails, and
/// `healthy(n)` says whether the daemon answers the `n`-th probe with success.
pub open spec fn answer(
    model: LaunchModel,
    spawn_failure: Option<Seq<char>>,
    healthy: spec_fn(nat) -> bool,
) -> EventView {
    match model.stage {
        Stage::Spawning => match spawn_failure {
            None => EventView::Spawned,
            Some(reason) => EventView::SpawnFailed(reason),
        },
        Stage::Waiting => EventView::Waited,
        Stage::Probing => EventView::Probed(healthy(model.attempts)),
        Stage::Finished(_) => EventView::Waited,
    }
}

/// The state of a launch after the shell has answered `steps` moves.
pub open spec fn run(
    model: LaunchModel,
    spawn_failure: Option<Seq<char>>,
    healthy: spec_fn(nat) -> bool,
    steps: nat,
) -> LaunchModel
    decreases steps,
{
    if steps == 0 {
        model
    } else {
        run(
            model.advance(answer(model, spawn_failure, healthy)),
            spawn_failure,
            healthy,
            (steps - 1) as nat,
        )
    }
}

/// Every event leads from a reachable state to a reachable state.
pub proof fn law_advance_keeps_wf(model: LaunchModel, event: EventView)
    requires
        model.wf(),
    ensures
        model.advance(event).wf(),
{
}

/// The number of probes never decreases, and one event adds at most one.
pub proof fn law_attempts_only_grow(model: LaunchModel, event: EventView)
    ensures
        model.attempts <= model.advance(event).attempts <= model.attempts + 1,
        model.advance(event).attempts == model.attempts + 1 <==> model.stage is Waiting
            && event is Waited,
{
}

/// A finished launch stays as it is, whatever is reported to it.
pub proof fn law_finished_is_final(model: LaunchModel, event: EventView)
    requires
        model.finished(),
    ensures
        model.advance(event) == model,
{
}

proof fn lemma_run_after_finish(
    model: LaunchModel,
    spawn_failure: Option<Seq<char>>,
    healthy: spec_fn(nat) -> bool,
    steps: nat,
)
    requires
        model.finished(),
    ensures
        run(model, spawn_failure, healthy, steps) == model,
    decreases steps,
{
    if steps > 0 {
        lemma_run_after_finish(model, spawn_failure, healthy, (steps - 1) as nat);
    }
}

proof fn lemma_run_until_ready(
    spawn_failure: Option<Seq<char>>,
    healthy: spec_fn(nat) -> bool,
    done: nat,
    n: nat,
    steps: nat,
)
    requires
        done < n <= MAX_ATTEMPTS,
        forall|i: nat| done < i < n ==> !#[trigger] healthy(i),
        healthy(n),
        steps >= 2 * (n - done),
    ensures
        run(LaunchModel { stage: Stage::Waiting, attempts: done }, spawn_failure, healthy, steps)
            == (LaunchModel { stage: Stage::Finished(OutcomeView::Ready), attempts: n }),
    decreases n - done,
{
    let waiting = LaunchModel { stage: Stage::Waiting, attempts: done };
    let probing = LaunchModel { stage: Stage::Probing, attempts: done + 1 };
    let after = probing.advance(answer(probing, spawn_failure, healthy));
    assert(waiting.advance(answer(waiting, spawn_failure, healthy)) == probing);
    assert(run(waiting, spawn_failure, healthy, steps) == run(
        probing,
        spawn_failure,
        healthy,
        (steps - 1) as nat,
    ));
    assert(run(probing, spawn_failure, healthy, (steps - 1) as nat) == run(
        after,
        spawn_failure,
        healthy,
        (steps - 2) as nat,
    ));
    if done + 1 == n {
        lemma_run_after_finish(after, spawn_failure, healthy, (steps - 2) as nat);
    } else {
        assert(!healthy(done + 1));
        lemma_run_until_ready(spawn_failure, healthy, done + 1, n, (steps - 2) as nat);
    }
}

proof fn lemma_run_until_exhausted(
    spawn_failure: Option<Seq<char>>,
    healthy: spec_fn(nat) -> bool,
    done: nat,
    steps: nat,
)
    requires
        done < MAX_ATTEMPTS,
        forall|i: nat| done < i <= MAX_ATTEMPTS ==> !#[trigger] healthy(i),
        steps >= 2 * (MAX_ATTEMPTS - done),
    ensures
        run(LaunchModel { stage: Stage::Waiting, attempts: done }, spawn_failure, healthy, steps)
            == (LaunchModel {
            stage: Stage::Finished(OutcomeView::Unconfirmed),
            attempts: MAX_ATTEMPTS as nat,
        }),
    decreases MAX_ATTEMPTS - done,
{
    let waiting = LaunchModel { stage: Stage::Waiting, attempts: done };
    let probing = LaunchModel { stage: Stage::Probing, attempts: done + 1 };
    let after = probing.advance(answer(probing, spawn_failure, healthy));
    assert(waiting.advance(answer(waiting, spawn_failure, healthy)) == probing);
    assert(run(waiting, spawn_failure, healthy, steps) == run(
        probing,
        spawn_failure,
        healthy,
        (steps - 1) as nat,
    ));
    assert(run(probing, spawn_failure, healthy, (steps - 1) as nat) == run(
        after,
        spawn_failure,
        healthy,
        (steps - 2) as nat,
    ));
    assert(!healthy(done + 1));
    if done + 1 == MAX_ATTEMPTS {
        lemma_run_after_finish(after, spawn_failure, healthy, (steps - 2) as nat);
    } else {
        lemma_run_until_exhausted(spawn_failure, healthy, done + 1, (steps - 2) as nat);
    }
}

/// If the daemon first answers with success on the `n`-th probe, for an `n`
/// from 1 to the limit, the launch ends ready after exactly `n` probes: once
/// the shell has answered the spawn and `n` rounds of delay and probe, the
/// state is finished, and it stays so however many more steps are counted.
pub proof fn law_ready_on_first_success(healthy: spec_fn(nat) -> bool, n: nat, steps: nat)
    requires
        1 <= n <= MAX_ATTEMPTS,
        forall|i: nat| 1 <= i < n ==> !#[trigger] healthy(i),
        healthy(n),
        steps >= 2 * n + 1,
    ensures
        run(LaunchModel::initial(), None, healthy, steps) == (LaunchModel {
            stage: Stage::Finished(OutcomeView::Ready),
            attempts: n,
        }),
        run(LaunchModel::initial(), None, healthy, steps).waited_secs() == 3 * n,
        !run(LaunchModel::initial(), None, healthy, (2 * n) as nat).finished(),
{
    let initial = LaunchModel::initial();
    let waiting = LaunchModel { stage: Stage::Waiting, attempts: 0 };
    assert(initial.advance(answer(initial, None, healthy)) == waiting);
    assert(run(initial, None, healthy, steps) == run(waiting, None, healthy, (steps - 1) as nat));
    lemma_run_until_ready(None, healthy, 0, n, (steps - 1) as nat);
    lemma_unfinished_before_answer(healthy, n);
}

/// With no success among the first probes, the launch is still unfinished
/// just before the answer to probe `n` arrives.
proof fn lemma_unfinished_before_answer(healthy: spec_fn(nat) -> bool, n: nat)
    requires
        1 <= n <= MAX_ATTEMPTS,
        forall|i: nat| 1 <= i < n ==> !#[trigger] healthy(i),
    ensures
        run(LaunchModel::initial(), None, healthy, (2 * n) as nat) == (LaunchModel {
            stage: Stage::Probing,
            attempts: n,
        }),
{
    let initial = LaunchModel::initial();
    let waiting = LaunchModel { stage: Stage::Waiting, attempts: 0 };
    assert(initial.advance(answer(initial, None, healthy)) == waiting);
    assert(run(initial, None, healthy, (2 * n) as nat) == run(
        waiting,
        None,
        healthy,
        (2 * n - 1) as nat,
    ));
    lemma_run_to_probe(healthy, 0, n);
}

proof fn lemma_run_to_probe(healthy: spec_fn(nat) -> bool, done: nat, n: nat)
    requires
        done < n <= MAX_ATTEMPTS,
        forall|i: nat| done < i < n ==> !#[trigger] healthy(i),
    ensures
        run(
            LaunchModel { stage: Stage::Waiting, attempts: done },
            None,
            healthy,
            (2 * (n - done) - 1) as nat,
        ) == (LaunchModel { stage: Stage::Probing, attempts: n }),
    decreases n - done,
{
    let steps = (2 * (n - done) - 1) as nat;
    let waiting = LaunchModel { stage: Stage::Waiting, attempts: done };
    let probing = LaunchModel { stage: Stage::Probing, attempts: done + 1 };
    assert(waiting.advance(answer(waiting, None, healthy)) == probing);
    assert(run(waiting, None, healthy, steps) == run(probing, None, healthy, (steps - 1) as nat));
    if done + 1 == n {
        assert(run(probing, None, healthy, 0) == probing);
    } else {
        let after = probing.advance(answer(probing, None, healthy));
        assert(!healthy(done + 1));
        assert(after == LaunchModel { stage: Stage::Waiting, attempts: done + 1 });
        assert(run(probing, None, healthy, (steps - 1) as nat) == run(
            after,
            None,
            healthy,
            (steps - 2) as nat,
        ));
        lemma_run_to_probe(healthy, done + 1, n);
    }
}

/// If no probe up to the limit is answered with success, the launch ends
/// unconfirmed, which is no error, after every probe has been made and the
/// full sum of the delays has passed.
pub proof fn law_unconfirmed_when_never_ready(healthy: spec_fn(nat) -> bool, steps: nat)
    requires
        forall|i: nat| 1 <= i <= MAX_ATTEMPTS ==> !#[trigger] healthy(i),
        steps >= 2 * MAX_ATTEMPTS + 1,
    ensures
        run(LaunchModel::initial(), None, healthy, steps) == (LaunchModel {
            stage: Stage::Finished(OutcomeView::Unconfirmed),
            attempts: MAX_ATTEMPTS as nat,
        }),
        run(LaunchModel::initial(), None, healthy, steps).waited_secs() == 36,
        33 <= run(LaunchModel::initial(), None, healthy, steps).waited_secs() <= 36,
{
    let initial = LaunchModel::initial();
    let waiting = LaunchModel { stage: Stage::Waiting, attempts: 0 };
    assert(initial.advance(answer(initial, None, healthy)) == waiting);
    assert(run(initial, None, healthy, steps) == run(waiting, None, healthy, (steps - 1) as nat));
    lemma_run_until_exhausted(None, healthy, 0, (steps - 1) as nat);
}

/// If the spawn fails, the launch ends at once with that failure: no delay
/// is asked for and no probe is made, whatever the daemon would have answered.
pub proof fn law_spawn_failure_ends_launch(
    reason: Seq<char>,
    healthy: spec_fn(nat) -> bool,
    steps: nat,
)
    requires
        steps >= 1,
    ensures
        run(LaunchModel::initial(), Some(reason), healthy, steps) == (LaunchModel {
            stage: Stage::Finished(OutcomeView::SpawnFailed(reason)),
            attempts: 0,
        }),
        LaunchModel::initial().advance(EventView::SpawnFailed(reason)).pending()
            == ActionView::Finish(OutcomeView::SpawnFailed(reason)),
{
    let initial = LaunchModel::initial();
    let failed = initial.advance(answer(initial, Some(reason), healthy));
    assert(run(initial, Some(reason), healthy, steps) == run(
        failed,
        Some(reason),
        healthy,
        (steps - 1) as nat,
    ));
    lemma_run_after_finish(failed, Some(reason), healthy, (steps - 1) as nat);
}

} // verus!
