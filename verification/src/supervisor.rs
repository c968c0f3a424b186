//! The keep-alive loop of one worker, as a state machine.
//!
//! The supervisor itself never touches a process. It is told what happened
//! (an [`Event`]) and answers with what to do next (an [`Action`]); whoever
//! drives it creates the child, waits, prints and sleeps.
use crate::paths::WorkerSpec;
use vstd::prelude::*;

verus! {

/// The cooldown after a failed run, in milliseconds.
pub const COOLDOWN_MS: u64 = 10000;

/// The result of one attempt to run a worker.
#[derive(Clone, Debug, PartialEq, Eq)]
pub enum RunOutcome {
    /// The child was created and has ended; `success` is its exit status.
    Completed { success: bool },
    /// The operating system could not create the child.
    SpawnError { message: String },
}

/// The mathematical content of a [`RunOutcome`].
pub enum RunOutcomeView {
    Completed { success: bool },
    SpawnError { message: Seq<char> },
}

impl View for RunOutcome {
    type V = RunOutcomeView;

    open spec fn view(&self) -> RunOutcomeView {
        match self {
            RunOutcome::Completed { success } => RunOutcomeView::Completed { success: *success },
            RunOutcome::SpawnError { message } => RunOutcomeView::SpawnError { message: message@ },
        }
    }
}

/// How long to wait before a worker is run again: a fixed delay after every
/// run that did not succeed, whatever came before it.
#[derive(Clone, Copy, Debug, PartialEq, Eq, Structural)]
pub struct RestartPolicy {
    pub cooldown_ms: u64,
}

impl RestartPolicy {
    /// The delay before the next run, given how the last one ended.
    pub open spec fn delay_after(self, success: bool) -> u64 {
        if success {
            0
        } else {
            self.cooldown_ms
        }
    }

    /// The policy of the launcher: ten seconds.
    pub fn standard() -> (policy: Self)
        ensures
            policy.cooldown_ms == COOLDOWN_MS,
    {
        RestartPolicy { cooldown_ms: COOLDOWN_MS }
    }

    /// The delay before the next run, given how the last one ended.
    pub fn delay_ms(&self, success: bool) -> (delay: u64)
        ensures
            delay == self.delay_after(success),
    {
        if success {
            0
        } else {
            self.cooldown_ms
        }
    }
}

/// Where a supervisor stands in its loop.
#[derive(Clone, Copy, Debug, PartialEq, Eq, Structural)]
pub enum SupervisorState {
    /// About to ask for a child process.
    Spawning,
    /// One child is alive; the supervisor waits for it to end.
    Running,
    /// The child ended with success.
    Succeeded,
    /// The child ended with a failure status.
    Failed,
    /// The child could not be created. Nothing follows this state.
    SpawnError,
}

/// What the outside world reports to a supervisor.
#[derive(Clone, Copy, Debug, PartialEq, Eq, Structural)]
pub enum Event {
    /// The child process was created.
    Spawned,
    /// The operating system refused to create the child.
    SpawnRefused,
    /// The child ended.
    Exited { success: bool },
    /// The success notice was written.
    NoticeLogged,
    /// The failure notice was written and the cooldown has passed.
    CooldownElapsed,
}

/// What a supervisor asks of the outside world.
#[derive(Clone, Copy, Debug, PartialEq, Eq, Structural)]
pub enum Action {
    /// Create the child, with both output streams bound to the worker's log.
    Spawn,
    /// Block until the child ends.
    AwaitExit,
    /// Write the success notice, then report [`Event::NoticeLogged`].
    LogSuccess,
    /// Write the failure notice, sleep, then report [`Event::CooldownElapsed`].
    LogFailureAndSleep { cooldown_ms: u64 },
    /// Write the spawn-failure notice and hand control back to the caller.
    LogSpawnErrorAndReturn,
}

/// One move of the machine: the state it enters and what it asks for there.
#[derive(Clone, Copy, Debug, PartialEq, Eq, Structural)]
pub struct Transition {
    pub state: SupervisorState,
    pub action: Action,
}

/// The transition table. `None` where the event cannot occur in the state.
pub open spec fn spec_step(state: SupervisorState, event: Event, policy: RestartPolicy) -> Option<
    Transition,
> {
    match (state, event) {
        (SupervisorState::Spawning, Event::Spawned) => Some(
            Transition { state: SupervisorState::Running, action: Action::AwaitExit },
        ),
        (SupervisorState::Spawning, Event::SpawnRefused) => Some(
            Transition {
                state: SupervisorState::SpawnError,
                action: Action::LogSpawnErrorAndReturn,
            },
        ),
        (SupervisorState::Running, Event::Exited { success: true }) => Some(
            Transition { state: SupervisorState::Succeeded, action: Action::LogSuccess },
        ),
        (SupervisorState::Running, Event::Exited { success: false }) => Some(
            Transition {
                state: SupervisorState::Failed,
                action: Action::LogFailureAndSleep { cooldown_ms: policy.cooldown_ms },
            },
        ),
        (SupervisorState::Succeeded, Event::NoticeLogged) => Some(
            Transition { state: SupervisorState::Spawning, action: Action::Spawn },
        ),
        (SupervisorState::Failed, Event::CooldownElapsed) => Some(
            Transition { state: SupervisorState::Spawning, action: Action::Spawn },
        ),
        _ => None,
    }
}

/// How long an action keeps the supervisor from its next move, in
/// milliseconds, beyond the work it names.
pub open spec fn sleep_of(action: Action) -> nat {
    match action {
        Action::LogFailureAndSleep { cooldown_ms } => cooldown_ms as nat,
        _ => 0,
    }
}

/// The number of children alive in a state.
pub open spec fn live_children(state: SupervisorState) -> nat {
    if state == SupervisorState::Running {
        1
    } else {
        0
    }
}

/// The state reached from `start` when the events are reported in order.
/// `None` if one of them cannot occur where it is reported.
pub open spec fn state_after(start: SupervisorState, events: Seq<Event>, policy: RestartPolicy)
    -> Option<SupervisorState>
    decreases events.len(),
{
    if events.len() == 0 {
        Some(start)
    } else {
        match state_after(start, events.drop_last(), policy) {
            Some(state) => match spec_step(state, events.last(), policy) {
                Some(transition) => Some(transition.state),
                None => None,
            },
            None => None,
        }
    }
}

/// How many children the events created.
pub open spec fn spawned_count(events: Seq<Event>) -> nat
    decreases events.len(),
{
    if events.len() == 0 {
        0
    } else {
        spawned_count(events.drop_last()) + if events.last() == Event::Spawned {
            1nat
        } else {
            0nat
        }
    }
}

/// How many children the events saw end.
pub open spec fn exited_count(events: Seq<Event>) -> nat
    decreases events.len(),
{
    if events.len() == 0 {
        0
    } else {
        exited_count(events.drop_last()) + if events.last() is Exited {
            1nat
        } else {
            0nat
        }
    }
}

/// The events that one run outcome stands for, seen from `Spawning`.
pub open spec fn outcome_events(outcome: RunOutcomeView) -> Seq<Event> {
    match outcome {
        RunOutcomeView::Completed { success } => seq![Event::Spawned, Event::Exited { success }],
        RunOutcomeView::SpawnError { .. } => seq![Event::SpawnRefused],
    }
}

/// The state in which a run outcome leaves a supervisor that was `Spawning`.
pub open spec fn outcome_state(outcome: RunOutcomeView) -> SupervisorState {
    match outcome {
        RunOutcomeView::Completed { success: true } => SupervisorState::Succeeded,
        RunOutcomeView::Completed { success: false } => SupervisorState::Failed,
        RunOutcomeView::SpawnError { .. } => SupervisorState::SpawnError,
    }
}

/// What a supervisor asks for once a run has ended in `outcome`.
pub open spec fn outcome_action(outcome: RunOutcomeView, policy: RestartPolicy) -> Action {
    match outcome {
        RunOutcomeView::Completed { success: true } => Action::LogSuccess,
        RunOutcomeView::Completed { success: false } => Action::LogFailureAndSleep {
            cooldown_ms: policy.cooldown_ms,
        },
        RunOutcomeView::SpawnError { .. } => Action::LogSpawnErrorAndReturn,
    }
}

/// The notice that reports a run outcome of the worker called `name`.
pub open spec fn notice_text(name: Seq<char>, outcome: RunOutcomeView) -> Seq<char> {
    match outcome {
        RunOutcomeView::Completed { success: true } => name + " successfully finished"@,
        RunOutcomeView::Completed { success: false } => name + " finished with errors"@,
        RunOutcomeView::SpawnError { message } => "Couldn't run "@ + name + ". Error: "@ + message,
    }
}

/// One move of the machine.
pub fn step(state: SupervisorState, event: Event, policy: RestartPolicy) -> (r: Option<Transition>)
    ensures
        r == spec_step(state, event, policy),
{
    match state {
        SupervisorState::Spawning => match event {
            Event::Spawned => Some(
                Transition { state: SupervisorState::Running, action: Action::AwaitExit },
            ),
            Event::SpawnRefused => Some(
                Transition {
                    state: SupervisorState::SpawnError,
                    action: Action::LogSpawnErrorAndReturn,
                },
            ),
            _ => None,
        },
        SupervisorState::Running => match event {
            Event::Exited { success } => if success {
                Some(Transition { state: SupervisorState::Succeeded, action: Action::LogSuccess })
            } else {
                Some(
                    Transition {
                        state: SupervisorState::Failed,
                        action: Action::LogFailureAndSleep { cooldown_ms: policy.delay_ms(false) },
                    },
                )
            },
            _ => None,
        },
        SupervisorState::Succeeded => match event {
            Event::NoticeLogged => Some(
                Transition { state: SupervisorState::Spawning, action: Action::Spawn },
            ),
            _ => None,
        },
        SupervisorState::Failed => match event {
            Event::CooldownElapsed => Some(
                Transition { state: SupervisorState::Spawning, action: Action::Spawn },
            ),
            _ => None,
        },
        SupervisorState::SpawnError => None,
    }
}

/// Writes the notice that reports a run outcome of the worker called `name`.
pub fn notice_for(name: &str, outcome: &RunOutcome) -> (notice: String)
    ensures
        notice@ == notice_text(name@, outcome@),
{
    match outcome {
        RunOutcome::Completed { success } => {
            let mut notice = String::from_str(name);
            if *success {
                notice.append(" successfully finished");
            } else {
                notice.append(" finished with errors");
            }
            notice
        },
        RunOutcome::SpawnError { message } => {
            let mut notice = String::from_str("Couldn't run ");
            notice.append(name);
            notice.append(". Error: ");
            notice.append(message.as_str());
            notice
        },
    }
}

/// What a supervisor answers to a run outcome: the action to take and the
/// notice to write while taking it.
#[derive(Clone, Debug, PartialEq, Eq)]
pub struct Reaction {
    pub action: Action,
    pub notice: String,
}

/// The supervisor of one worker.
pub struct WorkerSupervisor {
    worker: WorkerSpec,
    policy: RestartPolicy,
    state: SupervisorState,
}

impl WorkerSupervisor {
    /// The state the supervisor is in.
    pub closed spec fn spec_state(&self) -> SupervisorState {
        self.state
    }

    /// The worker that is supervised.
    pub closed spec fn spec_worker(&self) -> WorkerSpec {
        self.worker
    }

    /// The restart policy that is applied.
    pub closed spec fn spec_policy(&self) -> RestartPolicy {
        self.policy
    }

    /// A supervisor that is about to run the worker for the first time.
    pub fn new(worker: WorkerSpec, policy: RestartPolicy) -> (supervisor: Self)
        ensures
            supervisor.spec_state() == SupervisorState::Spawning,
            supervisor.spec_worker() == worker,
            supervisor.spec_policy() == policy,
    {
        WorkerSupervisor { worker, policy, state: SupervisorState::Spawning }
    }

    /// The state the supervisor is in.
    #[verifier::when_used_as_spec(spec_state)]
    pub fn state(&self) -> (state: SupervisorState)
        ensures
            state == self.spec_state(),
    {
        self.state
    }

    /// The worker that is supervised.
    pub fn worker(&self) -> (worker: &WorkerSpec)
        ensures
            *worker == self.spec_worker(),
    {
        &self.worker
    }

    /// The restart policy that is applied.
    #[verifier::when_used_as_spec(spec_policy)]
    pub fn policy(&self) -> (policy: RestartPolicy)
        ensures
            policy == self.spec_policy(),
    {
        self.policy
    }

    /// Whether the supervisor has given up on its worker.
    pub fn is_finished(&self) -> (finished: bool)
        ensures
            finished == (self.spec_state() == SupervisorState::SpawnError),
    {
        self.state == SupervisorState::SpawnError
    }

    /// Reports an event. Where the event can occur in the present state the
    /// supervisor moves and answers with what to do next; where it cannot,
    /// the supervisor stays as it is and answers `None`.
    pub fn handle(&mut self, event: Event) -> (r: Option<Action>)
        ensures
            final(self).spec_worker() == old(self).spec_worker(),
            final(self).spec_policy() == old(self).spec_policy(),
            match spec_step(old(self).spec_state(), event, old(self).spec_policy()) {
                Some(transition) => r == Some(transition.action) && final(self).spec_state()
                    == transition.state,
                None => r is None && final(self).spec_state() == old(self).spec_state(),
            },
    {
        match step(self.state, event, self.policy) {
            Some(transition) => {
                self.state = transition.state;
                Some(transition.action)
            },
            None => None,
        }
    }

    /// Reports how one run of the worker ended. A supervisor that is
    /// `Spawning` moves as the outcome's events say and answers with the
    /// action and the notice that report it; any other supervisor stays as it
    /// is and answers `None`.
    pub fn record(&mut self, outcome: &RunOutcome) -> (r: Option<Reaction>)
        ensures
            final(self).spec_worker() == old(self).spec_worker(),
            final(self).spec_policy() == old(self).spec_policy(),
            old(self).spec_state() != SupervisorState::Spawning ==> r is None && final(self).spec_state() == old(self).spec_state(),
            old(self).spec_state() == SupervisorState::Spawning ==> {
                &&& r matches Some(reaction)
                &&& reaction.action == outcome_action(outcome@, old(self).spec_policy())
                &&& reaction.notice@ == notice_text(old(self).spec_worker()@.name, outcome@)
                &&& final(self).spec_state() == outcome_state(outcome@)
                &&& state_after(
                    SupervisorState::Spawning,
                    outcome_events(outcome@),
                    old(self).spec_policy(),
                ) == Some(final(self).spec_state())
            },
    {
        if self.state != SupervisorState::Spawning {
            return None;
        }
        let action = match outcome {
            RunOutcome::Completed { success } => {
                self.handle(Event::Spawned);
                self.handle(Event::Exited { success: *success })
            },
            RunOutcome::SpawnError { .. } => self.handle(Event::SpawnRefused),
        };
        proof {
            lemma_outcome_events(outcome@, self.policy);
        }
        match action {
            Some(action) => Some(
                Reaction { action, notice: notice_for(self.worker.name(), outcome) },
            ),
            None => None,
        }
    }

    /// Reports that the notice of the last run was written and, after a
    /// failure, that the cooldown has passed. A supervisor that is
    /// `Succeeded` or `Failed` goes back to `Spawning` and asks for the next
    /// child; any other stays as it is and answers `None`.
    pub fn resume(&mut self) -> (r: Option<Action>)
        ensures
            final(self).spec_worker() == old(self).spec_worker(),
            final(self).spec_policy() == old(self).spec_policy(),
            old(self).spec_state() == SupervisorState::Succeeded || old(self).spec_state()
                == SupervisorState::Failed ==> r == Some(Action::Spawn) && final(self).spec_state() == SupervisorState::Spawning,
            !(old(self).spec_state() == SupervisorState::Succeeded || old(self).spec_state()
                == SupervisorState::Failed) ==> r is None && final(self).spec_state() == old(self).spec_state(),
    {
        match self.state {
            SupervisorState::Succeeded => self.handle(Event::NoticeLogged),
            SupervisorState::Failed => self.handle(Event::CooldownElapsed),
            _ => None,
        }
    }
}

/// The events of a run outcome lead from `Spawning` to the outcome's state.
pub proof fn lemma_outcome_events(outcome: RunOutcomeView, policy: RestartPolicy)
    ensures
        state_after(SupervisorState::Spawning, outcome_events(outcome), policy) == Some(
            outcome_state(outcome),
        ),
{
    let events = outcome_events(outcome);
    reveal_with_fuel(state_after, 3);
    match outcome {
        RunOutcomeView::Completed { success } => {
            assert(events.drop_last() =~= seq![Event::Spawned]);
            assert(events.drop_last().drop_last() =~= Seq::<Event>::empty());
        },
        RunOutcomeView::SpawnError { .. } => {
            assert(events.drop_last() =~= Seq::<Event>::empty());
        },
    }
}

/// A run that ends with success is reported and followed by the next one at
/// once: the supervisor asks for the notice, which holds it up for no time,
/// and then for a new child.
pub proof fn lemma_success_restarts_at_once(policy: RestartPolicy)
    ensures
        spec_step(SupervisorState::Running, Event::Exited { success: true }, policy) == Some(
            Transition { state: SupervisorState::Succeeded, action: Action::LogSuccess },
        ),
        sleep_of(Action::LogSuccess) == 0,
        policy.delay_after(true) == 0,
        spec_step(SupervisorState::Succeeded, Event::NoticeLogged, policy) == Some(
            Transition { state: SupervisorState::Spawning, action: Action::Spawn },
        ),
{
}

/// A run that ends with a failure status is followed by the cooldown: the
/// supervisor asks for a sleep of the policy's length, and the one event that
/// moves it on to the next child is the end of that sleep.
pub proof fn lemma_failure_waits_for_cooldown(policy: RestartPolicy, event: Event)
    ensures
        spec_step(SupervisorState::Running, Event::Exited { success: false }, policy) == Some(
            Transition {
                state: SupervisorState::Failed,
                action: Action::LogFailureAndSleep { cooldown_ms: policy.cooldown_ms },
            },
        ),
        sleep_of(Action::LogFailureAndSleep { cooldown_ms: policy.cooldown_ms })
            == policy.cooldown_ms,
        policy.delay_after(false) == policy.cooldown_ms,
        spec_step(SupervisorState::Failed, event, policy) is Some <==> event
            == Event::CooldownElapsed,
        spec_step(SupervisorState::Failed, Event::CooldownElapsed, policy) == Some(
            Transition { state: SupervisorState::Spawning, action: Action::Spawn },
        ),
{
}

/// A child that could not be created ends the supervision: the supervisor
/// hands control back, and no event moves it again.
pub proof fn lemma_spawn_error_is_final(policy: RestartPolicy, event: Event)
    ensures
        spec_step(SupervisorState::Spawning, Event::SpawnRefused, policy) == Some(
            Transition {
                state: SupervisorState::SpawnError,
                action: Action::LogSpawnErrorAndReturn,
            },
        ),
        spec_step(SupervisorState::SpawnError, event, policy) is None,
{
}

/// A new child is asked for only on the way back to `Spawning`, where none
/// is alive.
pub proof fn lemma_spawn_only_when_idle(state: SupervisorState, event: Event, policy: RestartPolicy)
    requires
        spec_step(state, event, policy) matches Some(transition) && transition.action
            == Action::Spawn,
    ensures
        live_children(state) == 0,
        spec_step(state, event, policy)->0.state == SupervisorState::Spawning,
        state == SupervisorState::Succeeded || state == SupervisorState::Failed,
{
}

/// Once the supervisor has given up, no further sequence of events is
/// possible: in particular no child is created again.
pub proof fn lemma_nothing_follows_spawn_error(
    events: Seq<Event>,
    more: Seq<Event>,
    policy: RestartPolicy,
)
    requires
        state_after(SupervisorState::Spawning, events, policy) == Some(SupervisorState::SpawnError),
        more.len() > 0,
    ensures
        state_after(SupervisorState::Spawning, events + more, policy) is None,
    decreases more.len(),
{
    let all = events + more;
    let shorter = more.drop_last();
    assert(all.drop_last() =~= events + shorter);
    assert(all.last() == more.last());
    if shorter.len() == 0 {
        assert(events + shorter =~= events);
    } else {
        lemma_nothing_follows_spawn_error(events, shorter, policy);
    }
}

/// A supervisor never has more than one child alive: whatever events it has
/// accepted since it started, the children created exceed the children that
/// ended by one while it is `Running` and by none in every other state.
pub proof fn lemma_one_child_at_a_time(events: Seq<Event>, policy: RestartPolicy)
    requires
        state_after(SupervisorState::Spawning, events, policy) is Some,
    ensures
        spawned_count(events) == exited_count(events) + live_children(
            state_after(SupervisorState::Spawning, events, policy)->0,
        ),
        spawned_count(events) <= exited_count(events) + 1,
    decreases events.len(),
{
    if events.len() > 0 {
        lemma_one_child_at_a_time(events.drop_last(), policy);
    }
}

} // verus!
