//! The execution pipeline: one action on one stack, from the permission
//! check to the release of the action flag.
//!
//! The pipeline decides and records; it performs no I/O. A driver asks
//! [`Execution::pending`] what to do next, does it, and reports what
//! happened through [`Execution::step`], until the execution is finished.

use vstd::prelude::*;
use vstd::string::StringExecFns;
use crate::action_state::{ActionFlag, StackActionState, lemma_single_flag};
use crate::command::service_view;
use crate::coordinator::{
    ActionStates,
    UpdateGuard,
    record_of,
    records_after_release,
    records_after_update,
};
use crate::error::CoreError;
use crate::execute::ExecuteCompose;
use crate::permission::{PermissionLevel, User, permitted};
use crate::stack::{Server, ServerState, Stack, get_stack_and_server, stack_and_server};
use crate::update::{Log, LogView, Update, UpdateView, error_log, simple_log};

verus! {

/// How far an execution has come.
#[derive(Clone, Copy, Debug, PartialEq, Eq, Structural)]
pub enum Phase {
    /// The update is to be stored, so that observers see the action start.
    Announcing,
    /// The command is to be sent to the agent.
    Executing,
    /// The status cache is to be refreshed for the server.
    Refreshing,
    /// The finalized update is to be stored.
    Closing,
    /// Nothing is left to do, and the action flag is released.
    Finished,
}

/// The stage of the log segment that records a request for one service.
pub open spec fn service_stage(service: Seq<char>) -> Seq<char> {
    "Service: "@ + service
}

/// The message of the log segment that records a request for one service.
pub open spec fn service_message(service: Seq<char>) -> Seq<char> {
    "Execution requested for service stack "@ + service
}

/// The stage of the log segment that records an agent that gave no answer.
pub open spec fn unreachable_stage() -> Seq<char> {
    "Remote Execution"@
}

/// The log segment that records a request for one service.
pub fn service_log(service: &str, now: i64) -> (log: Log)
    ensures
        log@ == simple_log(service_stage(service@), service_message(service@), now),
{
    let mut stage = String::from_str("Service: ");
    stage.append(service);
    let mut message = String::from_str("Execution requested for service stack ");
    message.append(service);
    Log::simple(stage.as_str(), message, now)
}

/// Whether a request for an action on a stack is admitted, and with what
/// it is refused. The stack and its server are resolved at level
/// `Execute`, and a server that cannot be reached blocks the action; then
/// the stack must be idle.
pub open spec fn admission(
    records: Map<Seq<char>, StackActionState>,
    stack: Option<Stack>,
    admin: bool,
    assignments: Seq<PermissionLevel>,
    server: Option<(Server, ServerState)>,
) -> Result<(Stack, Server), CoreError> {
    match stack_and_server(stack, admin, assignments, PermissionLevel::Execute, server, true) {
        Err(error) => Err(error),
        Ok((stack, server)) => match record_of(records, stack.id@).first_set() {
            Some(flag) => Err(CoreError::Busy(flag)),
            None => Ok((stack, server)),
        },
    }
}

/// The records after a request was answered: untouched where the stack or
/// server was not resolved, and as after a guarded transition otherwise.
pub open spec fn records_after_admission(
    records: Map<Seq<char>, StackActionState>,
    stack: Option<Stack>,
    admin: bool,
    assignments: Seq<PermissionLevel>,
    server: Option<(Server, ServerState)>,
    flag: ActionFlag,
) -> Map<Seq<char>, StackActionState> {
    match stack_and_server(stack, admin, assignments, PermissionLevel::Execute, server, true) {
        Err(error) => records,
        Ok((stack, server)) => records_after_update(records, stack.id@, flag),
    }
}

/// Why an execution failed: the kind of failure, and what the
/// collaborator that failed said of it.
#[derive(Clone, Debug, PartialEq, Eq)]
pub struct ExecutionError {
    pub kind: CoreError,
    pub cause: String,
}

/// An execution's failure as a mathematical value.
pub struct ExecutionErrorView {
    pub kind: CoreError,
    pub cause: Seq<char>,
}

impl View for ExecutionError {
    type V = ExecutionErrorView;

    open spec fn view(&self) -> ExecutionErrorView {
        ExecutionErrorView { kind: self.kind, cause: self.cause@ }
    }
}

impl ExecutionError {
    /// A copy of the failure.
    pub fn duplicate(&self) -> (copy: ExecutionError)
        ensures
            copy@ == self@,
    {
        ExecutionError { kind: self.kind, cause: self.cause.clone() }
    }
}

/// The view of a failure that may be absent.
pub open spec fn failure_view(failure: Option<ExecutionError>) -> Option<ExecutionErrorView> {
    match failure {
        Some(error) => Some(error@),
        None => None,
    }
}

/// The result an execution ends with.
pub open spec fn result_of(failure: Option<ExecutionErrorView>) -> Result<(), ExecutionErrorView> {
    match failure {
        Some(error) => Err(error),
        None => Ok(()),
    }
}

/// What the segment says that records an execution given up.
pub open spec fn abandoned_message() -> Seq<char> {
    "execution abandoned"@
}

/// What happened to the action the driver was asked to perform.
#[derive(Debug)]
pub enum Event {
    /// The store took the update, or failed to and said why.
    Stored(Result<(), String>),
    /// The agent answered with a log segment, or could not be reached.
    AgentReplied(Result<Log, String>),
    /// The status cache was refreshed.
    Refreshed,
}

/// An event as a mathematical value.
pub enum EventView {
    Stored(Result<(), Seq<char>>),
    AgentReplied(Result<LogView, Seq<char>>),
    Refreshed,
}

impl View for Event {
    type V = EventView;

    open spec fn view(&self) -> EventView {
        match self {
            Event::Stored(Ok(())) => EventView::Stored(Ok(())),
            Event::Stored(Err(cause)) => EventView::Stored(Err(cause@)),
            Event::AgentReplied(Ok(log)) => EventView::AgentReplied(Ok(log@)),
            Event::AgentReplied(Err(message)) => EventView::AgentReplied(Err(message@)),
            Event::Refreshed => EventView::Refreshed,
        }
    }
}

/// What the driver is asked to do next.
#[derive(Debug)]
pub enum Action {
    /// Store and publish this update, then report `Stored`.
    StoreUpdate(Update),
    /// Send the command to the agent of the server, then report
    /// `AgentReplied`.
    CallAgent { server_id: String, project: String, command: String },
    /// Refresh the status cache for the server, then report `Refreshed`.
    RefreshCache { server_id: String },
    /// The execution is over, with this result.
    Finish(Result<(), ExecutionError>),
}

/// An action as a mathematical value.
pub enum ActionView {
    StoreUpdate(UpdateView),
    CallAgent { server_id: Seq<char>, project: Seq<char>, command: Seq<char> },
    RefreshCache { server_id: Seq<char> },
    Finish(Result<(), ExecutionErrorView>),
}

impl View for Action {
    type V = ActionView;

    open spec fn view(&self) -> ActionView {
        match self {
            Action::StoreUpdate(update) => ActionView::StoreUpdate(update@),
            Action::CallAgent { server_id, project, command } => ActionView::CallAgent {
                server_id: server_id@,
                project: project@,
                command: command@,
            },
            Action::RefreshCache { server_id } => ActionView::RefreshCache {
                server_id: server_id@,
            },
            Action::Finish(Ok(())) => ActionView::Finish(Ok(())),
            Action::Finish(Err(error)) => ActionView::Finish(Err(error@)),
        }
    }
}

/// One action on one stack, on its way through the pipeline. While it is
/// not finished it holds the guard of the stack's action flag.
pub struct Execution {
    phase: Phase,
    stack_id: String,
    server_id: String,
    project: String,
    command: String,
    service: Option<String>,
    update: Update,
    failure: Option<ExecutionError>,
    guard: Option<UpdateGuard>,
}

/// An execution as a mathematical value.
pub struct ExecutionView {
    pub phase: Phase,
    pub stack_id: Seq<char>,
    pub server_id: Seq<char>,
    pub project: Seq<char>,
    pub command: Seq<char>,
    pub service: Option<Seq<char>>,
    pub update: UpdateView,
    pub failure: Option<ExecutionErrorView>,
}

/// The execution that an admitted request starts.
pub open spec fn started(
    stack: Stack,
    server: Server,
    service: Option<Seq<char>>,
    command: Seq<char>,
    update: UpdateView,
) -> ExecutionView {
    ExecutionView {
        phase: Phase::Announcing,
        stack_id: stack.id@,
        server_id: server.id@,
        project: stack.project(),
        command,
        service,
        update,
        failure: None,
    }
}

impl ExecutionView {
    /// What the driver is asked to do in this phase.
    pub open spec fn action(self) -> ActionView {
        match self.phase {
            Phase::Announcing => ActionView::StoreUpdate(self.update),
            Phase::Executing => ActionView::CallAgent {
                server_id: self.server_id,
                project: self.project,
                command: self.command,
            },
            Phase::Refreshing => ActionView::RefreshCache { server_id: self.server_id },
            Phase::Closing => ActionView::StoreUpdate(self.update),
            Phase::Finished => ActionView::Finish(result_of(self.failure)),
        }
    }

    /// The execution after `event` was reported at time `now`. An event
    /// that does not answer the pending action changes nothing.
    ///
    /// - Announcing, stored: the request for a service is logged, and the
    ///   command is sent next. Not stored: the execution ends with
    ///   `StoreFailure` and the store's words.
    /// - Executing, the agent answered: its segment is appended and the
    ///   cache is refreshed next; a segment that reports failure marks the
    ///   execution with `RemoteFailure` and what the segment has on its
    ///   error stream. No answer: a failed segment with the message is
    ///   appended, the update is finalized, and the execution is marked
    ///   with `RemoteUnavailable` and the message.
    /// - Refreshing, refreshed: the update is finalized.
    /// - Closing: the execution ends; a store that failed is reported as
    ///   `StoreFailure` with the store's words, else the mark set earlier
    ///   stands.
    pub open spec fn after(self, event: EventView, now: i64) -> ExecutionView {
        match (self.phase, event) {
            (Phase::Announcing, EventView::Stored(Ok(()))) => ExecutionView {
                phase: Phase::Executing,
                update: match self.service {
                    Some(service) => self.update.with_log(
                        simple_log(service_stage(service), service_message(service), now),
                    ),
                    None => self.update,
                },
                ..self
            },
            (Phase::Announcing, EventView::Stored(Err(cause))) => ExecutionView {
                phase: Phase::Finished,
                failure: Some(ExecutionErrorView { kind: CoreError::StoreFailure, cause }),
                ..self
            },
            (Phase::Executing, EventView::AgentReplied(Ok(log))) => ExecutionView {
                phase: Phase::Refreshing,
                update: self.update.with_log(log),
                failure: if log.success {
                    None
                } else {
                    Some(ExecutionErrorView { kind: CoreError::RemoteFailure, cause: log.stderr })
                },
                ..self
            },
            (Phase::Executing, EventView::AgentReplied(Err(message))) => ExecutionView {
                phase: Phase::Closing,
                update: self.update.with_log(
                    error_log(unreachable_stage(), message, now),
                ).finalized_at(now),
                failure: Some(
                    ExecutionErrorView { kind: CoreError::RemoteUnavailable, cause: message },
                ),
                ..self
            },
            (Phase::Refreshing, EventView::Refreshed) => ExecutionView {
                phase: Phase::Closing,
                update: self.update.finalized_at(now),
                ..self
            },
            (Phase::Closing, EventView::Stored(Ok(()))) => ExecutionView {
                phase: Phase::Finished,
                ..self
            },
            (Phase::Closing, EventView::Stored(Err(cause))) => ExecutionView {
                phase: Phase::Finished,
                failure: Some(ExecutionErrorView { kind: CoreError::StoreFailure, cause }),
                ..self
            },
            _ => self,
        }
    }

    /// The execution after it was given up at time `now`. A finished
    /// execution stays as it is. Any other ends at once: a failed segment
    /// is appended and the update finalized, unless it was finalized
    /// already, and the execution is marked with `RemoteFailure` unless
    /// it bore a mark already.
    pub open spec fn abandoned(self, now: i64) -> ExecutionView {
        if self.phase == Phase::Finished {
            self
        } else {
            ExecutionView {
                phase: Phase::Finished,
                update: self.update.with_log(
                    error_log(unreachable_stage(), abandoned_message(), now),
                ).finalized_at(now),
                failure: match self.failure {
                    Some(error) => Some(error),
                    None => Some(
                        ExecutionErrorView {
                            kind: CoreError::RemoteFailure,
                            cause: abandoned_message(),
                        },
                    ),
                },
                ..self
            }
        }
    }

    /// Whether `event` ends the execution.
    pub open spec fn ends_with(self, event: EventView, now: i64) -> bool {
        self.phase != Phase::Finished && self.after(event, now).phase == Phase::Finished
    }
}

/// The records after `event` was reported to `execution`: the stack's
/// flags are cleared by the event that ends the execution, and nothing
/// changes before that.
pub open spec fn records_after_step(
    records: Map<Seq<char>, StackActionState>,
    execution: ExecutionView,
    event: EventView,
    now: i64,
) -> Map<Seq<char>, StackActionState> {
    if execution.ends_with(event, now) {
        records_after_release(records, execution.stack_id)
    } else {
        records
    }
}

/// An execution and the records after a whole run was reported to it: the
/// first store, the agent's reply, the refresh, the last store.
pub open spec fn after_run(
    records: Map<Seq<char>, StackActionState>,
    start: ExecutionView,
    first_store: Result<(), Seq<char>>,
    reply: Result<LogView, Seq<char>>,
    last_store: Result<(), Seq<char>>,
    now: i64,
) -> (ExecutionView, Map<Seq<char>, StackActionState>) {
    let e1 = EventView::Stored(first_store);
    let e2 = EventView::AgentReplied(reply);
    let e3 = EventView::Refreshed;
    let e4 = EventView::Stored(last_store);
    let x1 = start.after(e1, now);
    let r1 = records_after_step(records, start, e1, now);
    let x2 = x1.after(e2, now);
    let r2 = records_after_step(r1, x1, e2, now);
    let x3 = x2.after(e3, now);
    let r3 = records_after_step(r2, x2, e3, now);
    (x3.after(e4, now), records_after_step(r3, x3, e4, now))
}

/// The result a whole run ends with: the first store's failure, else
/// the last store's, else the agent's, else success.
pub open spec fn result_of_run(
    first_store: Result<(), Seq<char>>,
    reply: Result<LogView, Seq<char>>,
    last_store: Result<(), Seq<char>>,
) -> Result<(), ExecutionErrorView> {
    match (first_store, last_store, reply) {
        (Err(cause), _, _) => Err(ExecutionErrorView { kind: CoreError::StoreFailure, cause }),
        (Ok(()), Err(cause), _) => Err(
            ExecutionErrorView { kind: CoreError::StoreFailure, cause },
        ),
        (Ok(()), Ok(()), Err(message)) => Err(
            ExecutionErrorView { kind: CoreError::RemoteUnavailable, cause: message },
        ),
        (Ok(()), Ok(()), Ok(log)) => if log.success {
            Ok(())
        } else {
            Err(ExecutionErrorView { kind: CoreError::RemoteFailure, cause: log.stderr })
        },
    }
}

/// The guard is released on every path. Whatever the stores and the agent
/// answer, a run ends finished with every flag of the stack clear, and the
/// records of other stacks as they were. The run succeeds exactly when
/// both stores took the update and the agent's segment reports success;
/// each failure is reported as its own error, with its cause.
pub proof fn law_flags_clear_after_every_run(
    records: Map<Seq<char>, StackActionState>,
    start: ExecutionView,
    first_store: Result<(), Seq<char>>,
    reply: Result<LogView, Seq<char>>,
    last_store: Result<(), Seq<char>>,
    now: i64,
)
    requires
        start.phase == Phase::Announcing,
        start.failure is None,
    ensures
        ({
            let (end, left) = after_run(records, start, first_store, reply, last_store, now);
            &&& end.phase == Phase::Finished
            &&& record_of(left, start.stack_id) == StackActionState::idle()
            &&& forall|flag: ActionFlag| !record_of(left, start.stack_id).holds(flag)
            &&& left == records_after_release(records, start.stack_id)
            &&& end.action() == ActionView::Finish(result_of_run(first_store, reply, last_store))
            &&& first_store is Ok ==> end.update.finalized()
        }),
{
    lemma_single_flag(ActionFlag::Pulling);
}

/// Giving up releases too. From whatever phase an unfinished execution
/// is given up, it is finished, its update is finalized and not
/// successful, its result is an error, and every flag of the stack is
/// clear.
pub proof fn law_flags_clear_after_abandon(
    records: Map<Seq<char>, StackActionState>,
    execution: ExecutionView,
    now: i64,
)
    requires
        execution.phase != Phase::Finished,
        execution.update.consistent(),
    ensures
        execution.abandoned(now).phase == Phase::Finished,
        execution.abandoned(now).update.finalized(),
        !execution.update.finalized() ==> !execution.abandoned(now).update.success,
        execution.abandoned(now).action() matches ActionView::Finish(Err(_)),
        record_of(records_after_release(records, execution.stack_id), execution.stack_id)
            == StackActionState::idle(),
{
    lemma_single_flag(ActionFlag::Pulling);
    if !execution.update.finalized() {
        let logs = execution.update.logs.push(
            error_log(unreachable_stage(), abandoned_message(), now),
        );
        assert(!logs[logs.len() - 1].success);
    }
}

/// Permission is checked first. A request by a user whose level on the stack is
/// below `Execute` is refused as `Unauthorized`; it sets no flag and
/// starts no execution, so no command reaches an agent. Every admitted
/// request was permitted.
pub proof fn law_unauthorized_starts_nothing(
    records: Map<Seq<char>, StackActionState>,
    stack: Stack,
    admin: bool,
    assignments: Seq<PermissionLevel>,
    server: Option<(Server, ServerState)>,
    flag: ActionFlag,
)
    ensures
        !permitted(admin, assignments, PermissionLevel::Execute) ==> {
            &&& admission(records, Some(stack), admin, assignments, server) == Err::<
                (Stack, Server),
                CoreError,
            >(CoreError::Unauthorized)
            &&& records_after_admission(records, Some(stack), admin, assignments, server, flag)
                == records
        },
        admission(records, Some(stack), admin, assignments, server) is Ok ==> permitted(
            admin,
            assignments,
            PermissionLevel::Execute,
        ),
{
}

/// Busy while in flight. Once a request on a stack is admitted, a second
/// request that resolves to the same stack is refused as `Busy` with the
/// first one's flag, at once and without changing anything; and this
/// stays so after every event that does not end the first execution.
pub proof fn law_second_request_is_busy(
    records: Map<Seq<char>, StackActionState>,
    first: (Option<Stack>, bool, Seq<PermissionLevel>, Option<(Server, ServerState)>),
    first_flag: ActionFlag,
    second: (Option<Stack>, bool, Seq<PermissionLevel>, Option<(Server, ServerState)>),
    second_flag: ActionFlag,
    execution: ExecutionView,
    event: EventView,
    now: i64,
)
    requires
        admission(records, first.0, first.1, first.2, first.3) matches Ok((stack, server))
            && execution.stack_id == stack.id@,
        stack_and_server(
            second.0,
            second.1,
            second.2,
            PermissionLevel::Execute,
            second.3,
            true,
        ) matches Ok((stack, server)) && execution.stack_id == stack.id@,
        !execution.ends_with(event, now),
    ensures
        ({
            let held = records_after_admission(
                records,
                first.0,
                first.1,
                first.2,
                first.3,
                first_flag,
            );
            let later = records_after_step(held, execution, event, now);
            &&& admission(held, second.0, second.1, second.2, second.3) matches Err(error)
                && error == CoreError::Busy(first_flag)
            &&& records_after_admission(held, second.0, second.1, second.2, second.3, second_flag)
                == held
            &&& admission(later, second.0, second.1, second.2, second.3) matches Err(error)
                && error == CoreError::Busy(first_flag)
        }),
{
    lemma_single_flag(first_flag);
    let held = records_after_admission(records, first.0, first.1, first.2, first.3, first_flag);
    let id = execution.stack_id;
    assert(record_of(records, id).first_set() is None);
    assert(!record_of(records, id).is_busy()) by {
        if record_of(records, id).is_busy() {
            let flag = choose|flag: ActionFlag| record_of(records, id).holds(flag);
            assert(record_of(records, id).holds(flag));
        }
    }
    assert(record_of(held, id) == StackActionState::idle().with(first_flag, true));
    assert(records_after_update(held, id, second_flag) =~= held);
}

impl View for Execution {
    type V = ExecutionView;

    closed spec fn view(&self) -> ExecutionView {
        ExecutionView {
            phase: self.phase,
            stack_id: self.stack_id@,
            server_id: self.server_id@,
            project: self.project@,
            command: self.command@,
            service: service_view(&self.service),
            update: self.update@,
            failure: failure_view(self.failure),
        }
    }
}

impl Execution {
    /// The update is consistent, and the guard is held exactly until the
    /// execution is finished.
    pub closed spec fn wf(&self) -> bool {
        &&& self.update@.consistent()
        &&& self.guard is Some <==> self.phase != Phase::Finished
        &&& self.guard matches Some(guard) ==> guard.id() == self.stack_id@
    }

    /// Whether the execution still holds the guard of its stack.
    pub closed spec fn holds_guard(&self) -> bool {
        self.guard is Some
    }

    /// The guard is held exactly until the execution is finished.
    pub proof fn lemma_guard_held_until_finished(&self)
        requires
            self.wf(),
        ensures
            self.holds_guard() <==> self@.phase != Phase::Finished,
    {
    }

    /// What the driver is to do next.
    pub fn pending(&self) -> (action: Action)
        ensures
            action@ == self@.action(),
    {
        match self.phase {
            Phase::Announcing => Action::StoreUpdate(self.update.duplicate()),
            Phase::Executing => Action::CallAgent {
                server_id: self.server_id.clone(),
                project: self.project.clone(),
                command: self.command.clone(),
            },
            Phase::Refreshing => Action::RefreshCache { server_id: self.server_id.clone() },
            Phase::Closing => Action::StoreUpdate(self.update.duplicate()),
            Phase::Finished => Action::Finish(
                match &self.failure {
                    Some(error) => Err(error.duplicate()),
                    None => Ok(()),
                },
            ),
        }
    }

    /// Whether nothing is left to do.
    pub fn is_finished(&self) -> (finished: bool)
        ensures
            finished == (self@.phase == Phase::Finished),
    {
        match self.phase {
            Phase::Finished => true,
            _ => false,
        }
    }

    /// The update as it stands.
    pub fn update(&self) -> (update: &Update)
        ensures
            update@ == self@.update,
    {
        &self.update
    }

    fn finish(&mut self, states: &mut ActionStates, failure: Option<ExecutionError>)
        requires
            old(self).wf(),
            old(self).phase != Phase::Finished,
            old(states).wf(),
        ensures
            final(self).wf(),
            final(self)@ == (ExecutionView {
                phase: Phase::Finished,
                failure: failure_view(failure),
                ..old(self)@
            }),
            final(states).wf(),
            final(states)@ == records_after_release(old(states)@, old(self)@.stack_id),
    {
        self.phase = Phase::Finished;
        self.failure = failure;
        match self.guard.take() {
            Some(guard) => {
                states.release(guard);
            },
            None => {},
        }
    }

    /// Gives the execution up at time `now`, from whatever phase it is
    /// in: it is finished in this one call, its update finalized, and the
    /// guard released, so that every flag of the stack is clear. A
    /// finished execution stays as it is and touches no flag.
    pub fn abandon(&mut self, states: &mut ActionStates, now: i64)
        requires
            old(self).wf(),
            old(states).wf(),
        ensures
            final(self).wf(),
            final(self)@ == old(self)@.abandoned(now),
            final(self)@.phase == Phase::Finished,
            final(states).wf(),
            final(states)@ == if old(self)@.phase == Phase::Finished {
                old(states)@
            } else {
                records_after_release(old(states)@, old(self)@.stack_id)
            },
            old(self)@.phase != Phase::Finished ==> record_of(
                final(states)@,
                old(self)@.stack_id,
            ) == StackActionState::idle(),
    {
        match self.phase {
            Phase::Finished => {},
            _ => {
                let log = Log::error(
                    "Remote Execution",
                    String::from_str("execution abandoned"),
                    now,
                );
                self.update.push_log(log);
                self.update.finalize(now);
                let failure = match self.failure.take() {
                    Some(error) => error,
                    None => ExecutionError {
                        kind: CoreError::RemoteFailure,
                        cause: String::from_str("execution abandoned"),
                    },
                };
                self.finish(states, Some(failure));
            },
        }
    }

    /// Takes in what happened to the pending action, at time `now`. When
    /// the step ends the execution, whatever the result, the guard is
    /// released and the stack's flags are clear.
    pub fn step(&mut self, states: &mut ActionStates, event: Event, now: i64)
        requires
            old(self).wf(),
            old(states).wf(),
        ensures
            final(self).wf(),
            final(self)@ == old(self)@.after(event@, now),
            final(states).wf(),
            final(states)@ == records_after_step(old(states)@, old(self)@, event@, now),
            old(self)@.ends_with(event@, now) ==> record_of(final(states)@, old(self)@.stack_id)
                == StackActionState::idle(),
    {
        match self.phase {
            Phase::Announcing => match event {
                Event::Stored(Ok(())) => {
                    match &self.service {
                        Some(service) => {
                            let log = service_log(service.as_str(), now);
                            self.update.push_log(log);
                        },
                        None => {},
                    }
                    self.phase = Phase::Executing;
                },
                Event::Stored(Err(cause)) => {
                    let failure = ExecutionError { kind: CoreError::StoreFailure, cause };
                    self.finish(states, Some(failure));
                },
                _ => {},
            },
            Phase::Executing => match event {
                Event::AgentReplied(Ok(log)) => {
                    self.failure = if log.success {
                        None
                    } else {
                        Some(
                            ExecutionError {
                                kind: CoreError::RemoteFailure,
                                cause: log.stderr.clone(),
                            },
                        )
                    };
                    self.update.push_log(log);
                    self.phase = Phase::Refreshing;
                },
                Event::AgentReplied(Err(message)) => {
                    let log = Log::error("Remote Execution", message.clone(), now);
                    self.update.push_log(log);
                    self.update.finalize(now);
                    self.failure = Some(
                        ExecutionError { kind: CoreError::RemoteUnavailable, cause: message },
                    );
                    self.phase = Phase::Closing;
                },
                _ => {},
            },
            Phase::Refreshing => match event {
                Event::Refreshed => {
                    self.update.finalize(now);
                    self.phase = Phase::Closing;
                },
                _ => {},
            },
            Phase::Closing => match event {
                Event::Stored(Ok(())) => {
                    let failure = self.failure.take();
                    self.finish(states, failure);
                },
                Event::Stored(Err(cause)) => {
                    let failure = ExecutionError { kind: CoreError::StoreFailure, cause };
                    self.finish(states, Some(failure));
                },
                _ => {},
            },
            Phase::Finished => {},
        }
    }
}

/// Starts an action on a stack. `stack` and `server` are what the store
/// answered for the stack's id or name and for the server that the stack
/// names; `assignments` are the levels the permission source holds for the
/// user on the stack.
///
/// The request is refused, with nothing sent anywhere, where the stack or
/// server is not resolved (`NotFound`, `Unauthorized`,
/// `RemoteUnavailable`) and where an operation is in flight on the stack
/// (`Busy`, with its flag). Otherwise `flag` is set on the stack and the
/// execution starts, holding the guard.
pub fn execute_compose<T: ExecuteCompose>(
    states: &mut ActionStates,
    stack: Option<Stack>,
    user: &User,
    assignments: &Vec<PermissionLevel>,
    server: Option<(Server, ServerState)>,
    service: Option<String>,
    flag: ActionFlag,
    update: Update,
    extras: T::Extras,
) -> (outcome: Result<Execution, CoreError>)
    requires
        old(states).wf(),
        update@.consistent(),
    ensures
        final(states).wf(),
        final(states)@ == records_after_admission(
            old(states)@,
            stack,
            user.admin,
            assignments@,
            server,
            flag,
        ),
        match admission(old(states)@, stack, user.admin, assignments@, server) {
            Err(error) => outcome matches Err(refusal) && refusal == error,
            Ok((stack, server)) => outcome matches Ok(execution) && execution.wf()
                && execution@ == started(
                stack,
                server,
                service_view(&service),
                T::command_spec(service_view(&service), extras),
                update@,
            ),
        },
{
    let (stack, server) = match get_stack_and_server(
        stack,
        user,
        assignments,
        PermissionLevel::Execute,
        server,
        true,
    ) {
        Ok(resolved) => resolved,
        Err(error) => {
            return Err(error);
        },
    };
    let guard = match states.update(stack.id.as_str(), flag) {
        Ok(guard) => guard,
        Err(busy) => {
            return Err(CoreError::Busy(busy.flag));
        },
    };
    let command = T::command(&service, extras);
    Ok(
        Execution {
            phase: Phase::Announcing,
            stack_id: stack.id.clone(),
            server_id: server.id.clone(),
            project: stack.project_name(),
            command,
            service,
            update,
            failure: None,
            guard: Some(guard),
        },
    )
}

} // verus!
