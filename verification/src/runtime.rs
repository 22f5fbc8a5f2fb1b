use vstd::prelude::*;

use crate::session::{Session, SessionId, SessionView};
use crate::task::{
    has_observation, parent_validation_holds, spec_observation_parent_is_valid, terminal_state_error,
    is_terminal_state_error, Task, TaskId, TaskObservationId, TaskObservationKind, TaskStatus,
    TaskStoreError, TaskView,
};
use crate::text::opt_view;

verus! {

/// Caller-owned highest-authority policy for one explicitly composed request.
#[derive(Clone, Copy, Debug, PartialEq, Eq)]
pub struct SystemPolicy<'a>(&'a str);

impl<'a> View for SystemPolicy<'a> {
    type V = Seq<char>;

    closed spec fn view(&self) -> Seq<char> {
        self.0@
    }
}

impl<'a> SystemPolicy<'a> {
    pub fn new(value: &'a str) -> (r: Self)
        ensures
            r@ == value@,
    {
        SystemPolicy(value)
    }

    pub fn as_str(self) -> (r: &'a str)
        ensures
            r@ == self@,
    {
        self.0
    }
}

/// Caller-owned policy below system authority for one explicitly composed request.
#[derive(Clone, Copy, Debug, PartialEq, Eq)]
pub struct DeveloperPolicy<'a>(&'a str);

impl<'a> View for DeveloperPolicy<'a> {
    type V = Seq<char>;

    closed spec fn view(&self) -> Seq<char> {
        self.0@
    }
}

impl<'a> DeveloperPolicy<'a> {
    pub fn new(value: &'a str) -> (r: Self)
        ensures
            r@ == value@,
    {
        DeveloperPolicy(value)
    }

    pub fn as_str(self) -> (r: &'a str)
        ensures
            r@ == self@,
    {
        self.0
    }
}

/// Whether the caller has a final response or must explicitly continue with the provider.
#[derive(Clone, Copy, Debug, PartialEq, Eq, Structural)]
pub enum ToolStepContinuation {
    Complete,
    ProviderRequired,
}

/// The session and task states after one task-bound assistant turn.
#[derive(Debug)]
pub struct TaskTurnOutcome {
    session: Session,
    task: Task,
}

impl TaskTurnOutcome {
    pub fn new(session: Session, task: Task) -> (r: Self)
        ensures
            r.session_view() == session@,
            r.task_view() == task@,
    {
        TaskTurnOutcome { session, task }
    }

    pub closed spec fn session_view(self) -> SessionView {
        self.session@
    }

    pub closed spec fn task_view(self) -> TaskView {
        self.task@
    }

    pub fn session(&self) -> (r: &Session)
        ensures
            r@ == self.session_view(),
    {
        &self.session
    }

    pub fn task(&self) -> (r: &Task)
        ensures
            r@ == self.task_view(),
    {
        &self.task
    }
}


/// What a provider answered at one bounded tool step.
#[derive(Clone, Copy, Debug, PartialEq, Eq, Structural)]
pub enum ProviderAnswer {
    Final,
    ToolRequest,
}

/// What one bounded tool step does with the provider's answer.
#[derive(Clone, Copy, Debug, PartialEq, Eq, Structural)]
pub enum ToolStepAction {
    /// Hand back the final content; no tool runs.
    Finish,
    /// Invoke exactly the requested tool, once.
    InvokeOnce,
}

/// Dispatches one provider answer: a final answer completes the step without any
/// invocation; a tool request invokes exactly one tool, after which only an explicit
/// caller continuation may call the provider again.
pub fn tool_step_action(answer: ProviderAnswer) -> (r: (ToolStepAction, ToolStepContinuation))
    ensures
        answer == ProviderAnswer::Final ==> r == (ToolStepAction::Finish, ToolStepContinuation::Complete),
        answer == ProviderAnswer::ToolRequest ==> r == (
            ToolStepAction::InvokeOnce,
            ToolStepContinuation::ProviderRequired,
        ),
{
    match answer {
        ProviderAnswer::Final => (ToolStepAction::Finish, ToolStepContinuation::Complete),
        ProviderAnswer::ToolRequest => (ToolStepAction::InvokeOnce, ToolStepContinuation::ProviderRequired),
    }
}

/// Why a task-bound turn cannot start on its task.
#[derive(Debug)]
pub enum TurnRefusal {
    Task(TaskStoreError),
    TaskNotAssociated { task_id: TaskId },
}

/// What checking one more observation on task `t` gives: success exactly when the
/// task is active, the identity is new and its parent lineage is valid; otherwise the
/// refusal that the observation check reports.
pub open spec fn observation_append_outcome(
    t: TaskView,
    observation_id: Seq<char>,
    kind: TaskObservationKind,
    parent: Option<Seq<char>>,
    v: Result<(), TaskStoreError>,
) -> bool {
    &&& v is Ok <==> (t.status == TaskStatus::Active && !has_observation(t.observations, observation_id)
        && spec_observation_parent_is_valid(t.observations, observation_id, kind, parent))
    &&& t.status == TaskStatus::Active && has_observation(t.observations, observation_id) ==> (v matches Err(
        TaskStoreError::DuplicateObservation { task_id, observation_id: o },
    ) && task_id@ == t.id && o@ == observation_id)
    &&& t.status == TaskStatus::Active && !has_observation(t.observations, observation_id)
        ==> parent_validation_holds(v, t.id, t.observations, observation_id, kind, parent)
}

/// The checks on the task before a task-bound turn, in order: the task exists, it is
/// active, it is bound to a session, and it accepts the new observation. Returns the
/// session the turn is written to.
pub fn check_turn_task(
    task_id: &TaskId,
    loaded: Option<Task>,
    observation_id: &TaskObservationId,
    kind: TaskObservationKind,
    parent_attempt_id: Option<&TaskObservationId>,
) -> (r: Result<SessionId, TurnRefusal>)
    ensures
        loaded is None ==> (r matches Err(TurnRefusal::Task(TaskStoreError::NotFound { task_id: t }))
            && t@ == task_id@),
        loaded matches Some(t) ==> t@.status != TaskStatus::Active ==> (r matches Err(
            TurnRefusal::Task(e),
        ) && is_terminal_state_error(e, task_id@, t@.status)),
        loaded matches Some(t) ==> t@.status == TaskStatus::Active ==> t@.session_id is None ==> (r matches Err(
            TurnRefusal::TaskNotAssociated { task_id: x },
        ) && x@ == task_id@),
        loaded matches Some(t) ==> t@.status == TaskStatus::Active ==> (t@.session_id matches Some(
            s,
        ) ==> {
            &&& (r is Ok <==> (!has_observation(t@.observations, observation_id@)
                && spec_observation_parent_is_valid(
                t@.observations,
                observation_id@,
                kind,
                opt_view(parent_attempt_id),
            )))
            &&& (r matches Ok(x) ==> x@ == s)
            &&& (r matches Err(e) ==> (e matches TurnRefusal::Task(te) && observation_append_outcome(
                t@,
                observation_id@,
                kind,
                opt_view(parent_attempt_id),
                Err(te),
            )))
        }),
{
    let task = match loaded {
        None => {
            return Err(TurnRefusal::Task(TaskStoreError::NotFound { task_id: task_id.clone() }));
        },
        Some(t) => t,
    };
    let status = task.status();
    if status != TaskStatus::Active {
        return Err(TurnRefusal::Task(terminal_state_error(task_id, status)));
    }
    let session_id = match task.session_id() {
        None => {
            return Err(TurnRefusal::TaskNotAssociated { task_id: task_id.clone() });
        },
        Some(s) => s.clone(),
    };
    match task.validate_observation_append(observation_id, kind, parent_attempt_id) {
        Ok(()) => Ok(session_id),
        Err(e) => Err(TurnRefusal::Task(e)),
    }
}

} // verus!
