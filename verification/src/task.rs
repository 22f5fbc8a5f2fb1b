use vstd::prelude::*;

use crate::event_log::{DecodeError, EventLogError, ExpectedVersion, ReplayError, StreamId};
use crate::replay::{replay, lemma_replay_push, lemma_replay_rejected_prefix, lemma_replay_step};
use crate::session::{SessionId, SessionStatus, SessionStoreError, VersionedSession};
use crate::text::{is_blank, opt_view, str_equals, str_is_blank};

verus! {

/// An opaque, non-empty identifier for one task.
#[derive(Debug, Hash, PartialEq, Eq)]
pub struct TaskId(String);

impl View for TaskId {
    type V = Seq<char>;

    closed spec fn view(&self) -> Seq<char> {
        self.0@
    }
}

impl TaskId {
    #[verifier::type_invariant]
    closed spec fn inv(self) -> bool {
        self.0@.len() > 0
    }

    pub fn new(value: String) -> (r: Result<Self, TaskIdError>)
        ensures
            r is Ok <==> value@.len() > 0,
            r matches Ok(v) ==> v@ == value@,
    {
        if value.as_str().is_empty() {
            Err(TaskIdError)
        } else {
            Ok(TaskId(value))
        }
    }

    pub fn as_str(&self) -> (r: &str)
        ensures
            r@ == self@,
            r@.len() > 0,
    {
        proof {
            use_type_invariant(self);
        }
        self.0.as_str()
    }

    /// Exact textual equality of two values.
    pub fn same_as(&self, other: &Self) -> (r: bool)
        ensures
            r == (self@ == other@),
    {
        self.0 == other.0
    }
}

impl Clone for TaskId {
    fn clone(&self) -> (r: Self)
        ensures
            r == *self,
    {
        proof {
            use_type_invariant(self);
        }
        TaskId(self.0.clone())
    }
}

#[derive(Clone, Copy, Debug, PartialEq, Eq, Structural)]
pub struct TaskIdError;

impl TaskIdError {
    pub fn to_string(&self) -> (r: String)
        ensures
            r@ == "task id must not be empty"@,
    {
        "task id must not be empty".to_owned()
    }
}

/// A caller-supplied identifier that is unique among one task's observations.
#[derive(Debug, Hash, PartialEq, Eq)]
pub struct TaskObservationId(String);

impl View for TaskObservationId {
    type V = Seq<char>;

    closed spec fn view(&self) -> Seq<char> {
        self.0@
    }
}

impl TaskObservationId {
    #[verifier::type_invariant]
    closed spec fn inv(self) -> bool {
        !is_blank(self.0@)
    }

    pub fn new(value: String) -> (r: Result<Self, TaskObservationIdError>)
        ensures
            r is Ok <==> !is_blank(value@),
            r matches Ok(v) ==> v@ == value@,
    {
        if str_is_blank(value.as_str()) {
            Err(TaskObservationIdError)
        } else {
            Ok(TaskObservationId(value))
        }
    }

    pub fn as_str(&self) -> (r: &str)
        ensures
            r@ == self@,
            !is_blank(r@),
    {
        proof {
            use_type_invariant(self);
        }
        self.0.as_str()
    }

    /// Exact textual equality of two values.
    pub fn same_as(&self, other: &Self) -> (r: bool)
        ensures
            r == (self@ == other@),
    {
        self.0 == other.0
    }
}

impl Clone for TaskObservationId {
    fn clone(&self) -> (r: Self)
        ensures
            r == *self,
    {
        proof {
            use_type_invariant(self);
        }
        TaskObservationId(self.0.clone())
    }
}

#[derive(Clone, Copy, Debug, PartialEq, Eq, Structural)]
pub struct TaskObservationIdError;

impl TaskObservationIdError {
    pub fn to_string(&self) -> (r: String)
        ensures
            r@ == "task observation id must not be blank"@,
    {
        "task observation id must not be blank".to_owned()
    }
}

/// Non-blank opaque UTF-8 evidence recorded for one task observation.
#[derive(Debug, PartialEq, Eq)]
pub struct TaskObservationText(String);

impl View for TaskObservationText {
    type V = Seq<char>;

    closed spec fn view(&self) -> Seq<char> {
        self.0@
    }
}

impl TaskObservationText {
    #[verifier::type_invariant]
    closed spec fn inv(self) -> bool {
        !is_blank(self.0@)
    }

    pub fn new(value: String) -> (r: Result<Self, TaskObservationTextError>)
        ensures
            r is Ok <==> !is_blank(value@),
            r matches Ok(v) ==> v@ == value@,
    {
        if str_is_blank(value.as_str()) {
            Err(TaskObservationTextError)
        } else {
            Ok(TaskObservationText(value))
        }
    }

    pub fn as_str(&self) -> (r: &str)
        ensures
            r@ == self@,
            !is_blank(r@),
    {
        proof {
            use_type_invariant(self);
        }
        self.0.as_str()
    }
}

impl Clone for TaskObservationText {
    fn clone(&self) -> (r: Self)
        ensures
            r == *self,
    {
        proof {
            use_type_invariant(self);
        }
        TaskObservationText(self.0.clone())
    }
}

#[derive(Clone, Copy, Debug, PartialEq, Eq, Structural)]
pub struct TaskObservationTextError;

impl TaskObservationTextError {
    pub fn to_string(&self) -> (r: String)
        ensures
            r@ == "task observation text must not be blank"@,
    {
        "task observation text must not be blank".to_owned()
    }
}

/// The non-empty objective recorded when a task starts.
#[derive(Debug, PartialEq, Eq)]
pub struct TaskGoal(String);

impl View for TaskGoal {
    type V = Seq<char>;

    closed spec fn view(&self) -> Seq<char> {
        self.0@
    }
}

impl TaskGoal {
    #[verifier::type_invariant]
    closed spec fn inv(self) -> bool {
        self.0@.len() > 0
    }

    pub fn new(value: String) -> (r: Result<Self, TaskGoalError>)
        ensures
            r is Ok <==> value@.len() > 0,
            r matches Ok(v) ==> v@ == value@,
    {
        if value.as_str().is_empty() {
            Err(TaskGoalError)
        } else {
            Ok(TaskGoal(value))
        }
    }

    pub fn as_str(&self) -> (r: &str)
        ensures
            r@ == self@,
            r@.len() > 0,
    {
        proof {
            use_type_invariant(self);
        }
        self.0.as_str()
    }

    /// Exact textual equality of two values.
    pub fn same_as(&self, other: &Self) -> (r: bool)
        ensures
            r == (self@ == other@),
    {
        self.0 == other.0
    }
}

impl Clone for TaskGoal {
    fn clone(&self) -> (r: Self)
        ensures
            r == *self,
    {
        proof {
            use_type_invariant(self);
        }
        TaskGoal(self.0.clone())
    }
}

#[derive(Clone, Copy, Debug, PartialEq, Eq, Structural)]
pub struct TaskGoalError;

impl TaskGoalError {
    pub fn to_string(&self) -> (r: String)
        ensures
            r@ == "task goal must not be empty"@,
    {
        "task goal must not be empty".to_owned()
    }
}

/// The non-empty output recorded when a task completes.
#[derive(Debug, PartialEq, Eq)]
pub struct TaskOutput(String);

impl View for TaskOutput {
    type V = Seq<char>;

    closed spec fn view(&self) -> Seq<char> {
        self.0@
    }
}

impl TaskOutput {
    #[verifier::type_invariant]
    closed spec fn inv(self) -> bool {
        self.0@.len() > 0
    }

    pub fn new(value: String) -> (r: Result<Self, TaskOutputError>)
        ensures
            r is Ok <==> value@.len() > 0,
            r matches Ok(v) ==> v@ == value@,
    {
        if value.as_str().is_empty() {
            Err(TaskOutputError)
        } else {
            Ok(TaskOutput(value))
        }
    }

    pub fn as_str(&self) -> (r: &str)
        ensures
            r@ == self@,
            r@.len() > 0,
    {
        proof {
            use_type_invariant(self);
        }
        self.0.as_str()
    }
}

impl Clone for TaskOutput {
    fn clone(&self) -> (r: Self)
        ensures
            r == *self,
    {
        proof {
            use_type_invariant(self);
        }
        TaskOutput(self.0.clone())
    }
}

#[derive(Clone, Copy, Debug, PartialEq, Eq, Structural)]
pub struct TaskOutputError;

impl TaskOutputError {
    pub fn to_string(&self) -> (r: String)
        ensures
            r@ == "task output must not be empty"@,
    {
        "task output must not be empty".to_owned()
    }
}

/// The non-empty reason recorded when a task is cancelled.
#[derive(Debug, PartialEq, Eq)]
pub struct TaskCancellation(String);

impl View for TaskCancellation {
    type V = Seq<char>;

    closed spec fn view(&self) -> Seq<char> {
        self.0@
    }
}

impl TaskCancellation {
    #[verifier::type_invariant]
    closed spec fn inv(self) -> bool {
        self.0@.len() > 0
    }

    pub fn new(value: String) -> (r: Result<Self, TaskCancellationError>)
        ensures
            r is Ok <==> value@.len() > 0,
            r matches Ok(v) ==> v@ == value@,
    {
        if value.as_str().is_empty() {
            Err(TaskCancellationError)
        } else {
            Ok(TaskCancellation(value))
        }
    }

    pub fn as_str(&self) -> (r: &str)
        ensures
            r@ == self@,
            r@.len() > 0,
    {
        proof {
            use_type_invariant(self);
        }
        self.0.as_str()
    }
}

impl Clone for TaskCancellation {
    fn clone(&self) -> (r: Self)
        ensures
            r == *self,
    {
        proof {
            use_type_invariant(self);
        }
        TaskCancellation(self.0.clone())
    }
}

#[derive(Clone, Copy, Debug, PartialEq, Eq, Structural)]
pub struct TaskCancellationError;

impl TaskCancellationError {
    pub fn to_string(&self) -> (r: String)
        ensures
            r@ == "task cancellation reason must not be empty"@,
    {
        "task cancellation reason must not be empty".to_owned()
    }
}

/// The non-empty diagnostic recorded when a task fails.
#[derive(Debug, PartialEq, Eq)]
pub struct TaskFailure(String);

impl View for TaskFailure {
    type V = Seq<char>;

    closed spec fn view(&self) -> Seq<char> {
        self.0@
    }
}

impl TaskFailure {
    #[verifier::type_invariant]
    closed spec fn inv(self) -> bool {
        self.0@.len() > 0
    }

    pub fn new(value: String) -> (r: Result<Self, TaskFailureError>)
        ensures
            r is Ok <==> value@.len() > 0,
            r matches Ok(v) ==> v@ == value@,
    {
        if value.as_str().is_empty() {
            Err(TaskFailureError)
        } else {
            Ok(TaskFailure(value))
        }
    }

    pub fn as_str(&self) -> (r: &str)
        ensures
            r@ == self@,
            r@.len() > 0,
    {
        proof {
            use_type_invariant(self);
        }
        self.0.as_str()
    }
}

impl Clone for TaskFailure {
    fn clone(&self) -> (r: Self)
        ensures
            r == *self,
    {
        proof {
            use_type_invariant(self);
        }
        TaskFailure(self.0.clone())
    }
}

#[derive(Clone, Copy, Debug, PartialEq, Eq, Structural)]
pub struct TaskFailureError;

impl TaskFailureError {
    pub fn to_string(&self) -> (r: String)
        ensures
            r@ == "task failure diagnostic must not be empty"@,
    {
        "task failure diagnostic must not be empty".to_owned()
    }
}

} // verus!

verus! {

/// The stable typed category of persisted task execution evidence.
#[derive(Clone, Copy, Debug, PartialEq, Eq, Structural)]
pub enum TaskObservationKind {
    Attempt,
    Diagnostic,
    Correction,
    Verification,
}

pub struct TaskObservationView {
    pub id: Seq<char>,
    pub kind: TaskObservationKind,
    pub text: Seq<char>,
    pub parent_attempt_id: Option<Seq<char>>,
}

#[derive(Debug, PartialEq, Eq)]
pub struct TaskObservation {
    id: TaskObservationId,
    kind: TaskObservationKind,
    text: TaskObservationText,
    parent_attempt_id: Option<TaskObservationId>,
}

impl View for TaskObservation {
    type V = TaskObservationView;

    closed spec fn view(&self) -> TaskObservationView {
        TaskObservationView {
            id: self.id@,
            kind: self.kind,
            text: self.text@,
            parent_attempt_id: opt_view(self.parent_attempt_id),
        }
    }
}

impl Clone for TaskObservation {
    fn clone(&self) -> (r: Self)
        ensures
            r == *self,
    {
        TaskObservation {
            id: self.id.clone(),
            kind: self.kind,
            text: self.text.clone(),
            parent_attempt_id: clone_observation_id(&self.parent_attempt_id),
        }
    }
}

impl Clone for Task {
    fn clone(&self) -> (r: Self)
        ensures
            r@ == self@,
    {
        proof {
            use_type_invariant(self);
        }
        let mut observations: Vec<TaskObservation> = Vec::new();
        let mut i: usize = 0;
        while i < self.observations.len()
            invariant
                i <= self.observations@.len(),
                observations@.len() == i,
                forall|j: int| 0 <= j < i ==> observations@[j] == self.observations@[j],
            decreases self.observations@.len() - i,
        {
            observations.push(self.observations[i].clone());
            i = i + 1;
        }
        assert(observations@ =~= self.observations@);
        Task {
            id: self.id.clone(),
            goal: self.goal.clone(),
            status: self.status,
            output: clone_output(&self.output),
            cancellation: clone_cancellation(&self.cancellation),
            failure: clone_failure(&self.failure),
            session_id: match &self.session_id {
                Some(s) => Some(s.clone()),
                None => None,
            },
            observations,
        }
    }
}

impl TaskObservation {
    pub fn id(&self) -> (r: &TaskObservationId)
        ensures
            r@ == self@.id,
    {
        &self.id
    }

    pub fn kind(&self) -> (r: TaskObservationKind)
        ensures
            r == self@.kind,
    {
        self.kind
    }

    pub fn text(&self) -> (r: &TaskObservationText)
        ensures
            r@ == self@.text,
    {
        &self.text
    }

    /// The earlier attempt that this evidence describes, when grouped into an episode.
    pub fn parent_attempt_id(&self) -> (r: Option<&TaskObservationId>)
        ensures
            opt_view(r) == self@.parent_attempt_id,
    {
        match &self.parent_attempt_id {
            Some(p) => Some(p),
            None => None,
        }
    }
}

#[derive(Clone, Copy, Debug, PartialEq, Eq, Structural)]
pub enum TaskStatus {
    Active,
    Completed,
    Cancelled,
    Failed,
}

pub struct TaskView {
    pub id: Seq<char>,
    pub goal: Seq<char>,
    pub status: TaskStatus,
    pub output: Option<Seq<char>>,
    pub cancellation: Option<Seq<char>>,
    pub failure: Option<Seq<char>>,
    pub session_id: Option<Seq<char>>,
    pub observations: Seq<TaskObservationView>,
}

pub open spec fn observations_view(obs: Seq<TaskObservation>) -> Seq<TaskObservationView> {
    obs.map_values(|o: TaskObservation| o@)
}

#[derive(Debug, PartialEq, Eq)]
pub struct Task {
    id: TaskId,
    goal: TaskGoal,
    status: TaskStatus,
    output: Option<TaskOutput>,
    cancellation: Option<TaskCancellation>,
    failure: Option<TaskFailure>,
    session_id: Option<SessionId>,
    observations: Vec<TaskObservation>,
}

impl View for Task {
    type V = TaskView;

    closed spec fn view(&self) -> TaskView {
        TaskView {
            id: self.id@,
            goal: self.goal@,
            status: self.status,
            output: opt_view(self.output),
            cancellation: opt_view(self.cancellation),
            failure: opt_view(self.failure),
            session_id: opt_view(self.session_id),
            observations: observations_view(self.observations@),
        }
    }
}

/// Whether an observation with this identity is already recorded.
pub open spec fn has_observation(obs: Seq<TaskObservationView>, id: Seq<char>) -> bool {
    exists|i: int| 0 <= i < obs.len() && (#[trigger] obs[i]).id == id
}

/// Whether `parent` names an earlier attempt that non-attempt evidence may describe.
pub open spec fn has_attempt(obs: Seq<TaskObservationView>, parent: Seq<char>) -> bool {
    exists|i: int|
        0 <= i < obs.len() && (#[trigger] obs[i]).id == parent && obs[i].kind
            == TaskObservationKind::Attempt
}

pub open spec fn spec_observation_parent_is_valid(
    obs: Seq<TaskObservationView>,
    id: Seq<char>,
    kind: TaskObservationKind,
    parent: Option<Seq<char>>,
) -> bool {
    match parent {
        None => true,
        Some(p) => kind != TaskObservationKind::Attempt && p != id && has_attempt(obs, p),
    }
}

/// Observation identities are unique within one task.
pub open spec fn unique_observation_ids(obs: Seq<TaskObservationView>) -> bool {
    forall|i: int, j: int|
        0 <= i < obs.len() && 0 <= j < obs.len() && i != j ==> (#[trigger] obs[i]).id != (
        #[trigger] obs[j]).id
}

impl Task {
    #[verifier::type_invariant]
    closed spec fn inv(self) -> bool {
        unique_observation_ids(observations_view(self.observations@))
    }

    pub fn id(&self) -> (r: &TaskId)
        ensures
            r@ == self@.id,
    {
        &self.id
    }

    pub fn goal(&self) -> (r: &TaskGoal)
        ensures
            r@ == self@.goal,
    {
        &self.goal
    }

    pub fn status(&self) -> (r: TaskStatus)
        ensures
            r == self@.status,
    {
        self.status
    }

    pub fn output(&self) -> (r: Option<&TaskOutput>)
        ensures
            opt_view(r) == self@.output,
    {
        match &self.output {
            Some(x) => Some(x),
            None => None,
        }
    }

    pub fn cancellation(&self) -> (r: Option<&TaskCancellation>)
        ensures
            opt_view(r) == self@.cancellation,
    {
        match &self.cancellation {
            Some(x) => Some(x),
            None => None,
        }
    }

    pub fn failure(&self) -> (r: Option<&TaskFailure>)
        ensures
            opt_view(r) == self@.failure,
    {
        match &self.failure {
            Some(x) => Some(x),
            None => None,
        }
    }

    pub fn session_id(&self) -> (r: Option<&SessionId>)
        ensures
            opt_view(r) == self@.session_id,
    {
        match &self.session_id {
            Some(x) => Some(x),
            None => None,
        }
    }

    pub fn observations(&self) -> (r: &[TaskObservation])
        ensures
            observations_view(r@) == self@.observations,
    {
        self.observations.as_slice()
    }

    /// Checks that one more observation may be appended to the task.
    pub fn validate_observation_append(
        &self,
        observation_id: &TaskObservationId,
        kind: TaskObservationKind,
        parent_attempt_id: Option<&TaskObservationId>,
    ) -> (r: Result<(), TaskStoreError>)
        ensures
            r is Ok <==> (self@.status == TaskStatus::Active && !has_observation(
                self@.observations,
                observation_id@,
            ) && spec_observation_parent_is_valid(
                self@.observations,
                observation_id@,
                kind,
                opt_view(parent_attempt_id),
            )),
            self@.status != TaskStatus::Active ==> (r matches Err(e) && is_terminal_state_error(
                e,
                self@.id,
                self@.status,
            )),
            self@.status == TaskStatus::Active && has_observation(
                self@.observations,
                observation_id@,
            ) ==> (r matches Err(TaskStoreError::DuplicateObservation { task_id, observation_id: o })
                && task_id@ == self@.id && o@ == observation_id@),
            self@.status == TaskStatus::Active && !has_observation(
                self@.observations,
                observation_id@,
            ) ==> parent_validation_holds(
                r,
                self@.id,
                self@.observations,
                observation_id@,
                kind,
                opt_view(parent_attempt_id),
            ),
    {
        proof {
            use_type_invariant(self);
        }
        if self.status != TaskStatus::Active {
            return Err(terminal_state_error(&self.id, self.status));
        }
        if find_observation(&self.observations, observation_id).is_some() {
            return Err(
                TaskStoreError::DuplicateObservation {
                    task_id: self.id.clone(),
                    observation_id: observation_id.clone(),
                },
            );
        }
        validate_observation_parent(
            &self.id,
            &self.observations,
            observation_id,
            kind,
            parent_attempt_id,
        )
    }
}

#[derive(Debug)]
#[non_exhaustive]
pub enum TaskStoreError {
    EventLog(EventLogError),
    Replay(ReplayError),
    AlreadyExists { task_id: TaskId },
    NotFound { task_id: TaskId },
    AlreadyCompleted { task_id: TaskId },
    AlreadyCancelled { task_id: TaskId },
    AlreadyFailed { task_id: TaskId },
    SessionNotFound { session_id: SessionId },
    SessionClosed { session_id: SessionId },
    AlreadyAssociated { task_id: TaskId, session_id: SessionId },
    DuplicateObservation { task_id: TaskId, observation_id: TaskObservationId },
    AttemptCannotHaveParent {
        task_id: TaskId,
        observation_id: TaskObservationId,
        parent_observation_id: TaskObservationId,
    },
    ParentObservationNotFound { task_id: TaskId, parent_observation_id: TaskObservationId },
    ParentObservationNotAttempt {
        task_id: TaskId,
        parent_observation_id: TaskObservationId,
        parent_kind: TaskObservationKind,
    },
    Session(SessionStoreError),
    InvalidStreamId { stream_id: String },
    InvalidHistory { event_count: usize },
}

/// Whether `e` is the error `terminal_state_error` gives for `status`.
pub open spec fn is_terminal_state_error(e: TaskStoreError, id: Seq<char>, status: TaskStatus) -> bool {
    match status {
        TaskStatus::Completed => e matches TaskStoreError::AlreadyCompleted { task_id } && task_id@ == id,
        TaskStatus::Cancelled => e matches TaskStoreError::AlreadyCancelled { task_id } && task_id@ == id,
        TaskStatus::Failed => e matches TaskStoreError::AlreadyFailed { task_id } && task_id@ == id,
        TaskStatus::Active => e matches TaskStoreError::InvalidHistory { event_count } && event_count == 1,
    }
}

} // verus!

verus! {

/// The outcome `validate_observation_parent` gives for an optional parent attempt.
pub open spec fn parent_validation_holds(
    r: Result<(), TaskStoreError>,
    task_id: Seq<char>,
    obs: Seq<TaskObservationView>,
    observation_id: Seq<char>,
    kind: TaskObservationKind,
    parent: Option<Seq<char>>,
) -> bool {
    match parent {
        None => r is Ok,
        Some(p) => if kind == TaskObservationKind::Attempt {
            r matches Err(
                TaskStoreError::AttemptCannotHaveParent {
                    task_id: t,
                    observation_id: o,
                    parent_observation_id: q,
                },
            ) && t@ == task_id && o@ == observation_id && q@ == p
        } else if !has_observation(obs, p) {
            r matches Err(
                TaskStoreError::ParentObservationNotFound { task_id: t, parent_observation_id: q },
            ) && t@ == task_id && q@ == p
        } else {
            exists|k: int|
                0 <= k < obs.len() && (#[trigger] obs[k]).id == p && (obs[k].kind
                    == TaskObservationKind::Attempt ==> r is Ok) && (obs[k].kind
                    != TaskObservationKind::Attempt ==> (r matches Err(
                    TaskStoreError::ParentObservationNotAttempt {
                        task_id: t,
                        parent_observation_id: q,
                        parent_kind,
                    },
                ) && t@ == task_id && q@ == p && parent_kind == obs[k].kind))
        },
    }
}

/// Finds the first recorded observation with this identity.
fn find_observation(obs: &Vec<TaskObservation>, id: &TaskObservationId) -> (r: Option<usize>)
    ensures
        r is None <==> !has_observation(observations_view(obs@), id@),
        r matches Some(k) ==> k < obs@.len() && obs@[k as int]@.id == id@ && forall|j: int|
            0 <= j < k ==> obs@[j]@.id != id@,
{
    let ghost v = observations_view(obs@);
    let mut i: usize = 0;
    while i < obs.len()
        invariant
            i <= obs@.len(),
            v == observations_view(obs@),
            forall|j: int| 0 <= j < i ==> obs@[j]@.id != id@,
        decreases obs@.len() - i,
    {
        if obs[i].id.same_as(id) {
            assert(v[i as int] == obs@[i as int]@);
            return Some(i);
        }
        i = i + 1;
    }
    proof {
        if has_observation(v, id@) {
            let k = choose|k: int| 0 <= k < v.len() && (#[trigger] v[k]).id == id@;
            assert(v[k] == obs@[k]@);
        }
    }
    None
}

/// Whether an optional parent attempt is acceptable for a new observation.
pub fn observation_parent_is_valid(
    observations: &Vec<TaskObservation>,
    observation_id: &TaskObservationId,
    kind: TaskObservationKind,
    parent_attempt_id: Option<&TaskObservationId>,
) -> (r: bool)
    requires
        unique_observation_ids(observations_view(observations@)),
    ensures
        r == spec_observation_parent_is_valid(
            observations_view(observations@),
            observation_id@,
            kind,
            opt_view(parent_attempt_id),
        ),
{
    let ghost v = observations_view(observations@);
    match parent_attempt_id {
        None => true,
        Some(parent_id) => {
            if kind == TaskObservationKind::Attempt {
                return false;
            }
            if parent_id.same_as(observation_id) {
                return false;
            }
            match find_observation(observations, parent_id) {
                None => {
                    proof {
                        if has_attempt(v, parent_id@) {
                            let k = choose|k: int|
                                0 <= k < v.len() && (#[trigger] v[k]).id == parent_id@ && v[k].kind
                                    == TaskObservationKind::Attempt;
                            assert(has_observation(v, parent_id@));
                        }
                    }
                    false
                },
                Some(k) => {
                    proof {
                        assert(v[k as int] == observations@[k as int]@);
                        if has_attempt(v, parent_id@) {
                            let j = choose|j: int|
                                0 <= j < v.len() && (#[trigger] v[j]).id == parent_id@ && v[j].kind
                                    == TaskObservationKind::Attempt;
                            assert(j == k);
                        }
                    }
                    observations[k].kind == TaskObservationKind::Attempt
                },
            }
        },
    }
}

/// Checks an optional parent attempt for a new observation of the task.
pub fn validate_observation_parent(
    task_id: &TaskId,
    observations: &Vec<TaskObservation>,
    observation_id: &TaskObservationId,
    kind: TaskObservationKind,
    parent_attempt_id: Option<&TaskObservationId>,
) -> (r: Result<(), TaskStoreError>)
    requires
        unique_observation_ids(observations_view(observations@)),
    ensures
        parent_validation_holds(
            r,
            task_id@,
            observations_view(observations@),
            observation_id@,
            kind,
            opt_view(parent_attempt_id),
        ),
{
    let ghost v = observations_view(observations@);
    let parent_id = match parent_attempt_id {
        None => {
            return Ok(());
        },
        Some(p) => p,
    };
    if kind == TaskObservationKind::Attempt {
        return Err(
            TaskStoreError::AttemptCannotHaveParent {
                task_id: task_id.clone(),
                observation_id: observation_id.clone(),
                parent_observation_id: parent_id.clone(),
            },
        );
    }
    match find_observation(observations, parent_id) {
        None => Err(
            TaskStoreError::ParentObservationNotFound {
                task_id: task_id.clone(),
                parent_observation_id: parent_id.clone(),
            },
        ),
        Some(k) => {
            assert(v[k as int] == observations@[k as int]@);
            let parent_kind = observations[k].kind;
            if parent_kind != TaskObservationKind::Attempt {
                Err(
                    TaskStoreError::ParentObservationNotAttempt {
                        task_id: task_id.clone(),
                        parent_observation_id: parent_id.clone(),
                        parent_kind,
                    },
                )
            } else {
                Ok(())
            }
        },
    }
}

/// The error for a change that requires an active task, by the task's status.
pub fn terminal_state_error(id: &TaskId, status: TaskStatus) -> (r: TaskStoreError)
    ensures
        is_terminal_state_error(r, id@, status),
{
    match status {
        TaskStatus::Completed => TaskStoreError::AlreadyCompleted { task_id: id.clone() },
        TaskStatus::Cancelled => TaskStoreError::AlreadyCancelled { task_id: id.clone() },
        TaskStatus::Failed => TaskStoreError::AlreadyFailed { task_id: id.clone() },
        TaskStatus::Active => TaskStoreError::InvalidHistory { event_count: 1 },
    }
}

} // verus!

verus! {

/// One persisted task lifecycle event.
#[derive(Debug)]
pub enum TaskEvent {
    Started { goal: TaskGoal },
    Completed { output: Option<TaskOutput> },
    Cancelled { reason: Option<TaskCancellation> },
    Failed { failure: Option<TaskFailure> },
    SessionAssociated { task_id: TaskId, session_id: SessionId },
    ObservationAppended {
        id: TaskObservationId,
        kind: TaskObservationKind,
        text: TaskObservationText,
        parent_attempt_id: Option<TaskObservationId>,
    },
}

pub enum TaskEventView {
    Started { goal: Seq<char> },
    Completed { output: Option<Seq<char>> },
    Cancelled { reason: Option<Seq<char>> },
    Failed { failure: Option<Seq<char>> },
    SessionAssociated { task_id: Seq<char>, session_id: Seq<char> },
    ObservationAppended {
        id: Seq<char>,
        kind: TaskObservationKind,
        text: Seq<char>,
        parent_attempt_id: Option<Seq<char>>,
    },
}

impl View for TaskEvent {
    type V = TaskEventView;

    open spec fn view(&self) -> TaskEventView {
        match self {
            TaskEvent::Started { goal } => TaskEventView::Started { goal: goal@ },
            TaskEvent::Completed { output } => TaskEventView::Completed { output: opt_view(*output) },
            TaskEvent::Cancelled { reason } => TaskEventView::Cancelled { reason: opt_view(*reason) },
            TaskEvent::Failed { failure } => TaskEventView::Failed { failure: opt_view(*failure) },
            TaskEvent::SessionAssociated { task_id, session_id } => TaskEventView::SessionAssociated {
                task_id: task_id@,
                session_id: session_id@,
            },
            TaskEvent::ObservationAppended { id, kind, text, parent_attempt_id } =>
                TaskEventView::ObservationAppended {
                id: id@,
                kind: *kind,
                text: text@,
                parent_attempt_id: opt_view(*parent_attempt_id),
            },
        }
    }
}

pub open spec fn task_events_view(events: Seq<TaskEvent>) -> Seq<TaskEventView> {
    events.map_values(|e: TaskEvent| e@)
}

/// The state of a task just after it starts.
pub open spec fn task_started(id: Seq<char>, goal: Seq<char>) -> TaskView {
    TaskView {
        id,
        goal,
        status: TaskStatus::Active,
        output: None,
        cancellation: None,
        failure: None,
        session_id: None,
        observations: Seq::empty(),
    }
}

/// How one later event changes a task, or `None` when it cannot follow.
pub open spec fn task_apply(t: TaskView, e: TaskEventView) -> Option<TaskView> {
    match e {
        TaskEventView::ObservationAppended { id, kind, text, parent_attempt_id } => if t.status
            == TaskStatus::Active && !has_observation(t.observations, id)
            && spec_observation_parent_is_valid(t.observations, id, kind, parent_attempt_id) {
            Some(
                TaskView {
                    observations: t.observations.push(
                        TaskObservationView { id, kind, text, parent_attempt_id },
                    ),
                    ..t
                },
            )
        } else {
            None
        },
        TaskEventView::SessionAssociated { task_id, session_id } => if t.session_id is None
            && task_id == t.id {
            Some(TaskView { session_id: Some(session_id), ..t })
        } else {
            None
        },
        TaskEventView::Completed { output } => if t.status == TaskStatus::Active {
            Some(TaskView { status: TaskStatus::Completed, output, ..t })
        } else {
            None
        },
        TaskEventView::Cancelled { reason } => if t.status == TaskStatus::Active {
            Some(TaskView { status: TaskStatus::Cancelled, cancellation: reason, ..t })
        } else {
            None
        },
        TaskEventView::Failed { failure } => if t.status == TaskStatus::Active {
            Some(TaskView { status: TaskStatus::Failed, failure, ..t })
        } else {
            None
        },
        TaskEventView::Started { .. } => None,
    }
}

pub open spec fn task_step() -> spec_fn(TaskView, TaskEventView) -> Option<TaskView> {
    |t: TaskView, e: TaskEventView| task_apply(t, e)
}

/// The projection of a whole task stream: `None` for an invalid history,
/// `Some(None)` for an empty stream.
pub open spec fn project_task(id: Seq<char>, events: Seq<TaskEventView>) -> Option<Option<TaskView>> {
    if events.len() == 0 {
        Some(None)
    } else {
        match events[0] {
            TaskEventView::Started { goal } => match replay(
                task_step(),
                task_started(id, goal),
                events.subrange(1, events.len() as int),
            ) {
                Some(t) => Some(Some(t)),
                None => None,
            },
            _ => None,
        }
    }
}

/// A projected task with the stream version it was read at.
pub struct VersionedTask {
    pub task: Task,
    pub stream_version: u64,
}

fn clone_observation_id(o: &Option<TaskObservationId>) -> (r: Option<TaskObservationId>)
    ensures
        r == *o,
{
    match o {
        Some(x) => Some(x.clone()),
        None => None,
    }
}

fn clone_output(o: &Option<TaskOutput>) -> (r: Option<TaskOutput>)
    ensures
        r == *o,
{
    match o {
        Some(x) => Some(x.clone()),
        None => None,
    }
}

fn clone_cancellation(o: &Option<TaskCancellation>) -> (r: Option<TaskCancellation>)
    ensures
        r == *o,
{
    match o {
        Some(x) => Some(x.clone()),
        None => None,
    }
}

fn clone_failure(o: &Option<TaskFailure>) -> (r: Option<TaskFailure>)
    ensures
        r == *o,
{
    match o {
        Some(x) => Some(x.clone()),
        None => None,
    }
}

proof fn lemma_push_observation_unique(obs: Seq<TaskObservation>, o: TaskObservation)
    requires
        unique_observation_ids(observations_view(obs)),
        !has_observation(observations_view(obs), o@.id),
    ensures
        observations_view(obs.push(o)) == observations_view(obs).push(o@),
        unique_observation_ids(observations_view(obs.push(o))),
{
    let v = observations_view(obs);
    assert(observations_view(obs.push(o)) =~= v.push(o@));
    let w = v.push(o@);
    assert forall|i: int, j: int|
        0 <= i < w.len() && 0 <= j < w.len() && i != j implies (#[trigger] w[i]).id != (
        #[trigger] w[j]).id by {
        if i == v.len() {
            assert(v[j] == w[j]);
        } else if j == v.len() {
            assert(v[i] == w[i]);
        }
    }
}

/// Projects one replayed task stream into its current state and version.
#[verifier::loop_isolation(false)]
pub fn project_task_history(id: &TaskId, events: Vec<TaskEvent>) -> (r: Result<
    Option<VersionedTask>,
    TaskStoreError,
>)
    ensures
        match project_task(id@, task_events_view(events@)) {
            None => r matches Err(TaskStoreError::InvalidHistory { event_count }) && event_count
                == events@.len(),
            Some(None) => r matches Ok(None),
            Some(Some(t)) => r matches Ok(Some(v)) && v.task@ == t && v.stream_version
                == events@.len(),
        },
{
    let ghost evs = task_events_view(events@);
    let n = events.len();
    if n == 0 {
        return Ok(None);
    }
    let goal = match &events[0] {
        TaskEvent::Started { goal } => goal.clone(),
        _ => {
            return Err(TaskStoreError::InvalidHistory { event_count: n });
        },
    };
    let ghost rest = evs.subrange(1, n as int);
    let ghost goal0 = goal@;
    let mut status = TaskStatus::Active;
    let mut output: Option<TaskOutput> = None;
    let mut cancellation: Option<TaskCancellation> = None;
    let mut failure: Option<TaskFailure> = None;
    let mut session_id: Option<SessionId> = None;
    let mut observations: Vec<TaskObservation> = Vec::new();
    assert(rest.subrange(0, 0) =~= Seq::<TaskEventView>::empty());
    assert(observations_view(observations@) =~= Seq::<TaskObservationView>::empty());
    let mut i: usize = 1;
    while i < n
        invariant
            1 <= i <= n,
            n == events@.len(),
            evs == task_events_view(events@),
            rest == evs.subrange(1, n as int),
            evs[0] == (TaskEventView::Started { goal: goal0 }),
            goal@ == goal0,
            unique_observation_ids(observations_view(observations@)),
            replay(task_step(), task_started(id@, goal0), rest.subrange(0, i - 1)) == Some(
                TaskView {
                    id: id@,
                    goal: goal0,
                    status,
                    output: opt_view(output),
                    cancellation: opt_view(cancellation),
                    failure: opt_view(failure),
                    session_id: opt_view(session_id),
                    observations: observations_view(observations@),
                },
            ),
        decreases n - i,
    {
        proof {
            lemma_replay_step(task_step(), task_started(id@, goal0), rest, i - 1);
            assert(rest[i - 1] == events@[i as int]@);
        }
        let ghost obs_before = observations_view(observations@);
        match &events[i] {
            TaskEvent::ObservationAppended { id: obs_id, kind, text, parent_attempt_id } => {
                let parent_ref: Option<&TaskObservationId> = match parent_attempt_id {
                    Some(p) => Some(p),
                    None => None,
                };
                if status != TaskStatus::Active || find_observation(&observations, obs_id).is_some()
                    || !observation_parent_is_valid(&observations, obs_id, *kind, parent_ref) {
                    proof {
                        lemma_replay_rejected_prefix(
                            task_step(),
                            task_started(id@, goal0),
                            rest,
                            i as int,
                        );
                    }
                    return Err(TaskStoreError::InvalidHistory { event_count: n });
                }
                let o = TaskObservation {
                    id: obs_id.clone(),
                    kind: *kind,
                    text: text.clone(),
                    parent_attempt_id: clone_observation_id(parent_attempt_id),
                };
                proof {
                    lemma_push_observation_unique(observations@, o);
                }
                observations.push(o);
            },
            TaskEvent::SessionAssociated { task_id, session_id: sid } => {
                if session_id.is_some() || !task_id.same_as(id) {
                    proof {
                        lemma_replay_rejected_prefix(
                            task_step(),
                            task_started(id@, goal0),
                            rest,
                            i as int,
                        );
                    }
                    return Err(TaskStoreError::InvalidHistory { event_count: n });
                }
                session_id = Some(sid.clone());
            },
            TaskEvent::Completed { output: o } => {
                if status != TaskStatus::Active {
                    proof {
                        lemma_replay_rejected_prefix(
                            task_step(),
                            task_started(id@, goal0),
                            rest,
                            i as int,
                        );
                    }
                    return Err(TaskStoreError::InvalidHistory { event_count: n });
                }
                status = TaskStatus::Completed;
                output = clone_output(o);
            },
            TaskEvent::Cancelled { reason } => {
                if status != TaskStatus::Active {
                    proof {
                        lemma_replay_rejected_prefix(
                            task_step(),
                            task_started(id@, goal0),
                            rest,
                            i as int,
                        );
                    }
                    return Err(TaskStoreError::InvalidHistory { event_count: n });
                }
                status = TaskStatus::Cancelled;
                cancellation = clone_cancellation(reason);
            },
            TaskEvent::Failed { failure: f } => {
                if status != TaskStatus::Active {
                    proof {
                        lemma_replay_rejected_prefix(
                            task_step(),
                            task_started(id@, goal0),
                            rest,
                            i as int,
                        );
                    }
                    return Err(TaskStoreError::InvalidHistory { event_count: n });
                }
                status = TaskStatus::Failed;
                failure = clone_failure(f);
            },
            TaskEvent::Started { .. } => {
                proof {
                    lemma_replay_rejected_prefix(
                        task_step(),
                        task_started(id@, goal0),
                        rest,
                        i as int,
                    );
                }
                return Err(TaskStoreError::InvalidHistory { event_count: n });
            },
        }
        i = i + 1;
    }
    assert(rest.subrange(0, n - 1) =~= rest);
    let task = Task {
        id: id.clone(),
        goal,
        status,
        output,
        cancellation,
        failure,
        session_id,
        observations,
    };
    Ok(Some(VersionedTask { task, stream_version: n as u64 }))
}

} // verus!

verus! {

/// One decided task change: the event to append, the version it must follow,
/// and the state a successful append produces.
pub struct TaskChange {
    pub event: TaskEvent,
    pub expected: ExpectedVersion,
    pub task: Task,
}

/// What a failed append means for a retrying task operation.
pub enum TaskAppendFailure {
    Retry,
    Fail(TaskStoreError),
}

/// Whether a planned change follows the loaded state exactly.
pub open spec fn task_change_follows(loaded: VersionedTask, change: TaskChange) -> bool {
    &&& change.expected == ExpectedVersion::Exact(loaded.stream_version)
    &&& task_apply(loaded.task@, change.event@) == Some(change.task@)
}

/// Plans the start of a new task stream.
pub fn plan_task_start(id: TaskId, goal: TaskGoal) -> (r: TaskChange)
    ensures
        r.event@ == (TaskEventView::Started { goal: goal@ }),
        r.expected == ExpectedVersion::NoStream,
        r.task@ == task_started(id@, goal@),
{
    let observations: Vec<TaskObservation> = Vec::new();
    assert(observations_view(observations@) =~= Seq::<TaskObservationView>::empty());
    TaskChange {
        event: TaskEvent::Started { goal: goal.clone() },
        expected: ExpectedVersion::NoStream,
        task: Task {
            id,
            goal,
            status: TaskStatus::Active,
            output: None,
            cancellation: None,
            failure: None,
            session_id: None,
            observations,
        },
    }
}

/// Maps a failed start append: an existing stream means the task exists.
pub fn task_start_failure(id: TaskId, error: EventLogError) -> (r: TaskStoreError)
    ensures
        (error matches EventLogError::WrongExpectedVersion {
            expected: ExpectedVersion::NoStream,
            current: Some(_),
        }) ==> (r matches TaskStoreError::AlreadyExists { task_id } && task_id@ == id@),
        !(error matches EventLogError::WrongExpectedVersion {
            expected: ExpectedVersion::NoStream,
            current: Some(_),
        }) ==> (r matches TaskStoreError::EventLog(x) && x == error),
{
    match error {
        EventLogError::WrongExpectedVersion {
            expected: ExpectedVersion::NoStream,
            current: Some(_),
        } => TaskStoreError::AlreadyExists { task_id: id },
        error => TaskStoreError::EventLog(error),
    }
}

/// Maps a failed append of a later event: a concurrent writer means retry.
pub fn task_append_failure(error: EventLogError) -> (r: TaskAppendFailure)
    ensures
        (error matches EventLogError::WrongExpectedVersion { .. }) <==> r is Retry,
        !(error matches EventLogError::WrongExpectedVersion { .. }) ==> (r matches TaskAppendFailure::Fail(
            TaskStoreError::EventLog(x),
        ) && x == error),
{
    match error {
        EventLogError::WrongExpectedVersion { .. } => TaskAppendFailure::Retry,
        error => TaskAppendFailure::Fail(TaskStoreError::EventLog(error)),
    }
}

/// The terminal outcome a task may be moved to.
pub enum TaskTerminal {
    Completed(TaskOutput),
    Cancelled(TaskCancellation),
    Failed(TaskFailure),
}

pub open spec fn terminal_event_view(t: TaskTerminal) -> TaskEventView {
    match t {
        TaskTerminal::Completed(o) => TaskEventView::Completed { output: Some(o@) },
        TaskTerminal::Cancelled(c) => TaskEventView::Cancelled { reason: Some(c@) },
        TaskTerminal::Failed(f) => TaskEventView::Failed { failure: Some(f@) },
    }
}

/// Plans moving an active task to a terminal outcome.
pub fn plan_task_terminal(loaded: Option<VersionedTask>, id: &TaskId, outcome: TaskTerminal) -> (r:
    Result<TaskChange, TaskStoreError>)
    ensures
        loaded is None ==> (r matches Err(TaskStoreError::NotFound { task_id }) && task_id@ == id@),
        loaded matches Some(v) ==> v.task@.status != TaskStatus::Active ==> (r matches Err(e)
            && is_terminal_state_error(e, id@, v.task@.status)),
        loaded matches Some(v) ==> v.task@.status == TaskStatus::Active ==> (r matches Ok(c)
            && task_change_follows(v, c) && c.event@ == terminal_event_view(outcome)),
        loaded matches Some(v) ==> v.task@.status == TaskStatus::Active ==> (r matches Ok(c)
            && match outcome {
            TaskTerminal::Completed(o) => c.task@.status == TaskStatus::Completed && c.task@.output
                == Some(o@),
            TaskTerminal::Cancelled(x) => c.task@.status == TaskStatus::Cancelled
                && c.task@.cancellation == Some(x@),
            TaskTerminal::Failed(f) => c.task@.status == TaskStatus::Failed && c.task@.failure
                == Some(f@),
        }),
{
    match loaded {
        None => Err(TaskStoreError::NotFound { task_id: id.clone() }),
        Some(v) => {
            if v.task.status != TaskStatus::Active {
                return Err(terminal_state_error(id, v.task.status));
            }
            let mut task = v.task;
            proof {
                use_type_invariant(&task);
            }
            let event = match outcome {
                TaskTerminal::Completed(o) => {
                    task.status = TaskStatus::Completed;
                    task.output = Some(o.clone());
                    TaskEvent::Completed { output: Some(o) }
                },
                TaskTerminal::Cancelled(c) => {
                    task.status = TaskStatus::Cancelled;
                    task.cancellation = Some(c.clone());
                    TaskEvent::Cancelled { reason: Some(c) }
                },
                TaskTerminal::Failed(f) => {
                    task.status = TaskStatus::Failed;
                    task.failure = Some(f.clone());
                    TaskEvent::Failed { failure: Some(f) }
                },
            };
            Ok(TaskChange { event, expected: ExpectedVersion::Exact(v.stream_version), task })
        },
    }
}

/// Plans appending one observation, optionally grouped under an earlier attempt.
pub fn plan_observation_append(
    loaded: Option<VersionedTask>,
    id: &TaskId,
    observation_id: TaskObservationId,
    kind: TaskObservationKind,
    text: TaskObservationText,
    parent_attempt_id: Option<TaskObservationId>,
) -> (r: Result<TaskChange, TaskStoreError>)
    ensures
        loaded is None ==> (r matches Err(TaskStoreError::NotFound { task_id }) && task_id@ == id@),
        loaded matches Some(v) ==> {
            let ok = v.task@.status == TaskStatus::Active && !has_observation(
                v.task@.observations,
                observation_id@,
            ) && spec_observation_parent_is_valid(
                v.task@.observations,
                observation_id@,
                kind,
                opt_view(parent_attempt_id),
            );
            &&& ok ==> (r matches Ok(c) && task_change_follows(v, c) && c.event@
                == (TaskEventView::ObservationAppended {
                id: observation_id@,
                kind,
                text: text@,
                parent_attempt_id: opt_view(parent_attempt_id),
            }))
            &&& !ok ==> r is Err
            &&& v.task@.status != TaskStatus::Active ==> (r matches Err(e)
                && is_terminal_state_error(e, v.task@.id, v.task@.status))
        },
{
    match loaded {
        None => Err(TaskStoreError::NotFound { task_id: id.clone() }),
        Some(v) => {
            let parent_ref: Option<&TaskObservationId> = match &parent_attempt_id {
                Some(p) => Some(p),
                None => None,
            };
            match v.task.validate_observation_append(&observation_id, kind, parent_ref) {
                Err(e) => {
                    return Err(e);
                },
                Ok(()) => {},
            }
            let task = v.task;
            proof {
                use_type_invariant(&task);
            }
            let Task { id: tid, goal, status, output, cancellation, failure, session_id, observations } =
                task;
            let mut observations = observations;
            let o = TaskObservation {
                id: observation_id.clone(),
                kind,
                text: text.clone(),
                parent_attempt_id: clone_observation_id(&parent_attempt_id),
            };
            proof {
                lemma_push_observation_unique(observations@, o);
            }
            observations.push(o);
            let task = Task {
                id: tid,
                goal,
                status,
                output,
                cancellation,
                failure,
                session_id,
                observations,
            };
            Ok(
                TaskChange {
                    event: TaskEvent::ObservationAppended {
                        id: observation_id,
                        kind,
                        text,
                        parent_attempt_id,
                    },
                    expected: ExpectedVersion::Exact(v.stream_version),
                    task,
                },
            )
        },
    }
}

/// Checks that a loaded task can take a session association.
pub fn check_association_target(loaded: Option<VersionedTask>, id: &TaskId) -> (r: Result<
    VersionedTask,
    TaskStoreError,
>)
    ensures
        loaded is None ==> (r matches Err(TaskStoreError::NotFound { task_id }) && task_id@ == id@),
        loaded matches Some(v) ==> v.task@.session_id matches Some(s) ==> (r matches Err(
            TaskStoreError::AlreadyAssociated { task_id, session_id },
        ) && task_id@ == id@ && session_id@ == s),
        loaded matches Some(v) ==> v.task@.session_id is None ==> r == Ok::<
            VersionedTask,
            TaskStoreError,
        >(v),
{
    match loaded {
        None => Err(TaskStoreError::NotFound { task_id: id.clone() }),
        Some(v) => {
            match &v.task.session_id {
                Some(existing) => Err(
                    TaskStoreError::AlreadyAssociated {
                        task_id: id.clone(),
                        session_id: existing.clone(),
                    },
                ),
                None => Ok(v),
            }
        },
    }
}

/// Plans associating an unassociated task with an open session, guarded by both
/// stream versions; returns the change and the session stream's expected version.
pub fn plan_session_association(
    loaded: VersionedTask,
    session: Option<VersionedSession>,
    session_id: &SessionId,
) -> (r: Result<(TaskChange, ExpectedVersion), TaskStoreError>)
    requires
        loaded.task@.session_id is None,
    ensures
        session is None ==> (r matches Err(TaskStoreError::SessionNotFound { session_id: s })
            && s@ == session_id@),
        session matches Some(s) ==> s.session@.status == SessionStatus::Closed ==> (r matches Err(
            TaskStoreError::SessionClosed { session_id: x },
        ) && x@ == session_id@),
        session matches Some(s) ==> s.session@.status == SessionStatus::Open ==> (r matches Ok(
            (c, sv),
        ) && task_change_follows(loaded, c) && sv == ExpectedVersion::Exact(s.stream_version)
            && c.event@ == (TaskEventView::SessionAssociated {
            task_id: loaded.task@.id,
            session_id: session_id@,
        })),
{
    let versioned_session = match session {
        None => {
            return Err(TaskStoreError::SessionNotFound { session_id: session_id.clone() });
        },
        Some(s) => s,
    };
    if versioned_session.session.status() == SessionStatus::Closed {
        return Err(TaskStoreError::SessionClosed { session_id: session_id.clone() });
    }
    let mut task = loaded.task;
    proof {
        use_type_invariant(&task);
    }
    let event = TaskEvent::SessionAssociated {
        task_id: task.id.clone(),
        session_id: session_id.clone(),
    };
    task.session_id = Some(session_id.clone());
    Ok(
        (
            TaskChange { event, expected: ExpectedVersion::Exact(loaded.stream_version), task },
            ExpectedVersion::Exact(versioned_session.stream_version),
        ),
    )
}

/// A finished task (completed, cancelled or failed) takes no further lifecycle
/// transition and no further evidence; only a session association still applies.
pub proof fn lemma_finished_task_only_takes_association(t: TaskView, e: TaskEventView)
    requires
        t.status != TaskStatus::Active,
        task_apply(t, e) is Some,
    ensures
        e is SessionAssociated,
{
}

/// Read-after-write: appending a change that follows the projected state of a
/// history makes the projection of the extended history the change's state.
pub proof fn lemma_task_change_is_reloaded(
    id: Seq<char>,
    history: Seq<TaskEventView>,
    before: TaskView,
    event: TaskEventView,
    after: TaskView,
)
    requires
        project_task(id, history) == Some(Some(before)),
        task_apply(before, event) == Some(after),
    ensures
        project_task(id, history.push(event)) == Some(Some(after)),
{
    let n = history.len();
    let ext = history.push(event);
    assert(ext[0] == history[0]);
    let goal = history[0]->Started_goal;
    assert(ext.subrange(1, ext.len() as int) =~= history.subrange(1, n as int).push(event));
    lemma_replay_push(task_step(), task_started(id, goal), history.subrange(1, n as int), event);
}

/// An active task's terminal outcome is read back as recorded: a task stream that
/// projects to an active task and is then extended with a completion, cancellation or
/// failure projects to a task in that terminal status carrying exactly the recorded
/// output, reason or failure, with its goal, session and evidence unchanged.
pub proof fn lemma_terminal_outcome_is_reloaded(
    id: Seq<char>,
    history: Seq<TaskEventView>,
    before: TaskView,
    event: TaskEventView,
)
    requires
        project_task(id, history) == Some(Some(before)),
        before.status == TaskStatus::Active,
        event is Completed || event is Cancelled || event is Failed,
    ensures
        project_task(id, history.push(event)) matches Some(Some(after)) && {
            &&& after.id == before.id
            &&& after.goal == before.goal
            &&& after.session_id == before.session_id
            &&& after.observations == before.observations
            &&& event matches TaskEventView::Completed { output } ==> after.status
                == TaskStatus::Completed && after.output == output
            &&& event matches TaskEventView::Cancelled { reason } ==> after.status
                == TaskStatus::Cancelled && after.cancellation == reason
            &&& event matches TaskEventView::Failed { failure } ==> after.status
                == TaskStatus::Failed && after.failure == failure
        },
{
    let after = match event {
        TaskEventView::Completed { output } => TaskView {
            status: TaskStatus::Completed,
            output,
            ..before
        },
        TaskEventView::Cancelled { reason } => TaskView {
            status: TaskStatus::Cancelled,
            cancellation: reason,
            ..before
        },
        TaskEventView::Failed { failure } => TaskView {
            status: TaskStatus::Failed,
            failure,
            ..before
        },
        _ => before,
    };
    lemma_task_change_is_reloaded(id, history, before, event, after);
}

/// Evidence and association are read back: an accepted observation is appended after
/// the task's earlier evidence, unchanged, and an accepted session association binds
/// the task to exactly that session; status and outcomes are untouched by either.
pub proof fn lemma_evidence_and_association_are_reloaded(
    id: Seq<char>,
    history: Seq<TaskEventView>,
    before: TaskView,
    event: TaskEventView,
)
    requires
        project_task(id, history) == Some(Some(before)),
        task_apply(before, event) is Some,
        event is ObservationAppended || event is SessionAssociated,
    ensures
        project_task(id, history.push(event)) matches Some(Some(after)) && {
            &&& after.status == before.status
            &&& after.output == before.output
            &&& after.goal == before.goal
            &&& event matches TaskEventView::ObservationAppended { id: o, kind, text, parent_attempt_id }
                ==> after.observations == before.observations.push(
                TaskObservationView { id: o, kind, text, parent_attempt_id },
            ) && after.session_id == before.session_id
            &&& event matches TaskEventView::SessionAssociated { session_id, .. } ==> after.session_id
                == Some(session_id) && after.observations == before.observations
        },
{
    let after = task_apply(before, event)->0;
    lemma_task_change_is_reloaded(id, history, before, event, after);
}

/// A started task is reloaded as the started state.
pub proof fn lemma_task_start_is_reloaded(id: Seq<char>, goal: Seq<char>)
    ensures
        project_task(id, seq![TaskEventView::Started { goal }]) == Some(
            Some(task_started(id, goal)),
        ),
{
    let h = seq![TaskEventView::Started { goal }];
    assert(h.subrange(1, 1) =~= Seq::<TaskEventView>::empty());
}

/// The stream that holds one task's history: `task:` followed by the task id.
pub fn task_stream(id: &TaskId) -> (r: StreamId)
    ensures
        r@ == "task:"@ + id@,
{
    let mut name = "task:".to_owned();
    name.append(id.as_str());
    proof {
        reveal_strlit("task:");
    }
    match StreamId::new(name) {
        Ok(s) => s,
        Err(_) => {
            assert(false);
            StreamId::new("task:".to_owned()).unwrap()
        }
    }
}

} // verus!

verus! {

/// The payload schema of one stored task event, chosen by its type and version.
#[derive(Clone, Copy, Debug, PartialEq, Eq, Structural)]
pub enum TaskPayloadKind {
    /// `task.started` at version 1: `{goal}`, other fields ignored.
    Started,
    /// `task.completed` at version 1: `{}`.
    Completed,
    /// `task.completed` at version 2: `{output}`.
    CompletedWithOutput,
    /// `task.cancelled` at version 1: `{}`.
    Cancelled,
    /// `task.cancelled` at version 2: `{reason}`.
    CancelledWithReason,
    /// `task.failed` at version 1: `{}`.
    Failed,
    /// `task.failed` at version 2: `{failure}`.
    FailedWithFailure,
    /// `task.session_associated` at version 1: `{task_id, session_id}`.
    SessionAssociated,
    /// `task.observation_appended` at version 1: `{id, kind, text}`.
    Observation,
    /// `task.observation_appended` at version 2: `{id, kind, text, parent_attempt_id}`.
    ObservationWithParent,
}

/// The supported task event types and payload versions.
pub open spec fn task_payload_kind_of(event_type: Seq<char>, version: u32) -> Option<TaskPayloadKind> {
    if event_type == "task.started"@ && version == 1 {
        Some(TaskPayloadKind::Started)
    } else if event_type == "task.completed"@ && version == 1 {
        Some(TaskPayloadKind::Completed)
    } else if event_type == "task.completed"@ && version == 2 {
        Some(TaskPayloadKind::CompletedWithOutput)
    } else if event_type == "task.cancelled"@ && version == 1 {
        Some(TaskPayloadKind::Cancelled)
    } else if event_type == "task.cancelled"@ && version == 2 {
        Some(TaskPayloadKind::CancelledWithReason)
    } else if event_type == "task.failed"@ && version == 1 {
        Some(TaskPayloadKind::Failed)
    } else if event_type == "task.failed"@ && version == 2 {
        Some(TaskPayloadKind::FailedWithFailure)
    } else if event_type == "task.session_associated"@ && version == 1 {
        Some(TaskPayloadKind::SessionAssociated)
    } else if event_type == "task.observation_appended"@ && version == 1 {
        Some(TaskPayloadKind::Observation)
    } else if event_type == "task.observation_appended"@ && version == 2 {
        Some(TaskPayloadKind::ObservationWithParent)
    } else {
        None
    }
}

/// Chooses the payload schema of a stored task event, refusing an unknown type
/// or version.
pub fn task_payload_kind(event_type: &str, payload_version: u32) -> (r: Result<
    TaskPayloadKind,
    DecodeError,
>)
    ensures
        match task_payload_kind_of(event_type@, payload_version) {
            Some(k) => r matches Ok(k2) && k2 == k,
            None => r matches Err(DecodeError::UnsupportedEvent { event_type: t, payload_version: v })
                && t@ == event_type@ && v == payload_version,
        },
{
    if str_equals(event_type, "task.started") && payload_version == 1 {
        Ok(TaskPayloadKind::Started)
    } else if str_equals(event_type, "task.completed") && payload_version == 1 {
        Ok(TaskPayloadKind::Completed)
    } else if str_equals(event_type, "task.completed") && payload_version == 2 {
        Ok(TaskPayloadKind::CompletedWithOutput)
    } else if str_equals(event_type, "task.cancelled") && payload_version == 1 {
        Ok(TaskPayloadKind::Cancelled)
    } else if str_equals(event_type, "task.cancelled") && payload_version == 2 {
        Ok(TaskPayloadKind::CancelledWithReason)
    } else if str_equals(event_type, "task.failed") && payload_version == 1 {
        Ok(TaskPayloadKind::Failed)
    } else if str_equals(event_type, "task.failed") && payload_version == 2 {
        Ok(TaskPayloadKind::FailedWithFailure)
    } else if str_equals(event_type, "task.session_associated") && payload_version == 1 {
        Ok(TaskPayloadKind::SessionAssociated)
    } else if str_equals(event_type, "task.observation_appended") && payload_version == 1 {
        Ok(TaskPayloadKind::Observation)
    } else if str_equals(event_type, "task.observation_appended") && payload_version == 2 {
        Ok(TaskPayloadKind::ObservationWithParent)
    } else {
        Err(DecodeError::UnsupportedEvent { event_type: event_type.to_owned(), payload_version })
    }
}

/// A parsed task payload: its fields as plain values.
pub enum TaskPayload {
    /// A payload without fields.
    Empty,
    /// A payload with one text field: `goal`, `output`, `reason` or `failure`.
    Text(String),
    SessionAssociation { task_id: String, session_id: String },
    Observation {
        id: String,
        kind: TaskObservationKind,
        text: String,
        parent_attempt_id: Option<String>,
    },
}

/// Whether a parsed payload has the shape that its schema describes.
pub open spec fn task_payload_fits(kind: TaskPayloadKind, payload: TaskPayload) -> bool {
    match kind {
        TaskPayloadKind::Completed | TaskPayloadKind::Cancelled | TaskPayloadKind::Failed =>
            payload is Empty,
        TaskPayloadKind::SessionAssociated => payload is SessionAssociation,
        TaskPayloadKind::Observation => payload matches TaskPayload::Observation {
            parent_attempt_id: None,
            ..
        },
        TaskPayloadKind::ObservationWithParent => payload is Observation,
        _ => payload is Text,
    }
}

/// The event a fitting parsed task payload decodes to, or the validation text of
/// the first field it refuses.
pub open spec fn task_decoded(kind: TaskPayloadKind, payload: TaskPayload) -> Result<
    TaskEventView,
    Seq<char>,
> {
    match payload {
        TaskPayload::Empty => match kind {
            TaskPayloadKind::Completed => Ok(TaskEventView::Completed { output: None }),
            TaskPayloadKind::Cancelled => Ok(TaskEventView::Cancelled { reason: None }),
            _ => Ok(TaskEventView::Failed { failure: None }),
        },
        TaskPayload::Text(t) => match kind {
            TaskPayloadKind::Started => if t@.len() == 0 {
                Err("task goal must not be empty"@)
            } else {
                Ok(TaskEventView::Started { goal: t@ })
            },
            TaskPayloadKind::CompletedWithOutput => if t@.len() == 0 {
                Err("task output must not be empty"@)
            } else {
                Ok(TaskEventView::Completed { output: Some(t@) })
            },
            TaskPayloadKind::CancelledWithReason => if t@.len() == 0 {
                Err("task cancellation reason must not be empty"@)
            } else {
                Ok(TaskEventView::Cancelled { reason: Some(t@) })
            },
            _ => if t@.len() == 0 {
                Err("task failure diagnostic must not be empty"@)
            } else {
                Ok(TaskEventView::Failed { failure: Some(t@) })
            },
        },
        TaskPayload::SessionAssociation { task_id, session_id } => if task_id@.len() == 0 {
            Err("task id must not be empty"@)
        } else if session_id@.len() == 0 {
            Err("session id must not be empty"@)
        } else {
            Ok(TaskEventView::SessionAssociated { task_id: task_id@, session_id: session_id@ })
        },
        TaskPayload::Observation { id, kind: observation_kind, text, parent_attempt_id } => if is_blank(
            id@,
        ) {
            Err("task observation id must not be blank"@)
        } else if is_blank(text@) {
            Err("task observation text must not be blank"@)
        } else if parent_attempt_id matches Some(p) && is_blank(p@) {
            Err("task observation id must not be blank"@)
        } else {
            Ok(
                TaskEventView::ObservationAppended {
                    id: id@,
                    kind: observation_kind,
                    text: text@,
                    parent_attempt_id: opt_view(parent_attempt_id),
                },
            )
        },
    }
}

/// Validates the fields of a parsed task payload into its event.
pub fn task_event_from_payload(kind: TaskPayloadKind, payload: TaskPayload) -> (r: Result<
    TaskEvent,
    DecodeError,
>)
    requires
        task_payload_fits(kind, payload),
    ensures
        match task_decoded(kind, payload) {
            Ok(e) => r matches Ok(ev) && ev@ == e,
            Err(m) => r matches Err(DecodeError::MalformedPayload { message }) && message@ == m,
        },
{
    match payload {
        TaskPayload::Empty => match kind {
            TaskPayloadKind::Completed => Ok(TaskEvent::Completed { output: None }),
            TaskPayloadKind::Cancelled => Ok(TaskEvent::Cancelled { reason: None }),
            _ => Ok(TaskEvent::Failed { failure: None }),
        },
        TaskPayload::Text(t) => match kind {
            TaskPayloadKind::Started => match TaskGoal::new(t) {
                Ok(goal) => Ok(TaskEvent::Started { goal }),
                Err(e) => Err(DecodeError::MalformedPayload { message: e.to_string() }),
            },
            TaskPayloadKind::CompletedWithOutput => match TaskOutput::new(t) {
                Ok(output) => Ok(TaskEvent::Completed { output: Some(output) }),
                Err(e) => Err(DecodeError::MalformedPayload { message: e.to_string() }),
            },
            TaskPayloadKind::CancelledWithReason => match TaskCancellation::new(t) {
                Ok(reason) => Ok(TaskEvent::Cancelled { reason: Some(reason) }),
                Err(e) => Err(DecodeError::MalformedPayload { message: e.to_string() }),
            },
            _ => match TaskFailure::new(t) {
                Ok(failure) => Ok(TaskEvent::Failed { failure: Some(failure) }),
                Err(e) => Err(DecodeError::MalformedPayload { message: e.to_string() }),
            },
        },
        TaskPayload::SessionAssociation { task_id, session_id } => {
            let task_id = match TaskId::new(task_id) {
                Ok(t) => t,
                Err(e) => {
                    return Err(DecodeError::MalformedPayload { message: e.to_string() });
                },
            };
            let session_id = match SessionId::new(session_id) {
                Ok(s) => s,
                Err(e) => {
                    return Err(DecodeError::MalformedPayload { message: e.to_string() });
                },
            };
            Ok(TaskEvent::SessionAssociated { task_id, session_id })
        },
        TaskPayload::Observation { id, kind: observation_kind, text, parent_attempt_id } => {
            let id = match TaskObservationId::new(id) {
                Ok(i) => i,
                Err(e) => {
                    return Err(DecodeError::MalformedPayload { message: e.to_string() });
                },
            };
            let text = match TaskObservationText::new(text) {
                Ok(t) => t,
                Err(e) => {
                    return Err(DecodeError::MalformedPayload { message: e.to_string() });
                },
            };
            let parent_attempt_id = match parent_attempt_id {
                Some(p) => match TaskObservationId::new(p) {
                    Ok(p) => Some(p),
                    Err(e) => {
                        return Err(DecodeError::MalformedPayload { message: e.to_string() });
                    },
                },
                None => None,
            };
            Ok(TaskEvent::ObservationAppended { id, kind: observation_kind, text, parent_attempt_id })
        },
    }
}

/// The persisted discriminator of each task event.
pub open spec fn task_event_type(e: TaskEventView) -> Seq<char> {
    match e {
        TaskEventView::Started { .. } => "task.started"@,
        TaskEventView::Completed { .. } => "task.completed"@,
        TaskEventView::Cancelled { .. } => "task.cancelled"@,
        TaskEventView::Failed { .. } => "task.failed"@,
        TaskEventView::SessionAssociated { .. } => "task.session_associated"@,
        TaskEventView::ObservationAppended { .. } => "task.observation_appended"@,
    }
}

/// The payload version each task event is stored at.
pub open spec fn task_payload_version(e: TaskEventView) -> u32 {
    match e {
        TaskEventView::Completed { .. } => 2,
        TaskEventView::Cancelled { .. } => 2,
        TaskEventView::Failed { .. } => 2,
        TaskEventView::ObservationAppended { .. } => 2,
        _ => 1,
    }
}

/// The parsed payload `p` carries exactly the fields of the event `e`, as the
/// stores write them: a terminal event with its text, every other event with
/// its fields.
pub open spec fn task_payload_carries(e: TaskEventView, p: TaskPayload) -> bool {
    match (e, p) {
        (TaskEventView::Started { goal }, TaskPayload::Text(t)) => t@ == goal,
        (TaskEventView::Completed { output: Some(o) }, TaskPayload::Text(t)) => t@ == o,
        (TaskEventView::Cancelled { reason: Some(o) }, TaskPayload::Text(t)) => t@ == o,
        (TaskEventView::Failed { failure: Some(o) }, TaskPayload::Text(t)) => t@ == o,
        (
            TaskEventView::SessionAssociated { task_id, session_id },
            TaskPayload::SessionAssociation { task_id: a, session_id: b },
        ) => a@ == task_id && b@ == session_id,
        (
            TaskEventView::ObservationAppended { id, kind, text, parent_attempt_id },
            TaskPayload::Observation { id: i, kind: k, text: t, parent_attempt_id: q },
        ) => i@ == id && k == kind && t@ == text && opt_view(q) == parent_attempt_id,
        _ => false,
    }
}

/// The fields of a task event satisfy the rules of their types.
pub open spec fn task_event_fields_valid(e: TaskEventView) -> bool {
    match e {
        TaskEventView::Started { goal } => goal.len() > 0,
        TaskEventView::Completed { output } => output matches Some(o) && o.len() > 0,
        TaskEventView::Cancelled { reason } => reason matches Some(o) && o.len() > 0,
        TaskEventView::Failed { failure } => failure matches Some(o) && o.len() > 0,
        TaskEventView::SessionAssociated { task_id, session_id } => task_id.len() > 0
            && session_id.len() > 0,
        TaskEventView::ObservationAppended { id, text, parent_attempt_id, .. } => !is_blank(id)
            && !is_blank(text) && (parent_attempt_id matches Some(q) ==> !is_blank(q)),
    }
}

/// Round trip: the stored type and version of a task event select a schema that
/// its payload fits, and the payload decodes back to the event.
pub proof fn lemma_task_event_round_trip(e: TaskEventView, p: TaskPayload)
    requires
        task_event_fields_valid(e),
        task_payload_carries(e, p),
    ensures
        task_payload_kind_of(task_event_type(e), task_payload_version(e)) matches Some(k)
            && task_payload_fits(k, p) && task_decoded(k, p) == Ok::<TaskEventView, Seq<char>>(e),
{
    reveal_strlit("task.started");
    reveal_strlit("task.completed");
    reveal_strlit("task.cancelled");
    reveal_strlit("task.failed");
    reveal_strlit("task.session_associated");
    reveal_strlit("task.observation_appended");
    assert("task.started"@.len() == 12 && "task.completed"@.len() == 14);
    assert("task.cancelled"@.len() == 14 && "task.failed"@.len() == 11);
    assert("task.session_associated"@.len() == 23);
    assert("task.observation_appended"@.len() == 25);
    assert("task.completed"@[6] != "task.cancelled"@[6]);
}

impl TaskEvent {
    /// The persisted event discriminator.
    pub fn event_type(&self) -> (r: &'static str)
        ensures
            r@ == task_event_type(self@),
    {
        match self {
            TaskEvent::Started { .. } => "task.started",
            TaskEvent::Completed { .. } => "task.completed",
            TaskEvent::Cancelled { .. } => "task.cancelled",
            TaskEvent::Failed { .. } => "task.failed",
            TaskEvent::SessionAssociated { .. } => "task.session_associated",
            TaskEvent::ObservationAppended { .. } => "task.observation_appended",
        }
    }

    /// The payload version: terminal and observation events are stored at version 2.
    pub fn payload_version(&self) -> (r: u32)
        ensures
            r == task_payload_version(self@),
    {
        match self {
            TaskEvent::Completed { .. } => 2,
            TaskEvent::Cancelled { .. } => 2,
            TaskEvent::Failed { .. } => 2,
            TaskEvent::ObservationAppended { .. } => 2,
            _ => 1,
        }
    }
}

} // verus!
