use vstd::prelude::*;

use crate::event_log::{DecodeError, EventLogError, ExpectedVersion, ReplayError, StreamId};
use crate::replay::{replay, lemma_replay_push, lemma_replay_rejected_prefix, lemma_replay_step};
use crate::task::{task_stream, TaskId, TaskStatus, TaskStoreError, VersionedTask};
use crate::text::{decimal, is_blank, opt_view, str_equals, str_is_blank, strip_prefix, text_less, text_lt, lemma_text_lt_irreflexive, lemma_text_lt_total, lemma_text_lt_transitive, u64_to_decimal, suffix_after, lemma_suffix_after, lemma_text_lt_asymmetric};
use crate::listing::{listed_in_order, sort_listed, ListOrder};

verus! {

/// An opaque, non-blank stable identifier for one registered workflow.
#[derive(Debug, Hash, PartialEq, Eq, PartialOrd, Ord)]
pub struct WorkflowId(String);

impl View for WorkflowId {
    type V = Seq<char>;

    closed spec fn view(&self) -> Seq<char> {
        self.0@
    }
}

impl WorkflowId {
    #[verifier::type_invariant]
    closed spec fn inv(self) -> bool {
        !is_blank(self.0@)
    }

    pub fn new(value: String) -> (r: Result<Self, WorkflowIdError>)
        ensures
            r is Ok <==> !is_blank(value@),
            r matches Ok(v) ==> v@ == value@,
    {
        if str_is_blank(value.as_str()) {
            Err(WorkflowIdError)
        } else {
            Ok(WorkflowId(value))
        }
    }

    pub fn as_str(&self) -> (r: &str)
        ensures
            r@ == self@,
            !is_blank(r@),
    {
        proof {
            use_type_invariant(self);
        }
        self.0.as_str()
    }

    /// Exact textual equality of two values.
    pub fn same_as(&self, other: &Self) -> (r: bool)
        ensures
            r == (self@ == other@),
    {
        self.0 == other.0
    }
}

impl Clone for WorkflowId {
    fn clone(&self) -> (r: Self)
        ensures
            r == *self,
    {
        proof {
            use_type_invariant(self);
        }
        WorkflowId(self.0.clone())
    }
}

#[derive(Clone, Copy, Debug, PartialEq, Eq, Structural)]
pub struct WorkflowIdError;

impl WorkflowIdError {
    pub fn to_string(&self) -> (r: String)
        ensures
            r@ == "workflow id must not be blank"@,
    {
        "workflow id must not be blank".to_owned()
    }
}

/// An opaque, non-blank identity for one durable workflow run.
#[derive(Debug, Hash, PartialEq, Eq)]
pub struct WorkflowRunId(String);

impl View for WorkflowRunId {
    type V = Seq<char>;

    closed spec fn view(&self) -> Seq<char> {
        self.0@
    }
}

impl WorkflowRunId {
    #[verifier::type_invariant]
    closed spec fn inv(self) -> bool {
        !is_blank(self.0@)
    }

    pub fn new(value: String) -> (r: Result<Self, WorkflowRunIdError>)
        ensures
            r is Ok <==> !is_blank(value@),
            r matches Ok(v) ==> v@ == value@,
    {
        if str_is_blank(value.as_str()) {
            Err(WorkflowRunIdError)
        } else {
            Ok(WorkflowRunId(value))
        }
    }

    pub fn as_str(&self) -> (r: &str)
        ensures
            r@ == self@,
            !is_blank(r@),
    {
        proof {
            use_type_invariant(self);
        }
        self.0.as_str()
    }

    /// Exact textual equality of two values.
    pub fn same_as(&self, other: &Self) -> (r: bool)
        ensures
            r == (self@ == other@),
    {
        self.0 == other.0
    }
}

impl Clone for WorkflowRunId {
    fn clone(&self) -> (r: Self)
        ensures
            r == *self,
    {
        proof {
            use_type_invariant(self);
        }
        WorkflowRunId(self.0.clone())
    }
}

#[derive(Clone, Copy, Debug, PartialEq, Eq, Structural)]
pub struct WorkflowRunIdError;

impl WorkflowRunIdError {
    pub fn to_string(&self) -> (r: String)
        ensures
            r@ == "workflow run id must not be blank"@,
    {
        "workflow run id must not be blank".to_owned()
    }
}

/// The non-empty caller-owned reason recorded when a workflow run is cancelled.
#[derive(Debug, PartialEq, Eq)]
pub struct WorkflowRunCancellation(String);

impl View for WorkflowRunCancellation {
    type V = Seq<char>;

    closed spec fn view(&self) -> Seq<char> {
        self.0@
    }
}

impl WorkflowRunCancellation {
    #[verifier::type_invariant]
    closed spec fn inv(self) -> bool {
        self.0@.len() > 0
    }

    pub fn new(value: String) -> (r: Result<Self, WorkflowRunCancellationError>)
        ensures
            r is Ok <==> value@.len() > 0,
            r matches Ok(v) ==> v@ == value@,
    {
        if value.as_str().is_empty() {
            Err(WorkflowRunCancellationError)
        } else {
            Ok(WorkflowRunCancellation(value))
        }
    }

    pub fn as_str(&self) -> (r: &str)
        ensures
            r@ == self@,
            r@.len() > 0,
    {
        proof {
            use_type_invariant(self);
        }
        self.0.as_str()
    }
}

impl Clone for WorkflowRunCancellation {
    fn clone(&self) -> (r: Self)
        ensures
            r == *self,
    {
        proof {
            use_type_invariant(self);
        }
        WorkflowRunCancellation(self.0.clone())
    }
}

#[derive(Clone, Copy, Debug, PartialEq, Eq, Structural)]
pub struct WorkflowRunCancellationError;

impl WorkflowRunCancellationError {
    pub fn to_string(&self) -> (r: String)
        ensures
            r@ == "workflow run cancellation reason must not be empty"@,
    {
        "workflow run cancellation reason must not be empty".to_owned()
    }
}

/// The non-empty caller-owned reason recorded when a workflow run is paused.
#[derive(Debug, PartialEq, Eq)]
pub struct WorkflowRunPauseReason(String);

impl View for WorkflowRunPauseReason {
    type V = Seq<char>;

    closed spec fn view(&self) -> Seq<char> {
        self.0@
    }
}

impl WorkflowRunPauseReason {
    #[verifier::type_invariant]
    closed spec fn inv(self) -> bool {
        self.0@.len() > 0
    }

    pub fn new(value: String) -> (r: Result<Self, WorkflowRunPauseReasonError>)
        ensures
            r is Ok <==> value@.len() > 0,
            r matches Ok(v) ==> v@ == value@,
    {
        if value.as_str().is_empty() {
            Err(WorkflowRunPauseReasonError)
        } else {
            Ok(WorkflowRunPauseReason(value))
        }
    }

    pub fn as_str(&self) -> (r: &str)
        ensures
            r@ == self@,
            r@.len() > 0,
    {
        proof {
            use_type_invariant(self);
        }
        self.0.as_str()
    }
}

impl Clone for WorkflowRunPauseReason {
    fn clone(&self) -> (r: Self)
        ensures
            r == *self,
    {
        proof {
            use_type_invariant(self);
        }
        WorkflowRunPauseReason(self.0.clone())
    }
}

#[derive(Clone, Copy, Debug, PartialEq, Eq, Structural)]
pub struct WorkflowRunPauseReasonError;

impl WorkflowRunPauseReasonError {
    pub fn to_string(&self) -> (r: String)
        ensures
            r@ == "workflow run pause reason must not be empty"@,
    {
        "workflow run pause reason must not be empty".to_owned()
    }
}

/// The non-empty caller-owned reason recorded when a workflow run resumes.
#[derive(Debug, PartialEq, Eq)]
pub struct WorkflowRunResumeReason(String);

impl View for WorkflowRunResumeReason {
    type V = Seq<char>;

    closed spec fn view(&self) -> Seq<char> {
        self.0@
    }
}

impl WorkflowRunResumeReason {
    #[verifier::type_invariant]
    closed spec fn inv(self) -> bool {
        self.0@.len() > 0
    }

    pub fn new(value: String) -> (r: Result<Self, WorkflowRunResumeReasonError>)
        ensures
            r is Ok <==> value@.len() > 0,
            r matches Ok(v) ==> v@ == value@,
    {
        if value.as_str().is_empty() {
            Err(WorkflowRunResumeReasonError)
        } else {
            Ok(WorkflowRunResumeReason(value))
        }
    }

    pub fn as_str(&self) -> (r: &str)
        ensures
            r@ == self@,
            r@.len() > 0,
    {
        proof {
            use_type_invariant(self);
        }
        self.0.as_str()
    }
}

impl Clone for WorkflowRunResumeReason {
    fn clone(&self) -> (r: Self)
        ensures
            r == *self,
    {
        proof {
            use_type_invariant(self);
        }
        WorkflowRunResumeReason(self.0.clone())
    }
}

#[derive(Clone, Copy, Debug, PartialEq, Eq, Structural)]
pub struct WorkflowRunResumeReasonError;

impl WorkflowRunResumeReasonError {
    pub fn to_string(&self) -> (r: String)
        ensures
            r@ == "workflow run resume reason must not be empty"@,
    {
        "workflow run resume reason must not be empty".to_owned()
    }
}

/// The non-empty diagnostic recorded when a workflow run fails.
#[derive(Debug, PartialEq, Eq)]
pub struct WorkflowRunFailure(String);

impl View for WorkflowRunFailure {
    type V = Seq<char>;

    closed spec fn view(&self) -> Seq<char> {
        self.0@
    }
}

impl WorkflowRunFailure {
    #[verifier::type_invariant]
    closed spec fn inv(self) -> bool {
        self.0@.len() > 0
    }

    pub fn new(value: String) -> (r: Result<Self, WorkflowRunFailureError>)
        ensures
            r is Ok <==> value@.len() > 0,
            r matches Ok(v) ==> v@ == value@,
    {
        if value.as_str().is_empty() {
            Err(WorkflowRunFailureError)
        } else {
            Ok(WorkflowRunFailure(value))
        }
    }

    pub fn as_str(&self) -> (r: &str)
        ensures
            r@ == self@,
            r@.len() > 0,
    {
        proof {
            use_type_invariant(self);
        }
        self.0.as_str()
    }
}

impl Clone for WorkflowRunFailure {
    fn clone(&self) -> (r: Self)
        ensures
            r == *self,
    {
        proof {
            use_type_invariant(self);
        }
        WorkflowRunFailure(self.0.clone())
    }
}

#[derive(Clone, Copy, Debug, PartialEq, Eq, Structural)]
pub struct WorkflowRunFailureError;

impl WorkflowRunFailureError {
    pub fn to_string(&self) -> (r: String)
        ensures
            r@ == "workflow run failure diagnostic must not be empty"@,
    {
        "workflow run failure diagnostic must not be empty".to_owned()
    }
}

} // verus!

verus! {

pub struct TransitionView {
    pub target: Seq<char>,
    pub gate: Option<Seq<char>>,
}

/// One immutable transition in a registered inert workflow definition.
#[derive(Debug, PartialEq, Eq)]
pub struct RegisteredWorkflowTransition {
    target: String,
    gate: Option<String>,
}

impl View for RegisteredWorkflowTransition {
    type V = TransitionView;

    closed spec fn view(&self) -> TransitionView {
        TransitionView { target: self.target@, gate: opt_view(self.gate) }
    }
}

fn clone_gate(g: &Option<String>) -> (r: Option<String>)
    ensures
        r == *g,
{
    match g {
        Some(s) => Some(s.clone()),
        None => None,
    }
}

impl Clone for RegisteredWorkflowTransition {
    fn clone(&self) -> (r: Self)
        ensures
            r == *self,
    {
        RegisteredWorkflowTransition { target: self.target.clone(), gate: clone_gate(&self.gate) }
    }
}

impl RegisteredWorkflowTransition {
    pub fn new(target: String, gate: Option<String>) -> (r: Self)
        ensures
            r@ == (TransitionView { target: target@, gate: opt_view(gate) }),
    {
        RegisteredWorkflowTransition { target, gate }
    }

    pub fn target(&self) -> (r: &str)
        ensures
            r@ == self@.target,
    {
        self.target.as_str()
    }

    pub fn gate(&self) -> (r: Option<&str>)
        ensures
            opt_view(r) == self@.gate,
    {
        match &self.gate {
            Some(g) => Some(g.as_str()),
            None => None,
        }
    }
}

pub struct PhaseView {
    pub id: Seq<char>,
    pub terminal: bool,
    pub transitions: Seq<TransitionView>,
}

pub open spec fn transitions_view(t: Seq<RegisteredWorkflowTransition>) -> Seq<TransitionView> {
    t.map_values(|x: RegisteredWorkflowTransition| x@)
}

/// One immutable phase in a registered inert workflow definition.
#[derive(Debug, PartialEq, Eq)]
pub struct RegisteredWorkflowPhase {
    id: String,
    terminal: bool,
    transitions: Vec<RegisteredWorkflowTransition>,
}

impl View for RegisteredWorkflowPhase {
    type V = PhaseView;

    closed spec fn view(&self) -> PhaseView {
        PhaseView {
            id: self.id@,
            terminal: self.terminal,
            transitions: transitions_view(self.transitions@),
        }
    }
}

impl Clone for RegisteredWorkflowPhase {
    fn clone(&self) -> (r: Self)
        ensures
            r@ == self@,
    {
        let mut transitions: Vec<RegisteredWorkflowTransition> = Vec::new();
        let mut i: usize = 0;
        while i < self.transitions.len()
            invariant
                i <= self.transitions@.len(),
                transitions@.len() == i,
                forall|k: int| 0 <= k < i ==> transitions@[k] == self.transitions@[k],
            decreases self.transitions@.len() - i,
        {
            transitions.push(self.transitions[i].clone());
            i = i + 1;
        }
        assert(transitions@ =~= self.transitions@);
        RegisteredWorkflowPhase { id: self.id.clone(), terminal: self.terminal, transitions }
    }
}

impl RegisteredWorkflowPhase {
    pub fn new(id: String, terminal: bool, transitions: Vec<RegisteredWorkflowTransition>) -> (r: Self)
        ensures
            r@ == (PhaseView {
                id: id@,
                terminal,
                transitions: transitions_view(transitions@),
            }),
    {
        RegisteredWorkflowPhase { id, terminal, transitions }
    }

    pub fn id(&self) -> (r: &str)
        ensures
            r@ == self@.id,
    {
        self.id.as_str()
    }

    pub fn is_terminal(&self) -> (r: bool)
        ensures
            r == self@.terminal,
    {
        self.terminal
    }

    pub fn transitions(&self) -> (r: &[RegisteredWorkflowTransition])
        ensures
            transitions_view(r@) == self@.transitions,
    {
        self.transitions.as_slice()
    }
}

pub struct WorkflowView {
    pub id: Seq<char>,
    pub start: Seq<char>,
    pub phases: Seq<PhaseView>,
}

pub open spec fn phases_view(p: Seq<RegisteredWorkflowPhase>) -> Seq<PhaseView> {
    p.map_values(|x: RegisteredWorkflowPhase| x@)
}

/// Immutable owned topology for one process-local registered workflow.
#[derive(Debug, PartialEq, Eq)]
pub struct RegisteredWorkflow {
    id: WorkflowId,
    start: String,
    phases: Vec<RegisteredWorkflowPhase>,
}

impl View for RegisteredWorkflow {
    type V = WorkflowView;

    closed spec fn view(&self) -> WorkflowView {
        WorkflowView { id: self.id@, start: self.start@, phases: phases_view(self.phases@) }
    }
}

impl Clone for RegisteredWorkflow {
    fn clone(&self) -> (r: Self)
        ensures
            r@ == self@,
    {
        let mut phases: Vec<RegisteredWorkflowPhase> = Vec::new();
        let mut i: usize = 0;
        while i < self.phases.len()
            invariant
                i <= self.phases@.len(),
                phases@.len() == i,
                forall|k: int| 0 <= k < i ==> phases@[k]@ == self.phases@[k]@,
            decreases self.phases@.len() - i,
        {
            phases.push(self.phases[i].clone());
            i = i + 1;
        }
        assert(phases_view(phases@) =~= phases_view(self.phases@));
        RegisteredWorkflow { id: self.id.clone(), start: self.start.clone(), phases }
    }
}

impl RegisteredWorkflow {
    pub fn new(id: WorkflowId, start: String, phases: Vec<RegisteredWorkflowPhase>) -> (r: Self)
        ensures
            r@ == (WorkflowView { id: id@, start: start@, phases: phases_view(phases@) }),
    {
        RegisteredWorkflow { id, start, phases }
    }

    pub fn id(&self) -> (r: &WorkflowId)
        ensures
            r@ == self@.id,
    {
        &self.id
    }

    pub fn start(&self) -> (r: &str)
        ensures
            r@ == self@.start,
    {
        self.start.as_str()
    }

    pub fn phases(&self) -> (r: &[RegisteredWorkflowPhase])
        ensures
            phases_view(r@) == self@.phases,
    {
        self.phases.as_slice()
    }
}

/// A deterministic failure to begin or advance one borrowed workflow cursor.
#[derive(Debug, PartialEq, Eq)]
#[non_exhaustive]
#[allow(inconsistent_fields)]
pub enum WorkflowCursorError {
    StartNotFound { phase_id: String },
    StartAmbiguous { phase_id: String },
    TerminalPhase { phase_id: String },
    TransitionNotFound { phase_id: String, transition_index: usize },
    GateAcknowledgementMissing { phase_id: String, transition_index: usize, gate_id: String },
    GateAcknowledgementUnexpected { phase_id: String, transition_index: usize, gate_id: String },
    GateAcknowledgementMismatch {
        phase_id: String,
        transition_index: usize,
        expected_gate_id: String,
        actual_gate_id: String,
    },
    TargetNotFound { phase_id: String, transition_index: usize, target_phase_id: String },
    TargetAmbiguous { phase_id: String, transition_index: usize, target_phase_id: String },
}

/// Where phases with one identity stand in a workflow.
pub enum PhaseLookup {
    NotFound,
    Ambiguous,
    Found(usize),
}

/// Whether phase `i` carries the identity `id`.
pub open spec fn phase_has_id(phases: Seq<PhaseView>, id: Seq<char>, i: int) -> bool {
    0 <= i < phases.len() && phases[i].id == id
}

/// The lookup result that the phases determine for one identity.
pub open spec fn lookup_holds(phases: Seq<PhaseView>, id: Seq<char>, r: PhaseLookup) -> bool {
    match r {
        PhaseLookup::NotFound => forall|i: int| !phase_has_id(phases, id, i),
        PhaseLookup::Ambiguous => exists|i: int, j: int|
            i < j && phase_has_id(phases, id, i) && phase_has_id(phases, id, j),
        PhaseLookup::Found(k) => phase_has_id(phases, id, k as int) && forall|i: int|
            phase_has_id(phases, id, i) ==> i == k,
    }
}

/// Finds the unique phase with an identity.
pub fn lookup_phase(phases: &[RegisteredWorkflowPhase], id: &str) -> (r: PhaseLookup)
    ensures
        lookup_holds(phases_view(phases@), id@, r),
{
    let ghost pv = phases_view(phases@);
    let mut found: Option<usize> = None;
    let mut i: usize = 0;
    while i < phases.len()
        invariant
            i <= phases@.len(),
            pv == phases_view(phases@),
            found is None ==> forall|j: int| 0 <= j < i ==> !phase_has_id(pv, id@, j),
            found matches Some(k) ==> k < i && phase_has_id(pv, id@, k as int) && forall|j: int|
                0 <= j < i && phase_has_id(pv, id@, j) ==> j == k,
        decreases phases@.len() - i,
    {
        assert(pv[i as int] == phases@[i as int]@);
        if str_equals(phases[i].id.as_str(), id) {
            match found {
                Some(k) => {
                    assert(phase_has_id(pv, id@, k as int) && phase_has_id(pv, id@, i as int));
                    return PhaseLookup::Ambiguous;
                },
                None => {
                    found = Some(i);
                },
            }
        }
        i = i + 1;
    }
    match found {
        Some(k) => PhaseLookup::Found(k),
        None => PhaseLookup::NotFound,
    }
}

/// The start phase of a workflow: its declared start must name exactly one phase.
pub open spec fn start_index(w: WorkflowView) -> Option<int> {
    if exists|k: int|
        phase_has_id(w.phases, w.start, k) && forall|i: int| phase_has_id(w.phases, w.start, i) ==> i == k {
        Some(
            choose|k: int|
                phase_has_id(w.phases, w.start, k) && forall|i: int|
                    phase_has_id(w.phases, w.start, i) ==> i == k,
        )
    } else {
        None
    }
}

/// Two or more phases carry the workflow's declared start identity.
pub open spec fn start_shared(w: WorkflowView) -> bool {
    exists|a: int, b: int|
        a < b && #[trigger] phase_has_id(w.phases, w.start, a) && #[trigger] phase_has_id(
            w.phases,
            w.start,
            b,
        )
}

/// Resolves a workflow's unique start phase.
pub fn start_phase_index(workflow: &RegisteredWorkflow) -> (r: Result<usize, WorkflowCursorError>)
    ensures
        r matches Ok(k) ==> start_index(workflow@) == Some(k as int) && k < workflow@.phases.len(),
        r is Err <==> start_index(workflow@) is None,
        (r matches Err(WorkflowCursorError::StartNotFound { .. })) <==> forall|i: int|
            !#[trigger] phase_has_id(workflow@.phases, workflow@.start, i),
        (r matches Err(WorkflowCursorError::StartAmbiguous { .. })) <==> start_shared(workflow@),
        r matches Err(e) ==> (e matches WorkflowCursorError::StartNotFound { phase_id }
            && phase_id@ == workflow@.start) || (e matches WorkflowCursorError::StartAmbiguous {
            phase_id,
        } && phase_id@ == workflow@.start),
{
    let ghost w = workflow@;
    match lookup_phase(workflow.phases.as_slice(), workflow.start.as_str()) {
        PhaseLookup::Found(k) => {
            proof {
                assert(phase_has_id(w.phases, w.start, k as int));
                let c = choose|c: int|
                    phase_has_id(w.phases, w.start, c) && forall|i: int|
                        phase_has_id(w.phases, w.start, i) ==> i == c;
                assert(c == k);
            }
            Ok(k)
        },
        PhaseLookup::NotFound => Err(
            WorkflowCursorError::StartNotFound { phase_id: workflow.start.clone() },
        ),
        PhaseLookup::Ambiguous => {
            proof {
                let (a0, b0) = choose|a: int, b: int|
                    a < b && phase_has_id(w.phases, w.start, a) && phase_has_id(w.phases, w.start, b);
                assert(phase_has_id(w.phases, w.start, a0));
                if start_index(w) is Some {
                    let (a, b) = choose|a: int, b: int|
                        a < b && phase_has_id(w.phases, w.start, a) && phase_has_id(
                            w.phases,
                            w.start,
                            b,
                        );
                    let c = choose|c: int|
                        phase_has_id(w.phases, w.start, c) && forall|i: int|
                            phase_has_id(w.phases, w.start, i) ==> i == c;
                    assert(a == c && b == c);
                }
            }
            Err(WorkflowCursorError::StartAmbiguous { phase_id: workflow.start.clone() })
        },
    }
}

/// The phase reached by following transition `t` of phase `cur` with an optional gate
/// acknowledgement, or `None` when the move is refused.
pub open spec fn resolve_move(
    w: WorkflowView,
    cur: int,
    t: int,
    ack: Option<Seq<char>>,
) -> Option<int> {
    if !(0 <= cur < w.phases.len()) || w.phases[cur].terminal || !(0 <= t
        < w.phases[cur].transitions.len()) || w.phases[cur].transitions[t].gate != ack {
        None
    } else {
        let target = w.phases[cur].transitions[t].target;
        if exists|k: int|
            phase_has_id(w.phases, target, k) && forall|i: int| phase_has_id(w.phases, target, i) ==> i == k {
            Some(
                choose|k: int|
                    phase_has_id(w.phases, target, k) && forall|i: int|
                        phase_has_id(w.phases, target, i) ==> i == k,
            )
        } else {
            None
        }
    }
}

/// The refusal reported for following transition `t` of phase `cur` with an optional gate
/// acknowledgement: the first failed check, in the order terminal phase, transition index,
/// gate acknowledgement, target lookup.
pub open spec fn move_refusal(
    w: WorkflowView,
    cur: int,
    t: usize,
    ack: Option<Seq<char>>,
    e: WorkflowCursorError,
) -> bool {
    let p = w.phases[cur];
    if p.terminal {
        e matches WorkflowCursorError::TerminalPhase { phase_id } && phase_id@ == p.id
    } else if t >= p.transitions.len() {
        e matches WorkflowCursorError::TransitionNotFound { phase_id, transition_index }
            && phase_id@ == p.id && transition_index == t
    } else {
        let tr = p.transitions[t as int];
        if tr.gate is Some && ack is None {
            e matches WorkflowCursorError::GateAcknowledgementMissing {
                phase_id,
                transition_index,
                gate_id,
            } && phase_id@ == p.id && transition_index == t && gate_id@ == tr.gate->0
        } else if tr.gate is None && ack is Some {
            e matches WorkflowCursorError::GateAcknowledgementUnexpected {
                phase_id,
                transition_index,
                gate_id,
            } && phase_id@ == p.id && transition_index == t && gate_id@ == ack->0
        } else if tr.gate != ack {
            e matches WorkflowCursorError::GateAcknowledgementMismatch {
                phase_id,
                transition_index,
                expected_gate_id,
                actual_gate_id,
            } && phase_id@ == p.id && transition_index == t && expected_gate_id@ == tr.gate->0
                && actual_gate_id@ == ack->0
        } else if forall|i: int| !#[trigger] phase_has_id(w.phases, tr.target, i) {
            e matches WorkflowCursorError::TargetNotFound {
                phase_id,
                transition_index,
                target_phase_id,
            } && phase_id@ == p.id && transition_index == t && target_phase_id@ == tr.target
        } else {
            e matches WorkflowCursorError::TargetAmbiguous {
                phase_id,
                transition_index,
                target_phase_id,
            } && phase_id@ == p.id && transition_index == t && target_phase_id@ == tr.target
        }
    }
}

/// Resolves one authored move from phase `current` after exact gate acknowledgement.
pub fn resolve_transition(
    workflow: &RegisteredWorkflow,
    current: usize,
    transition_index: usize,
    gate_acknowledgement: Option<&str>,
) -> (r: Result<usize, WorkflowCursorError>)
    requires
        current < workflow@.phases.len(),
    ensures
        r matches Ok(k) ==> resolve_move(
            workflow@,
            current as int,
            transition_index as int,
            opt_view(gate_acknowledgement),
        ) == Some(k as int) && k < workflow@.phases.len(),
        r is Err <==> resolve_move(
            workflow@,
            current as int,
            transition_index as int,
            opt_view(gate_acknowledgement),
        ) is None,
        r matches Err(e) ==> move_refusal(
            workflow@,
            current as int,
            transition_index,
            opt_view(gate_acknowledgement),
            e,
        ),
{
    let ghost w = workflow@;
    let ghost ack = opt_view(gate_acknowledgement);
    let phase = &workflow.phases[current];
    assert(w.phases[current as int] == phase@);
    if phase.terminal {
        return Err(WorkflowCursorError::TerminalPhase { phase_id: phase.id.clone() });
    }
    if transition_index >= phase.transitions.len() {
        return Err(
            WorkflowCursorError::TransitionNotFound { phase_id: phase.id.clone(), transition_index },
        );
    }
    let transition = &phase.transitions[transition_index];
    assert(w.phases[current as int].transitions[transition_index as int] == transition@);
    match (&transition.gate, gate_acknowledgement) {
        (Some(gate_id), None) => {
            let e = WorkflowCursorError::GateAcknowledgementMissing {
                phase_id: phase.id.clone(),
                transition_index,
                gate_id: gate_id.clone(),
            };
            assert(move_refusal(w, current as int, transition_index, ack, e));
            return Err(e);
        },
        (None, Some(gate_id)) => {
            let e = WorkflowCursorError::GateAcknowledgementUnexpected {
                phase_id: phase.id.clone(),
                transition_index,
                gate_id: gate_id.to_owned(),
            };
            assert(move_refusal(w, current as int, transition_index, ack, e));
            return Err(e);
        },
        (Some(expected), Some(actual)) => {
            if !str_equals(expected.as_str(), actual) {
                let e = WorkflowCursorError::GateAcknowledgementMismatch {
                    phase_id: phase.id.clone(),
                    transition_index,
                    expected_gate_id: expected.clone(),
                    actual_gate_id: actual.to_owned(),
                };
                assert(move_refusal(w, current as int, transition_index, ack, e));
                return Err(e);
            }
        },
        (None, None) => {},
    }
    assert(transition@.gate == ack);
    let target = transition.target.as_str();
    assert(transition@.target == target@);
    match lookup_phase(workflow.phases.as_slice(), target) {
        PhaseLookup::Found(k) => {
            proof {
                let c = choose|c: int|
                    phase_has_id(w.phases, target@, c) && forall|i: int|
                        phase_has_id(w.phases, target@, i) ==> i == c;
                assert(c == k);
            }
            Ok(k)
        },
        PhaseLookup::NotFound => {
            let e = WorkflowCursorError::TargetNotFound {
                phase_id: phase.id.clone(),
                transition_index,
                target_phase_id: transition.target.clone(),
            };
            assert(move_refusal(w, current as int, transition_index, ack, e));
            Err(e)
        },
        PhaseLookup::Ambiguous => {
            proof {
                let (a, b) = choose|a: int, b: int|
                    a < b && phase_has_id(w.phases, target@, a) && phase_has_id(
                        w.phases,
                        target@,
                        b,
                    );
                assert(phase_has_id(w.phases, target@, a));
                if exists|k: int|
                    phase_has_id(w.phases, target@, k) && forall|i: int|
                        phase_has_id(w.phases, target@, i) ==> i == k {
                    let c = choose|c: int|
                        phase_has_id(w.phases, target@, c) && forall|i: int|
                            phase_has_id(w.phases, target@, i) ==> i == c;
                    assert(a == c && b == c);
                }
            }
            let e = WorkflowCursorError::TargetAmbiguous {
                phase_id: phase.id.clone(),
                transition_index,
                target_phase_id: transition.target.clone(),
            };
            assert(move_refusal(w, current as int, transition_index, ack, e));
            Err(e)
        },
    }
}

/// A borrowed, process-local cursor advanced only by explicit caller choices.
#[derive(Debug)]
pub struct WorkflowCursor<'a> {
    workflow: &'a RegisteredWorkflow,
    current_phase_index: usize,
}

impl<'a> WorkflowCursor<'a> {
    #[verifier::type_invariant]
    closed spec fn inv(self) -> bool {
        self.current_phase_index < self.workflow@.phases.len()
    }

    pub closed spec fn position(self) -> int {
        self.current_phase_index as int
    }

    pub closed spec fn definition(self) -> WorkflowView {
        self.workflow@
    }

    /// Begins at the workflow's exact declared start phase without advancing it.
    pub fn new(workflow: &'a RegisteredWorkflow) -> (r: Result<Self, WorkflowCursorError>)
        ensures
            r is Ok <==> start_index(workflow@) is Some,
            r matches Ok(c) ==> c.definition() == workflow@ && start_index(workflow@) == Some(
                c.position(),
            ),
            r matches Err(e) ==> (e matches WorkflowCursorError::StartNotFound { phase_id }
                && phase_id@ == workflow@.start) || (e matches WorkflowCursorError::StartAmbiguous {
                phase_id,
            } && phase_id@ == workflow@.start),
            (r matches Err(WorkflowCursorError::StartNotFound { .. })) <==> forall|i: int|
                !#[trigger] phase_has_id(workflow@.phases, workflow@.start, i),
            (r matches Err(WorkflowCursorError::StartAmbiguous { .. })) <==> start_shared(
                workflow@,
            ),
    {
        match start_phase_index(workflow) {
            Ok(k) => Ok(WorkflowCursor { workflow, current_phase_index: k }),
            Err(e) => Err(e),
        }
    }

    pub fn workflow(&self) -> (r: &'a RegisteredWorkflow)
        ensures
            r@ == self.definition(),
    {
        self.workflow
    }

    pub fn current_phase(&self) -> (r: &'a RegisteredWorkflowPhase)
        ensures
            r@ == self.definition().phases[self.position()],
            0 <= self.position() < self.definition().phases.len(),
    {
        proof {
            use_type_invariant(self);
        }
        assert(self.workflow@.phases[self.current_phase_index as int]
            == self.workflow.phases@[self.current_phase_index as int]@);
        &self.workflow.phases[self.current_phase_index]
    }

    pub fn is_terminal(&self) -> (r: bool)
        ensures
            r == self.definition().phases[self.position()].terminal,
    {
        self.current_phase().is_terminal()
    }

    /// Advances through one authored transition after exact gate acknowledgement.
    ///
    /// Every failure is checked before the cursor's current phase changes.
    pub fn advance(&mut self, transition_index: usize, gate_acknowledgement: Option<&str>) -> (r:
        Result<(), WorkflowCursorError>)
        ensures
            final(self).definition() == old(self).definition(),
            r is Err <==> resolve_move(
                old(self).definition(),
                old(self).position(),
                transition_index as int,
                opt_view(gate_acknowledgement),
            ) is None,
            r is Err ==> final(self).position() == old(self).position(),
            r is Ok ==> Some(final(self).position()) == resolve_move(
                old(self).definition(),
                old(self).position(),
                transition_index as int,
                opt_view(gate_acknowledgement),
            ),
            r matches Err(e) ==> move_refusal(
                old(self).definition(),
                old(self).position(),
                transition_index,
                opt_view(gate_acknowledgement),
                e,
            ),
    {
        proof {
            use_type_invariant(&*self);
        }
        match resolve_transition(
            self.workflow,
            self.current_phase_index,
            transition_index,
            gate_acknowledgement,
        ) {
            Ok(k) => {
                self.current_phase_index = k;
                Ok(())
            },
            Err(e) => Err(e),
        }
    }
}

} // verus!

verus! {

/// The text of a cursor failure, as its `Display` renders it.
pub open spec fn cursor_error_text(e: WorkflowCursorError) -> Seq<char> {
    match e {
        WorkflowCursorError::StartNotFound { phase_id } => "workflow start phase "@ + phase_id@
            + " was not found"@,
        WorkflowCursorError::StartAmbiguous { phase_id } => "workflow start phase "@ + phase_id@
            + " is ambiguous"@,
        WorkflowCursorError::TerminalPhase { phase_id } => "workflow phase "@ + phase_id@
            + " is terminal"@,
        WorkflowCursorError::TransitionNotFound { phase_id, transition_index } => "workflow phase "@
            + phase_id@ + " has no transition at index "@ + decimal(transition_index as nat),
        WorkflowCursorError::GateAcknowledgementMissing { phase_id, transition_index, gate_id } =>
            transition_text(phase_id@, transition_index) + " requires gate acknowledgement "@
            + gate_id@,
        WorkflowCursorError::GateAcknowledgementUnexpected { phase_id, transition_index, gate_id } =>
            transition_text(phase_id@, transition_index) + " does not accept gate acknowledgement "@
            + gate_id@,
        WorkflowCursorError::GateAcknowledgementMismatch {
            phase_id,
            transition_index,
            expected_gate_id,
            actual_gate_id,
        } => transition_text(phase_id@, transition_index) + " requires gate acknowledgement "@
            + expected_gate_id@ + ", not "@ + actual_gate_id@,
        WorkflowCursorError::TargetNotFound { phase_id, transition_index, target_phase_id } =>
            transition_text(phase_id@, transition_index) + " target "@ + target_phase_id@
            + " was not found"@,
        WorkflowCursorError::TargetAmbiguous { phase_id, transition_index, target_phase_id } =>
            transition_text(phase_id@, transition_index) + " target "@ + target_phase_id@
            + " is ambiguous"@,
    }
}

/// `workflow phase {phase_id} transition {transition_index}`.
pub open spec fn transition_text(phase_id: Seq<char>, transition_index: usize) -> Seq<char> {
    "workflow phase "@ + phase_id + " transition "@ + decimal(transition_index as nat)
}

fn transition_prefix(phase_id: &String, transition_index: usize) -> (r: String)
    ensures
        r@ == transition_text(phase_id@, transition_index),
{
    let mut s = "workflow phase ".to_owned();
    s.append(phase_id.as_str());
    s.append(" transition ");
    let digits = u64_to_decimal(transition_index as u64);
    s.append(digits.as_str());
    s
}

impl WorkflowCursorError {
    /// The failure rendered as text.
    pub fn to_string(&self) -> (r: String)
        ensures
            r@ == cursor_error_text(*self),
    {
        match self {
            WorkflowCursorError::StartNotFound { phase_id } => {
                let mut s = "workflow start phase ".to_owned();
                s.append(phase_id.as_str());
                s.append(" was not found");
                s
            },
            WorkflowCursorError::StartAmbiguous { phase_id } => {
                let mut s = "workflow start phase ".to_owned();
                s.append(phase_id.as_str());
                s.append(" is ambiguous");
                s
            },
            WorkflowCursorError::TerminalPhase { phase_id } => {
                let mut s = "workflow phase ".to_owned();
                s.append(phase_id.as_str());
                s.append(" is terminal");
                s
            },
            WorkflowCursorError::TransitionNotFound { phase_id, transition_index } => {
                let mut s = "workflow phase ".to_owned();
                s.append(phase_id.as_str());
                s.append(" has no transition at index ");
                let digits = u64_to_decimal(*transition_index as u64);
                s.append(digits.as_str());
                s
            },
            WorkflowCursorError::GateAcknowledgementMissing { phase_id, transition_index, gate_id } => {
                let mut s = transition_prefix(phase_id, *transition_index);
                s.append(" requires gate acknowledgement ");
                s.append(gate_id.as_str());
                s
            },
            WorkflowCursorError::GateAcknowledgementUnexpected {
                phase_id,
                transition_index,
                gate_id,
            } => {
                let mut s = transition_prefix(phase_id, *transition_index);
                s.append(" does not accept gate acknowledgement ");
                s.append(gate_id.as_str());
                s
            },
            WorkflowCursorError::GateAcknowledgementMismatch {
                phase_id,
                transition_index,
                expected_gate_id,
                actual_gate_id,
            } => {
                let mut s = transition_prefix(phase_id, *transition_index);
                s.append(" requires gate acknowledgement ");
                s.append(expected_gate_id.as_str());
                s.append(", not ");
                s.append(actual_gate_id.as_str());
                s
            },
            WorkflowCursorError::TargetNotFound { phase_id, transition_index, target_phase_id } => {
                let mut s = transition_prefix(phase_id, *transition_index);
                s.append(" target ");
                s.append(target_phase_id.as_str());
                s.append(" was not found");
                s
            },
            WorkflowCursorError::TargetAmbiguous { phase_id, transition_index, target_phase_id } => {
                let mut s = transition_prefix(phase_id, *transition_index);
                s.append(" target ");
                s.append(target_phase_id.as_str());
                s.append(" is ambiguous");
                s
            },
        }
    }
}

/// One semantic lifecycle event from a validated durable workflow-run history.
#[derive(Debug, PartialEq, Eq)]
#[non_exhaustive]
#[allow(inconsistent_fields)]
pub enum WorkflowRunHistoryEvent {
    Started { workflow_id: WorkflowId, phase_id: String },
    TaskStarted { workflow_id: WorkflowId, phase_id: String, task_id: TaskId },
    Advanced {
        source_phase_id: String,
        target_phase_id: String,
        transition_index: usize,
        gate_acknowledgement: Option<String>,
    },
    Cancelled { phase_id: String, reason: WorkflowRunCancellation },
    Paused { phase_id: String, reason: WorkflowRunPauseReason },
    Resumed { phase_id: String, reason: WorkflowRunResumeReason },
    Failed { phase_id: String, failure: WorkflowRunFailure },
}

pub enum WorkflowRunHistoryEventView {
    Started { workflow_id: Seq<char>, phase_id: Seq<char> },
    TaskStarted { workflow_id: Seq<char>, phase_id: Seq<char>, task_id: Seq<char> },
    Advanced {
        source_phase_id: Seq<char>,
        target_phase_id: Seq<char>,
        transition_index: int,
        gate_acknowledgement: Option<Seq<char>>,
    },
    Cancelled { phase_id: Seq<char>, reason: Seq<char> },
    Paused { phase_id: Seq<char>, reason: Seq<char> },
    Resumed { phase_id: Seq<char>, reason: Seq<char> },
    Failed { phase_id: Seq<char>, failure: Seq<char> },
}

impl View for WorkflowRunHistoryEvent {
    type V = WorkflowRunHistoryEventView;

    open spec fn view(&self) -> WorkflowRunHistoryEventView {
        match self {
            WorkflowRunHistoryEvent::Started { workflow_id, phase_id } =>
                WorkflowRunHistoryEventView::Started { workflow_id: workflow_id@, phase_id: phase_id@ },
            WorkflowRunHistoryEvent::TaskStarted { workflow_id, phase_id, task_id } =>
                WorkflowRunHistoryEventView::TaskStarted {
                workflow_id: workflow_id@,
                phase_id: phase_id@,
                task_id: task_id@,
            },
            WorkflowRunHistoryEvent::Advanced {
                source_phase_id,
                target_phase_id,
                transition_index,
                gate_acknowledgement,
            } => WorkflowRunHistoryEventView::Advanced {
                source_phase_id: source_phase_id@,
                target_phase_id: target_phase_id@,
                transition_index: *transition_index as int,
                gate_acknowledgement: opt_view(*gate_acknowledgement),
            },
            WorkflowRunHistoryEvent::Cancelled { phase_id, reason } =>
                WorkflowRunHistoryEventView::Cancelled { phase_id: phase_id@, reason: reason@ },
            WorkflowRunHistoryEvent::Paused { phase_id, reason } =>
                WorkflowRunHistoryEventView::Paused { phase_id: phase_id@, reason: reason@ },
            WorkflowRunHistoryEvent::Resumed { phase_id, reason } =>
                WorkflowRunHistoryEventView::Resumed { phase_id: phase_id@, reason: reason@ },
            WorkflowRunHistoryEvent::Failed { phase_id, failure } =>
                WorkflowRunHistoryEventView::Failed { phase_id: phase_id@, failure: failure@ },
        }
    }
}

/// One revision-bearing entry from a validated durable workflow-run history.
#[derive(Debug, PartialEq, Eq)]
pub struct WorkflowRunHistoryEntry {
    revision: u64,
    event: WorkflowRunHistoryEvent,
}

pub struct WorkflowRunHistoryEntryView {
    pub revision: int,
    pub event: WorkflowRunHistoryEventView,
}

impl View for WorkflowRunHistoryEntry {
    type V = WorkflowRunHistoryEntryView;

    closed spec fn view(&self) -> WorkflowRunHistoryEntryView {
        WorkflowRunHistoryEntryView { revision: self.revision as int, event: self.event@ }
    }
}

impl WorkflowRunHistoryEntry {
    /// The one-based event-stream revision occupied by this lifecycle event.
    pub fn revision(&self) -> (r: u64)
        ensures
            r as int == self@.revision,
    {
        self.revision
    }

    pub fn event(&self) -> (r: &WorkflowRunHistoryEvent)
        ensures
            r@ == self@.event,
    {
        &self.event
    }
}

/// The mutually exclusive lifecycle classification of a validated workflow run.
///
/// Cancellation and failure take precedence over a retained pause marker.
#[derive(Clone, Copy, Debug, PartialEq, Eq, Structural)]
#[non_exhaustive]
pub enum WorkflowRunStatus {
    Active,
    Paused,
    AuthoredTerminal,
    Cancelled,
    Failed,
}

pub struct WorkflowRunView {
    pub id: Seq<char>,
    pub workflow: WorkflowView,
    pub phase: int,
    pub revision: int,
    pub cancellation: Option<Seq<char>>,
    pub pause_reason: Option<Seq<char>>,
    pub failure: Option<Seq<char>>,
    pub task_id: Option<Seq<char>>,
}

/// Whether the run's current phase is authored as terminal.
pub open spec fn run_terminal(s: WorkflowRunView) -> bool {
    s.workflow.phases[s.phase].terminal
}

/// The lifecycle classification: failure, then cancellation, then an authored
/// terminal phase, then a pause.
pub open spec fn run_status(s: WorkflowRunView) -> WorkflowRunStatus {
    if s.failure is Some {
        WorkflowRunStatus::Failed
    } else if s.cancellation is Some {
        WorkflowRunStatus::Cancelled
    } else if run_terminal(s) {
        WorkflowRunStatus::AuthoredTerminal
    } else if s.pause_reason is Some {
        WorkflowRunStatus::Paused
    } else {
        WorkflowRunStatus::Active
    }
}

/// A run's status reports its recorded lifecycle evidence before its position: a
/// recorded failure makes it failed; otherwise a recorded cancellation makes it
/// cancelled, whether or not it was paused or stands at a terminal phase; and a run
/// that is paused, not at a terminal phase and neither cancelled nor failed is paused.
pub proof fn lemma_status_reports_recorded_evidence(s: WorkflowRunView)
    ensures
        s.failure is Some ==> run_status(s) == WorkflowRunStatus::Failed,
        s.failure is None && s.cancellation is Some ==> run_status(s) == WorkflowRunStatus::Cancelled,
        s.failure is None && s.cancellation is None && !s.workflow.phases[s.phase].terminal
            && s.pause_reason is Some ==> run_status(s) == WorkflowRunStatus::Paused,
        s.failure is None && s.cancellation is None && !s.workflow.phases[s.phase].terminal
            && s.pause_reason is None ==> run_status(s) == WorkflowRunStatus::Active,
        s.failure is None && s.cancellation is None && s.workflow.phases[s.phase].terminal
            ==> run_status(s) == WorkflowRunStatus::AuthoredTerminal,
{
}

/// Each lifecycle event is read back in the run's status: after a cancellation the
/// run is cancelled and after a failure it is failed, paused or not; after a pause it
/// is paused; after a resume it is no longer paused.
pub proof fn lemma_status_after_lifecycle_event(s: WorkflowRunView, e: WorkflowRunEventView)
    requires
        run_apply(s, e) is Some,
    ensures
        e is Cancelled ==> run_status(run_apply(s, e)->0) == WorkflowRunStatus::Cancelled,
        e is Failed ==> run_status(run_apply(s, e)->0) == WorkflowRunStatus::Failed,
        e is Paused ==> run_status(run_apply(s, e)->0) == WorkflowRunStatus::Paused,
        e is Resumed ==> run_status(run_apply(s, e)->0) != WorkflowRunStatus::Paused,
{
}

/// An accepted advance moves the run to exactly the phase the authored transition
/// resolves to, one revision later, with its lifecycle evidence unchanged.
pub proof fn lemma_advance_moves_to_resolved_target(
    s: WorkflowRunView,
    transition_index: int,
    gate: Option<Seq<char>>,
    target: int,
)
    requires
        run_apply(
            s,
            WorkflowRunEventView::Advanced {
                source_phase_index: s.phase,
                transition_index,
                target_phase_index: target,
                gate_acknowledgement: gate,
            },
        ) is Some,
    ensures
        resolve_move(s.workflow, s.phase, transition_index, gate) == Some(target),
        run_apply(
            s,
            WorkflowRunEventView::Advanced {
                source_phase_index: s.phase,
                transition_index,
                target_phase_index: target,
                gate_acknowledgement: gate,
            },
        ) matches Some(s2) && s2.phase == target && s2.revision == s.revision + 1
            && s2.workflow == s.workflow && s2.cancellation == s.cancellation && s2.failure
            == s.failure && s2.pause_reason == s.pause_reason,
{
}

/// Read-only state projected from one durable workflow-run event stream.
#[derive(Debug, PartialEq, Eq)]
pub struct WorkflowRun {
    id: WorkflowRunId,
    workflow: RegisteredWorkflow,
    current_phase_index: usize,
    revision: u64,
    cancellation: Option<WorkflowRunCancellation>,
    pause_reason: Option<WorkflowRunPauseReason>,
    failure: Option<WorkflowRunFailure>,
    task_id: Option<TaskId>,
}

impl View for WorkflowRun {
    type V = WorkflowRunView;

    closed spec fn view(&self) -> WorkflowRunView {
        WorkflowRunView {
            id: self.id@,
            workflow: self.workflow@,
            phase: self.current_phase_index as int,
            revision: self.revision as int,
            cancellation: opt_view(self.cancellation),
            pause_reason: opt_view(self.pause_reason),
            failure: opt_view(self.failure),
            task_id: opt_view(self.task_id),
        }
    }
}

fn clone_cancellation(o: &Option<WorkflowRunCancellation>) -> (r: Option<WorkflowRunCancellation>)
    ensures
        r == *o,
{
    match o {
        Some(x) => Some(x.clone()),
        None => None,
    }
}

fn clone_pause_reason(o: &Option<WorkflowRunPauseReason>) -> (r: Option<WorkflowRunPauseReason>)
    ensures
        r == *o,
{
    match o {
        Some(x) => Some(x.clone()),
        None => None,
    }
}

fn clone_failure(o: &Option<WorkflowRunFailure>) -> (r: Option<WorkflowRunFailure>)
    ensures
        r == *o,
{
    match o {
        Some(x) => Some(x.clone()),
        None => None,
    }
}

fn clone_task_id(o: &Option<TaskId>) -> (r: Option<TaskId>)
    ensures
        r == *o,
{
    match o {
        Some(x) => Some(x.clone()),
        None => None,
    }
}

impl Clone for WorkflowRun {
    fn clone(&self) -> (r: Self)
        ensures
            r@ == self@,
    {
        proof {
            use_type_invariant(self);
        }
        WorkflowRun {
            id: self.id.clone(),
            workflow: self.workflow.clone(),
            current_phase_index: self.current_phase_index,
            revision: self.revision,
            cancellation: clone_cancellation(&self.cancellation),
            pause_reason: clone_pause_reason(&self.pause_reason),
            failure: clone_failure(&self.failure),
            task_id: clone_task_id(&self.task_id),
        }
    }
}

impl WorkflowRun {
    #[verifier::type_invariant]
    closed spec fn inv(self) -> bool {
        self.current_phase_index < self.workflow@.phases.len()
    }

    pub fn id(&self) -> (r: &WorkflowRunId)
        ensures
            r@ == self@.id,
    {
        &self.id
    }

    pub fn workflow(&self) -> (r: &RegisteredWorkflow)
        ensures
            r@ == self@.workflow,
    {
        &self.workflow
    }

    /// The task immutably attributed when this run started, if any.
    pub fn task_id(&self) -> (r: Option<&TaskId>)
        ensures
            opt_view(r) == self@.task_id,
    {
        match &self.task_id {
            Some(t) => Some(t),
            None => None,
        }
    }

    pub fn current_phase(&self) -> (r: &RegisteredWorkflowPhase)
        ensures
            r@ == self@.workflow.phases[self@.phase],
            0 <= self@.phase < self@.workflow.phases.len(),
    {
        proof {
            use_type_invariant(self);
        }
        assert(self.workflow@.phases[self.current_phase_index as int]
            == self.workflow.phases@[self.current_phase_index as int]@);
        &self.workflow.phases[self.current_phase_index]
    }

    /// Classifies this validated projection without adding lifecycle evidence.
    pub fn status(&self) -> (r: WorkflowRunStatus)
        ensures
            r == run_status(self@),
    {
        if self.is_failed() {
            WorkflowRunStatus::Failed
        } else if self.is_cancelled() {
            WorkflowRunStatus::Cancelled
        } else if self.is_terminal() {
            WorkflowRunStatus::AuthoredTerminal
        } else if self.is_paused() {
            WorkflowRunStatus::Paused
        } else {
            WorkflowRunStatus::Active
        }
    }

    pub fn is_terminal(&self) -> (r: bool)
        ensures
            r == run_terminal(self@),
    {
        self.current_phase().is_terminal()
    }

    pub fn is_cancelled(&self) -> (r: bool)
        ensures
            r == self@.cancellation is Some,
    {
        self.cancellation.is_some()
    }

    pub fn cancellation(&self) -> (r: Option<&WorkflowRunCancellation>)
        ensures
            opt_view(r) == self@.cancellation,
    {
        match &self.cancellation {
            Some(c) => Some(c),
            None => None,
        }
    }

    pub fn is_paused(&self) -> (r: bool)
        ensures
            r == self@.pause_reason is Some,
    {
        self.pause_reason.is_some()
    }

    pub fn pause_reason(&self) -> (r: Option<&WorkflowRunPauseReason>)
        ensures
            opt_view(r) == self@.pause_reason,
    {
        match &self.pause_reason {
            Some(p) => Some(p),
            None => None,
        }
    }

    pub fn is_failed(&self) -> (r: bool)
        ensures
            r == self@.failure is Some,
    {
        self.failure.is_some()
    }

    pub fn failure(&self) -> (r: Option<&WorkflowRunFailure>)
        ensures
            opt_view(r) == self@.failure,
    {
        match &self.failure {
            Some(f) => Some(f),
            None => None,
        }
    }

    /// The exact event-stream revision this state projects.
    pub fn revision(&self) -> (r: u64)
        ensures
            r as int == self@.revision,
    {
        self.revision
    }
}

#[derive(Debug)]
#[non_exhaustive]
pub enum WorkflowRunStoreError {
    EventLog(EventLogError),
    Replay(ReplayError),
    Task(TaskStoreError),
    AlreadyExists { run_id: WorkflowRunId },
    NotFound { run_id: WorkflowRunId },
    InvalidStreamId { stream_id: String },
    AlreadyCancelled { run_id: WorkflowRunId },
    AlreadyFailed { run_id: WorkflowRunId },
    AlreadyPaused { run_id: WorkflowRunId },
    NotPaused { run_id: WorkflowRunId },
    Paused { run_id: WorkflowRunId },
    AlreadyTerminal { run_id: WorkflowRunId },
    InvalidDefinition { source: WorkflowCursorError },
    InvalidTransition { source: WorkflowCursorError },
    ConcurrentModification { expected_revision: u64, current_revision: u64 },
    InvalidHistory { event_count: usize },
    TaskNotFound { task_id: TaskId },
    TaskNotActive { task_id: TaskId, status: TaskStatus },
    TaskChanged { task_id: TaskId },
}

} // verus!

verus! {

/// The serialized form of one workflow transition.
#[derive(Debug)]
pub struct WorkflowTransitionSnapshot {
    pub target: String,
    pub gate: Option<String>,
}

impl View for WorkflowTransitionSnapshot {
    type V = TransitionView;

    open spec fn view(&self) -> TransitionView {
        TransitionView { target: self.target@, gate: opt_view(self.gate) }
    }
}

/// The serialized form of one workflow phase.
#[derive(Debug)]
pub struct WorkflowPhaseSnapshot {
    pub id: String,
    pub terminal: bool,
    pub transitions: Vec<WorkflowTransitionSnapshot>,
}

pub open spec fn transition_snapshots_view(t: Seq<WorkflowTransitionSnapshot>) -> Seq<TransitionView> {
    t.map_values(|x: WorkflowTransitionSnapshot| x@)
}

impl View for WorkflowPhaseSnapshot {
    type V = PhaseView;

    open spec fn view(&self) -> PhaseView {
        PhaseView {
            id: self.id@,
            terminal: self.terminal,
            transitions: transition_snapshots_view(self.transitions@),
        }
    }
}

/// The serialized form of a whole workflow definition, as a started run records it.
#[derive(Debug)]
pub struct WorkflowSnapshot {
    pub id: String,
    pub start: String,
    pub phases: Vec<WorkflowPhaseSnapshot>,
}

pub open spec fn phase_snapshots_view(p: Seq<WorkflowPhaseSnapshot>) -> Seq<PhaseView> {
    p.map_values(|x: WorkflowPhaseSnapshot| x@)
}

impl View for WorkflowSnapshot {
    type V = WorkflowView;

    open spec fn view(&self) -> WorkflowView {
        WorkflowView { id: self.id@, start: self.start@, phases: phase_snapshots_view(self.phases@) }
    }
}

fn clone_gate_text(g: &Option<String>) -> (r: Option<String>)
    ensures
        opt_view(r) == opt_view(*g),
{
    match g {
        Some(s) => Some(s.clone()),
        None => None,
    }
}

impl WorkflowSnapshot {
    /// Records a registered workflow's exact topology.
    pub fn from_workflow(workflow: &RegisteredWorkflow) -> (r: Self)
        ensures
            r@ == workflow@,
    {
        let phases = workflow.phases();
        let mut out: Vec<WorkflowPhaseSnapshot> = Vec::new();
        let mut i: usize = 0;
        while i < phases.len()
            invariant
                i <= phases@.len(),
                phases_view(phases@) == workflow@.phases,
                out@.len() == i,
                forall|k: int| 0 <= k < i ==> #[trigger] out@[k]@ == phases@[k]@,
            decreases phases@.len() - i,
        {
            let phase = &phases[i];
            let transitions = phase.transitions();
            let mut ts: Vec<WorkflowTransitionSnapshot> = Vec::new();
            let mut j: usize = 0;
            while j < transitions.len()
                invariant
                    j <= transitions@.len(),
                    transitions_view(transitions@) == phase@.transitions,
                    ts@.len() == j,
                    forall|k: int| 0 <= k < j ==> #[trigger] ts@[k]@ == transitions@[k]@,
                decreases transitions@.len() - j,
            {
                let t = &transitions[j];
                let target = t.target().to_owned();
                let gate = match t.gate() {
                    Some(g) => Some(g.to_owned()),
                    None => None,
                };
                ts.push(WorkflowTransitionSnapshot { target, gate });
                j = j + 1;
            }
            assert(transition_snapshots_view(ts@) =~= transitions_view(transitions@));
            out.push(
                WorkflowPhaseSnapshot {
                    id: phase.id().to_owned(),
                    terminal: phase.is_terminal(),
                    transitions: ts,
                },
            );
            i = i + 1;
        }
        assert(phase_snapshots_view(out@) =~= phases_view(phases@));
        WorkflowSnapshot {
            id: workflow.id().as_str().to_owned(),
            start: workflow.start().to_owned(),
            phases: out,
        }
    }

    /// Rebuilds the registered workflow; a blank recorded identity is refused with
    /// the identity's validation text.
    pub fn to_workflow(&self) -> (r: Result<RegisteredWorkflow, String>)
        ensures
            r is Err <==> is_blank(self@.id),
            r matches Err(m) ==> m@ == "workflow id must not be blank"@,
            r matches Ok(w) ==> w@ == self@,
    {
        let id = match WorkflowId::new(self.id.clone()) {
            Ok(id) => id,
            Err(e) => {
                return Err(e.to_string());
            },
        };
        let mut phases: Vec<RegisteredWorkflowPhase> = Vec::new();
        let mut i: usize = 0;
        while i < self.phases.len()
            invariant
                i <= self.phases@.len(),
                phases@.len() == i,
                forall|k: int| 0 <= k < i ==> #[trigger] phases@[k]@ == self.phases@[k]@,
            decreases self.phases@.len() - i,
        {
            let phase = &self.phases[i];
            let mut ts: Vec<RegisteredWorkflowTransition> = Vec::new();
            let mut j: usize = 0;
            while j < phase.transitions.len()
                invariant
                    j <= phase.transitions@.len(),
                    ts@.len() == j,
                    forall|k: int| 0 <= k < j ==> #[trigger] ts@[k]@ == phase.transitions@[k]@,
                decreases phase.transitions@.len() - j,
            {
                let t = &phase.transitions[j];
                ts.push(
                    RegisteredWorkflowTransition::new(t.target.clone(), clone_gate_text(&t.gate)),
                );
                j = j + 1;
            }
            assert(transitions_view(ts@) =~= transition_snapshots_view(phase.transitions@));
            phases.push(RegisteredWorkflowPhase::new(phase.id.clone(), phase.terminal, ts));
            i = i + 1;
        }
        assert(phases_view(phases@) =~= phase_snapshots_view(self.phases@));
        Ok(RegisteredWorkflow::new(id, self.start.clone(), phases))
    }
}

/// One persisted workflow-run lifecycle event.
#[derive(Debug)]
#[allow(inconsistent_fields)]
pub enum WorkflowRunEvent {
    Started { workflow: WorkflowSnapshot, task_id: Option<TaskId> },
    Advanced {
        source_phase_index: usize,
        transition_index: usize,
        target_phase_index: usize,
        gate_acknowledgement: Option<String>,
    },
    Cancelled { source_phase_index: usize, reason: WorkflowRunCancellation },
    Paused { source_phase_index: usize, reason: WorkflowRunPauseReason },
    Resumed { source_phase_index: usize, reason: WorkflowRunResumeReason },
    Failed { source_phase_index: usize, failure: WorkflowRunFailure },
}

pub enum WorkflowRunEventView {
    Started { workflow: WorkflowView, task_id: Option<Seq<char>> },
    Advanced {
        source_phase_index: int,
        transition_index: int,
        target_phase_index: int,
        gate_acknowledgement: Option<Seq<char>>,
    },
    Cancelled { source_phase_index: int, reason: Seq<char> },
    Paused { source_phase_index: int, reason: Seq<char> },
    Resumed { source_phase_index: int, reason: Seq<char> },
    Failed { source_phase_index: int, failure: Seq<char> },
}

impl View for WorkflowRunEvent {
    type V = WorkflowRunEventView;

    open spec fn view(&self) -> WorkflowRunEventView {
        match self {
            WorkflowRunEvent::Started { workflow, task_id } => WorkflowRunEventView::Started {
                workflow: workflow@,
                task_id: opt_view(*task_id),
            },
            WorkflowRunEvent::Advanced {
                source_phase_index,
                transition_index,
                target_phase_index,
                gate_acknowledgement,
            } => WorkflowRunEventView::Advanced {
                source_phase_index: *source_phase_index as int,
                transition_index: *transition_index as int,
                target_phase_index: *target_phase_index as int,
                gate_acknowledgement: opt_view(*gate_acknowledgement),
            },
            WorkflowRunEvent::Cancelled { source_phase_index, reason } =>
                WorkflowRunEventView::Cancelled {
                source_phase_index: *source_phase_index as int,
                reason: reason@,
            },
            WorkflowRunEvent::Paused { source_phase_index, reason } => WorkflowRunEventView::Paused {
                source_phase_index: *source_phase_index as int,
                reason: reason@,
            },
            WorkflowRunEvent::Resumed { source_phase_index, reason } =>
                WorkflowRunEventView::Resumed {
                source_phase_index: *source_phase_index as int,
                reason: reason@,
            },
            WorkflowRunEvent::Failed { source_phase_index, failure } => WorkflowRunEventView::Failed {
                source_phase_index: *source_phase_index as int,
                failure: failure@,
            },
        }
    }
}

pub open spec fn run_events_view(events: Seq<WorkflowRunEvent>) -> Seq<WorkflowRunEventView> {
    events.map_values(|e: WorkflowRunEvent| e@)
}

/// The persisted discriminator of each workflow-run event.
pub open spec fn run_event_type(e: WorkflowRunEventView) -> Seq<char> {
    match e {
        WorkflowRunEventView::Started { .. } => "workflow_run.started"@,
        WorkflowRunEventView::Advanced { .. } => "workflow_run.advanced"@,
        WorkflowRunEventView::Cancelled { .. } => "workflow_run.cancelled"@,
        WorkflowRunEventView::Paused { .. } => "workflow_run.paused"@,
        WorkflowRunEventView::Resumed { .. } => "workflow_run.resumed"@,
        WorkflowRunEventView::Failed { .. } => "workflow_run.failed"@,
    }
}

impl WorkflowRunEvent {
    /// The persisted event discriminator.
    pub fn event_type(&self) -> (r: &'static str)
        ensures
            r@ == run_event_type(self@),
    {
        match self {
            WorkflowRunEvent::Started { .. } => "workflow_run.started",
            WorkflowRunEvent::Advanced { .. } => "workflow_run.advanced",
            WorkflowRunEvent::Cancelled { .. } => "workflow_run.cancelled",
            WorkflowRunEvent::Paused { .. } => "workflow_run.paused",
            WorkflowRunEvent::Resumed { .. } => "workflow_run.resumed",
            WorkflowRunEvent::Failed { .. } => "workflow_run.failed",
        }
    }

    /// The payload version: a task-attributed start is version 2, every other event 1.
    pub fn payload_version(&self) -> (r: u32)
        ensures
            r == (if self@ matches WorkflowRunEventView::Started { task_id: Some(_), .. } {
                2u32
            } else {
                1u32
            }),
    {
        match self {
            WorkflowRunEvent::Started { task_id: Some(_), .. } => 2,
            _ => 1,
        }
    }
}

/// The run that a `Started` event creates at revision 1.
pub open spec fn run_started(
    id: Seq<char>,
    workflow: WorkflowView,
    start: int,
    task_id: Option<Seq<char>>,
) -> WorkflowRunView {
    WorkflowRunView {
        id,
        workflow,
        phase: start,
        revision: 1,
        cancellation: None,
        pause_reason: None,
        failure: None,
        task_id,
    }
}

/// How one later event changes a run, or `None` when it cannot follow: nothing
/// follows cancellation or failure, and every event must name the current phase.
pub open spec fn run_apply(s: WorkflowRunView, e: WorkflowRunEventView) -> Option<WorkflowRunView> {
    if s.cancellation is Some || s.failure is Some {
        None
    } else {
        match e {
            WorkflowRunEventView::Advanced {
                source_phase_index,
                transition_index,
                target_phase_index,
                gate_acknowledgement,
            } => if s.pause_reason is None && source_phase_index == s.phase && resolve_move(
                s.workflow,
                s.phase,
                transition_index,
                gate_acknowledgement,
            ) == Some(target_phase_index) {
                Some(WorkflowRunView { phase: target_phase_index, revision: s.revision + 1, ..s })
            } else {
                None
            },
            WorkflowRunEventView::Cancelled { source_phase_index, reason } => if source_phase_index
                == s.phase && !run_terminal(s) {
                Some(
                    WorkflowRunView { cancellation: Some(reason), revision: s.revision + 1, ..s },
                )
            } else {
                None
            },
            WorkflowRunEventView::Paused { source_phase_index, reason } => if source_phase_index
                == s.phase && !run_terminal(s) && s.pause_reason is None {
                Some(
                    WorkflowRunView { pause_reason: Some(reason), revision: s.revision + 1, ..s },
                )
            } else {
                None
            },
            WorkflowRunEventView::Resumed { source_phase_index, .. } => if source_phase_index
                == s.phase && s.pause_reason is Some {
                Some(WorkflowRunView { pause_reason: None, revision: s.revision + 1, ..s })
            } else {
                None
            },
            WorkflowRunEventView::Failed { source_phase_index, failure } => if source_phase_index
                == s.phase && !run_terminal(s) {
                Some(WorkflowRunView { failure: Some(failure), revision: s.revision + 1, ..s })
            } else {
                None
            },
            WorkflowRunEventView::Started { .. } => None,
        }
    }
}

pub open spec fn run_step() -> spec_fn(WorkflowRunView, WorkflowRunEventView) -> Option<
    WorkflowRunView,
> {
    |s: WorkflowRunView, e: WorkflowRunEventView| run_apply(s, e)
}

/// The diagnostic for a recorded workflow whose start phase cannot be resolved.
pub open spec fn start_failure_text(w: WorkflowView) -> Seq<char> {
    if forall|i: int| !#[trigger] phase_has_id(w.phases, w.start, i) {
        "workflow start phase "@ + w.start + " was not found"@
    } else {
        "workflow start phase "@ + w.start + " is ambiguous"@
    }
}

/// What one workflow-run stream projects to.
pub enum WorkflowRunProjection {
    Empty,
    InvalidHistory,
    Malformed(Seq<char>),
    Found(WorkflowRunView),
}

/// The projection of a whole workflow-run stream: it must open with exactly one
/// `Started` event whose recorded workflow is valid, and every later event must follow.
pub open spec fn project_run(id: Seq<char>, events: Seq<WorkflowRunEventView>) -> WorkflowRunProjection {
    if events.len() == 0 {
        WorkflowRunProjection::Empty
    } else {
        match events[0] {
            WorkflowRunEventView::Started { workflow, task_id } => if is_blank(workflow.id) {
                WorkflowRunProjection::Malformed("workflow id must not be blank"@)
            } else {
                match start_index(workflow) {
                    None => WorkflowRunProjection::Malformed(start_failure_text(workflow)),
                    Some(k) => match replay(
                        run_step(),
                        run_started(id, workflow, k, task_id),
                        events.subrange(1, events.len() as int),
                    ) {
                        Some(s) => WorkflowRunProjection::Found(s),
                        None => WorkflowRunProjection::InvalidHistory,
                    },
                }
            },
            _ => WorkflowRunProjection::InvalidHistory,
        }
    }
}

/// Whether every event of a history names phases inside the workflow.
pub open spec fn event_fits(w: WorkflowView, e: WorkflowRunEventView) -> bool {
    match e {
        WorkflowRunEventView::Started { .. } => true,
        WorkflowRunEventView::Advanced { source_phase_index, target_phase_index, .. } => 0
            <= source_phase_index < w.phases.len() && 0 <= target_phase_index < w.phases.len(),
        WorkflowRunEventView::Cancelled { source_phase_index, .. } => 0 <= source_phase_index
            < w.phases.len(),
        WorkflowRunEventView::Paused { source_phase_index, .. } => 0 <= source_phase_index
            < w.phases.len(),
        WorkflowRunEventView::Resumed { source_phase_index, .. } => 0 <= source_phase_index
            < w.phases.len(),
        WorkflowRunEventView::Failed { source_phase_index, .. } => 0 <= source_phase_index
            < w.phases.len(),
    }
}

/// A history that the run's own workflow can describe: it opens with a start whose
/// phase resolves, and each event names phases of the workflow.
pub open spec fn history_fits(w: WorkflowView, events: Seq<WorkflowRunEventView>) -> bool {
    &&& events.len() > 0
    &&& events[0] is Started
    &&& start_index(w) is Some
    &&& forall|j: int| 0 <= j < events.len() ==> event_fits(w, #[trigger] events[j])
}

fn gate_text(g: &Option<String>) -> (r: Option<&str>)
    ensures
        opt_view(r) == opt_view(*g),
{
    match g {
        Some(s) => Some(s.as_str()),
        None => None,
    }
}

} // verus!

verus! {

/// Projects one replayed workflow-run stream into its validated run.
#[verifier::loop_isolation(false)]
pub fn project_workflow_run(id: &WorkflowRunId, events: &Vec<WorkflowRunEvent>) -> (r: Result<
    Option<WorkflowRun>,
    WorkflowRunStoreError,
>)
    ensures
        match project_run(id@, run_events_view(events@)) {
            WorkflowRunProjection::Empty => r matches Ok(None),
            WorkflowRunProjection::InvalidHistory => r matches Err(
                WorkflowRunStoreError::InvalidHistory { event_count },
            ) && event_count == events@.len(),
            WorkflowRunProjection::Malformed(m) => r matches Err(
                WorkflowRunStoreError::Replay(ReplayError::MalformedPayload { stream_version, message }),
            ) && stream_version == 1 && message@ == m,
            WorkflowRunProjection::Found(s) => r matches Ok(Some(run)) && run@ == s && run@.revision
                == events@.len() && history_fits(s.workflow, run_events_view(events@)),
        },
{
    let ghost evs = run_events_view(events@);
    let n = events.len();
    if n == 0 {
        return Ok(None);
    }
    assert(evs[0] == events@[0]@);
    let (snapshot, task_id) = match &events[0] {
        WorkflowRunEvent::Started { workflow, task_id } => (workflow, task_id),
        _ => {
            return Err(WorkflowRunStoreError::InvalidHistory { event_count: n });
        },
    };
    let workflow = match snapshot.to_workflow() {
        Ok(w) => w,
        Err(message) => {
            return Err(
                WorkflowRunStoreError::Replay(
                    ReplayError::MalformedPayload { stream_version: 1, message },
                ),
            );
        },
    };
    let start = match start_phase_index(&workflow) {
        Ok(k) => k,
        Err(e) => {
            let message = e.to_string();
            return Err(
                WorkflowRunStoreError::Replay(
                    ReplayError::MalformedPayload { stream_version: 1, message },
                ),
            );
        },
    };
    let ghost w0 = workflow@;
    let ghost t0 = opt_view(*task_id);
    let ghost s0 = run_started(id@, w0, start as int, t0);
    let ghost rest = evs.subrange(1, n as int);
    let mut run = WorkflowRun {
        id: id.clone(),
        workflow,
        current_phase_index: start,
        revision: 1,
        cancellation: None,
        pause_reason: None,
        failure: None,
        task_id: clone_task_id(task_id),
    };
    assert(rest.subrange(0, 0) =~= Seq::<WorkflowRunEventView>::empty());
    let mut i: usize = 1;
    while i < n
        invariant
            1 <= i <= n,
            n == events@.len(),
            evs == run_events_view(events@),
            rest == evs.subrange(1, n as int),
            replay(run_step(), s0, rest.subrange(0, i - 1)) == Some(run@),
            run@.workflow == w0,
            run@.revision == i,
            forall|j: int| 0 <= j < i ==> event_fits(w0, #[trigger] evs[j]),
        decreases n - i,
    {
        proof {
            use_type_invariant(&run);
            lemma_replay_step(run_step(), s0, rest, i - 1);
            assert(rest[i - 1] == events@[i as int]@);
        }
        if run.is_cancelled() || run.is_failed() {
            proof {
                lemma_replay_rejected_prefix(run_step(), s0, rest, i as int);
            }
            return Err(WorkflowRunStoreError::InvalidHistory { event_count: n });
        }
        match &events[i] {
            WorkflowRunEvent::Advanced {
                source_phase_index,
                transition_index,
                target_phase_index,
                gate_acknowledgement,
            } => {
                if run.is_paused() || *source_phase_index != run.current_phase_index {
                    proof {
                        lemma_replay_rejected_prefix(run_step(), s0, rest, i as int);
                    }
                    return Err(WorkflowRunStoreError::InvalidHistory { event_count: n });
                }
                let resolved = resolve_transition(
                    &run.workflow,
                    run.current_phase_index,
                    *transition_index,
                    gate_text(gate_acknowledgement),
                );
                let matches_target = match resolved {
                    Ok(k) => k == *target_phase_index,
                    Err(_) => false,
                };
                if !matches_target {
                    proof {
                        lemma_replay_rejected_prefix(run_step(), s0, rest, i as int);
                    }
                    return Err(WorkflowRunStoreError::InvalidHistory { event_count: n });
                }
                run.current_phase_index = *target_phase_index;
            },
            WorkflowRunEvent::Cancelled { source_phase_index, reason } => {
                if *source_phase_index != run.current_phase_index || run.is_terminal() {
                    proof {
                        lemma_replay_rejected_prefix(run_step(), s0, rest, i as int);
                    }
                    return Err(WorkflowRunStoreError::InvalidHistory { event_count: n });
                }
                run.cancellation = Some(reason.clone());
            },
            WorkflowRunEvent::Paused { source_phase_index, reason } => {
                if *source_phase_index != run.current_phase_index || run.is_terminal()
                    || run.is_paused() {
                    proof {
                        lemma_replay_rejected_prefix(run_step(), s0, rest, i as int);
                    }
                    return Err(WorkflowRunStoreError::InvalidHistory { event_count: n });
                }
                run.pause_reason = Some(reason.clone());
            },
            WorkflowRunEvent::Resumed { source_phase_index, .. } => {
                if *source_phase_index != run.current_phase_index || !run.is_paused() {
                    proof {
                        lemma_replay_rejected_prefix(run_step(), s0, rest, i as int);
                    }
                    return Err(WorkflowRunStoreError::InvalidHistory { event_count: n });
                }
                run.pause_reason = None;
            },
            WorkflowRunEvent::Failed { source_phase_index, failure } => {
                if *source_phase_index != run.current_phase_index || run.is_terminal() {
                    proof {
                        lemma_replay_rejected_prefix(run_step(), s0, rest, i as int);
                    }
                    return Err(WorkflowRunStoreError::InvalidHistory { event_count: n });
                }
                run.failure = Some(failure.clone());
            },
            WorkflowRunEvent::Started { .. } => {
                proof {
                    lemma_replay_rejected_prefix(run_step(), s0, rest, i as int);
                }
                return Err(WorkflowRunStoreError::InvalidHistory { event_count: n });
            },
        }
        run.revision = run.revision + 1;
        i = i + 1;
    }
    assert(rest.subrange(0, n - 1) =~= rest);
    Ok(Some(run))
}

/// The identity of a workflow's resolved start phase.
pub open spec fn start_phase_id(w: WorkflowView) -> Seq<char> {
    match start_index(w) {
        Some(k) => w.phases[k].id,
        None => Seq::empty(),
    }
}

/// The semantic lifecycle event that one persisted event records, named by the
/// run's own workflow.
pub open spec fn history_event(w: WorkflowView, e: WorkflowRunEventView) -> WorkflowRunHistoryEventView {
    match e {
        WorkflowRunEventView::Started { task_id, .. } => match task_id {
            Some(t) => WorkflowRunHistoryEventView::TaskStarted {
                workflow_id: w.id,
                phase_id: start_phase_id(w),
                task_id: t,
            },
            None => WorkflowRunHistoryEventView::Started {
                workflow_id: w.id,
                phase_id: start_phase_id(w),
            },
        },
        WorkflowRunEventView::Advanced {
            source_phase_index,
            transition_index,
            target_phase_index,
            gate_acknowledgement,
        } => WorkflowRunHistoryEventView::Advanced {
            source_phase_id: w.phases[source_phase_index].id,
            target_phase_id: w.phases[target_phase_index].id,
            transition_index,
            gate_acknowledgement,
        },
        WorkflowRunEventView::Cancelled { source_phase_index, reason } =>
            WorkflowRunHistoryEventView::Cancelled {
            phase_id: w.phases[source_phase_index].id,
            reason,
        },
        WorkflowRunEventView::Paused { source_phase_index, reason } =>
            WorkflowRunHistoryEventView::Paused { phase_id: w.phases[source_phase_index].id, reason },
        WorkflowRunEventView::Resumed { source_phase_index, reason } =>
            WorkflowRunHistoryEventView::Resumed { phase_id: w.phases[source_phase_index].id, reason },
        WorkflowRunEventView::Failed { source_phase_index, failure } =>
            WorkflowRunHistoryEventView::Failed {
            phase_id: w.phases[source_phase_index].id,
            failure,
        },
    }
}

/// The history entry at zero-based position `i` of a history.
pub open spec fn history_entry(w: WorkflowView, i: int, e: WorkflowRunEventView) -> WorkflowRunHistoryEntryView {
    WorkflowRunHistoryEntryView { revision: i + 1, event: history_event(w, e) }
}

fn phase_id_at(workflow: &RegisteredWorkflow, index: usize) -> (r: String)
    requires
        index < workflow@.phases.len(),
    ensures
        r@ == workflow@.phases[index as int].id,
{
    let phases = workflow.phases();
    assert(phases_view(phases@)[index as int] == phases@[index as int]@);
    phases[index].id().to_owned()
}

/// Names each persisted event of a validated run by its workflow's phases, in
/// revision order.
pub fn project_workflow_run_history(run: &WorkflowRun, events: &Vec<WorkflowRunEvent>) -> (r: Vec<
    WorkflowRunHistoryEntry,
>)
    requires
        history_fits(run@.workflow, run_events_view(events@)),
    ensures
        r@.len() == events@.len(),
        forall|i: int|
            0 <= i < events@.len() ==> #[trigger] r@[i]@ == history_entry(
                run@.workflow,
                i,
                events@[i]@,
            ),
{
    let ghost w = run@.workflow;
    let ghost evs = run_events_view(events@);
    let workflow = run.workflow();
    let start_id = match start_phase_index(workflow) {
        Ok(k) => phase_id_at(workflow, k),
        Err(_) => {
            assert(false);
            String::new()
        },
    };
    let mut out: Vec<WorkflowRunHistoryEntry> = Vec::new();
    let mut i: usize = 0;
    while i < events.len()
        invariant
            i <= events@.len(),
            w == run@.workflow,
            workflow@ == w,
            evs == run_events_view(events@),
            history_fits(w, evs),
            start_id@ == start_phase_id(w),
            out@.len() == i,
            forall|k: int| 0 <= k < i ==> #[trigger] out@[k]@ == history_entry(w, k, events@[k]@),
        decreases events@.len() - i,
    {
        assert(evs[i as int] == events@[i as int]@);
        assert(event_fits(w, evs[i as int]));
        let event = match &events[i] {
            WorkflowRunEvent::Started { task_id, .. } => match task_id {
                Some(t) => WorkflowRunHistoryEvent::TaskStarted {
                    workflow_id: workflow.id().clone(),
                    phase_id: start_id.clone(),
                    task_id: t.clone(),
                },
                None => WorkflowRunHistoryEvent::Started {
                    workflow_id: workflow.id().clone(),
                    phase_id: start_id.clone(),
                },
            },
            WorkflowRunEvent::Advanced {
                source_phase_index,
                transition_index,
                target_phase_index,
                gate_acknowledgement,
            } => WorkflowRunHistoryEvent::Advanced {
                source_phase_id: phase_id_at(workflow, *source_phase_index),
                target_phase_id: phase_id_at(workflow, *target_phase_index),
                transition_index: *transition_index,
                gate_acknowledgement: clone_gate_text(gate_acknowledgement),
            },
            WorkflowRunEvent::Cancelled { source_phase_index, reason } =>
                WorkflowRunHistoryEvent::Cancelled {
                phase_id: phase_id_at(workflow, *source_phase_index),
                reason: reason.clone(),
            },
            WorkflowRunEvent::Paused { source_phase_index, reason } =>
                WorkflowRunHistoryEvent::Paused {
                phase_id: phase_id_at(workflow, *source_phase_index),
                reason: reason.clone(),
            },
            WorkflowRunEvent::Resumed { source_phase_index, reason } =>
                WorkflowRunHistoryEvent::Resumed {
                phase_id: phase_id_at(workflow, *source_phase_index),
                reason: reason.clone(),
            },
            WorkflowRunEvent::Failed { source_phase_index, failure } =>
                WorkflowRunHistoryEvent::Failed {
                phase_id: phase_id_at(workflow, *source_phase_index),
                failure: failure.clone(),
            },
        };
        out.push(WorkflowRunHistoryEntry { revision: (i + 1) as u64, event });
        i = i + 1;
    }
    out
}

/// Replays one run's stream and names its validated lifecycle history; `None`
/// for a stream that holds no run.
pub fn workflow_run_history(id: &WorkflowRunId, events: &Vec<WorkflowRunEvent>) -> (r: Result<
    Option<Vec<WorkflowRunHistoryEntry>>,
    WorkflowRunStoreError,
>)
    ensures
        match project_run(id@, run_events_view(events@)) {
            WorkflowRunProjection::Empty => r matches Ok(None),
            WorkflowRunProjection::InvalidHistory => r matches Err(
                WorkflowRunStoreError::InvalidHistory { event_count },
            ) && event_count == events@.len(),
            WorkflowRunProjection::Malformed(m) => r matches Err(
                WorkflowRunStoreError::Replay(ReplayError::MalformedPayload { stream_version, message }),
            ) && stream_version == 1 && message@ == m,
            WorkflowRunProjection::Found(s) => r matches Ok(Some(h)) && h@.len() == events@.len()
                && forall|i: int|
                0 <= i < events@.len() ==> #[trigger] h@[i]@ == history_entry(
                    s.workflow,
                    i,
                    events@[i]@,
                ),
        },
{
    match project_workflow_run(id, events) {
        Ok(Some(run)) => Ok(Some(project_workflow_run_history(&run, events))),
        Ok(None) => Ok(None),
        Err(e) => Err(e),
    }
}

} // verus!

verus! {

/// One decided workflow-run change: the event to append, the stream version it
/// must follow, and the changed run, still at the revision it was planned from.
pub struct WorkflowRunChange {
    pub event: WorkflowRunEvent,
    pub expected: ExpectedVersion,
    pub pending: WorkflowRun,
}

impl WorkflowRunChange {
    /// The changed run at the revision that the event log assigned to the event.
    pub fn committed(self, revision: u64) -> (r: WorkflowRun)
        ensures
            r@ == (WorkflowRunView { revision: revision as int, ..self.pending@ }),
    {
        let mut run = self.pending;
        proof {
            use_type_invariant(&run);
        }
        run.revision = revision;
        run
    }
}

/// Whether a planned change follows the loaded run exactly: it expects the run's
/// revision, and applying its event to the run gives the planned run one revision on.
pub open spec fn run_change_follows(loaded: WorkflowRunView, change: WorkflowRunChange) -> bool {
    &&& change.expected == ExpectedVersion::Exact(loaded.revision as u64)
    &&& change.pending@.revision == loaded.revision
    &&& run_apply(loaded, change.event@) == Some(
        WorkflowRunView { revision: loaded.revision + 1, ..change.pending@ },
    )
}

/// Resolves a definition's start phase for a new run.
pub fn run_definition_start(workflow: &RegisteredWorkflow) -> (r: Result<usize, WorkflowRunStoreError>)
    ensures
        r is Err <==> start_index(workflow@) is None,
        r matches Ok(k) ==> start_index(workflow@) == Some(k as int),
        r matches Err(e) ==> (e matches WorkflowRunStoreError::InvalidDefinition { source }
            && cursor_error_text(source) == start_failure_text(workflow@)),
{
    match start_phase_index(workflow) {
        Ok(k) => Ok(k),
        Err(source) => Err(WorkflowRunStoreError::InvalidDefinition { source }),
    }
}

/// Plans the creation of a new run stream, optionally attributed to a task.
pub fn plan_run_start(id: WorkflowRunId, workflow: &RegisteredWorkflow, task_id: Option<TaskId>) -> (r:
    Result<WorkflowRunChange, WorkflowRunStoreError>)
    ensures
        r is Err <==> start_index(workflow@) is None,
        r matches Err(e) ==> (e matches WorkflowRunStoreError::InvalidDefinition { source }
            && cursor_error_text(source) == start_failure_text(workflow@)),
        r matches Ok(c) ==> {
            &&& c.event@ == (WorkflowRunEventView::Started {
                workflow: workflow@,
                task_id: opt_view(task_id),
            })
            &&& c.expected == ExpectedVersion::NoStream
            &&& start_index(workflow@) == Some(c.pending@.phase)
            &&& c.pending@ == run_started(id@, workflow@, c.pending@.phase, opt_view(task_id))
            &&& !is_blank(workflow@.id)
        },
{
    let start = match run_definition_start(workflow) {
        Ok(k) => k,
        Err(e) => {
            return Err(e);
        },
    };
    let _ = workflow.id().as_str();
    let event = WorkflowRunEvent::Started {
        workflow: WorkflowSnapshot::from_workflow(workflow),
        task_id: clone_task_id(&task_id),
    };
    let pending = WorkflowRun {
        id,
        workflow: workflow.clone(),
        current_phase_index: start,
        revision: 1,
        cancellation: None,
        pause_reason: None,
        failure: None,
        task_id,
    };
    Ok(WorkflowRunChange { event, expected: ExpectedVersion::NoStream, pending })
}

/// Maps a failed start append: an existing run stream means the run exists, and a
/// moved attributed task means the task changed.
pub fn run_start_failure(id: WorkflowRunId, task_id: Option<&TaskId>, error: EventLogError) -> (r:
    WorkflowRunStoreError)
    ensures
        (error matches EventLogError::WrongExpectedVersion {
            expected: ExpectedVersion::NoStream,
            current: Some(_),
        }) ==> (r matches WorkflowRunStoreError::AlreadyExists { run_id } && run_id@ == id@),
        (error matches EventLogError::WrongExpectedVersion {
            expected: ExpectedVersion::Exact(_),
            ..
        }) && task_id is Some ==> (r matches WorkflowRunStoreError::TaskChanged { task_id: t }
            && Some(t@) == opt_view(task_id)),
        !(error matches EventLogError::WrongExpectedVersion {
            expected: ExpectedVersion::NoStream,
            current: Some(_),
        }) && !((error matches EventLogError::WrongExpectedVersion {
            expected: ExpectedVersion::Exact(_),
            ..
        }) && task_id is Some) ==> (r matches WorkflowRunStoreError::EventLog(x) && x == error),
{
    match error {
        EventLogError::WrongExpectedVersion {
            expected: ExpectedVersion::NoStream,
            current: Some(_),
        } => WorkflowRunStoreError::AlreadyExists { run_id: id },
        EventLogError::WrongExpectedVersion { expected: ExpectedVersion::Exact(v), current } => {
            match task_id {
                Some(t) => WorkflowRunStoreError::TaskChanged { task_id: t.clone() },
                None => WorkflowRunStoreError::EventLog(
                    EventLogError::WrongExpectedVersion {
                        expected: ExpectedVersion::Exact(v),
                        current,
                    },
                ),
            }
        },
        error => WorkflowRunStoreError::EventLog(error),
    }
}

/// A planned task-attributed start: the run change and the exact task-stream
/// version the append must still find.
pub struct TaskAttributedStart {
    pub change: WorkflowRunChange,
    pub task_stream: StreamId,
    pub task_version: u64,
}

/// Plans starting a run attributed to an existing active task.
pub fn plan_run_start_for_task(
    id: WorkflowRunId,
    task_id: &TaskId,
    workflow: &RegisteredWorkflow,
    run_exists: bool,
    task: Option<VersionedTask>,
) -> (r: Result<TaskAttributedStart, WorkflowRunStoreError>)
    ensures
        start_index(workflow@) is None ==> (r matches Err(
            WorkflowRunStoreError::InvalidDefinition { source },
        ) && cursor_error_text(source) == start_failure_text(workflow@)),
        start_index(workflow@) is Some && run_exists ==> (r matches Err(
            WorkflowRunStoreError::AlreadyExists { run_id },
        ) && run_id@ == id@),
        start_index(workflow@) is Some && !run_exists && task is None ==> (r matches Err(
            WorkflowRunStoreError::TaskNotFound { task_id: t },
        ) && t@ == task_id@),
        (start_index(workflow@) is Some && !run_exists) ==> (task matches Some(v)
            ==> (v.task@.status != TaskStatus::Active ==> (r matches Err(
            WorkflowRunStoreError::TaskNotActive { task_id: t, status },
        ) && t@ == task_id@ && status == v.task@.status))),
        (start_index(workflow@) is Some && !run_exists) ==> (task matches Some(v)
            ==> (v.task@.status == TaskStatus::Active ==> (r matches Ok(s) && {
            &&& s.task_version == v.stream_version
            &&& s.task_stream@ == "task:"@ + task_id@
            &&& s.change.event@ == (WorkflowRunEventView::Started {
                workflow: workflow@,
                task_id: Some(task_id@),
            })
            &&& s.change.expected == ExpectedVersion::NoStream
            &&& start_index(workflow@) == Some(s.change.pending@.phase)
            &&& s.change.pending@ == run_started(
                id@,
                workflow@,
                s.change.pending@.phase,
                Some(task_id@),
            )
            &&& !is_blank(workflow@.id)
        }))),
{
    if let Err(e) = run_definition_start(workflow) {
        return Err(e);
    }
    if run_exists {
        return Err(WorkflowRunStoreError::AlreadyExists { run_id: id });
    }
    let v = match task {
        Some(v) => v,
        None => {
            return Err(WorkflowRunStoreError::TaskNotFound { task_id: task_id.clone() });
        },
    };
    let status = v.task.status();
    if status != TaskStatus::Active {
        return Err(WorkflowRunStoreError::TaskNotActive { task_id: task_id.clone(), status });
    }
    let change = match plan_run_start(id, workflow, Some(task_id.clone())) {
        Ok(c) => c,
        Err(e) => {
            return Err(e);
        },
    };
    Ok(
        TaskAttributedStart {
            change,
            task_stream: task_stream(task_id),
            task_version: v.stream_version,
        },
    )
}

/// Maps a failed append of a later run event: a concurrent writer is reported
/// with the revision it left.
pub fn run_append_failure(expected_revision: u64, error: EventLogError) -> (r: WorkflowRunStoreError)
    ensures
        error matches EventLogError::WrongExpectedVersion { current: Some(c), .. } ==> (r matches WorkflowRunStoreError::ConcurrentModification {
            expected_revision: e,
            current_revision: c2,
        } && e == expected_revision && c2 == c),
        !(error matches EventLogError::WrongExpectedVersion { current: Some(_), .. })
            ==> (r matches WorkflowRunStoreError::EventLog(x) && x == error),
{
    match error {
        EventLogError::WrongExpectedVersion { current: Some(current_revision), .. } =>
            WorkflowRunStoreError::ConcurrentModification { expected_revision, current_revision },
        error => WorkflowRunStoreError::EventLog(error),
    }
}

/// The refusal every stale expectation meets.
fn stale(expected_revision: u64, run: &WorkflowRun) -> (r: WorkflowRunStoreError)
    ensures
        r matches WorkflowRunStoreError::ConcurrentModification {
            expected_revision: e,
            current_revision: c,
        } && e == expected_revision && c == run@.revision,
{
    WorkflowRunStoreError::ConcurrentModification {
        expected_revision,
        current_revision: run.revision,
    }
}

/// Plans advancing one exact projected revision through an authored transition.
///
/// A stale revision fails without retry so phase-relative intent is never
/// reinterpreted.
pub fn plan_run_advance(
    loaded: Option<WorkflowRun>,
    id: &WorkflowRunId,
    expected_revision: u64,
    transition_index: usize,
    gate_acknowledgement: Option<&str>,
) -> (r: Result<WorkflowRunChange, WorkflowRunStoreError>)
    ensures
        match loaded {
            None => r matches Err(WorkflowRunStoreError::NotFound { run_id }) && run_id@ == id@,
            Some(run) => if run@.revision != expected_revision {
                r matches Err(
                    WorkflowRunStoreError::ConcurrentModification {
                        expected_revision: e,
                        current_revision: c,
                    },
                ) && e == expected_revision && c == run@.revision
            } else if run@.cancellation is Some {
                r matches Err(WorkflowRunStoreError::AlreadyCancelled { run_id }) && run_id@ == id@
            } else if run@.failure is Some {
                r matches Err(WorkflowRunStoreError::AlreadyFailed { run_id }) && run_id@ == id@
            } else if run@.pause_reason is Some {
                r matches Err(WorkflowRunStoreError::Paused { run_id }) && run_id@ == id@
            } else {
                match resolve_move(
                    run@.workflow,
                    run@.phase,
                    transition_index as int,
                    opt_view(gate_acknowledgement),
                ) {
                    None => r matches Err(WorkflowRunStoreError::InvalidTransition { source })
                        && move_refusal(
                        run@.workflow,
                        run@.phase,
                        transition_index,
                        opt_view(gate_acknowledgement),
                        source,
                    ),
                    Some(k) => r matches Ok(c) && run_change_follows(run@, c) && c.event@
                        == (WorkflowRunEventView::Advanced {
                        source_phase_index: run@.phase,
                        transition_index: transition_index as int,
                        target_phase_index: k,
                        gate_acknowledgement: opt_view(gate_acknowledgement),
                    }),
                }
            },
        },
{
    let run = match loaded {
        Some(run) => run,
        None => {
            return Err(WorkflowRunStoreError::NotFound { run_id: id.clone() });
        },
    };
    proof {
        use_type_invariant(&run);
    }
    if run.revision != expected_revision {
        return Err(stale(expected_revision, &run));
    }
    if run.is_cancelled() {
        return Err(WorkflowRunStoreError::AlreadyCancelled { run_id: id.clone() });
    }
    if run.is_failed() {
        return Err(WorkflowRunStoreError::AlreadyFailed { run_id: id.clone() });
    }
    if run.is_paused() {
        return Err(WorkflowRunStoreError::Paused { run_id: id.clone() });
    }
    let source = run.current_phase_index;
    let target = match resolve_transition(
        &run.workflow,
        source,
        transition_index,
        gate_acknowledgement,
    ) {
        Ok(k) => k,
        Err(source) => {
            return Err(WorkflowRunStoreError::InvalidTransition { source });
        },
    };
    let event = WorkflowRunEvent::Advanced {
        source_phase_index: source,
        transition_index,
        target_phase_index: target,
        gate_acknowledgement: match gate_acknowledgement {
            Some(g) => Some(g.to_owned()),
            None => None,
        },
    };
    let mut pending = run;
    pending.current_phase_index = target;
    Ok(WorkflowRunChange { event, expected: ExpectedVersion::Exact(expected_revision), pending })
}

/// Plans pausing one exact projected revision without changing its phase or topology.
pub fn plan_run_pause(
    loaded: Option<WorkflowRun>,
    id: &WorkflowRunId,
    expected_revision: u64,
    reason: WorkflowRunPauseReason,
) -> (r: Result<WorkflowRunChange, WorkflowRunStoreError>)
    ensures
        match loaded {
            None => r matches Err(WorkflowRunStoreError::NotFound { run_id }) && run_id@ == id@,
            Some(run) => if run@.revision != expected_revision {
                r matches Err(
                    WorkflowRunStoreError::ConcurrentModification {
                        expected_revision: e,
                        current_revision: c,
                    },
                ) && e == expected_revision && c == run@.revision
            } else if run@.cancellation is Some {
                r matches Err(WorkflowRunStoreError::AlreadyCancelled { run_id }) && run_id@ == id@
            } else if run@.failure is Some {
                r matches Err(WorkflowRunStoreError::AlreadyFailed { run_id }) && run_id@ == id@
            } else if run_terminal(run@) {
                r matches Err(WorkflowRunStoreError::AlreadyTerminal { run_id }) && run_id@ == id@
            } else if run@.pause_reason is Some {
                r matches Err(WorkflowRunStoreError::AlreadyPaused { run_id }) && run_id@ == id@
            } else {
                r matches Ok(c) && run_change_follows(run@, c) && c.event@
                    == (WorkflowRunEventView::Paused {
                    source_phase_index: run@.phase,
                    reason: reason@,
                }) && c.pending@.phase == run@.phase && c.pending@.workflow == run@.workflow
            },
        },
{
    let run = match loaded {
        Some(run) => run,
        None => {
            return Err(WorkflowRunStoreError::NotFound { run_id: id.clone() });
        },
    };
    proof {
        use_type_invariant(&run);
    }
    if run.revision != expected_revision {
        return Err(stale(expected_revision, &run));
    }
    if run.is_cancelled() {
        return Err(WorkflowRunStoreError::AlreadyCancelled { run_id: id.clone() });
    }
    if run.is_failed() {
        return Err(WorkflowRunStoreError::AlreadyFailed { run_id: id.clone() });
    }
    if run.is_terminal() {
        return Err(WorkflowRunStoreError::AlreadyTerminal { run_id: id.clone() });
    }
    if run.is_paused() {
        return Err(WorkflowRunStoreError::AlreadyPaused { run_id: id.clone() });
    }
    let event = WorkflowRunEvent::Paused {
        source_phase_index: run.current_phase_index,
        reason: reason.clone(),
    };
    let mut pending = run;
    pending.pause_reason = Some(reason);
    Ok(WorkflowRunChange { event, expected: ExpectedVersion::Exact(expected_revision), pending })
}

/// Plans resuming one exact projected revision without changing its phase or topology.
pub fn plan_run_resume(
    loaded: Option<WorkflowRun>,
    id: &WorkflowRunId,
    expected_revision: u64,
    reason: WorkflowRunResumeReason,
) -> (r: Result<WorkflowRunChange, WorkflowRunStoreError>)
    ensures
        match loaded {
            None => r matches Err(WorkflowRunStoreError::NotFound { run_id }) && run_id@ == id@,
            Some(run) => if run@.revision != expected_revision {
                r matches Err(
                    WorkflowRunStoreError::ConcurrentModification {
                        expected_revision: e,
                        current_revision: c,
                    },
                ) && e == expected_revision && c == run@.revision
            } else if run@.cancellation is Some {
                r matches Err(WorkflowRunStoreError::AlreadyCancelled { run_id }) && run_id@ == id@
            } else if run@.failure is Some {
                r matches Err(WorkflowRunStoreError::AlreadyFailed { run_id }) && run_id@ == id@
            } else if run@.pause_reason is None {
                r matches Err(WorkflowRunStoreError::NotPaused { run_id }) && run_id@ == id@
            } else {
                r matches Ok(c) && run_change_follows(run@, c) && c.event@
                    == (WorkflowRunEventView::Resumed {
                    source_phase_index: run@.phase,
                    reason: reason@,
                }) && c.pending@.phase == run@.phase && c.pending@.workflow == run@.workflow
            },
        },
{
    let run = match loaded {
        Some(run) => run,
        None => {
            return Err(WorkflowRunStoreError::NotFound { run_id: id.clone() });
        },
    };
    proof {
        use_type_invariant(&run);
    }
    if run.revision != expected_revision {
        return Err(stale(expected_revision, &run));
    }
    if run.is_cancelled() {
        return Err(WorkflowRunStoreError::AlreadyCancelled { run_id: id.clone() });
    }
    if run.is_failed() {
        return Err(WorkflowRunStoreError::AlreadyFailed { run_id: id.clone() });
    }
    if !run.is_paused() {
        return Err(WorkflowRunStoreError::NotPaused { run_id: id.clone() });
    }
    let event = WorkflowRunEvent::Resumed { source_phase_index: run.current_phase_index, reason };
    let mut pending = run;
    pending.pause_reason = None;
    Ok(WorkflowRunChange { event, expected: ExpectedVersion::Exact(expected_revision), pending })
}

/// Plans cancelling one exact projected revision without changing its phase or topology.
pub fn plan_run_cancel(
    loaded: Option<WorkflowRun>,
    id: &WorkflowRunId,
    expected_revision: u64,
    cancellation: WorkflowRunCancellation,
) -> (r: Result<WorkflowRunChange, WorkflowRunStoreError>)
    ensures
        match loaded {
            None => r matches Err(WorkflowRunStoreError::NotFound { run_id }) && run_id@ == id@,
            Some(run) => if run@.revision != expected_revision {
                r matches Err(
                    WorkflowRunStoreError::ConcurrentModification {
                        expected_revision: e,
                        current_revision: c,
                    },
                ) && e == expected_revision && c == run@.revision
            } else if run@.cancellation is Some {
                r matches Err(WorkflowRunStoreError::AlreadyCancelled { run_id }) && run_id@ == id@
            } else if run@.failure is Some {
                r matches Err(WorkflowRunStoreError::AlreadyFailed { run_id }) && run_id@ == id@
            } else if run_terminal(run@) {
                r matches Err(WorkflowRunStoreError::AlreadyTerminal { run_id }) && run_id@ == id@
            } else {
                r matches Ok(c) && run_change_follows(run@, c) && c.event@
                    == (WorkflowRunEventView::Cancelled {
                    source_phase_index: run@.phase,
                    reason: cancellation@,
                }) && c.pending@.phase == run@.phase && c.pending@.workflow == run@.workflow
            },
        },
{
    let run = match loaded {
        Some(run) => run,
        None => {
            return Err(WorkflowRunStoreError::NotFound { run_id: id.clone() });
        },
    };
    proof {
        use_type_invariant(&run);
    }
    if run.revision != expected_revision {
        return Err(stale(expected_revision, &run));
    }
    if run.is_cancelled() {
        return Err(WorkflowRunStoreError::AlreadyCancelled { run_id: id.clone() });
    }
    if run.is_failed() {
        return Err(WorkflowRunStoreError::AlreadyFailed { run_id: id.clone() });
    }
    if run.is_terminal() {
        return Err(WorkflowRunStoreError::AlreadyTerminal { run_id: id.clone() });
    }
    let event = WorkflowRunEvent::Cancelled {
        source_phase_index: run.current_phase_index,
        reason: cancellation.clone(),
    };
    let mut pending = run;
    pending.cancellation = Some(cancellation);
    Ok(WorkflowRunChange { event, expected: ExpectedVersion::Exact(expected_revision), pending })
}

/// Plans failing one exact projected revision without changing its phase or topology.
pub fn plan_run_fail(
    loaded: Option<WorkflowRun>,
    id: &WorkflowRunId,
    expected_revision: u64,
    failure: WorkflowRunFailure,
) -> (r: Result<WorkflowRunChange, WorkflowRunStoreError>)
    ensures
        match loaded {
            None => r matches Err(WorkflowRunStoreError::NotFound { run_id }) && run_id@ == id@,
            Some(run) => if run@.revision != expected_revision {
                r matches Err(
                    WorkflowRunStoreError::ConcurrentModification {
                        expected_revision: e,
                        current_revision: c,
                    },
                ) && e == expected_revision && c == run@.revision
            } else if run@.failure is Some {
                r matches Err(WorkflowRunStoreError::AlreadyFailed { run_id }) && run_id@ == id@
            } else if run@.cancellation is Some {
                r matches Err(WorkflowRunStoreError::AlreadyCancelled { run_id }) && run_id@ == id@
            } else if run_terminal(run@) {
                r matches Err(WorkflowRunStoreError::AlreadyTerminal { run_id }) && run_id@ == id@
            } else {
                r matches Ok(c) && run_change_follows(run@, c) && c.event@
                    == (WorkflowRunEventView::Failed {
                    source_phase_index: run@.phase,
                    failure: failure@,
                }) && c.pending@.phase == run@.phase && c.pending@.workflow == run@.workflow
            },
        },
{
    let run = match loaded {
        Some(run) => run,
        None => {
            return Err(WorkflowRunStoreError::NotFound { run_id: id.clone() });
        },
    };
    proof {
        use_type_invariant(&run);
    }
    if run.revision != expected_revision {
        return Err(stale(expected_revision, &run));
    }
    if run.is_failed() {
        return Err(WorkflowRunStoreError::AlreadyFailed { run_id: id.clone() });
    }
    if run.is_cancelled() {
        return Err(WorkflowRunStoreError::AlreadyCancelled { run_id: id.clone() });
    }
    if run.is_terminal() {
        return Err(WorkflowRunStoreError::AlreadyTerminal { run_id: id.clone() });
    }
    let event = WorkflowRunEvent::Failed {
        source_phase_index: run.current_phase_index,
        failure: failure.clone(),
    };
    let mut pending = run;
    pending.failure = Some(failure);
    Ok(WorkflowRunChange { event, expected: ExpectedVersion::Exact(expected_revision), pending })
}

/// Read-after-write: appending an event that follows the projected run of a
/// history makes the projection of the extended history the changed run.
pub proof fn lemma_run_change_is_reloaded(
    id: Seq<char>,
    history: Seq<WorkflowRunEventView>,
    before: WorkflowRunView,
    event: WorkflowRunEventView,
    after: WorkflowRunView,
)
    requires
        project_run(id, history) == WorkflowRunProjection::Found(before),
        run_apply(before, event) == Some(after),
    ensures
        project_run(id, history.push(event)) == WorkflowRunProjection::Found(after),
{
    let n = history.len();
    let ext = history.push(event);
    assert(ext[0] == history[0]);
    let w = history[0]->Started_workflow;
    let t = history[0]->Started_task_id;
    let k = start_index(w)->0;
    assert(ext.subrange(1, ext.len() as int) =~= history.subrange(1, n as int).push(event));
    lemma_replay_push(run_step(), run_started(id, w, k, t), history.subrange(1, n as int), event);
}

/// A started run is reloaded as the started state at revision 1.
pub proof fn lemma_run_start_is_reloaded(
    id: Seq<char>,
    workflow: WorkflowView,
    start: int,
    task_id: Option<Seq<char>>,
)
    requires
        !is_blank(workflow.id),
        start_index(workflow) == Some(start),
    ensures
        project_run(
            id,
            seq![WorkflowRunEventView::Started { workflow, task_id }],
        ) == WorkflowRunProjection::Found(run_started(id, workflow, start, task_id)),
{
    let h = seq![WorkflowRunEventView::Started { workflow, task_id }];
    assert(h.subrange(1, 1) =~= Seq::<WorkflowRunEventView>::empty());
}

/// A cancelled or failed run accepts no further lifecycle event.
pub proof fn lemma_closed_run_accepts_nothing(s: WorkflowRunView, e: WorkflowRunEventView)
    requires
        s.cancellation is Some || s.failure is Some,
    ensures
        run_apply(s, e) is None,
{
}

/// Every accepted event keeps the run's topology and leaves its phase inside it.
pub proof fn lemma_run_apply_keeps_topology(s: WorkflowRunView, e: WorkflowRunEventView)
    requires
        0 <= s.phase < s.workflow.phases.len(),
        run_apply(s, e) is Some,
    ensures
        run_apply(s, e)->0.workflow == s.workflow,
        0 <= run_apply(s, e)->0.phase < s.workflow.phases.len(),
        run_apply(s, e)->0.revision == s.revision + 1,
        run_apply(s, e)->0.id == s.id,
        run_apply(s, e)->0.task_id == s.task_id,
{
    if let WorkflowRunEventView::Advanced {
        transition_index,
        target_phase_index,
        gate_acknowledgement,
        ..
    } = e {
        let target = s.workflow.phases[s.phase].transitions[transition_index].target;
        let k = choose|k: int|
            phase_has_id(s.workflow.phases, target, k) && forall|i: int|
                phase_has_id(s.workflow.phases, target, i) ==> i == k;
        assert(phase_has_id(s.workflow.phases, target, k));
    }
}

/// The stream that holds one run's history: `workflow-run:` followed by the run id.
pub fn workflow_run_stream(id: &WorkflowRunId) -> (r: StreamId)
    ensures
        r@ == "workflow-run:"@ + id@,
{
    let mut name = "workflow-run:".to_owned();
    name.append(id.as_str());
    proof {
        reveal_strlit("workflow-run:");
    }
    match StreamId::new(name) {
        Ok(s) => s,
        Err(_) => {
            assert(false);
            StreamId::new("workflow-run:".to_owned()).unwrap()
        },
    }
}

/// Recovers a run identity from the name of a stream that holds a started run.
pub fn run_id_from_stream(stream_id: String) -> (r: Result<WorkflowRunId, WorkflowRunStoreError>)
    ensures
        r is Ok <==> (exists|rest: Seq<char>|
            stream_id@ == "workflow-run:"@ + rest && !is_blank(rest)),
        r matches Ok(id) ==> stream_id@ == "workflow-run:"@ + id@,
        r matches Err(e) ==> (e matches WorkflowRunStoreError::InvalidStreamId { stream_id: s }
            && s@ == stream_id@),
{
    let rest = match strip_prefix(stream_id.as_str(), "workflow-run:") {
        Some(rest) => rest.to_owned(),
        None => {
            proof {
                assert forall|rest: Seq<char>|
                    stream_id@ != "workflow-run:"@ + rest by {
                    if stream_id@ == "workflow-run:"@ + rest {
                        assert(stream_id@.subrange(0, "workflow-run:"@.len() as int)
                            =~= "workflow-run:"@);
                    }
                }
            }
            return Err(WorkflowRunStoreError::InvalidStreamId { stream_id });
        },
    };
    let ghost p = "workflow-run:"@;
    assert(stream_id@ =~= p + rest@);
    match WorkflowRunId::new(rest) {
        Ok(id) => Ok(id),
        Err(_) => {
            proof {
                assert forall|r2: Seq<char>| stream_id@ == p + r2 implies is_blank(r2) by {
                    assert(r2 =~= stream_id@.subrange(p.len() as int, stream_id@.len() as int));
                }
            }
            Err(WorkflowRunStoreError::InvalidStreamId { stream_id })
        },
    }
}

} // verus!

verus! {

/// A duplicate exact workflow identity rejected during atomic registration.
#[derive(Debug, PartialEq, Eq)]
#[non_exhaustive]
pub enum WorkflowRegistryError {
    DuplicateId { workflow_id: WorkflowId },
}

/// Whether some workflow of `s` carries the identity `id`.
pub open spec fn workflow_registered(s: Seq<WorkflowView>, id: Seq<char>) -> bool {
    exists|k: int| 0 <= k < s.len() && #[trigger] s[k].id == id
}

/// Whether the workflows of `s` stand in strictly ascending identity order.
pub open spec fn workflows_ascending(s: Seq<WorkflowView>) -> bool {
    forall|i: int, j: int| 0 <= i < j < s.len() ==> text_lt(#[trigger] s[i].id, #[trigger] s[j].id)
}

/// Whether batch entry `i` repeats an identity that is already registered or that
/// an earlier batch entry carries.
pub open spec fn workflow_collides_at(
    registered: Seq<WorkflowView>,
    batch: Seq<WorkflowView>,
    i: int,
) -> bool {
    workflow_registered(registered, batch[i].id) || exists|j: int|
        0 <= j < i && #[trigger] batch[j].id == batch[i].id
}

/// Whether registering `batch` after `registered` collides on the identity `id`.
pub open spec fn workflow_collision(
    registered: Seq<WorkflowView>,
    batch: Seq<WorkflowView>,
    id: Seq<char>,
) -> bool {
    exists|i: int|
        0 <= i < batch.len() && batch[i].id == id && #[trigger] workflow_collides_at(
            registered,
            batch,
            i,
        )
}

/// A caller-owned, process-local deterministic directory of inert workflow
/// definitions, kept in ascending exact-identity order.
#[derive(Debug)]
pub struct WorkflowRegistry {
    workflows: Vec<RegisteredWorkflow>,
}

impl View for WorkflowRegistry {
    type V = Seq<WorkflowView>;

    closed spec fn view(&self) -> Seq<WorkflowView> {
        workflows_view(self.workflows@)
    }
}

pub open spec fn workflows_view(s: Seq<RegisteredWorkflow>) -> Seq<WorkflowView> {
    s.map_values(|w: RegisteredWorkflow| w@)
}

fn workflow_position(items: &Vec<RegisteredWorkflow>, id: &str) -> (r: Option<usize>)
    ensures
        r is Some <==> workflow_registered(workflows_view(items@), id@),
        r matches Some(k) ==> k < items@.len() && items@[k as int]@.id == id@,
{
    let ghost v = workflows_view(items@);
    let mut i: usize = 0;
    while i < items.len()
        invariant
            i <= items@.len(),
            v == workflows_view(items@),
            forall|k: int| 0 <= k < i ==> v[k].id != id@,
        decreases items@.len() - i,
    {
        assert(v[i as int] == items@[i as int]@);
        if str_equals(items[i].id().as_str(), id) {
            return Some(i);
        }
        i = i + 1;
    }
    None
}

/// Inserts a workflow with a new identity at its ascending position.
fn insert_workflow(items: &mut Vec<RegisteredWorkflow>, w: RegisteredWorkflow)
    requires
        workflows_ascending(workflows_view(old(items)@)),
        !workflow_registered(workflows_view(old(items)@), w@.id),
    ensures
        workflows_ascending(workflows_view(final(items)@)),
        forall|x: WorkflowView|
            workflows_view(final(items)@).contains(x) <==> (workflows_view(
                old(items)@,
            ).contains(x) || x == w@),
{
    let ghost before = workflows_view(items@);
    let mut k: usize = 0;
    let mut found = false;
    while k < items.len() && !found
        invariant
            k <= items@.len(),
            before == workflows_view(items@),
            workflows_ascending(before),
            !workflow_registered(before, w@.id),
            forall|j: int| 0 <= j < k ==> text_lt(#[trigger] before[j].id, w@.id),
            found ==> k < items@.len() && text_lt(w@.id, before[k as int].id),
        decreases items@.len() - k + (if found { 0int } else { 1int }),
    {
        assert(before[k as int] == items@[k as int]@);
        if text_less(w.id().as_str(), items[k].id().as_str()) {
            found = true;
        } else {
            proof {
                assert(before[k as int].id != w@.id);
                lemma_text_lt_total(before[k as int].id, w@.id);
            }
            k = k + 1;
        }
    }
    let ghost wv = w@;
    items.insert(k, w);
    let ghost after = workflows_view(items@);
    assert(after =~= before.insert(k as int, wv));
    assert forall|i: int, j: int| 0 <= i < j < after.len() implies text_lt(
        #[trigger] after[i].id,
        #[trigger] after[j].id,
    ) by {
        if j < k {
        } else if j == k {
        } else if i == k {
            if j > k + 1 {
                lemma_text_lt_transitive(wv.id, before[k as int].id, before[j - 1].id);
            }
        } else if i < k {
            if j > k + 1 {
                lemma_text_lt_transitive(wv.id, before[k as int].id, before[j - 1].id);
            }
            lemma_text_lt_transitive(before[i].id, wv.id, before[j - 1].id);
        }
    }
    assert forall|x: WorkflowView| after.contains(x) <==> (before.contains(x) || x == wv) by {
        if after.contains(x) {
            let i = choose|i: int| 0 <= i < after.len() && after[i] == x;
            if i < k {
                assert(before[i] == x);
            } else if i > k {
                assert(before[i - 1] == x);
            }
        }
        if before.contains(x) {
            let i = choose|i: int| 0 <= i < before.len() && before[i] == x;
            if i < k {
                assert(after[i] == x);
            } else {
                assert(after[i + 1] == x);
            }
        }
        if x == wv {
            assert(after[k as int] == x);
        }
    }
}

impl Default for WorkflowRegistry {
    fn default() -> (r: Self)
        ensures
            r@ == Seq::<WorkflowView>::empty(),
    {
        WorkflowRegistry::new()
    }
}

impl WorkflowRegistry {
    #[verifier::type_invariant]
    closed spec fn inv(self) -> bool {
        workflows_ascending(workflows_view(self.workflows@))
    }

    pub fn new() -> (r: Self)
        ensures
            r@ == Seq::<WorkflowView>::empty(),
    {
        let r = WorkflowRegistry { workflows: Vec::new() };
        assert(r@ =~= Seq::<WorkflowView>::empty());
        r
    }

    /// Registers one homogeneous batch atomically without replacing existing
    /// definitions; a collision reports the least colliding identity.
    pub fn register_all(&mut self, workflows: Vec<RegisteredWorkflow>) -> (r: Result<
        (),
        WorkflowRegistryError,
    >)
        ensures
            r is Err <==> exists|id: Seq<char>|
                workflow_collision(old(self)@, workflows_view(workflows@), id),
            r matches Err(WorkflowRegistryError::DuplicateId { workflow_id }) ==> {
                &&& workflow_collision(
                    old(self)@,
                    workflows_view(workflows@),
                    workflow_id@,
                )
                &&& forall|id: Seq<char>|
                    workflow_collision(old(self)@, workflows_view(workflows@), id)
                        ==> !text_lt(id, workflow_id@)
                &&& final(self)@ == old(self)@
            },
            r is Ok ==> forall|x: WorkflowView|
                final(self)@.contains(x) <==> (old(self)@.contains(x) || workflows_view(
                    workflows@,
                ).contains(x)),
            workflows_ascending(final(self)@),
    {
        proof {
            use_type_invariant(&*self);
        }
        let ghost reg = self@;
        let ghost batch = workflows_view(workflows@);
        let mut least: Option<usize> = None;
        let mut i: usize = 0;
        while i < workflows.len()
            invariant
                i <= workflows@.len(),
                reg == self@,
                batch == workflows_view(workflows@),
                workflows_ascending(reg),
                least is None ==> forall|j: int|
                    0 <= j < i ==> !#[trigger] workflow_collides_at(reg, batch, j),
                least matches Some(m) ==> {
                    &&& m < i
                    &&& workflow_collides_at(reg, batch, m as int)
                    &&& forall|j: int|
                        0 <= j < i && #[trigger] workflow_collides_at(reg, batch, j) ==> !text_lt(
                            batch[j].id,
                            batch[m as int].id,
                        )
                },
            decreases workflows@.len() - i,
        {
            assert(batch[i as int] == workflows@[i as int]@);
            let id = workflows[i].id().as_str();
            let mut collides = workflow_position(&self.workflows, id).is_some();
            let mut j: usize = 0;
            while j < i
                invariant
                    j <= i,
                    i < workflows@.len(),
                    batch == workflows_view(workflows@),
                    id@ == batch[i as int].id,
                    collides == (workflow_registered(reg, id@) || exists|k: int|
                        0 <= k < j && #[trigger] batch[k].id == id@),
                decreases i - j,
            {
                assert(batch[j as int] == workflows@[j as int]@);
                if !collides && str_equals(workflows[j].id().as_str(), id) {
                    collides = true;
                    proof {
                        assert(batch[j as int].id == id@);
                    }
                }
                proof {
                    if !collides {
                        assert forall|k: int| 0 <= k < j + 1 implies #[trigger] batch[k].id != id@ by {
                            if k < j {
                                if batch[k].id == id@ {
                                    assert(exists|k2: int| 0 <= k2 < j && #[trigger] batch[k2].id == id@);
                                }
                            }
                        }
                    } else if !workflow_registered(reg, id@) {
                        if !(exists|k: int| 0 <= k < j && #[trigger] batch[k].id == id@) {
                            assert(batch[j as int].id == id@);
                        }
                    }
                }
                j = j + 1;
            }
            assert(collides == workflow_collides_at(reg, batch, i as int));
            if collides {
                match least {
                    None => {
                        proof {
                            lemma_text_lt_irreflexive(batch[i as int].id);
                        }
                        least = Some(i);
                    },
                    Some(m) => {
                        assert(batch[m as int] == workflows@[m as int]@);
                        if text_less(id, workflows[m].id().as_str()) {
                            proof {
                                assert forall|k: int|
                                    0 <= k < i + 1 && #[trigger] workflow_collides_at(
                                        reg,
                                        batch,
                                        k,
                                    ) implies !text_lt(batch[k].id, batch[i as int].id) by {
                                    if k < i && text_lt(batch[k].id, batch[i as int].id) {
                                        lemma_text_lt_transitive(
                                            batch[k].id,
                                            batch[i as int].id,
                                            batch[m as int].id,
                                        );
                                    }
                                    if k == i {
                                        lemma_text_lt_irreflexive(batch[i as int].id);
                                    }
                                }
                            }
                            least = Some(i);
                        }
                    },
                }
            }
            i = i + 1;
        }
        if let Some(m) = least {
            proof {
                assert forall|id: Seq<char>|
                    workflow_collision(reg, batch, id) implies !text_lt(id, batch[m as int].id) by {
                    let k = choose|k: int|
                        0 <= k < batch.len() && batch[k].id == id && #[trigger] workflow_collides_at(
                            reg,
                            batch,
                            k,
                        );
                }
                assert(workflow_collision(reg, batch, batch[m as int].id));
            }
            return Err(WorkflowRegistryError::DuplicateId { workflow_id: workflows[m].id().clone() });
        }
        let mut items: Vec<RegisteredWorkflow> = Vec::new();
        std::mem::swap(&mut items, &mut self.workflows);
        let mut i: usize = 0;
        while i < workflows.len()
            invariant
                i <= workflows@.len(),
                batch == workflows_view(workflows@),
                workflows_ascending(workflows_view(items@)),
                forall|j: int| 0 <= j < workflows@.len() ==> !#[trigger] workflow_collides_at(reg, batch, j),
                forall|x: WorkflowView|
                    workflows_view(items@).contains(x) <==> (reg.contains(x)
                        || batch.subrange(0, i as int).contains(x)),
            decreases workflows@.len() - i,
        {
            assert(batch[i as int] == workflows@[i as int]@);
            proof {
                assert(!workflow_collides_at(reg, batch, i as int));
                if workflow_registered(workflows_view(items@), batch[i as int].id) {
                    let k = choose|k: int|
                        0 <= k < workflows_view(items@).len()
                            && #[trigger] workflows_view(items@)[k].id == batch[i as int].id;
                    let x = workflows_view(items@)[k];
                    assert(workflows_view(items@).contains(x));
                    if reg.contains(x) {
                        let q = choose|q: int| 0 <= q < reg.len() && reg[q] == x;
                        assert(reg[q].id == batch[i as int].id);
                    } else {
                        let q = choose|q: int|
                            0 <= q < i && batch.subrange(0, i as int)[q] == x;
                        assert(batch[q].id == batch[i as int].id);
                    }
                }
            }
            let ghost earlier = workflows_view(items@);
            let w = workflows[i].clone();
            let ghost wv = w@;
            insert_workflow(&mut items, w);
            proof {
                let prefix = batch.subrange(0, i as int);
                let longer = batch.subrange(0, i + 1);
                assert(longer =~= prefix.push(batch[i as int]));
                assert forall|x: WorkflowView|
                    workflows_view(items@).contains(x) <==> (reg.contains(x)
                        || longer.contains(x)) by {
                    assert(earlier.contains(x) <==> (reg.contains(x) || prefix.contains(x)));
                    assert(workflows_view(items@).contains(x) <==> (earlier.contains(x)
                        || x == wv));
                    assert(wv == batch[i as int]);
                    if prefix.contains(x) {
                        let q = choose|q: int| 0 <= q < prefix.len() && prefix[q] == x;
                        assert(longer[q] == x);
                    }
                    if x == batch[i as int] {
                        assert(longer[i as int] == x);
                    }
                    if longer.contains(x) {
                        let q = choose|q: int| 0 <= q < longer.len() && longer[q] == x;
                        if q < i {
                            assert(prefix[q] == x);
                        }
                    }
                }
            }
            i = i + 1;
        }
        assert(batch.subrange(0, workflows@.len() as int) =~= batch);
        self.workflows = items;
        Ok(())
    }

    pub fn get(&self, workflow_id: &WorkflowId) -> (r: Option<&RegisteredWorkflow>)
        ensures
            r is Some <==> workflow_registered(self@, workflow_id@),
            r matches Some(w) ==> self@.contains(w@) && w@.id == workflow_id@,
    {
        match workflow_position(&self.workflows, workflow_id.as_str()) {
            Some(k) => {
                assert(self@[k as int] == self.workflows@[k as int]@);
                Some(&self.workflows[k])
            },
            None => None,
        }
    }

    /// The registered workflows in ascending exact-identity order.
    pub fn workflows(&self) -> (r: &[RegisteredWorkflow])
        ensures
            workflows_view(r@) == self@,
            workflows_ascending(self@),
    {
        proof {
            use_type_invariant(self);
        }
        self.workflows.as_slice()
    }
}

} // verus!

verus! {

/// The payload schema of one stored workflow-run event, chosen by its type and version.
#[derive(Clone, Copy, Debug, PartialEq, Eq, Structural)]
pub enum WorkflowRunPayloadKind {
    /// `workflow_run.started` at version 1: `{workflow}`.
    Started,
    /// `workflow_run.started` at version 2: `{workflow, task_id}`.
    TaskStarted,
    /// `workflow_run.advanced` at version 1.
    Advanced,
    /// `workflow_run.cancelled` at version 1: `{source_phase_index, reason}`.
    Cancelled,
    /// `workflow_run.paused` at version 1: `{source_phase_index, reason}`.
    Paused,
    /// `workflow_run.resumed` at version 1: `{source_phase_index, reason}`.
    Resumed,
    /// `workflow_run.failed` at version 1: `{source_phase_index, failure}`.
    Failed,
}

pub open spec fn run_payload_kind_of(event_type: Seq<char>, version: u32) -> Option<WorkflowRunPayloadKind> {
    if event_type == "workflow_run.started"@ && version == 1 {
        Some(WorkflowRunPayloadKind::Started)
    } else if event_type == "workflow_run.started"@ && version == 2 {
        Some(WorkflowRunPayloadKind::TaskStarted)
    } else if version != 1 {
        None
    } else if event_type == "workflow_run.advanced"@ {
        Some(WorkflowRunPayloadKind::Advanced)
    } else if event_type == "workflow_run.cancelled"@ {
        Some(WorkflowRunPayloadKind::Cancelled)
    } else if event_type == "workflow_run.paused"@ {
        Some(WorkflowRunPayloadKind::Paused)
    } else if event_type == "workflow_run.resumed"@ {
        Some(WorkflowRunPayloadKind::Resumed)
    } else if event_type == "workflow_run.failed"@ {
        Some(WorkflowRunPayloadKind::Failed)
    } else {
        None
    }
}

/// Chooses the payload schema of a stored workflow-run event, refusing an unknown
/// type or version.
pub fn run_payload_kind(event_type: &str, payload_version: u32) -> (r: Result<
    WorkflowRunPayloadKind,
    DecodeError,
>)
    ensures
        match run_payload_kind_of(event_type@, payload_version) {
            Some(k) => r matches Ok(k2) && k2 == k,
            None => r matches Err(DecodeError::UnsupportedEvent { event_type: t, payload_version: v })
                && t@ == event_type@ && v == payload_version,
        },
{
    if str_equals(event_type, "workflow_run.started") && payload_version == 1 {
        Ok(WorkflowRunPayloadKind::Started)
    } else if str_equals(event_type, "workflow_run.started") && payload_version == 2 {
        Ok(WorkflowRunPayloadKind::TaskStarted)
    } else if payload_version != 1 {
        Err(DecodeError::UnsupportedEvent { event_type: event_type.to_owned(), payload_version })
    } else if str_equals(event_type, "workflow_run.advanced") {
        Ok(WorkflowRunPayloadKind::Advanced)
    } else if str_equals(event_type, "workflow_run.cancelled") {
        Ok(WorkflowRunPayloadKind::Cancelled)
    } else if str_equals(event_type, "workflow_run.paused") {
        Ok(WorkflowRunPayloadKind::Paused)
    } else if str_equals(event_type, "workflow_run.resumed") {
        Ok(WorkflowRunPayloadKind::Resumed)
    } else if str_equals(event_type, "workflow_run.failed") {
        Ok(WorkflowRunPayloadKind::Failed)
    } else {
        Err(DecodeError::UnsupportedEvent { event_type: event_type.to_owned(), payload_version })
    }
}

/// A parsed workflow-run payload: its fields as plain values.
pub enum WorkflowRunPayload {
    Started { workflow: WorkflowSnapshot, task_id: Option<String> },
    Advanced {
        source_phase_index: usize,
        transition_index: usize,
        target_phase_index: usize,
        gate_acknowledgement: Option<String>,
    },
    /// A payload with a source phase and one text field: `reason` or `failure`.
    Noted { source_phase_index: usize, text: String },
}

pub open spec fn run_payload_fits(kind: WorkflowRunPayloadKind, payload: WorkflowRunPayload) -> bool {
    match kind {
        WorkflowRunPayloadKind::Started => payload matches WorkflowRunPayload::Started {
            task_id: None,
            ..
        },
        WorkflowRunPayloadKind::TaskStarted => payload matches WorkflowRunPayload::Started {
            task_id: Some(_),
            ..
        },
        WorkflowRunPayloadKind::Advanced => payload is Advanced,
        _ => payload is Noted,
    }
}

/// The event a fitting parsed workflow-run payload decodes to, or the validation
/// text of the first check it fails. A start must carry a valid task id, a
/// non-blank workflow id and a resolvable start phase.
pub open spec fn run_decoded(kind: WorkflowRunPayloadKind, payload: WorkflowRunPayload) -> Result<
    WorkflowRunEventView,
    Seq<char>,
> {
    match payload {
        WorkflowRunPayload::Started { workflow, task_id } => if task_id matches Some(t) && t@.len()
            == 0 {
            Err("task id must not be empty"@)
        } else if is_blank(workflow@.id) {
            Err("workflow id must not be blank"@)
        } else if start_index(workflow@) is None {
            Err(start_failure_text(workflow@))
        } else {
            Ok(WorkflowRunEventView::Started { workflow: workflow@, task_id: opt_view(task_id) })
        },
        WorkflowRunPayload::Advanced {
            source_phase_index,
            transition_index,
            target_phase_index,
            gate_acknowledgement,
        } => Ok(
            WorkflowRunEventView::Advanced {
                source_phase_index: source_phase_index as int,
                transition_index: transition_index as int,
                target_phase_index: target_phase_index as int,
                gate_acknowledgement: opt_view(gate_acknowledgement),
            },
        ),
        WorkflowRunPayload::Noted { source_phase_index, text } => if text@.len() == 0 {
            Err(
                match kind {
                    WorkflowRunPayloadKind::Cancelled =>
                        "workflow run cancellation reason must not be empty"@,
                    WorkflowRunPayloadKind::Paused => "workflow run pause reason must not be empty"@,
                    WorkflowRunPayloadKind::Resumed =>
                        "workflow run resume reason must not be empty"@,
                    _ => "workflow run failure diagnostic must not be empty"@,
                },
            )
        } else {
            Ok(
                match kind {
                    WorkflowRunPayloadKind::Cancelled => WorkflowRunEventView::Cancelled {
                        source_phase_index: source_phase_index as int,
                        reason: text@,
                    },
                    WorkflowRunPayloadKind::Paused => WorkflowRunEventView::Paused {
                        source_phase_index: source_phase_index as int,
                        reason: text@,
                    },
                    WorkflowRunPayloadKind::Resumed => WorkflowRunEventView::Resumed {
                        source_phase_index: source_phase_index as int,
                        reason: text@,
                    },
                    _ => WorkflowRunEventView::Failed {
                        source_phase_index: source_phase_index as int,
                        failure: text@,
                    },
                },
            )
        },
    }
}

/// Validates the fields of a parsed workflow-run payload into its event.
pub fn run_event_from_payload(kind: WorkflowRunPayloadKind, payload: WorkflowRunPayload) -> (r:
    Result<WorkflowRunEvent, DecodeError>)
    requires
        run_payload_fits(kind, payload),
    ensures
        match run_decoded(kind, payload) {
            Ok(e) => r matches Ok(ev) && ev@ == e,
            Err(m) => r matches Err(DecodeError::MalformedPayload { message }) && message@ == m,
        },
{
    match payload {
        WorkflowRunPayload::Started { workflow, task_id } => {
            let task_id = match task_id {
                Some(t) => match TaskId::new(t) {
                    Ok(t) => Some(t),
                    Err(e) => {
                        return Err(DecodeError::MalformedPayload { message: e.to_string() });
                    },
                },
                None => None,
            };
            let decoded = match workflow.to_workflow() {
                Ok(w) => w,
                Err(message) => {
                    return Err(DecodeError::MalformedPayload { message });
                },
            };
            if let Err(e) = start_phase_index(&decoded) {
                return Err(DecodeError::MalformedPayload { message: e.to_string() });
            }
            Ok(WorkflowRunEvent::Started { workflow, task_id })
        },
        WorkflowRunPayload::Advanced {
            source_phase_index,
            transition_index,
            target_phase_index,
            gate_acknowledgement,
        } => Ok(
            WorkflowRunEvent::Advanced {
                source_phase_index,
                transition_index,
                target_phase_index,
                gate_acknowledgement,
            },
        ),
        WorkflowRunPayload::Noted { source_phase_index, text } => match kind {
            WorkflowRunPayloadKind::Cancelled => match WorkflowRunCancellation::new(text) {
                Ok(reason) => Ok(WorkflowRunEvent::Cancelled { source_phase_index, reason }),
                Err(e) => Err(DecodeError::MalformedPayload { message: e.to_string() }),
            },
            WorkflowRunPayloadKind::Paused => match WorkflowRunPauseReason::new(text) {
                Ok(reason) => Ok(WorkflowRunEvent::Paused { source_phase_index, reason }),
                Err(e) => Err(DecodeError::MalformedPayload { message: e.to_string() }),
            },
            WorkflowRunPayloadKind::Resumed => match WorkflowRunResumeReason::new(text) {
                Ok(reason) => Ok(WorkflowRunEvent::Resumed { source_phase_index, reason }),
                Err(e) => Err(DecodeError::MalformedPayload { message: e.to_string() }),
            },
            _ => match WorkflowRunFailure::new(text) {
                Ok(failure) => Ok(WorkflowRunEvent::Failed { source_phase_index, failure }),
                Err(e) => Err(DecodeError::MalformedPayload { message: e.to_string() }),
            },
        },
    }
}

} // verus!

