use vstd::prelude::*;

use crate::event_log::{DecodeError, EventLogError, ExpectedVersion, ReplayError, StreamId};
use crate::task::{task_stream, TaskId, TaskStatus, TaskStoreError, VersionedTask};
use crate::text::{is_blank, lemma_text_lt_total, lemma_text_lt_transitive, opt_view, str_equals, str_is_blank, strip_prefix, text_less, text_lt};

verus! {

/// An opaque, non-blank stable identifier for one tool adapter.
#[derive(Debug, Hash, PartialEq, Eq, PartialOrd, Ord)]
pub struct ToolId(String);

impl View for ToolId {
    type V = Seq<char>;

    closed spec fn view(&self) -> Seq<char> {
        self.0@
    }
}

impl ToolId {
    #[verifier::type_invariant]
    closed spec fn inv(self) -> bool {
        !is_blank(self.0@)
    }

    pub fn new(value: String) -> (r: Result<Self, ToolIdError>)
        ensures
            r is Ok <==> !is_blank(value@),
            r matches Ok(v) ==> v@ == value@,
    {
        if str_is_blank(value.as_str()) {
            Err(ToolIdError)
        } else {
            Ok(ToolId(value))
        }
    }

    pub fn as_str(&self) -> (r: &str)
        ensures
            r@ == self@,
            !is_blank(r@),
    {
        proof {
            use_type_invariant(self);
        }
        self.0.as_str()
    }

    /// Exact textual equality of two values.
    pub fn same_as(&self, other: &Self) -> (r: bool)
        ensures
            r == (self@ == other@),
    {
        self.0 == other.0
    }
}

impl Clone for ToolId {
    fn clone(&self) -> (r: Self)
        ensures
            r == *self,
    {
        proof {
            use_type_invariant(self);
        }
        ToolId(self.0.clone())
    }
}

#[derive(Clone, Copy, Debug, PartialEq, Eq, Structural)]
pub struct ToolIdError;

impl ToolIdError {
    pub fn to_string(&self) -> (r: String)
        ensures
            r@ == "tool id must not be blank"@,
    {
        "tool id must not be blank".to_owned()
    }
}

/// A caller-supplied, non-blank identity for one durable invocation attempt.
#[derive(Debug, Hash, PartialEq, Eq)]
pub struct ToolInvocationId(String);

impl View for ToolInvocationId {
    type V = Seq<char>;

    closed spec fn view(&self) -> Seq<char> {
        self.0@
    }
}

impl ToolInvocationId {
    #[verifier::type_invariant]
    closed spec fn inv(self) -> bool {
        !is_blank(self.0@)
    }

    pub fn new(value: String) -> (r: Result<Self, ToolInvocationIdError>)
        ensures
            r is Ok <==> !is_blank(value@),
            r matches Ok(v) ==> v@ == value@,
    {
        if str_is_blank(value.as_str()) {
            Err(ToolInvocationIdError)
        } else {
            Ok(ToolInvocationId(value))
        }
    }

    pub fn as_str(&self) -> (r: &str)
        ensures
            r@ == self@,
            !is_blank(r@),
    {
        proof {
            use_type_invariant(self);
        }
        self.0.as_str()
    }

    /// Exact textual equality of two values.
    pub fn same_as(&self, other: &Self) -> (r: bool)
        ensures
            r == (self@ == other@),
    {
        self.0 == other.0
    }
}

impl Clone for ToolInvocationId {
    fn clone(&self) -> (r: Self)
        ensures
            r == *self,
    {
        proof {
            use_type_invariant(self);
        }
        ToolInvocationId(self.0.clone())
    }
}

#[derive(Clone, Copy, Debug, PartialEq, Eq, Structural)]
pub struct ToolInvocationIdError;

impl ToolInvocationIdError {
    pub fn to_string(&self) -> (r: String)
        ensures
            r@ == "tool invocation id must not be blank"@,
    {
        "tool invocation id must not be blank".to_owned()
    }
}

} // verus!

verus! {

/// The maximum external effect declared by a tool adapter.
#[derive(Clone, Copy, Debug, PartialEq, Eq, Structural)]
#[non_exhaustive]
pub enum ToolEffect {
    /// No observation or mutation outside the current process.
    Pure,
    /// Observes external state without intending to mutate it.
    ExternalRead,
    /// Mutates external state without intending destructive removal.
    ExternalWrite,
    /// May delete, irreversibly replace, or otherwise destructively mutate external state.
    Destructive,
}

/// An explicit permission decision scoped to one exact invocation request.
#[derive(Clone, Copy, Debug, PartialEq, Eq, Structural)]
pub enum PermissionDecision {
    Allow,
    Deny,
}

/// Stable permission metadata for one registered adapter.
#[derive(Debug, PartialEq, Eq)]
pub struct ToolMetadata {
    id: ToolId,
    effect: ToolEffect,
}

pub struct ToolMetadataView {
    pub id: Seq<char>,
    pub effect: ToolEffect,
}

impl View for ToolMetadata {
    type V = ToolMetadataView;

    closed spec fn view(&self) -> ToolMetadataView {
        ToolMetadataView { id: self.id@, effect: self.effect }
    }
}

impl Clone for ToolMetadata {
    fn clone(&self) -> (r: Self)
        ensures
            r@ == self@,
    {
        ToolMetadata { id: self.id.clone(), effect: self.effect }
    }
}

impl ToolMetadata {
    pub fn new(id: ToolId, effect: ToolEffect) -> (r: Self)
        ensures
            r@ == (ToolMetadataView { id: id@, effect }),
    {
        ToolMetadata { id, effect }
    }

    pub fn id(&self) -> (r: &ToolId)
        ensures
            r@ == self@.id,
    {
        &self.id
    }

    pub fn effect(&self) -> (r: ToolEffect)
        ensures
            r == self@.effect,
    {
        self.effect
    }
}

/// A duplicate adapter identity rejected during registration.
#[derive(Debug, PartialEq, Eq)]
#[non_exhaustive]
pub enum ToolRegistryError {
    DuplicateId { tool_id: ToolId },
}

pub open spec fn metadata_view(s: Seq<ToolMetadata>) -> Seq<ToolMetadataView> {
    s.map_values(|m: ToolMetadata| m@)
}

/// Whether the entries of `s` stand in strictly ascending identity order.
pub open spec fn metadata_ascending(s: Seq<ToolMetadataView>) -> bool {
    forall|i: int, j: int| 0 <= i < j < s.len() ==> text_lt(#[trigger] s[i].id, #[trigger] s[j].id)
}

/// Whether some entry of `s` carries the identity `id`.
pub open spec fn tool_registered(s: Seq<ToolMetadataView>, id: Seq<char>) -> bool {
    exists|k: int| 0 <= k < s.len() && #[trigger] s[k].id == id
}

/// The permission metadata of registered tool adapters in ascending exact-identity
/// order; an adapter registered at position `k` stands at position `k` of any
/// parallel store of adapters.
#[derive(Debug)]
pub struct ToolCatalog {
    entries: Vec<ToolMetadata>,
}

impl View for ToolCatalog {
    type V = Seq<ToolMetadataView>;

    closed spec fn view(&self) -> Seq<ToolMetadataView> {
        metadata_view(self.entries@)
    }
}

impl Default for ToolCatalog {
    fn default() -> (r: Self)
        ensures
            r@ == Seq::<ToolMetadataView>::empty(),
    {
        ToolCatalog::new()
    }
}

impl ToolCatalog {
    #[verifier::type_invariant]
    closed spec fn inv(self) -> bool {
        metadata_ascending(metadata_view(self.entries@))
    }

    pub fn new() -> (r: Self)
        ensures
            r@ == Seq::<ToolMetadataView>::empty(),
    {
        let r = ToolCatalog { entries: Vec::new() };
        assert(r@ =~= Seq::<ToolMetadataView>::empty());
        r
    }

    /// The position of the adapter with an exact identity.
    pub fn position(&self, tool_id: &ToolId) -> (r: Option<usize>)
        ensures
            r is Some <==> tool_registered(self@, tool_id@),
            r matches Some(k) ==> k < self@.len() && self@[k as int].id == tool_id@,
    {
        let ghost v = self@;
        let mut i: usize = 0;
        while i < self.entries.len()
            invariant
                i <= self.entries@.len(),
                v == metadata_view(self.entries@),
                forall|k: int| 0 <= k < i ==> v[k].id != tool_id@,
            decreases self.entries@.len() - i,
        {
            assert(v[i as int] == self.entries@[i as int]@);
            if str_equals(self.entries[i].id().as_str(), tool_id.as_str()) {
                return Some(i);
            }
            i = i + 1;
        }
        None
    }

    /// Registers one adapter's metadata without replacing an entry with the same
    /// identity, and reports the position it took.
    pub fn register(&mut self, metadata: ToolMetadata) -> (r: Result<usize, ToolRegistryError>)
        ensures
            r is Err <==> tool_registered(old(self)@, metadata@.id),
            r matches Err(ToolRegistryError::DuplicateId { tool_id }) ==> tool_id@ == metadata@.id
                && final(self)@ == old(self)@,
            r matches Ok(k) ==> k <= old(self)@.len() && final(self)@ == old(self)@.insert(
                k as int,
                metadata@,
            ),
            metadata_ascending(final(self)@),
    {
        proof {
            use_type_invariant(&*self);
        }
        if self.position(metadata.id()).is_some() {
            return Err(ToolRegistryError::DuplicateId { tool_id: metadata.id().clone() });
        }
        let ghost before = self@;
        let mut k: usize = 0;
        let mut found = false;
        while k < self.entries.len() && !found
            invariant
                k <= self.entries@.len(),
                before == metadata_view(self.entries@),
                metadata_ascending(before),
                !tool_registered(before, metadata@.id),
                forall|j: int| 0 <= j < k ==> text_lt(#[trigger] before[j].id, metadata@.id),
                found ==> k < self.entries@.len() && text_lt(metadata@.id, before[k as int].id),
            decreases self.entries@.len() - k + (if found { 0int } else { 1int }),
        {
            assert(before[k as int] == self.entries@[k as int]@);
            if text_less(metadata.id().as_str(), self.entries[k].id().as_str()) {
                found = true;
            } else {
                proof {
                    assert(before[k as int].id != metadata@.id);
                    lemma_text_lt_total(before[k as int].id, metadata@.id);
                }
                k = k + 1;
            }
        }
        let ghost mv = metadata@;
        let mut entries: Vec<ToolMetadata> = Vec::new();
        std::mem::swap(&mut entries, &mut self.entries);
        entries.insert(k, metadata);
        let ghost after = metadata_view(entries@);
        assert(after =~= before.insert(k as int, mv));
        assert forall|i: int, j: int| 0 <= i < j < after.len() implies text_lt(
            #[trigger] after[i].id,
            #[trigger] after[j].id,
        ) by {
            if j < k {
            } else if j == k {
            } else if i == k {
                if j > k + 1 {
                    lemma_text_lt_transitive(mv.id, before[k as int].id, before[j - 1].id);
                }
            } else if i < k {
                if j > k + 1 {
                    lemma_text_lt_transitive(mv.id, before[k as int].id, before[j - 1].id);
                }
                lemma_text_lt_transitive(before[i].id, mv.id, before[j - 1].id);
            }
        }
        self.entries = entries;
        Ok(k)
    }

    /// Metadata in ascending stable-identity order.
    pub fn metadata(&self) -> (r: Vec<ToolMetadata>)
        ensures
            metadata_view(r@) == self@,
            metadata_ascending(self@),
    {
        proof {
            use_type_invariant(self);
        }
        let mut out: Vec<ToolMetadata> = Vec::new();
        let mut i: usize = 0;
        while i < self.entries.len()
            invariant
                i <= self.entries@.len(),
                out@.len() == i,
                forall|k: int| 0 <= k < i ==> #[trigger] out@[k]@ == self.entries@[k]@,
            decreases self.entries@.len() - i,
        {
            out.push(self.entries[i].clone());
            i = i + 1;
        }
        assert(metadata_view(out@) =~= metadata_view(self.entries@));
        out
    }
}

/// The replayed state of one durable tool invocation stream.
#[derive(Clone, Copy, Debug, PartialEq, Eq, Structural)]
pub enum ToolInvocationStatus {
    /// Authorization or execution may have been attempted; the invocation must not be resumed.
    Pending,
    Denied,
    Succeeded,
    Failed,
}

pub struct ToolInvocationView {
    pub id: Seq<char>,
    pub tool_id: Seq<char>,
    pub effect: ToolEffect,
    pub status: ToolInvocationStatus,
    pub task_id: Option<Seq<char>>,
}

#[derive(Debug, PartialEq, Eq)]
pub struct ToolInvocation {
    id: ToolInvocationId,
    tool_id: ToolId,
    effect: ToolEffect,
    status: ToolInvocationStatus,
    task_id: Option<TaskId>,
}

impl View for ToolInvocation {
    type V = ToolInvocationView;

    closed spec fn view(&self) -> ToolInvocationView {
        ToolInvocationView {
            id: self.id@,
            tool_id: self.tool_id@,
            effect: self.effect,
            status: self.status,
            task_id: opt_view(self.task_id),
        }
    }
}

fn clone_task_id(o: &Option<TaskId>) -> (r: Option<TaskId>)
    ensures
        r == *o,
{
    match o {
        Some(x) => Some(x.clone()),
        None => None,
    }
}

impl Clone for ToolInvocation {
    fn clone(&self) -> (r: Self)
        ensures
            r@ == self@,
    {
        ToolInvocation {
            id: self.id.clone(),
            tool_id: self.tool_id.clone(),
            effect: self.effect,
            status: self.status,
            task_id: clone_task_id(&self.task_id),
        }
    }
}

impl ToolInvocation {
    pub fn id(&self) -> (r: &ToolInvocationId)
        ensures
            r@ == self@.id,
    {
        &self.id
    }

    pub fn tool_id(&self) -> (r: &ToolId)
        ensures
            r@ == self@.tool_id,
    {
        &self.tool_id
    }

    pub fn effect(&self) -> (r: ToolEffect)
        ensures
            r == self@.effect,
    {
        self.effect
    }

    pub fn status(&self) -> (r: ToolInvocationStatus)
        ensures
            r == self@.status,
    {
        self.status
    }

    /// The task fixed in this invocation's intent, when it was task-associated.
    pub fn task_id(&self) -> (r: Option<&TaskId>)
        ensures
            opt_view(r) == self@.task_id,
    {
        match &self.task_id {
            Some(t) => Some(t),
            None => None,
        }
    }
}

#[derive(Debug)]
#[non_exhaustive]
pub enum ToolInvocationStoreError {
    EventLog(EventLogError),
    Replay(ReplayError),
    Task(TaskStoreError),
    AlreadyExists { invocation_id: ToolInvocationId },
    TaskNotFound { task_id: TaskId },
    TaskNotActive { task_id: TaskId, status: TaskStatus },
    TaskChanged { task_id: TaskId },
    InvalidStreamId { stream_id: String },
    InvalidHistory { event_count: usize },
}

/// One persisted tool-invocation event; outcomes carry no payload.
#[derive(Debug)]
pub enum ToolInvocationEvent {
    Intended { tool_id: ToolId, effect: ToolEffect },
    TaskIntended { tool_id: ToolId, effect: ToolEffect, task_id: TaskId },
    Denied,
    Succeeded,
    Failed,
}

pub enum ToolInvocationEventView {
    Intended { tool_id: Seq<char>, effect: ToolEffect },
    TaskIntended { tool_id: Seq<char>, effect: ToolEffect, task_id: Seq<char> },
    Denied,
    Succeeded,
    Failed,
}

impl View for ToolInvocationEvent {
    type V = ToolInvocationEventView;

    open spec fn view(&self) -> ToolInvocationEventView {
        match self {
            ToolInvocationEvent::Intended { tool_id, effect } => ToolInvocationEventView::Intended {
                tool_id: tool_id@,
                effect: *effect,
            },
            ToolInvocationEvent::TaskIntended { tool_id, effect, task_id } =>
                ToolInvocationEventView::TaskIntended {
                tool_id: tool_id@,
                effect: *effect,
                task_id: task_id@,
            },
            ToolInvocationEvent::Denied => ToolInvocationEventView::Denied,
            ToolInvocationEvent::Succeeded => ToolInvocationEventView::Succeeded,
            ToolInvocationEvent::Failed => ToolInvocationEventView::Failed,
        }
    }
}

pub open spec fn tool_events_view(events: Seq<ToolInvocationEvent>) -> Seq<ToolInvocationEventView> {
    events.map_values(|e: ToolInvocationEvent| e@)
}

/// The persisted discriminator of each tool-invocation event.
pub open spec fn tool_event_type(e: ToolInvocationEventView) -> Seq<char> {
    match e {
        ToolInvocationEventView::Intended { .. } => "tool.invocation_intended"@,
        ToolInvocationEventView::TaskIntended { .. } => "tool.invocation_intended"@,
        ToolInvocationEventView::Denied => "tool.invocation_denied"@,
        ToolInvocationEventView::Succeeded => "tool.invocation_succeeded"@,
        ToolInvocationEventView::Failed => "tool.invocation_failed"@,
    }
}

/// The payload version each tool-invocation event is stored at.
pub open spec fn tool_payload_version(e: ToolInvocationEventView) -> u32 {
    if e is TaskIntended {
        2
    } else {
        1
    }
}

impl ToolInvocationEvent {
    /// The persisted event discriminator.
    pub fn event_type(&self) -> (r: &'static str)
        ensures
            r@ == tool_event_type(self@),
    {
        match self {
            ToolInvocationEvent::Intended { .. } => "tool.invocation_intended",
            ToolInvocationEvent::TaskIntended { .. } => "tool.invocation_intended",
            ToolInvocationEvent::Denied => "tool.invocation_denied",
            ToolInvocationEvent::Succeeded => "tool.invocation_succeeded",
            ToolInvocationEvent::Failed => "tool.invocation_failed",
        }
    }

    /// The payload version: a task-associated intent is version 2, every other event 1.
    pub fn payload_version(&self) -> (r: u32)
        ensures
            r == (if self@ is TaskIntended {
                2u32
            } else {
                1u32
            }),
    {
        match self {
            ToolInvocationEvent::TaskIntended { .. } => 2,
            _ => 1,
        }
    }
}

/// The status that an outcome event records, if it is one.
pub open spec fn outcome_status(e: ToolInvocationEventView) -> Option<ToolInvocationStatus> {
    match e {
        ToolInvocationEventView::Denied => Some(ToolInvocationStatus::Denied),
        ToolInvocationEventView::Succeeded => Some(ToolInvocationStatus::Succeeded),
        ToolInvocationEventView::Failed => Some(ToolInvocationStatus::Failed),
        _ => None,
    }
}

/// What one tool-invocation stream projects to.
pub enum ToolInvocationProjection {
    Empty,
    InvalidHistory,
    Found(ToolInvocationView),
}

/// A valid stream is one intent, optionally followed by exactly one outcome.
pub open spec fn project_invocation(id: Seq<char>, events: Seq<ToolInvocationEventView>) -> ToolInvocationProjection {
    if events.len() == 0 {
        ToolInvocationProjection::Empty
    } else {
        let intent = match events[0] {
            ToolInvocationEventView::Intended { tool_id, effect } => Some((tool_id, effect, None)),
            ToolInvocationEventView::TaskIntended { tool_id, effect, task_id } => Some(
                (tool_id, effect, Some(task_id)),
            ),
            _ => None,
        };
        let status = if events.len() == 1 {
            Some(ToolInvocationStatus::Pending)
        } else if events.len() == 2 {
            outcome_status(events[1])
        } else {
            None
        };
        match (intent, status) {
            (Some((tool_id, effect, task_id)), Some(status)) => ToolInvocationProjection::Found(
                ToolInvocationView { id, tool_id, effect, status, task_id },
            ),
            _ => ToolInvocationProjection::InvalidHistory,
        }
    }
}

/// Projects one replayed tool-invocation stream.
pub fn project_tool_invocation(id: &ToolInvocationId, events: &Vec<ToolInvocationEvent>) -> (r:
    Result<Option<ToolInvocation>, ToolInvocationStoreError>)
    ensures
        match project_invocation(id@, tool_events_view(events@)) {
            ToolInvocationProjection::Empty => r matches Ok(None),
            ToolInvocationProjection::InvalidHistory => r matches Err(
                ToolInvocationStoreError::InvalidHistory { event_count },
            ) && event_count == events@.len(),
            ToolInvocationProjection::Found(v) => r matches Ok(Some(inv)) && inv@ == v,
        },
{
    let n = events.len();
    if n == 0 {
        return Ok(None);
    }
    let ghost evs = tool_events_view(events@);
    assert(evs[0] == events@[0]@);
    let (tool_id, effect, task_id) = match &events[0] {
        ToolInvocationEvent::Intended { tool_id, effect } => (tool_id, *effect, None),
        ToolInvocationEvent::TaskIntended { tool_id, effect, task_id } => (
            tool_id,
            *effect,
            Some(task_id.clone()),
        ),
        _ => {
            return Err(ToolInvocationStoreError::InvalidHistory { event_count: n });
        },
    };
    let status = if n == 1 {
        ToolInvocationStatus::Pending
    } else if n == 2 {
        assert(evs[1] == events@[1]@);
        match &events[1] {
            ToolInvocationEvent::Denied => ToolInvocationStatus::Denied,
            ToolInvocationEvent::Succeeded => ToolInvocationStatus::Succeeded,
            ToolInvocationEvent::Failed => ToolInvocationStatus::Failed,
            _ => {
                return Err(ToolInvocationStoreError::InvalidHistory { event_count: n });
            },
        }
    } else {
        return Err(ToolInvocationStoreError::InvalidHistory { event_count: n });
    };
    Ok(
        Some(
            ToolInvocation { id: id.clone(), tool_id: tool_id.clone(), effect, status, task_id },
        ),
    )
}

/// The stream that holds one invocation: `tool-invocation:` followed by its id.
pub fn tool_invocation_stream(id: &ToolInvocationId) -> (r: StreamId)
    ensures
        r@ == "tool-invocation:"@ + id@,
{
    let mut name = "tool-invocation:".to_owned();
    name.append(id.as_str());
    proof {
        reveal_strlit("tool-invocation:");
    }
    match StreamId::new(name) {
        Ok(s) => s,
        Err(_) => {
            assert(false);
            StreamId::new("tool-invocation:".to_owned()).unwrap()
        },
    }
}

/// Recovers an invocation identity from the name of a stream that holds an intent.
pub fn invocation_id_from_stream(stream_id: String) -> (r: Result<ToolInvocationId, ToolInvocationStoreError>)
    ensures
        r is Ok <==> (exists|rest: Seq<char>|
            stream_id@ == "tool-invocation:"@ + rest && !is_blank(rest)),
        r matches Ok(id) ==> stream_id@ == "tool-invocation:"@ + id@,
        r matches Err(e) ==> (e matches ToolInvocationStoreError::InvalidStreamId { stream_id: s }
            && s@ == stream_id@),
{
    let rest = match strip_prefix(stream_id.as_str(), "tool-invocation:") {
        Some(rest) => rest.to_owned(),
        None => {
            proof {
                assert forall|rest: Seq<char>| stream_id@ != "tool-invocation:"@ + rest by {
                    if stream_id@ == "tool-invocation:"@ + rest {
                        assert(stream_id@.subrange(0, "tool-invocation:"@.len() as int)
                            =~= "tool-invocation:"@);
                    }
                }
            }
            return Err(ToolInvocationStoreError::InvalidStreamId { stream_id });
        },
    };
    let ghost p = "tool-invocation:"@;
    assert(stream_id@ =~= p + rest@);
    match ToolInvocationId::new(rest) {
        Ok(id) => Ok(id),
        Err(_) => {
            proof {
                assert forall|r2: Seq<char>| stream_id@ == p + r2 implies is_blank(r2) by {
                    assert(r2 =~= stream_id@.subrange(p.len() as int, stream_id@.len() as int));
                }
            }
            Err(ToolInvocationStoreError::InvalidStreamId { stream_id })
        },
    }
}

/// The intent event that opens an invocation without task association.
pub fn plan_tool_intent(tool_id: ToolId, effect: ToolEffect) -> (r: ToolInvocationEvent)
    ensures
        r@ == (ToolInvocationEventView::Intended { tool_id: tool_id@, effect }),
{
    ToolInvocationEvent::Intended { tool_id, effect }
}

/// A planned task-associated intent: the event and the exact task-stream version
/// the append must still find.
pub struct TaskIntent {
    pub event: ToolInvocationEvent,
    pub task_stream: StreamId,
    pub task_version: u64,
}

/// Plans a task-associated intent: the task must exist and be active.
pub fn plan_task_intent(
    task_id: &TaskId,
    task: Option<VersionedTask>,
    tool_id: ToolId,
    effect: ToolEffect,
) -> (r: Result<TaskIntent, ToolInvocationStoreError>)
    ensures
        task is None ==> (r matches Err(ToolInvocationStoreError::TaskNotFound { task_id: t })
            && t@ == task_id@),
        task matches Some(v) ==> (v.task@.status != TaskStatus::Active ==> (r matches Err(
            ToolInvocationStoreError::TaskNotActive { task_id: t, status },
        ) && t@ == task_id@ && status == v.task@.status)),
        task matches Some(v) ==> (v.task@.status == TaskStatus::Active ==> (r matches Ok(i) && {
            &&& i.event@ == (ToolInvocationEventView::TaskIntended {
                tool_id: tool_id@,
                effect,
                task_id: task_id@,
            })
            &&& i.task_stream@ == "task:"@ + task_id@
            &&& i.task_version == v.stream_version
        })),
{
    let v = match task {
        Some(v) => v,
        None => {
            return Err(ToolInvocationStoreError::TaskNotFound { task_id: task_id.clone() });
        },
    };
    let status = v.task.status();
    if status != TaskStatus::Active {
        return Err(ToolInvocationStoreError::TaskNotActive { task_id: task_id.clone(), status });
    }
    Ok(
        TaskIntent {
            event: ToolInvocationEvent::TaskIntended { tool_id, effect, task_id: task_id.clone() },
            task_stream: task_stream(task_id),
            task_version: v.stream_version,
        },
    )
}

/// Maps a failed intent append: an existing stream means the invocation exists,
/// and a moved associated task means the task changed.
pub fn intent_failure(id: &ToolInvocationId, task_id: Option<&TaskId>, error: EventLogError) -> (r:
    ToolInvocationStoreError)
    ensures
        (error matches EventLogError::WrongExpectedVersion {
            expected: ExpectedVersion::NoStream,
            current: Some(_),
        }) ==> (r matches ToolInvocationStoreError::AlreadyExists { invocation_id }
            && invocation_id@ == id@),
        (error matches EventLogError::WrongExpectedVersion {
            expected: ExpectedVersion::Exact(_),
            ..
        }) && task_id is Some ==> (r matches ToolInvocationStoreError::TaskChanged { task_id: t }
            && Some(t@) == opt_view(task_id)),
        !(error matches EventLogError::WrongExpectedVersion {
            expected: ExpectedVersion::NoStream,
            current: Some(_),
        }) && !((error matches EventLogError::WrongExpectedVersion {
            expected: ExpectedVersion::Exact(_),
            ..
        }) && task_id is Some) ==> (r matches ToolInvocationStoreError::EventLog(x) && x == error),
{
    match error {
        EventLogError::WrongExpectedVersion {
            expected: ExpectedVersion::NoStream,
            current: Some(_),
        } => ToolInvocationStoreError::AlreadyExists { invocation_id: id.clone() },
        EventLogError::WrongExpectedVersion { expected: ExpectedVersion::Exact(v), current } => {
            match task_id {
                Some(t) => ToolInvocationStoreError::TaskChanged { task_id: t.clone() },
                None => ToolInvocationStoreError::EventLog(
                    EventLogError::WrongExpectedVersion {
                        expected: ExpectedVersion::Exact(v),
                        current,
                    },
                ),
            }
        },
        error => ToolInvocationStoreError::EventLog(error),
    }
}

/// What one tool invocation does once its authorizer has answered.
#[derive(Clone, Copy, Debug, PartialEq, Eq, Structural)]
pub enum InvocationStep {
    /// The adapter runs.
    Invoke,
    /// The invocation is refused before the adapter runs.
    Refuse,
}

/// Decides whether an answered invocation reaches its adapter: only an explicit
/// allow does.
pub fn authorization_step(decision: PermissionDecision) -> (r: InvocationStep)
    ensures
        r == (if decision == PermissionDecision::Allow {
            InvocationStep::Invoke
        } else {
            InvocationStep::Refuse
        }),
{
    match decision {
        PermissionDecision::Allow => InvocationStep::Invoke,
        PermissionDecision::Deny => InvocationStep::Refuse,
    }
}

/// How one invocation attempt ended.
#[derive(Clone, Copy, Debug, PartialEq, Eq, Structural)]
pub enum AttemptOutcome {
    Refused,
    AdapterSucceeded,
    AdapterFailed,
}

/// The terminal status a durable invocation records for how its attempt ended.
pub fn attempt_status(outcome: AttemptOutcome) -> (r: ToolInvocationStatus)
    ensures
        r == match outcome {
            AttemptOutcome::Refused => ToolInvocationStatus::Denied,
            AttemptOutcome::AdapterSucceeded => ToolInvocationStatus::Succeeded,
            AttemptOutcome::AdapterFailed => ToolInvocationStatus::Failed,
        },
{
    match outcome {
        AttemptOutcome::Refused => ToolInvocationStatus::Denied,
        AttemptOutcome::AdapterSucceeded => ToolInvocationStatus::Succeeded,
        AttemptOutcome::AdapterFailed => ToolInvocationStatus::Failed,
    }
}

/// The outcome event recorded for a terminal status; a pending status has none.
pub fn outcome_event(status: ToolInvocationStatus) -> (r: Result<ToolInvocationEvent, ToolInvocationStoreError>)
    ensures
        status == ToolInvocationStatus::Pending <==> r is Err,
        r matches Err(e) ==> e matches ToolInvocationStoreError::InvalidHistory { event_count }
            && event_count == 1,
        r matches Ok(e) ==> outcome_status(e@) == Some(status),
{
    match status {
        ToolInvocationStatus::Denied => Ok(ToolInvocationEvent::Denied),
        ToolInvocationStatus::Succeeded => Ok(ToolInvocationEvent::Succeeded),
        ToolInvocationStatus::Failed => Ok(ToolInvocationEvent::Failed),
        ToolInvocationStatus::Pending => Err(ToolInvocationStoreError::InvalidHistory { event_count: 1 }),
    }
}

/// Read-after-write: an intent is reloaded as a pending invocation, and an
/// outcome appended to it is reloaded as that outcome's status.
pub proof fn lemma_invocation_outcome_is_reloaded(
    id: Seq<char>,
    intent: ToolInvocationEventView,
    outcome: ToolInvocationEventView,
)
    requires
        intent is Intended || intent is TaskIntended,
        outcome_status(outcome) is Some,
    ensures
        project_invocation(id, seq![intent]) matches ToolInvocationProjection::Found(p)
            && p.status == ToolInvocationStatus::Pending,
        project_invocation(id, seq![intent, outcome]) matches ToolInvocationProjection::Found(q)
            && Some(q.status) == outcome_status(outcome),
        project_invocation(id, seq![intent]) matches ToolInvocationProjection::Found(p)
            ==> (project_invocation(id, seq![intent, outcome]) matches ToolInvocationProjection::Found(q)
            && q.tool_id == p.tool_id && q.effect == p.effect && q.task_id == p.task_id),
{
}

} // verus!

verus! {

/// The payload schema of one stored tool-invocation event, chosen by its type and version.
#[derive(Clone, Copy, Debug, PartialEq, Eq, Structural)]
pub enum ToolPayloadKind {
    /// `tool.invocation_intended` at version 1: `{tool_id, effect}`.
    Intended,
    /// `tool.invocation_intended` at version 2: `{tool_id, effect, task_id}`.
    TaskIntended,
    /// `tool.invocation_denied` at version 1: `{}`.
    Denied,
    /// `tool.invocation_succeeded` at version 1: `{}`.
    Succeeded,
    /// `tool.invocation_failed` at version 1: `{}`.
    Failed,
}

pub open spec fn tool_payload_kind_of(event_type: Seq<char>, version: u32) -> Option<ToolPayloadKind> {
    if event_type == "tool.invocation_intended"@ {
        if version == 1 {
            Some(ToolPayloadKind::Intended)
        } else if version == 2 {
            Some(ToolPayloadKind::TaskIntended)
        } else {
            None
        }
    } else if version != 1 {
        None
    } else if event_type == "tool.invocation_denied"@ {
        Some(ToolPayloadKind::Denied)
    } else if event_type == "tool.invocation_succeeded"@ {
        Some(ToolPayloadKind::Succeeded)
    } else if event_type == "tool.invocation_failed"@ {
        Some(ToolPayloadKind::Failed)
    } else {
        None
    }
}

/// Chooses the payload schema of a stored tool-invocation event, refusing an
/// unknown type or version.
pub fn tool_payload_kind(event_type: &str, payload_version: u32) -> (r: Result<
    ToolPayloadKind,
    DecodeError,
>)
    ensures
        match tool_payload_kind_of(event_type@, payload_version) {
            Some(k) => r matches Ok(k2) && k2 == k,
            None => r matches Err(DecodeError::UnsupportedEvent { event_type: t, payload_version: v })
                && t@ == event_type@ && v == payload_version,
        },
{
    if str_equals(event_type, "tool.invocation_intended") {
        if payload_version == 1 {
            Ok(ToolPayloadKind::Intended)
        } else if payload_version == 2 {
            Ok(ToolPayloadKind::TaskIntended)
        } else {
            Err(DecodeError::UnsupportedEvent { event_type: event_type.to_owned(), payload_version })
        }
    } else if payload_version != 1 {
        Err(DecodeError::UnsupportedEvent { event_type: event_type.to_owned(), payload_version })
    } else if str_equals(event_type, "tool.invocation_denied") {
        Ok(ToolPayloadKind::Denied)
    } else if str_equals(event_type, "tool.invocation_succeeded") {
        Ok(ToolPayloadKind::Succeeded)
    } else if str_equals(event_type, "tool.invocation_failed") {
        Ok(ToolPayloadKind::Failed)
    } else {
        Err(DecodeError::UnsupportedEvent { event_type: event_type.to_owned(), payload_version })
    }
}

/// A parsed tool-invocation payload: its fields as plain values.
pub enum ToolPayload {
    Intent { tool_id: String, effect: ToolEffect, task_id: Option<String> },
    Empty,
}

pub open spec fn tool_payload_fits(kind: ToolPayloadKind, payload: ToolPayload) -> bool {
    match kind {
        ToolPayloadKind::Intended => payload matches ToolPayload::Intent { task_id: None, .. },
        ToolPayloadKind::TaskIntended => payload matches ToolPayload::Intent {
            task_id: Some(_),
            ..
        },
        _ => payload is Empty,
    }
}

/// The event a fitting parsed tool-invocation payload decodes to, or the
/// validation text of the first field it refuses.
pub open spec fn tool_decoded(kind: ToolPayloadKind, payload: ToolPayload) -> Result<
    ToolInvocationEventView,
    Seq<char>,
> {
    match payload {
        ToolPayload::Intent { tool_id, effect, task_id } => if is_blank(tool_id@) {
            Err("tool id must not be blank"@)
        } else {
            match task_id {
                None => Ok(ToolInvocationEventView::Intended { tool_id: tool_id@, effect }),
                Some(t) => if t@.len() == 0 {
                    Err("task id must not be empty"@)
                } else {
                    Ok(
                        ToolInvocationEventView::TaskIntended {
                            tool_id: tool_id@,
                            effect,
                            task_id: t@,
                        },
                    )
                },
            }
        },
        ToolPayload::Empty => match kind {
            ToolPayloadKind::Denied => Ok(ToolInvocationEventView::Denied),
            ToolPayloadKind::Succeeded => Ok(ToolInvocationEventView::Succeeded),
            _ => Ok(ToolInvocationEventView::Failed),
        },
    }
}

/// Validates the fields of a parsed tool-invocation payload into its event.
pub fn tool_event_from_payload(kind: ToolPayloadKind, payload: ToolPayload) -> (r: Result<
    ToolInvocationEvent,
    DecodeError,
>)
    requires
        tool_payload_fits(kind, payload),
    ensures
        match tool_decoded(kind, payload) {
            Ok(e) => r matches Ok(ev) && ev@ == e,
            Err(m) => r matches Err(DecodeError::MalformedPayload { message }) && message@ == m,
        },
{
    match payload {
        ToolPayload::Intent { tool_id, effect, task_id } => {
            let tool_id = match ToolId::new(tool_id) {
                Ok(t) => t,
                Err(e) => {
                    return Err(DecodeError::MalformedPayload { message: e.to_string() });
                },
            };
            match task_id {
                None => Ok(ToolInvocationEvent::Intended { tool_id, effect }),
                Some(t) => match TaskId::new(t) {
                    Ok(task_id) => Ok(ToolInvocationEvent::TaskIntended { tool_id, effect, task_id }),
                    Err(e) => Err(DecodeError::MalformedPayload { message: e.to_string() }),
                },
            }
        },
        ToolPayload::Empty => match kind {
            ToolPayloadKind::Denied => Ok(ToolInvocationEvent::Denied),
            ToolPayloadKind::Succeeded => Ok(ToolInvocationEvent::Succeeded),
            _ => Ok(ToolInvocationEvent::Failed),
        },
    }
}

/// The parsed payload `p` carries exactly the fields of the tool-invocation event `e`.
pub open spec fn tool_payload_carries(e: ToolInvocationEventView, p: ToolPayload) -> bool {
    match (e, p) {
        (
            ToolInvocationEventView::Intended { tool_id, effect },
            ToolPayload::Intent { tool_id: t, effect: f, task_id: None },
        ) => t@ == tool_id && f == effect,
        (
            ToolInvocationEventView::TaskIntended { tool_id, effect, task_id },
            ToolPayload::Intent { tool_id: t, effect: f, task_id: Some(k) },
        ) => t@ == tool_id && f == effect && k@ == task_id,
        (ToolInvocationEventView::Denied, ToolPayload::Empty) => true,
        (ToolInvocationEventView::Succeeded, ToolPayload::Empty) => true,
        (ToolInvocationEventView::Failed, ToolPayload::Empty) => true,
        _ => false,
    }
}

/// The fields of a tool-invocation event satisfy the rules of their types.
pub open spec fn tool_event_fields_valid(e: ToolInvocationEventView) -> bool {
    match e {
        ToolInvocationEventView::Intended { tool_id, .. } => !is_blank(tool_id),
        ToolInvocationEventView::TaskIntended { tool_id, task_id, .. } => !is_blank(tool_id)
            && task_id.len() > 0,
        _ => true,
    }
}

/// Round trip: the stored type and version of a tool-invocation event select a
/// schema that its payload fits, and the payload decodes back to the event.
pub proof fn lemma_tool_event_round_trip(e: ToolInvocationEventView, p: ToolPayload)
    requires
        tool_event_fields_valid(e),
        tool_payload_carries(e, p),
    ensures
        tool_payload_kind_of(tool_event_type(e), tool_payload_version(e)) matches Some(k)
            && tool_payload_fits(k, p) && tool_decoded(k, p) == Ok::<
            ToolInvocationEventView,
            Seq<char>,
        >(e),
{
    reveal_strlit("tool.invocation_intended");
    reveal_strlit("tool.invocation_denied");
    reveal_strlit("tool.invocation_succeeded");
    reveal_strlit("tool.invocation_failed");
    assert("tool.invocation_intended"@.len() == 24);
    assert("tool.invocation_denied"@.len() == 22);
    assert("tool.invocation_succeeded"@.len() == 25);
    assert("tool.invocation_failed"@.len() == 22);
    assert("tool.invocation_denied"@[16] != "tool.invocation_failed"@[16]);
}

} // verus!
