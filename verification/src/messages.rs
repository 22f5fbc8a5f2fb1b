use vstd::prelude::*;

use crate::event_log::{DecodeError, EventLogError, ExpectedVersion, ReplayError};
use crate::scheduler::{
    OccurrencePageSizeError, RecurrenceOccurrenceLookupError, RecurrenceStoreError,
    ScheduleOccurrenceError, ScheduleStoreError,
};
use crate::session::SessionStoreError;
use crate::skill::{RegisteredSkill, SkillRegistryError, SkillView};
use crate::task::{TaskObservationKind, TaskStatus, TaskStoreError};
use crate::text::{decimal, str_equals, u64_to_decimal};
use crate::tool::{ToolInvocationStoreError, ToolRegistryError};
use crate::workflow::{
    cursor_error_text, RegisteredWorkflow, WorkflowRegistryError, WorkflowRunStoreError, WorkflowView,
};
use vstd::utf8::encode_utf8;

verus! {

/// `text` is the message `m` describes: exactly its text when it is complete,
/// and a text that starts with it when an outside error's wording follows.
pub open spec fn describes(text: Seq<char>, m: (Seq<char>, bool)) -> bool {
    if m.1 {
        text == m.0
    } else {
        m.0.len() <= text.len() && text.subrange(0, m.0.len() as int) == m.0
    }
}

/// A described text stays described behind a prefix.
pub proof fn lemma_describes_after(prefix: Seq<char>, text: Seq<char>, m: (Seq<char>, bool))
    requires
        describes(text, m),
    ensures
        describes(prefix + text, (prefix + m.0, m.1)),
{
    if !m.1 {
        let whole = prefix + text;
        let p = prefix + m.0;
        assert forall|j: int| 0 <= j < p.len() implies whole.subrange(0, p.len() as int)[j]
            == p[j] by {
            if j >= prefix.len() {
                assert(text.subrange(0, m.0.len() as int)[j - prefix.len()] == m.0[j
                    - prefix.len()]);
            }
        }
        assert(whole.subrange(0, p.len() as int) =~= p);
    }
}

/// Any text after a prefix is described by that prefix alone.
pub proof fn lemma_prefix_described(prefix: Seq<char>, text: Seq<char>)
    ensures
        describes(prefix + text, (prefix, false)),
{
    assert((prefix + text).subrange(0, prefix.len() as int) =~= prefix);
}

/// The decimal text of a signed integer, with a leading minus when negative.
pub open spec fn signed_decimal(v: int) -> Seq<char> {
    if v < 0 {
        "-"@ + decimal((-v) as nat)
    } else {
        decimal(v as nat)
    }
}

/// Renders a signed integer in decimal.
pub fn i64_to_decimal(v: i64) -> (r: String)
    ensures
        r@ == signed_decimal(v as int),
{
    if v < 0 {
        let magnitude: u64 = (-(v as i128)) as u64;
        let mut s = "-".to_owned();
        let digits = u64_to_decimal(magnitude);
        s.append(digits.as_str());
        s
    } else {
        u64_to_decimal(v as u64)
    }
}

/// What `<str as Debug>::fmt` writes for a string: the string quoted, with its
/// special characters escaped.
pub uninterp spec fn debug_string_text(s: Seq<char>) -> Seq<char>;

/// `<str as Debug>::fmt`: the quoted, escaped form of a string. Its escaping
/// rules are std's; the contract names the result as a function of the text.
#[verifier::external_body]
pub(crate) fn debug_string(s: &str) -> (r: String)
    ensures
        r@ == debug_string_text(s@),
{
    format!("{s:?}")
}

/// `Display` of a `rusqlite::Error`. Its wording is rusqlite's and nothing is
/// stated of it.
#[verifier::external_body]
fn storage_error_display(error: &rusqlite::Error) -> String {
    error.to_string()
}

/// `Display` of a `serde_json::Error`. Its wording is serde_json's and nothing
/// is stated of it.
#[verifier::external_body]
fn encode_error_display(error: &serde_json::Error) -> String {
    error.to_string()
}

/// The name `Debug` gives a task status.
pub open spec fn task_status_name(s: TaskStatus) -> Seq<char> {
    match s {
        TaskStatus::Active => "Active"@,
        TaskStatus::Completed => "Completed"@,
        TaskStatus::Cancelled => "Cancelled"@,
        TaskStatus::Failed => "Failed"@,
    }
}

fn task_status_label(s: TaskStatus) -> (r: &'static str)
    ensures
        r@ == task_status_name(s),
{
    match s {
        TaskStatus::Active => "Active",
        TaskStatus::Completed => "Completed",
        TaskStatus::Cancelled => "Cancelled",
        TaskStatus::Failed => "Failed",
    }
}

/// The name `Debug` gives an observation kind.
pub open spec fn observation_kind_name(k: TaskObservationKind) -> Seq<char> {
    match k {
        TaskObservationKind::Attempt => "Attempt"@,
        TaskObservationKind::Diagnostic => "Diagnostic"@,
        TaskObservationKind::Correction => "Correction"@,
        TaskObservationKind::Verification => "Verification"@,
    }
}

fn observation_kind_label(k: TaskObservationKind) -> (r: &'static str)
    ensures
        r@ == observation_kind_name(k),
{
    match k {
        TaskObservationKind::Attempt => "Attempt",
        TaskObservationKind::Diagnostic => "Diagnostic",
        TaskObservationKind::Correction => "Correction",
        TaskObservationKind::Verification => "Verification",
    }
}

/// How a rejected append names the version the caller expected.
pub open spec fn expected_version_text(e: ExpectedVersion) -> Seq<char> {
    match e {
        ExpectedVersion::NoStream => "no stream"@,
        ExpectedVersion::Exact(v) => "version "@ + decimal(v as nat),
    }
}

fn expected_version_label(e: &ExpectedVersion) -> (r: String)
    ensures
        r@ == expected_version_text(*e),
{
    match e {
        ExpectedVersion::NoStream => "no stream".to_owned(),
        ExpectedVersion::Exact(v) => {
            let mut s = "version ".to_owned();
            let digits = u64_to_decimal(*v);
            s.append(digits.as_str());
            s
        },
    }
}

/// How a rejected append names the stream's current version.
pub open spec fn current_version_text(c: Option<u64>) -> Seq<char> {
    match c {
        Some(v) => ", current version is "@ + decimal(v as nat),
        None => ", stream does not exist"@,
    }
}

fn current_version_label(c: &Option<u64>) -> (r: String)
    ensures
        r@ == current_version_text(*c),
{
    match c {
        Some(v) => {
            let mut s = ", current version is ".to_owned();
            let digits = u64_to_decimal(*v);
            s.append(digits.as_str());
            s
        },
        None => ", stream does not exist".to_owned(),
    }
}

/// The text of an occurrence that cannot be represented.
pub open spec fn occurrence_error_text(e: ScheduleOccurrenceError) -> Seq<char> {
    "schedule instant "@ + decimal(e@.instant as nat) + " cannot advance by interval "@
        + decimal(e@.interval as nat) + " milliseconds at offset "@ + decimal(e@.offset as nat)
}

/// What `DecodeError::to_string` displays; incomplete only where an outside
/// error's own text follows the prefix.
pub open spec fn decode_error_message(e: DecodeError) -> (Seq<char>, bool) {
    match e {
        DecodeError::UnsupportedEvent { event_type, payload_version } => ("unsupported event "@ + event_type@ + " at payload version "@ + decimal(payload_version as nat), true),
        DecodeError::MalformedPayload { message } => ("malformed event payload: "@ + message@, true),
    }
}

impl DecodeError {
    /// The error rendered as text.
    pub fn to_string(&self) -> (r: String)
        ensures
            describes(r@, decode_error_message(*self)),
    {
        match self {
            DecodeError::UnsupportedEvent { event_type, payload_version } => {
                let mut s = "unsupported event ".to_owned();
                s.append(event_type.as_str());
                s.append(" at payload version ");
                let t2 = u64_to_decimal(*payload_version as u64);
                s.append(t2.as_str());
                s
            },
            DecodeError::MalformedPayload { message } => {
                let mut s = "malformed event payload: ".to_owned();
                s.append(message.as_str());
                s
            },
        }
    }
}

/// What `EventLogError::to_string` displays; incomplete only where an outside
/// error's own text follows the prefix.
pub open spec fn event_log_error_message(e: EventLogError) -> (Seq<char>, bool) {
    match e {
        EventLogError::Storage(error) => ("event-log storage error: "@, false),
        EventLogError::Encode(error) => ("event payload encoding failed: "@, false),
        EventLogError::UnsupportedJournalMode(mode) => ("event log requires WAL journal mode, found "@ + mode@, true),
        EventLogError::InvalidEventType => ("event type must not be empty"@, true),
        EventLogError::InvalidPayloadVersion(version) => ("invalid event payload version "@ + decimal(version as nat), true),
        EventLogError::WrongExpectedVersion { expected, current } => ("wrong expected version: expected "@ + expected_version_text(expected) + current_version_text(current), true),
        EventLogError::VersionOutOfRange(version) => ("stream version "@ + decimal(version as nat) + " cannot be stored by SQLite"@, true),
    }
}

impl EventLogError {
    /// The error rendered as text.
    pub fn to_string(&self) -> (r: String)
        ensures
            describes(r@, event_log_error_message(*self)),
    {
        match self {
            EventLogError::Storage(error) => {
                let mut s = "event-log storage error: ".to_owned();
                let ghost before = s@;
                let inner = storage_error_display(error);
                s.append(inner.as_str());
                proof {
                    lemma_prefix_described(before, inner@);
                }
                s
            },
            EventLogError::Encode(error) => {
                let mut s = "event payload encoding failed: ".to_owned();
                let ghost before = s@;
                let inner = encode_error_display(error);
                s.append(inner.as_str());
                proof {
                    lemma_prefix_described(before, inner@);
                }
                s
            },
            EventLogError::UnsupportedJournalMode(mode) => {
                let mut s = "event log requires WAL journal mode, found ".to_owned();
                s.append(mode.as_str());
                s
            },
            EventLogError::InvalidEventType => {
                let mut s = "event type must not be empty".to_owned();
                s
            },
            EventLogError::InvalidPayloadVersion(version) => {
                let mut s = "invalid event payload version ".to_owned();
                let t0 = u64_to_decimal(*version as u64);
                s.append(t0.as_str());
                s
            },
            EventLogError::WrongExpectedVersion { expected, current } => {
                let mut s = "wrong expected version: expected ".to_owned();
                s.append(expected_version_label(expected).as_str());
                s.append(current_version_label(current).as_str());
                s
            },
            EventLogError::VersionOutOfRange(version) => {
                let mut s = "stream version ".to_owned();
                let t0 = u64_to_decimal(*version);
                s.append(t0.as_str());
                s.append(" cannot be stored by SQLite");
                s
            },
        }
    }
}

/// What `ReplayError::to_string` displays; incomplete only where an outside
/// error's own text follows the prefix.
pub open spec fn replay_error_message(e: ReplayError) -> (Seq<char>, bool) {
    match e {
        ReplayError::Storage(error) => ("event-log storage error: "@, false),
        ReplayError::UnsupportedEvent { event_type, payload_version } => ("unsupported event "@ + event_type@ + " payload version "@ + decimal(payload_version as nat), true),
        ReplayError::MalformedPayload { stream_version, message } => ("malformed payload at stream version "@ + decimal(stream_version as nat) + ": "@ + message@, true),
        ReplayError::VersionGap { expected, found } => ("stream version gap: expected version "@ + decimal(expected as nat) + ", found "@ + decimal(found as nat), true),
        ReplayError::InvalidStoredVersion(version) => ("invalid stored stream version "@ + signed_decimal(version as int), true),
        ReplayError::InvalidStoredPayloadVersion(version) => ("invalid stored payload version "@ + signed_decimal(version as int), true),
    }
}

impl ReplayError {
    /// The error rendered as text.
    pub fn to_string(&self) -> (r: String)
        ensures
            describes(r@, replay_error_message(*self)),
    {
        match self {
            ReplayError::Storage(error) => {
                let mut s = "event-log storage error: ".to_owned();
                let ghost before = s@;
                let inner = storage_error_display(error);
                s.append(inner.as_str());
                proof {
                    lemma_prefix_described(before, inner@);
                }
                s
            },
            ReplayError::UnsupportedEvent { event_type, payload_version } => {
                let mut s = "unsupported event ".to_owned();
                s.append(event_type.as_str());
                s.append(" payload version ");
                let t2 = u64_to_decimal(*payload_version as u64);
                s.append(t2.as_str());
                s
            },
            ReplayError::MalformedPayload { stream_version, message } => {
                let mut s = "malformed payload at stream version ".to_owned();
                let t0 = u64_to_decimal(*stream_version);
                s.append(t0.as_str());
                s.append(": ");
                s.append(message.as_str());
                s
            },
            ReplayError::VersionGap { expected, found } => {
                let mut s = "stream version gap: expected version ".to_owned();
                let t0 = u64_to_decimal(*expected);
                s.append(t0.as_str());
                s.append(", found ");
                let t2 = u64_to_decimal(*found);
                s.append(t2.as_str());
                s
            },
            ReplayError::InvalidStoredVersion(version) => {
                let mut s = "invalid stored stream version ".to_owned();
                let t0 = i64_to_decimal(*version);
                s.append(t0.as_str());
                s
            },
            ReplayError::InvalidStoredPayloadVersion(version) => {
                let mut s = "invalid stored payload version ".to_owned();
                let t0 = i64_to_decimal(*version);
                s.append(t0.as_str());
                s
            },
        }
    }
}

/// What `SessionStoreError::to_string` displays; incomplete only where an outside
/// error's own text follows the prefix.
pub open spec fn session_store_error_message(e: SessionStoreError) -> (Seq<char>, bool) {
    match e {
        SessionStoreError::EventLog(error) => ("session event-log error: "@ + event_log_error_message(error).0, event_log_error_message(error).1),
        SessionStoreError::Replay(error) => ("session replay error: "@ + replay_error_message(error).0, replay_error_message(error).1),
        SessionStoreError::AlreadyExists { session_id } => ("session "@ + session_id@ + " already exists"@, true),
        SessionStoreError::NotFound { session_id } => ("session "@ + session_id@ + " was not found"@, true),
        SessionStoreError::AlreadyClosed { session_id } => ("session "@ + session_id@ + " is already closed"@, true),
        SessionStoreError::AlreadyOpen { session_id } => ("session "@ + session_id@ + " is already open"@, true),
        SessionStoreError::InvalidHistory { event_count } => ("invalid session history with "@ + decimal(event_count as nat) + " lifecycle events"@, true),
    }
}

impl SessionStoreError {
    /// The error rendered as text.
    pub fn to_string(&self) -> (r: String)
        ensures
            describes(r@, session_store_error_message(*self)),
    {
        match self {
            SessionStoreError::EventLog(error) => {
                let mut s = "session event-log error: ".to_owned();
                let ghost before = s@;
                let inner = error.to_string();
                s.append(inner.as_str());
                proof {
                    lemma_describes_after(before, inner@, event_log_error_message(*error));
                }
                s
            },
            SessionStoreError::Replay(error) => {
                let mut s = "session replay error: ".to_owned();
                let ghost before = s@;
                let inner = error.to_string();
                s.append(inner.as_str());
                proof {
                    lemma_describes_after(before, inner@, replay_error_message(*error));
                }
                s
            },
            SessionStoreError::AlreadyExists { session_id } => {
                let mut s = "session ".to_owned();
                s.append(session_id.as_str());
                s.append(" already exists");
                s
            },
            SessionStoreError::NotFound { session_id } => {
                let mut s = "session ".to_owned();
                s.append(session_id.as_str());
                s.append(" was not found");
                s
            },
            SessionStoreError::AlreadyClosed { session_id } => {
                let mut s = "session ".to_owned();
                s.append(session_id.as_str());
                s.append(" is already closed");
                s
            },
            SessionStoreError::AlreadyOpen { session_id } => {
                let mut s = "session ".to_owned();
                s.append(session_id.as_str());
                s.append(" is already open");
                s
            },
            SessionStoreError::InvalidHistory { event_count } => {
                let mut s = "invalid session history with ".to_owned();
                let t0 = u64_to_decimal(*event_count as u64);
                s.append(t0.as_str());
                s.append(" lifecycle events");
                s
            },
        }
    }
}

/// What `TaskStoreError::to_string` displays; incomplete only where an outside
/// error's own text follows the prefix.
pub open spec fn task_store_error_message(e: TaskStoreError) -> (Seq<char>, bool) {
    match e {
        TaskStoreError::EventLog(error) => ("task event-log error: "@ + event_log_error_message(error).0, event_log_error_message(error).1),
        TaskStoreError::Replay(error) => ("task replay error: "@ + replay_error_message(error).0, replay_error_message(error).1),
        TaskStoreError::AlreadyExists { task_id } => ("task "@ + task_id@ + " already exists"@, true),
        TaskStoreError::NotFound { task_id } => ("task "@ + task_id@ + " was not found"@, true),
        TaskStoreError::AlreadyCompleted { task_id } => ("task "@ + task_id@ + " is already completed"@, true),
        TaskStoreError::AlreadyCancelled { task_id } => ("task "@ + task_id@ + " is already cancelled"@, true),
        TaskStoreError::AlreadyFailed { task_id } => ("task "@ + task_id@ + " has already failed"@, true),
        TaskStoreError::SessionNotFound { session_id } => ("session "@ + session_id@ + " was not found"@, true),
        TaskStoreError::SessionClosed { session_id } => ("session "@ + session_id@ + " is closed"@, true),
        TaskStoreError::AlreadyAssociated { task_id, session_id } => ("task "@ + task_id@ + " is already associated with session "@ + session_id@, true),
        TaskStoreError::DuplicateObservation { task_id, observation_id } => ("task "@ + task_id@ + " already has observation "@ + observation_id@, true),
        TaskStoreError::AttemptCannotHaveParent { task_id, observation_id, parent_observation_id } => ("task "@ + task_id@ + " attempt "@ + observation_id@ + " cannot have parent observation "@ + parent_observation_id@, true),
        TaskStoreError::ParentObservationNotFound { task_id, parent_observation_id } => ("task "@ + task_id@ + " has no parent observation "@ + parent_observation_id@, true),
        TaskStoreError::ParentObservationNotAttempt { task_id, parent_observation_id, parent_kind } => ("task "@ + task_id@ + " parent observation "@ + parent_observation_id@ + " has kind "@ + observation_kind_name(parent_kind) + ", not attempt"@, true),
        TaskStoreError::Session(error) => ("task session-store error: "@ + session_store_error_message(error).0, session_store_error_message(error).1),
        TaskStoreError::InvalidStreamId { stream_id } => ("invalid task stream id "@ + stream_id@, true),
        TaskStoreError::InvalidHistory { event_count } => ("invalid task history with "@ + decimal(event_count as nat) + " lifecycle events"@, true),
    }
}

impl TaskStoreError {
    /// The error rendered as text.
    pub fn to_string(&self) -> (r: String)
        ensures
            describes(r@, task_store_error_message(*self)),
    {
        match self {
            TaskStoreError::EventLog(error) => {
                let mut s = "task event-log error: ".to_owned();
                let ghost before = s@;
                let inner = error.to_string();
                s.append(inner.as_str());
                proof {
                    lemma_describes_after(before, inner@, event_log_error_message(*error));
                }
                s
            },
            TaskStoreError::Replay(error) => {
                let mut s = "task replay error: ".to_owned();
                let ghost before = s@;
                let inner = error.to_string();
                s.append(inner.as_str());
                proof {
                    lemma_describes_after(before, inner@, replay_error_message(*error));
                }
                s
            },
            TaskStoreError::AlreadyExists { task_id } => {
                let mut s = "task ".to_owned();
                s.append(task_id.as_str());
                s.append(" already exists");
                s
            },
            TaskStoreError::NotFound { task_id } => {
                let mut s = "task ".to_owned();
                s.append(task_id.as_str());
                s.append(" was not found");
                s
            },
            TaskStoreError::AlreadyCompleted { task_id } => {
                let mut s = "task ".to_owned();
                s.append(task_id.as_str());
                s.append(" is already completed");
                s
            },
            TaskStoreError::AlreadyCancelled { task_id } => {
                let mut s = "task ".to_owned();
                s.append(task_id.as_str());
                s.append(" is already cancelled");
                s
            },
            TaskStoreError::AlreadyFailed { task_id } => {
                let mut s = "task ".to_owned();
                s.append(task_id.as_str());
                s.append(" has already failed");
                s
            },
            TaskStoreError::SessionNotFound { session_id } => {
                let mut s = "session ".to_owned();
                s.append(session_id.as_str());
                s.append(" was not found");
                s
            },
            TaskStoreError::SessionClosed { session_id } => {
                let mut s = "session ".to_owned();
                s.append(session_id.as_str());
                s.append(" is closed");
                s
            },
            TaskStoreError::AlreadyAssociated { task_id, session_id } => {
                let mut s = "task ".to_owned();
                s.append(task_id.as_str());
                s.append(" is already associated with session ");
                s.append(session_id.as_str());
                s
            },
            TaskStoreError::DuplicateObservation { task_id, observation_id } => {
                let mut s = "task ".to_owned();
                s.append(task_id.as_str());
                s.append(" already has observation ");
                s.append(observation_id.as_str());
                s
            },
            TaskStoreError::AttemptCannotHaveParent { task_id, observation_id, parent_observation_id } => {
                let mut s = "task ".to_owned();
                s.append(task_id.as_str());
                s.append(" attempt ");
                s.append(observation_id.as_str());
                s.append(" cannot have parent observation ");
                s.append(parent_observation_id.as_str());
                s
            },
            TaskStoreError::ParentObservationNotFound { task_id, parent_observation_id } => {
                let mut s = "task ".to_owned();
                s.append(task_id.as_str());
                s.append(" has no parent observation ");
                s.append(parent_observation_id.as_str());
                s
            },
            TaskStoreError::ParentObservationNotAttempt { task_id, parent_observation_id, parent_kind } => {
                let mut s = "task ".to_owned();
                s.append(task_id.as_str());
                s.append(" parent observation ");
                s.append(parent_observation_id.as_str());
                s.append(" has kind ");
                s.append(observation_kind_label(*parent_kind));
                s.append(", not attempt");
                s
            },
            TaskStoreError::Session(error) => {
                let mut s = "task session-store error: ".to_owned();
                let ghost before = s@;
                let inner = error.to_string();
                s.append(inner.as_str());
                proof {
                    lemma_describes_after(before, inner@, session_store_error_message(*error));
                }
                s
            },
            TaskStoreError::InvalidStreamId { stream_id } => {
                let mut s = "invalid task stream id ".to_owned();
                s.append(stream_id.as_str());
                s
            },
            TaskStoreError::InvalidHistory { event_count } => {
                let mut s = "invalid task history with ".to_owned();
                let t0 = u64_to_decimal(*event_count as u64);
                s.append(t0.as_str());
                s.append(" lifecycle events");
                s
            },
        }
    }
}

/// What `ScheduleStoreError::to_string` displays; incomplete only where an outside
/// error's own text follows the prefix.
pub open spec fn schedule_store_error_message(e: ScheduleStoreError) -> (Seq<char>, bool) {
    match e {
        ScheduleStoreError::EventLog(error) => ("schedule event-log error: "@ + event_log_error_message(error).0, event_log_error_message(error).1),
        ScheduleStoreError::Replay(error) => ("schedule replay error: "@ + replay_error_message(error).0, replay_error_message(error).1),
        ScheduleStoreError::AlreadyExists { schedule_id } => ("schedule "@ + schedule_id@ + " already exists"@, true),
        ScheduleStoreError::NotFound { schedule_id } => ("schedule "@ + schedule_id@ + " not found"@, true),
        ScheduleStoreError::AlreadyCancelled { schedule_id } => ("schedule "@ + schedule_id@ + " is already cancelled"@, true),
        ScheduleStoreError::AlreadyClaimed { schedule_id } => ("schedule "@ + schedule_id@ + " is already claimed"@, true),
        ScheduleStoreError::NotClaimed { schedule_id } => ("schedule "@ + schedule_id@ + " is not claimed"@, true),
        ScheduleStoreError::AlreadyMaterialized { schedule_id, task_id } => ("schedule "@ + schedule_id@ + " is already materialized as task "@ + task_id@, true),
        ScheduleStoreError::TaskAlreadyExists { task_id } => ("task "@ + task_id@ + " already exists"@, true),
        ScheduleStoreError::AmbiguousTaskBinding { task_id, schedule_count } => ("task "@ + task_id@ + " is bound to "@ + decimal(schedule_count as nat) + " schedules"@, true),
        ScheduleStoreError::ConcurrentModification { schedule_id, expected_revision, current_revision } => ("schedule "@ + schedule_id@ + " changed from revision "@ + decimal(expected_revision as nat) + " to "@ + decimal(current_revision as nat), true),
        ScheduleStoreError::NotDue { schedule_id, due_at, cutoff } => ("schedule "@ + schedule_id@ + " is due at "@ + decimal(due_at@ as nat) + " after cutoff "@ + decimal(cutoff@ as nat), true),
        ScheduleStoreError::InvalidStreamId { stream_id } => ("invalid schedule stream id "@ + debug_string_text(stream_id@), true),
        ScheduleStoreError::InvalidHistory { event_count } => ("invalid schedule history with "@ + decimal(event_count as nat) + " events"@, true),
    }
}

impl ScheduleStoreError {
    /// The error rendered as text.
    pub fn to_string(&self) -> (r: String)
        ensures
            describes(r@, schedule_store_error_message(*self)),
    {
        match self {
            ScheduleStoreError::EventLog(error) => {
                let mut s = "schedule event-log error: ".to_owned();
                let ghost before = s@;
                let inner = error.to_string();
                s.append(inner.as_str());
                proof {
                    lemma_describes_after(before, inner@, event_log_error_message(*error));
                }
                s
            },
            ScheduleStoreError::Replay(error) => {
                let mut s = "schedule replay error: ".to_owned();
                let ghost before = s@;
                let inner = error.to_string();
                s.append(inner.as_str());
                proof {
                    lemma_describes_after(before, inner@, replay_error_message(*error));
                }
                s
            },
            ScheduleStoreError::AlreadyExists { schedule_id } => {
                let mut s = "schedule ".to_owned();
                s.append(schedule_id.as_str());
                s.append(" already exists");
                s
            },
            ScheduleStoreError::NotFound { schedule_id } => {
                let mut s = "schedule ".to_owned();
                s.append(schedule_id.as_str());
                s.append(" not found");
                s
            },
            ScheduleStoreError::AlreadyCancelled { schedule_id } => {
                let mut s = "schedule ".to_owned();
                s.append(schedule_id.as_str());
                s.append(" is already cancelled");
                s
            },
            ScheduleStoreError::AlreadyClaimed { schedule_id } => {
                let mut s = "schedule ".to_owned();
                s.append(schedule_id.as_str());
                s.append(" is already claimed");
                s
            },
            ScheduleStoreError::NotClaimed { schedule_id } => {
                let mut s = "schedule ".to_owned();
                s.append(schedule_id.as_str());
                s.append(" is not claimed");
                s
            },
            ScheduleStoreError::AlreadyMaterialized { schedule_id, task_id } => {
                let mut s = "schedule ".to_owned();
                s.append(schedule_id.as_str());
                s.append(" is already materialized as task ");
                s.append(task_id.as_str());
                s
            },
            ScheduleStoreError::TaskAlreadyExists { task_id } => {
                let mut s = "task ".to_owned();
                s.append(task_id.as_str());
                s.append(" already exists");
                s
            },
            ScheduleStoreError::AmbiguousTaskBinding { task_id, schedule_count } => {
                let mut s = "task ".to_owned();
                s.append(task_id.as_str());
                s.append(" is bound to ");
                let t2 = u64_to_decimal(*schedule_count as u64);
                s.append(t2.as_str());
                s.append(" schedules");
                s
            },
            ScheduleStoreError::ConcurrentModification { schedule_id, expected_revision, current_revision } => {
                let mut s = "schedule ".to_owned();
                s.append(schedule_id.as_str());
                s.append(" changed from revision ");
                let t2 = u64_to_decimal(*expected_revision);
                s.append(t2.as_str());
                s.append(" to ");
                let t4 = u64_to_decimal(*current_revision);
                s.append(t4.as_str());
                s
            },
            ScheduleStoreError::NotDue { schedule_id, due_at, cutoff } => {
                let mut s = "schedule ".to_owned();
                s.append(schedule_id.as_str());
                s.append(" is due at ");
                let t2 = u64_to_decimal(due_at.unix_millis());
                s.append(t2.as_str());
                s.append(" after cutoff ");
                let t4 = u64_to_decimal(cutoff.unix_millis());
                s.append(t4.as_str());
                s
            },
            ScheduleStoreError::InvalidStreamId { stream_id } => {
                let mut s = "invalid schedule stream id ".to_owned();
                let t0 = debug_string(stream_id.as_str());
                s.append(t0.as_str());
                s
            },
            ScheduleStoreError::InvalidHistory { event_count } => {
                let mut s = "invalid schedule history with ".to_owned();
                let t0 = u64_to_decimal(*event_count as u64);
                s.append(t0.as_str());
                s.append(" events");
                s
            },
        }
    }
}

/// What `OccurrencePageSizeError::to_string` displays; incomplete only where an outside
/// error's own text follows the prefix.
pub open spec fn occurrence_page_size_error_message(e: OccurrencePageSizeError) -> (Seq<char>, bool) {
    match e {
        OccurrencePageSizeError::Zero => ("recurrence occurrence page size must be positive"@, true),
        OccurrencePageSizeError::TooLarge { requested, maximum } => ("recurrence occurrence page size "@ + decimal(requested as nat) + " exceeds maximum "@ + decimal(maximum as nat), true),
    }
}

impl OccurrencePageSizeError {
    /// The error rendered as text.
    pub fn to_string(&self) -> (r: String)
        ensures
            describes(r@, occurrence_page_size_error_message(*self)),
    {
        match self {
            OccurrencePageSizeError::Zero => {
                let mut s = "recurrence occurrence page size must be positive".to_owned();
                s
            },
            OccurrencePageSizeError::TooLarge { requested, maximum } => {
                let mut s = "recurrence occurrence page size ".to_owned();
                let t0 = u64_to_decimal(*requested);
                s.append(t0.as_str());
                s.append(" exceeds maximum ");
                let t2 = u64_to_decimal(*maximum);
                s.append(t2.as_str());
                s
            },
        }
    }
}

/// What `RecurrenceOccurrenceLookupError::to_string` displays; incomplete only where an outside
/// error's own text follows the prefix.
pub open spec fn recurrence_occurrence_lookup_error_message(e: RecurrenceOccurrenceLookupError) -> (Seq<char>, bool) {
    match e {
        RecurrenceOccurrenceLookupError::OutOfRange { recurrence_id, requested_offset, occurrence_count } => ("recurrence "@ + recurrence_id@ + " offset "@ + decimal(requested_offset as nat) + " is outside occurrence count "@ + decimal(occurrence_count@ as nat), true),
    }
}

impl RecurrenceOccurrenceLookupError {
    /// The error rendered as text.
    pub fn to_string(&self) -> (r: String)
        ensures
            describes(r@, recurrence_occurrence_lookup_error_message(*self)),
    {
        match self {
            RecurrenceOccurrenceLookupError::OutOfRange { recurrence_id, requested_offset, occurrence_count } => {
                let mut s = "recurrence ".to_owned();
                s.append(recurrence_id.as_str());
                s.append(" offset ");
                let t2 = u64_to_decimal(*requested_offset);
                s.append(t2.as_str());
                s.append(" is outside occurrence count ");
                let t4 = u64_to_decimal(occurrence_count.get());
                s.append(t4.as_str());
                s
            },
        }
    }
}

/// What `RecurrenceStoreError::to_string` displays; incomplete only where an outside
/// error's own text follows the prefix.
pub open spec fn recurrence_store_error_message(e: RecurrenceStoreError) -> (Seq<char>, bool) {
    match e {
        RecurrenceStoreError::EventLog(error) => ("recurrence event-log error: "@ + event_log_error_message(error).0, event_log_error_message(error).1),
        RecurrenceStoreError::Replay(error) => ("recurrence replay error: "@ + replay_error_message(error).0, replay_error_message(error).1),
        RecurrenceStoreError::AlreadyExists { recurrence_id } => ("recurrence "@ + recurrence_id@ + " already exists"@, true),
        RecurrenceStoreError::NotFound { recurrence_id } => ("recurrence "@ + recurrence_id@ + " was not found"@, true),
        RecurrenceStoreError::ConcurrentModification { recurrence_id, expected_revision, current_revision } => ("recurrence "@ + recurrence_id@ + " expected revision "@ + decimal(expected_revision as nat) + ", but current revision is "@ + decimal(current_revision as nat), true),
        RecurrenceStoreError::OccurrenceOutOfRange { recurrence_id, requested_offset, occurrence_count } => ("recurrence "@ + recurrence_id@ + " offset "@ + decimal(requested_offset as nat) + " is outside occurrence count "@ + decimal(occurrence_count@ as nat), true),
        RecurrenceStoreError::OccurrenceAlreadyPersisted { recurrence_id, offset } => ("recurrence "@ + recurrence_id@ + " occurrence "@ + decimal(offset as nat) + " is already persisted"@, true),
        RecurrenceStoreError::OccurrenceNotFound { recurrence_id, offset } => ("recurrence "@ + recurrence_id@ + " occurrence "@ + decimal(offset as nat) + " was not found"@, true),
        RecurrenceStoreError::OccurrenceConcurrentModification { recurrence_id, offset, expected_revision, current_revision } => ("recurrence "@ + recurrence_id@ + " occurrence "@ + decimal(offset as nat) + " expected revision "@ + decimal(expected_revision as nat) + ", but current revision is "@ + decimal(current_revision as nat), true),
        RecurrenceStoreError::OccurrenceNotDue { recurrence_id, offset, due_at, cutoff } => ("recurrence "@ + recurrence_id@ + " occurrence "@ + decimal(offset as nat) + " is due at "@ + decimal(due_at@ as nat) + " after cutoff "@ + decimal(cutoff@ as nat), true),
        RecurrenceStoreError::OccurrenceAlreadyClaimed { recurrence_id, offset } => ("recurrence "@ + recurrence_id@ + " occurrence "@ + decimal(offset as nat) + " is already claimed"@, true),
        RecurrenceStoreError::OccurrenceNotClaimed { recurrence_id, offset } => ("recurrence "@ + recurrence_id@ + " occurrence "@ + decimal(offset as nat) + " is not claimed"@, true),
        RecurrenceStoreError::OccurrenceAlreadyMaterialized { recurrence_id, offset, task_id } => ("recurrence "@ + recurrence_id@ + " occurrence "@ + decimal(offset as nat) + " is already materialized as task "@ + task_id@, true),
        RecurrenceStoreError::TaskAlreadyExists { task_id } => ("task "@ + task_id@ + " already exists"@, true),
        RecurrenceStoreError::TaskCountMismatch { occurrence_count, task_count } => ("due page selected "@ + decimal(occurrence_count as nat) + " occurrences, but received "@ + decimal(task_count as nat) + " task ids"@, true),
        RecurrenceStoreError::DuplicateTaskId { task_id } => ("due page task id "@ + task_id@ + " is duplicated"@, true),
        RecurrenceStoreError::AmbiguousTaskBinding { task_id, occurrence_count } => ("task "@ + task_id@ + " is bound to "@ + decimal(occurrence_count as nat) + " recurrence occurrences"@, true),
        RecurrenceStoreError::OccurrenceOverflow { recurrence_id, source } => ("recurrence "@ + recurrence_id@ + " is not representable: "@ + occurrence_error_text(source), true),
        RecurrenceStoreError::InvalidStreamId { stream_id } => ("invalid recurrence stream id "@ + debug_string_text(stream_id@), true),
        RecurrenceStoreError::InvalidHistory { event_count } => ("invalid recurrence history with "@ + decimal(event_count as nat) + " events"@, true),
        RecurrenceStoreError::InvalidOccurrenceHistory { recurrence_id, offset, event_count } => ("invalid recurrence "@ + recurrence_id@ + " occurrence "@ + decimal(offset as nat) + " history with "@ + decimal(event_count as nat) + " events"@, true),
    }
}

impl RecurrenceStoreError {
    /// The error rendered as text.
    pub fn to_string(&self) -> (r: String)
        ensures
            describes(r@, recurrence_store_error_message(*self)),
    {
        match self {
            RecurrenceStoreError::EventLog(error) => {
                let mut s = "recurrence event-log error: ".to_owned();
                let ghost before = s@;
                let inner = error.to_string();
                s.append(inner.as_str());
                proof {
                    lemma_describes_after(before, inner@, event_log_error_message(*error));
                }
                s
            },
            RecurrenceStoreError::Replay(error) => {
                let mut s = "recurrence replay error: ".to_owned();
                let ghost before = s@;
                let inner = error.to_string();
                s.append(inner.as_str());
                proof {
                    lemma_describes_after(before, inner@, replay_error_message(*error));
                }
                s
            },
            RecurrenceStoreError::AlreadyExists { recurrence_id } => {
                let mut s = "recurrence ".to_owned();
                s.append(recurrence_id.as_str());
                s.append(" already exists");
                s
            },
            RecurrenceStoreError::NotFound { recurrence_id } => {
                let mut s = "recurrence ".to_owned();
                s.append(recurrence_id.as_str());
                s.append(" was not found");
                s
            },
            RecurrenceStoreError::ConcurrentModification { recurrence_id, expected_revision, current_revision } => {
                let mut s = "recurrence ".to_owned();
                s.append(recurrence_id.as_str());
                s.append(" expected revision ");
                let t2 = u64_to_decimal(*expected_revision);
                s.append(t2.as_str());
                s.append(", but current revision is ");
                let t4 = u64_to_decimal(*current_revision);
                s.append(t4.as_str());
                s
            },
            RecurrenceStoreError::OccurrenceOutOfRange { recurrence_id, requested_offset, occurrence_count } => {
                let mut s = "recurrence ".to_owned();
                s.append(recurrence_id.as_str());
                s.append(" offset ");
                let t2 = u64_to_decimal(*requested_offset);
                s.append(t2.as_str());
                s.append(" is outside occurrence count ");
                let t4 = u64_to_decimal(occurrence_count.get());
                s.append(t4.as_str());
                s
            },
            RecurrenceStoreError::OccurrenceAlreadyPersisted { recurrence_id, offset } => {
                let mut s = "recurrence ".to_owned();
                s.append(recurrence_id.as_str());
                s.append(" occurrence ");
                let t2 = u64_to_decimal(*offset);
                s.append(t2.as_str());
                s.append(" is already persisted");
                s
            },
            RecurrenceStoreError::OccurrenceNotFound { recurrence_id, offset } => {
                let mut s = "recurrence ".to_owned();
                s.append(recurrence_id.as_str());
                s.append(" occurrence ");
                let t2 = u64_to_decimal(*offset);
                s.append(t2.as_str());
                s.append(" was not found");
                s
            },
            RecurrenceStoreError::OccurrenceConcurrentModification { recurrence_id, offset, expected_revision, current_revision } => {
                let mut s = "recurrence ".to_owned();
                s.append(recurrence_id.as_str());
                s.append(" occurrence ");
                let t2 = u64_to_decimal(*offset);
                s.append(t2.as_str());
                s.append(" expected revision ");
                let t4 = u64_to_decimal(*expected_revision);
                s.append(t4.as_str());
                s.append(", but current revision is ");
                let t6 = u64_to_decimal(*current_revision);
                s.append(t6.as_str());
                s
            },
            RecurrenceStoreError::OccurrenceNotDue { recurrence_id, offset, due_at, cutoff } => {
                let mut s = "recurrence ".to_owned();
                s.append(recurrence_id.as_str());
                s.append(" occurrence ");
                let t2 = u64_to_decimal(*offset);
                s.append(t2.as_str());
                s.append(" is due at ");
                let t4 = u64_to_decimal(due_at.unix_millis());
                s.append(t4.as_str());
                s.append(" after cutoff ");
                let t6 = u64_to_decimal(cutoff.unix_millis());
                s.append(t6.as_str());
                s
            },
            RecurrenceStoreError::OccurrenceAlreadyClaimed { recurrence_id, offset } => {
                let mut s = "recurrence ".to_owned();
                s.append(recurrence_id.as_str());
                s.append(" occurrence ");
                let t2 = u64_to_decimal(*offset);
                s.append(t2.as_str());
                s.append(" is already claimed");
                s
            },
            RecurrenceStoreError::OccurrenceNotClaimed { recurrence_id, offset } => {
                let mut s = "recurrence ".to_owned();
                s.append(recurrence_id.as_str());
                s.append(" occurrence ");
                let t2 = u64_to_decimal(*offset);
                s.append(t2.as_str());
                s.append(" is not claimed");
                s
            },
            RecurrenceStoreError::OccurrenceAlreadyMaterialized { recurrence_id, offset, task_id } => {
                let mut s = "recurrence ".to_owned();
                s.append(recurrence_id.as_str());
                s.append(" occurrence ");
                let t2 = u64_to_decimal(*offset);
                s.append(t2.as_str());
                s.append(" is already materialized as task ");
                s.append(task_id.as_str());
                s
            },
            RecurrenceStoreError::TaskAlreadyExists { task_id } => {
                let mut s = "task ".to_owned();
                s.append(task_id.as_str());
                s.append(" already exists");
                s
            },
            RecurrenceStoreError::TaskCountMismatch { occurrence_count, task_count } => {
                let mut s = "due page selected ".to_owned();
                let t0 = u64_to_decimal(*occurrence_count as u64);
                s.append(t0.as_str());
                s.append(" occurrences, but received ");
                let t2 = u64_to_decimal(*task_count as u64);
                s.append(t2.as_str());
                s.append(" task ids");
                s
            },
            RecurrenceStoreError::DuplicateTaskId { task_id } => {
                let mut s = "due page task id ".to_owned();
                s.append(task_id.as_str());
                s.append(" is duplicated");
                s
            },
            RecurrenceStoreError::AmbiguousTaskBinding { task_id, occurrence_count } => {
                let mut s = "task ".to_owned();
                s.append(task_id.as_str());
                s.append(" is bound to ");
                let t2 = u64_to_decimal(*occurrence_count as u64);
                s.append(t2.as_str());
                s.append(" recurrence occurrences");
                s
            },
            RecurrenceStoreError::OccurrenceOverflow { recurrence_id, source } => {
                let mut s = "recurrence ".to_owned();
                s.append(recurrence_id.as_str());
                s.append(" is not representable: ");
                let t2 = source.to_string();
                s.append(t2.as_str());
                s
            },
            RecurrenceStoreError::InvalidStreamId { stream_id } => {
                let mut s = "invalid recurrence stream id ".to_owned();
                let t0 = debug_string(stream_id.as_str());
                s.append(t0.as_str());
                s
            },
            RecurrenceStoreError::InvalidHistory { event_count } => {
                let mut s = "invalid recurrence history with ".to_owned();
                let t0 = u64_to_decimal(*event_count as u64);
                s.append(t0.as_str());
                s.append(" events");
                s
            },
            RecurrenceStoreError::InvalidOccurrenceHistory { recurrence_id, offset, event_count } => {
                let mut s = "invalid recurrence ".to_owned();
                s.append(recurrence_id.as_str());
                s.append(" occurrence ");
                let t2 = u64_to_decimal(*offset);
                s.append(t2.as_str());
                s.append(" history with ");
                let t4 = u64_to_decimal(*event_count as u64);
                s.append(t4.as_str());
                s.append(" events");
                s
            },
        }
    }
}

/// What `ToolInvocationStoreError::to_string` displays; incomplete only where an outside
/// error's own text follows the prefix.
pub open spec fn tool_invocation_store_error_message(e: ToolInvocationStoreError) -> (Seq<char>, bool) {
    match e {
        ToolInvocationStoreError::EventLog(error) => ("tool invocation event-log error: "@ + event_log_error_message(error).0, event_log_error_message(error).1),
        ToolInvocationStoreError::Replay(error) => ("tool invocation replay error: "@ + replay_error_message(error).0, replay_error_message(error).1),
        ToolInvocationStoreError::Task(error) => ("tool invocation task-store error: "@ + task_store_error_message(error).0, task_store_error_message(error).1),
        ToolInvocationStoreError::AlreadyExists { invocation_id } => ("tool invocation "@ + invocation_id@ + " already exists"@, true),
        ToolInvocationStoreError::TaskNotFound { task_id } => ("task "@ + task_id@ + " was not found"@, true),
        ToolInvocationStoreError::TaskNotActive { task_id, status } => ("task "@ + task_id@ + " is not active: "@ + task_status_name(status), true),
        ToolInvocationStoreError::TaskChanged { task_id } => ("task "@ + task_id@ + " changed before invocation intent"@, true),
        ToolInvocationStoreError::InvalidStreamId { stream_id } => ("invalid tool invocation stream id "@ + stream_id@, true),
        ToolInvocationStoreError::InvalidHistory { event_count } => ("invalid tool invocation history with "@ + decimal(event_count as nat) + " events"@, true),
    }
}

impl ToolInvocationStoreError {
    /// The error rendered as text.
    pub fn to_string(&self) -> (r: String)
        ensures
            describes(r@, tool_invocation_store_error_message(*self)),
    {
        match self {
            ToolInvocationStoreError::EventLog(error) => {
                let mut s = "tool invocation event-log error: ".to_owned();
                let ghost before = s@;
                let inner = error.to_string();
                s.append(inner.as_str());
                proof {
                    lemma_describes_after(before, inner@, event_log_error_message(*error));
                }
                s
            },
            ToolInvocationStoreError::Replay(error) => {
                let mut s = "tool invocation replay error: ".to_owned();
                let ghost before = s@;
                let inner = error.to_string();
                s.append(inner.as_str());
                proof {
                    lemma_describes_after(before, inner@, replay_error_message(*error));
                }
                s
            },
            ToolInvocationStoreError::Task(error) => {
                let mut s = "tool invocation task-store error: ".to_owned();
                let ghost before = s@;
                let inner = error.to_string();
                s.append(inner.as_str());
                proof {
                    lemma_describes_after(before, inner@, task_store_error_message(*error));
                }
                s
            },
            ToolInvocationStoreError::AlreadyExists { invocation_id } => {
                let mut s = "tool invocation ".to_owned();
                s.append(invocation_id.as_str());
                s.append(" already exists");
                s
            },
            ToolInvocationStoreError::TaskNotFound { task_id } => {
                let mut s = "task ".to_owned();
                s.append(task_id.as_str());
                s.append(" was not found");
                s
            },
            ToolInvocationStoreError::TaskNotActive { task_id, status } => {
                let mut s = "task ".to_owned();
                s.append(task_id.as_str());
                s.append(" is not active: ");
                s.append(task_status_label(*status));
                s
            },
            ToolInvocationStoreError::TaskChanged { task_id } => {
                let mut s = "task ".to_owned();
                s.append(task_id.as_str());
                s.append(" changed before invocation intent");
                s
            },
            ToolInvocationStoreError::InvalidStreamId { stream_id } => {
                let mut s = "invalid tool invocation stream id ".to_owned();
                s.append(stream_id.as_str());
                s
            },
            ToolInvocationStoreError::InvalidHistory { event_count } => {
                let mut s = "invalid tool invocation history with ".to_owned();
                let t0 = u64_to_decimal(*event_count as u64);
                s.append(t0.as_str());
                s.append(" events");
                s
            },
        }
    }
}

/// What `WorkflowRunStoreError::to_string` displays; incomplete only where an outside
/// error's own text follows the prefix.
pub open spec fn workflow_run_store_error_message(e: WorkflowRunStoreError) -> (Seq<char>, bool) {
    match e {
        WorkflowRunStoreError::EventLog(error) => ("workflow-run event-log error: "@ + event_log_error_message(error).0, event_log_error_message(error).1),
        WorkflowRunStoreError::Replay(error) => ("workflow-run replay error: "@ + replay_error_message(error).0, replay_error_message(error).1),
        WorkflowRunStoreError::Task(error) => ("workflow-run task-store error: "@ + task_store_error_message(error).0, task_store_error_message(error).1),
        WorkflowRunStoreError::AlreadyExists { run_id } => ("workflow run "@ + run_id@ + " already exists"@, true),
        WorkflowRunStoreError::NotFound { run_id } => ("workflow run "@ + run_id@ + " was not found"@, true),
        WorkflowRunStoreError::InvalidStreamId { stream_id } => ("invalid workflow-run stream id "@ + debug_string_text(stream_id@), true),
        WorkflowRunStoreError::AlreadyCancelled { run_id } => ("workflow run "@ + run_id@ + " is already cancelled"@, true),
        WorkflowRunStoreError::AlreadyFailed { run_id } => ("workflow run "@ + run_id@ + " has already failed"@, true),
        WorkflowRunStoreError::AlreadyPaused { run_id } => ("workflow run "@ + run_id@ + " is already paused"@, true),
        WorkflowRunStoreError::NotPaused { run_id } => ("workflow run "@ + run_id@ + " is not paused"@, true),
        WorkflowRunStoreError::Paused { run_id } => ("workflow run "@ + run_id@ + " is paused"@, true),
        WorkflowRunStoreError::AlreadyTerminal { run_id } => ("workflow run "@ + run_id@ + " is already at a terminal phase"@, true),
        WorkflowRunStoreError::InvalidDefinition { source } => ("workflow run definition is invalid: "@ + cursor_error_text(source), true),
        WorkflowRunStoreError::InvalidTransition { source } => ("workflow run transition is invalid: "@ + cursor_error_text(source), true),
        WorkflowRunStoreError::ConcurrentModification { expected_revision, current_revision } => ("workflow run changed concurrently: expected revision "@ + decimal(expected_revision as nat) + ", current revision is "@ + decimal(current_revision as nat), true),
        WorkflowRunStoreError::InvalidHistory { event_count } => ("invalid workflow-run history with "@ + decimal(event_count as nat) + " events"@, true),
        WorkflowRunStoreError::TaskNotFound { task_id } => ("task "@ + task_id@ + " was not found"@, true),
        WorkflowRunStoreError::TaskNotActive { task_id, status } => ("task "@ + task_id@ + " is not active: "@ + task_status_name(status), true),
        WorkflowRunStoreError::TaskChanged { task_id } => ("task "@ + task_id@ + " changed before workflow run start"@, true),
    }
}

impl WorkflowRunStoreError {
    /// The error rendered as text.
    pub fn to_string(&self) -> (r: String)
        ensures
            describes(r@, workflow_run_store_error_message(*self)),
    {
        match self {
            WorkflowRunStoreError::EventLog(error) => {
                let mut s = "workflow-run event-log error: ".to_owned();
                let ghost before = s@;
                let inner = error.to_string();
                s.append(inner.as_str());
                proof {
                    lemma_describes_after(before, inner@, event_log_error_message(*error));
                }
                s
            },
            WorkflowRunStoreError::Replay(error) => {
                let mut s = "workflow-run replay error: ".to_owned();
                let ghost before = s@;
                let inner = error.to_string();
                s.append(inner.as_str());
                proof {
                    lemma_describes_after(before, inner@, replay_error_message(*error));
                }
                s
            },
            WorkflowRunStoreError::Task(error) => {
                let mut s = "workflow-run task-store error: ".to_owned();
                let ghost before = s@;
                let inner = error.to_string();
                s.append(inner.as_str());
                proof {
                    lemma_describes_after(before, inner@, task_store_error_message(*error));
                }
                s
            },
            WorkflowRunStoreError::AlreadyExists { run_id } => {
                let mut s = "workflow run ".to_owned();
                s.append(run_id.as_str());
                s.append(" already exists");
                s
            },
            WorkflowRunStoreError::NotFound { run_id } => {
                let mut s = "workflow run ".to_owned();
                s.append(run_id.as_str());
                s.append(" was not found");
                s
            },
            WorkflowRunStoreError::InvalidStreamId { stream_id } => {
                let mut s = "invalid workflow-run stream id ".to_owned();
                let t0 = debug_string(stream_id.as_str());
                s.append(t0.as_str());
                s
            },
            WorkflowRunStoreError::AlreadyCancelled { run_id } => {
                let mut s = "workflow run ".to_owned();
                s.append(run_id.as_str());
                s.append(" is already cancelled");
                s
            },
            WorkflowRunStoreError::AlreadyFailed { run_id } => {
                let mut s = "workflow run ".to_owned();
                s.append(run_id.as_str());
                s.append(" has already failed");
                s
            },
            WorkflowRunStoreError::AlreadyPaused { run_id } => {
                let mut s = "workflow run ".to_owned();
                s.append(run_id.as_str());
                s.append(" is already paused");
                s
            },
            WorkflowRunStoreError::NotPaused { run_id } => {
                let mut s = "workflow run ".to_owned();
                s.append(run_id.as_str());
                s.append(" is not paused");
                s
            },
            WorkflowRunStoreError::Paused { run_id } => {
                let mut s = "workflow run ".to_owned();
                s.append(run_id.as_str());
                s.append(" is paused");
                s
            },
            WorkflowRunStoreError::AlreadyTerminal { run_id } => {
                let mut s = "workflow run ".to_owned();
                s.append(run_id.as_str());
                s.append(" is already at a terminal phase");
                s
            },
            WorkflowRunStoreError::InvalidDefinition { source } => {
                let mut s = "workflow run definition is invalid: ".to_owned();
                let t0 = source.to_string();
                s.append(t0.as_str());
                s
            },
            WorkflowRunStoreError::InvalidTransition { source } => {
                let mut s = "workflow run transition is invalid: ".to_owned();
                let t0 = source.to_string();
                s.append(t0.as_str());
                s
            },
            WorkflowRunStoreError::ConcurrentModification { expected_revision, current_revision } => {
                let mut s = "workflow run changed concurrently: expected revision ".to_owned();
                let t0 = u64_to_decimal(*expected_revision);
                s.append(t0.as_str());
                s.append(", current revision is ");
                let t2 = u64_to_decimal(*current_revision);
                s.append(t2.as_str());
                s
            },
            WorkflowRunStoreError::InvalidHistory { event_count } => {
                let mut s = "invalid workflow-run history with ".to_owned();
                let t0 = u64_to_decimal(*event_count as u64);
                s.append(t0.as_str());
                s.append(" events");
                s
            },
            WorkflowRunStoreError::TaskNotFound { task_id } => {
                let mut s = "task ".to_owned();
                s.append(task_id.as_str());
                s.append(" was not found");
                s
            },
            WorkflowRunStoreError::TaskNotActive { task_id, status } => {
                let mut s = "task ".to_owned();
                s.append(task_id.as_str());
                s.append(" is not active: ");
                s.append(task_status_label(*status));
                s
            },
            WorkflowRunStoreError::TaskChanged { task_id } => {
                let mut s = "task ".to_owned();
                s.append(task_id.as_str());
                s.append(" changed before workflow run start");
                s
            },
        }
    }
}

/// What `SkillRegistryError::to_string` displays; incomplete only where an outside
/// error's own text follows the prefix.
pub open spec fn skill_registry_error_message(e: SkillRegistryError) -> (Seq<char>, bool) {
    match e {
        SkillRegistryError::DuplicateId { skill_id } => ("skill "@ + skill_id@ + " is already registered"@, true),
    }
}

impl SkillRegistryError {
    /// The error rendered as text.
    pub fn to_string(&self) -> (r: String)
        ensures
            describes(r@, skill_registry_error_message(*self)),
    {
        match self {
            SkillRegistryError::DuplicateId { skill_id } => {
                let mut s = "skill ".to_owned();
                s.append(skill_id.as_str());
                s.append(" is already registered");
                s
            },
        }
    }
}

/// What `ToolRegistryError::to_string` displays; incomplete only where an outside
/// error's own text follows the prefix.
pub open spec fn tool_registry_error_message(e: ToolRegistryError) -> (Seq<char>, bool) {
    match e {
        ToolRegistryError::DuplicateId { tool_id } => ("tool "@ + tool_id@ + " is already registered"@, true),
    }
}

impl ToolRegistryError {
    /// The error rendered as text.
    pub fn to_string(&self) -> (r: String)
        ensures
            describes(r@, tool_registry_error_message(*self)),
    {
        match self {
            ToolRegistryError::DuplicateId { tool_id } => {
                let mut s = "tool ".to_owned();
                s.append(tool_id.as_str());
                s.append(" is already registered");
                s
            },
        }
    }
}

/// What `WorkflowRegistryError::to_string` displays; incomplete only where an outside
/// error's own text follows the prefix.
pub open spec fn workflow_registry_error_message(e: WorkflowRegistryError) -> (Seq<char>, bool) {
    match e {
        WorkflowRegistryError::DuplicateId { workflow_id } => ("workflow "@ + workflow_id@ + " is already registered"@, true),
    }
}

impl WorkflowRegistryError {
    /// The error rendered as text.
    pub fn to_string(&self) -> (r: String)
        ensures
            describes(r@, workflow_registry_error_message(*self)),
    {
        match self {
            WorkflowRegistryError::DuplicateId { workflow_id } => {
                let mut s = "workflow ".to_owned();
                s.append(workflow_id.as_str());
                s.append(" is already registered");
                s
            },
        }
    }
}

/// Whether two replay errors report the same failure, field by field; two
/// storage failures are compared by their displayed text.
pub open spec fn replay_errors_match(a: ReplayError, b: ReplayError) -> bool {
    match (a, b) {
        (
            ReplayError::UnsupportedEvent { event_type: t, payload_version: v },
            ReplayError::UnsupportedEvent { event_type: u, payload_version: w },
        ) => t@ == u@ && v == w,
        (
            ReplayError::MalformedPayload { stream_version: v, message: m },
            ReplayError::MalformedPayload { stream_version: w, message: n },
        ) => v == w && m@ == n@,
        (
            ReplayError::VersionGap { expected: e, found: f },
            ReplayError::VersionGap { expected: g, found: h },
        ) => e == g && f == h,
        (ReplayError::InvalidStoredVersion(v), ReplayError::InvalidStoredVersion(w)) => v == w,
        (
            ReplayError::InvalidStoredPayloadVersion(v),
            ReplayError::InvalidStoredPayloadVersion(w),
        ) => v == w,
        _ => false,
    }
}

impl ReplayError {
    /// Equality of replay errors as callers compare them: the same variant with
    /// the same fields, storage failures by their displayed text.
    pub fn same_as(&self, other: &Self) -> (r: bool)
        ensures
            !(*self is Storage && *other is Storage) ==> r == replay_errors_match(*self, *other),
    {
        match (self, other) {
            (ReplayError::Storage(a), ReplayError::Storage(b)) => {
                let x = storage_error_display(a);
                let y = storage_error_display(b);
                str_equals(x.as_str(), y.as_str())
            },
            (
                ReplayError::UnsupportedEvent { event_type: t, payload_version: v },
                ReplayError::UnsupportedEvent { event_type: u, payload_version: w },
            ) => str_equals(t.as_str(), u.as_str()) && *v == *w,
            (
                ReplayError::MalformedPayload { stream_version: v, message: m },
                ReplayError::MalformedPayload { stream_version: w, message: n },
            ) => *v == *w && str_equals(m.as_str(), n.as_str()),
            (
                ReplayError::VersionGap { expected: e, found: f },
                ReplayError::VersionGap { expected: g, found: h },
            ) => *e == *g && *f == *h,
            (ReplayError::InvalidStoredVersion(v), ReplayError::InvalidStoredVersion(w)) => *v == *w,
            (
                ReplayError::InvalidStoredPayloadVersion(v),
                ReplayError::InvalidStoredPayloadVersion(w),
            ) => *v == *w,
            _ => false,
        }
    }
}

/// The diagnostic text of a registered skill: its identifier and the byte
/// length of its instructions, never the instructions themselves.
pub open spec fn skill_description(s: SkillView) -> Seq<char> {
    "RegisteredSkill { id: SkillId("@ + debug_string_text(s.id) + "), instructions_len: "@
        + decimal((encode_utf8(s.instructions).len() as usize) as nat) + " }"@
}

impl RegisteredSkill {
    /// Describes the skill for diagnostics without revealing its instructions.
    pub fn describe(&self) -> (r: String)
        ensures
            r@ == skill_description(self@),
    {
        let mut s = "RegisteredSkill { id: SkillId(".to_owned();
        let quoted = debug_string(self.id().as_str());
        s.append(quoted.as_str());
        s.append("), instructions_len: ");
        let length = u64_to_decimal(self.instructions().len() as u64);
        s.append(length.as_str());
        s.append(" }");
        s
    }
}

/// The diagnostic text of a registered workflow: its identifier, its start
/// phase and the number of its phases.
pub open spec fn workflow_description(w: WorkflowView) -> Seq<char> {
    "RegisteredWorkflow { id: WorkflowId("@ + debug_string_text(w.id) + "), start: "@
        + debug_string_text(w.start) + ", phases_len: "@ + decimal(w.phases.len()) + " }"@
}

impl RegisteredWorkflow {
    /// Describes the workflow for diagnostics by its identity, start and size.
    pub fn describe(&self) -> (r: String)
        ensures
            r@ == workflow_description(self@),
    {
        let mut s = "RegisteredWorkflow { id: WorkflowId(".to_owned();
        let id = debug_string(self.id().as_str());
        s.append(id.as_str());
        s.append("), start: ");
        let start = debug_string(self.start());
        s.append(start.as_str());
        s.append(", phases_len: ");
        let count = u64_to_decimal(self.phases().len() as u64);
        s.append(count.as_str());
        s.append(" }");
        s
    }
}

} // verus!
