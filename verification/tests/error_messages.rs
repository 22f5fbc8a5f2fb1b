use vela_kernel::event_log::{DecodeError, EventLogError, ExpectedVersion, ReplayError};
use vela_kernel::scheduler::{
    OccurrencePageSizeError, RecurrenceId, RecurrenceStoreError, ScheduleId, ScheduleInstant,
    ScheduleStoreError,
};
use vela_kernel::session::{SessionId, SessionStoreError};
use vela_kernel::task::{TaskId, TaskStatus, TaskStoreError};
use vela_kernel::tool::ToolInvocationStoreError;
use vela_kernel::workflow::{WorkflowRunId, WorkflowRunStoreError};

#[test]
fn append_conflicts_name_both_versions() {
    let error = EventLogError::WrongExpectedVersion {
        expected: ExpectedVersion::Exact(3),
        current: Some(5),
    };
    assert_eq!(
        error.to_string(),
        "wrong expected version: expected version 3, current version is 5"
    );
    let error = EventLogError::WrongExpectedVersion {
        expected: ExpectedVersion::NoStream,
        current: None,
    };
    assert_eq!(
        error.to_string(),
        "wrong expected version: expected no stream, stream does not exist"
    );
    assert_eq!(
        EventLogError::VersionOutOfRange(9).to_string(),
        "stream version 9 cannot be stored by SQLite"
    );
}

#[test]
fn replay_errors_render_signed_versions() {
    assert_eq!(
        ReplayError::InvalidStoredVersion(-5).to_string(),
        "invalid stored stream version -5"
    );
    assert_eq!(
        ReplayError::InvalidStoredPayloadVersion(i64::MIN).to_string(),
        "invalid stored payload version -9223372036854775808"
    );
    assert_eq!(
        ReplayError::VersionGap { expected: 2, found: 4 }.to_string(),
        "stream version gap: expected version 2, found 4"
    );
    assert_eq!(
        DecodeError::UnsupportedEvent { event_type: "x.y".to_string(), payload_version: 7 }
            .to_string(),
        "unsupported event x.y at payload version 7"
    );
}

#[test]
fn store_errors_nest_the_event_log_text() {
    let error = TaskStoreError::EventLog(EventLogError::InvalidEventType);
    assert_eq!(error.to_string(), "task event-log error: event type must not be empty");
    let error = ToolInvocationStoreError::Task(TaskStoreError::Session(
        SessionStoreError::NotFound { session_id: SessionId::new("s-1".to_string()).unwrap() },
    ));
    assert_eq!(
        error.to_string(),
        "tool invocation task-store error: task session-store error: session s-1 was not found"
    );
    let error = WorkflowRunStoreError::TaskNotActive {
        task_id: TaskId::new("t-1".to_string()).unwrap(),
        status: TaskStatus::Completed,
    };
    assert_eq!(error.to_string(), "task t-1 is not active: Completed");
    let error = WorkflowRunStoreError::NotFound {
        run_id: WorkflowRunId::new("r-1".to_string()).unwrap(),
    };
    assert_eq!(error.to_string(), "workflow run r-1 was not found");
}

#[test]
fn schedule_and_recurrence_errors_render_instants_and_quoted_streams() {
    let error = ScheduleStoreError::NotDue {
        schedule_id: ScheduleId::new("s-1".to_string()).unwrap(),
        due_at: ScheduleInstant::from_unix_millis(200),
        cutoff: ScheduleInstant::from_unix_millis(100),
    };
    assert_eq!(error.to_string(), "schedule s-1 is due at 200 after cutoff 100");
    let error = ScheduleStoreError::InvalidStreamId { stream_id: "a\"b".to_string() };
    assert_eq!(error.to_string(), "invalid schedule stream id \"a\\\"b\"");
    let error = RecurrenceStoreError::OccurrenceConcurrentModification {
        recurrence_id: RecurrenceId::new("r".to_string()).unwrap(),
        offset: 2,
        expected_revision: 1,
        current_revision: 3,
    };
    assert_eq!(
        error.to_string(),
        "recurrence r occurrence 2 expected revision 1, but current revision is 3"
    );
    assert_eq!(
        OccurrencePageSizeError::TooLarge { requested: 5000, maximum: 1000 }.to_string(),
        "recurrence occurrence page size 5000 exceeds maximum 1000"
    );
}

#[test]
fn replay_errors_compare_field_by_field() {
    let a = ReplayError::VersionGap { expected: 2, found: 4 };
    assert!(a.same_as(&ReplayError::VersionGap { expected: 2, found: 4 }));
    assert!(!a.same_as(&ReplayError::VersionGap { expected: 2, found: 5 }));
    assert!(!a.same_as(&ReplayError::InvalidStoredVersion(2)));
    let m = ReplayError::MalformedPayload { stream_version: 1, message: "x".to_string() };
    assert!(m.same_as(&ReplayError::MalformedPayload { stream_version: 1, message: "x".to_string() }));
}
