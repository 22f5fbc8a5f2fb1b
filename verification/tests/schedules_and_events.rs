use vela_kernel::event_log::{
    next_append_version, replay_rows, validate_event_metadata, DecodeError, Event, EventLogError,
    ExpectedVersion, ReplayError, ReplayRow, StreamId,
};
use vela_kernel::scheduler::{
    plan_due_materialization, plan_schedule_change, plan_schedule_creation,
    project_schedule_history, ScheduleCancellation,
    recurrence_occurrence_stream, recurrence_stream, schedule_event_from_payload,
    schedule_payload_kind, schedule_stream, OccurrenceCount, RecurrenceId, ScheduleEvent,
    ScheduleId, ScheduleInstant, ScheduleInterval, ScheduleOperation, SchedulePayload,
    SchedulePayloadKind, ScheduleRelease, ScheduleStatus, ScheduleStoreError,
};
use vela_kernel::bindings::schedule_for_task;
use vela_kernel::scheduler::{
    occurrence_event_from_payload, occurrence_payload_kind, OccurrencePayload,
    RecurrenceOccurrenceEvent, RecurrenceOccurrenceRelease,
};
use vela_kernel::occurrence_stream::parse_recurrence_occurrence_stream;
use vela_kernel::task::{TaskGoal, TaskId};

fn sid(v: &str) -> ScheduleId {
    ScheduleId::new(v.to_string()).unwrap()
}

fn created(due: u64) -> ScheduleEvent {
    ScheduleEvent::Created { goal: TaskGoal::new("Report".to_string()).unwrap(), due_at_unix_millis: due }
}

#[test]
fn created_schedule_is_reloaded_as_pending() {
    let change = plan_schedule_creation(
        sid("s-1"),
        TaskGoal::new("Report".to_string()).unwrap(),
        ScheduleInstant::from_unix_millis(50),
    );
    assert_eq!(change.expected_revision, 0);
    let loaded = project_schedule_history(sid("s-1"), &vec![change.event]).unwrap().unwrap();
    assert_eq!(loaded.status(), ScheduleStatus::Pending);
    assert_eq!(loaded.due_at().unix_millis(), 50);
    assert_eq!(loaded.revision(), 1);
}

#[test]
fn claiming_before_due_is_refused_and_release_returns_to_pending() {
    let loaded = project_schedule_history(sid("s-2"), &vec![created(100)]).unwrap();
    let early = plan_schedule_change(
        loaded,
        &sid("s-2"),
        1,
        ScheduleOperation::Claim(ScheduleInstant::from_unix_millis(99)),
    );
    assert!(matches!(early, Err(ScheduleStoreError::NotDue { .. })));
    let loaded = project_schedule_history(sid("s-2"), &vec![created(100)]).unwrap();
    let claim = plan_schedule_change(
        loaded,
        &sid("s-2"),
        1,
        ScheduleOperation::Claim(ScheduleInstant::from_unix_millis(100)),
    )
    .unwrap();
    assert_eq!(claim.scheduled.status(), ScheduleStatus::Claimed);
    let history = vec![created(100), claim.event];
    let loaded = project_schedule_history(sid("s-2"), &history).unwrap();
    let release = plan_schedule_change(
        loaded,
        &sid("s-2"),
        2,
        ScheduleOperation::Release(ScheduleRelease::new("retry".to_string()).unwrap()),
    )
    .unwrap();
    assert_eq!(release.scheduled.status(), ScheduleStatus::Pending);
    assert_eq!(release.scheduled.revision(), 3);
}

#[test]
fn stale_schedule_revision_is_a_concurrent_modification() {
    let loaded = project_schedule_history(sid("s-3"), &vec![created(1)]).unwrap();
    let stale = plan_schedule_change(
        loaded,
        &sid("s-3"),
        7,
        ScheduleOperation::Materialize(TaskId::new("t".to_string()).unwrap()),
    );
    assert!(matches!(stale, Err(ScheduleStoreError::ConcurrentModification { .. })));
}

#[test]
fn schedule_payloads_decode_and_stream_names_are_exact() {
    assert_eq!(schedule_payload_kind("schedule.claimed", 1).unwrap(), SchedulePayloadKind::Claimed);
    assert!(matches!(schedule_payload_kind("schedule.claimed", 2), Err(DecodeError::UnsupportedEvent { .. })));
    let refused = schedule_event_from_payload(
        SchedulePayloadKind::Released,
        SchedulePayload::Text("\t".to_string()),
    );
    assert_eq!(
        refused.unwrap_err(),
        DecodeError::MalformedPayload { message: "schedule release reason must not be blank".to_string() }
    );
    assert_eq!(schedule_stream(&sid("s-4")).as_str(), "schedule:s-4");
    let rid = RecurrenceId::new("né:x".to_string()).unwrap();
    assert_eq!(recurrence_stream(&rid).as_str(), "recurrence:né:x");
    assert_eq!(recurrence_occurrence_stream(&rid, 42).as_str(), "recurrence-occurrence:5:né:x:42");
}

#[test]
fn instants_advance_exactly_or_report_overflow() {
    let start = ScheduleInstant::from_unix_millis(10);
    let interval = ScheduleInterval::from_millis(5).unwrap();
    assert_eq!(start.checked_advance_by(interval, 3).unwrap().unix_millis(), 25);
    let error = ScheduleInstant::from_unix_millis(u64::MAX).checked_advance_by(interval, 1).unwrap_err();
    assert_eq!(
        error.to_string(),
        format!("schedule instant {} cannot advance by interval 5 milliseconds at offset 1", u64::MAX)
    );
    assert!(ScheduleInterval::from_millis(0).is_err());
    assert_eq!(OccurrenceCount::new(4).unwrap().final_offset(), 3);
}

#[test]
fn appends_take_the_next_version_after_the_expected_one() {
    assert_eq!(next_append_version(ExpectedVersion::NoStream, None).unwrap(), (1, 1));
    assert_eq!(next_append_version(ExpectedVersion::Exact(3), Some(3)).unwrap(), (4, 4));
    assert!(matches!(
        next_append_version(ExpectedVersion::Exact(2), Some(3)),
        Err(EventLogError::WrongExpectedVersion { current: Some(3), .. })
    ));
    assert!(matches!(next_append_version(ExpectedVersion::NoStream, Some(-1)), Err(EventLogError::Storage(_))));
    assert!(matches!(
        next_append_version(ExpectedVersion::Exact(i64::MAX as u64), Some(i64::MAX)),
        Err(EventLogError::VersionOutOfRange(_))
    ));
    assert!(matches!(validate_event_metadata("", 1), Err(EventLogError::InvalidEventType)));
    assert!(matches!(validate_event_metadata("x", 0), Err(EventLogError::InvalidPayloadVersion(0))));
    assert!(validate_event_metadata("x", 1).is_ok());
    assert!(StreamId::new(String::new()).is_err());
}

#[test]
fn replay_requires_gap_free_versions() {
    let row = |v: i64, e: u32| ReplayRow {
        stored_version: v,
        event_type: "t".to_string(),
        stored_payload_version: 1,
        decoded: Ok::<u32, DecodeError>(e),
    };
    assert_eq!(replay_rows(vec![row(1, 10), row(2, 20)]).unwrap(), vec![10, 20]);
    assert!(matches!(
        replay_rows(vec![row(1, 10), row(3, 30)]),
        Err(ReplayError::VersionGap { expected: 2, found: 3 })
    ));
    assert!(matches!(replay_rows(vec![row(-1, 10)]), Err(ReplayError::InvalidStoredVersion(-1))));
}

#[test]
fn occurrence_stream_names_read_back_their_coordinates() {
    let rid = RecurrenceId::new("a:b".to_string()).unwrap();
    let name = recurrence_occurrence_stream(&rid, 7);
    assert_eq!(name.as_str(), "recurrence-occurrence:3:a:b:7");
    let (id, offset) = parse_recurrence_occurrence_stream(name.as_str()).unwrap();
    assert_eq!(id.as_str(), "a:b");
    assert_eq!(offset, 7);
    assert!(parse_recurrence_occurrence_stream("recurrence-occurrence:2:a:b:7").is_none());
    assert!(parse_recurrence_occurrence_stream("recurrence-occurrence:3:a:b:+7").is_none());
    assert!(parse_recurrence_occurrence_stream("recurrence-occurrence:1: :7").is_none());
    assert!(parse_recurrence_occurrence_stream("recurrence:3:a:b:7").is_none());
}

#[test]
fn a_due_pending_schedule_materializes_without_a_claim() {
    let loaded = project_schedule_history(sid("s-9"), &vec![created(10)]).unwrap().unwrap();
    let change =
        plan_due_materialization(loaded, TaskId::new("t-9".to_string()).unwrap()).unwrap();
    assert_eq!(change.expected_revision, 1);
    assert_eq!(change.scheduled.revision(), 2);
    assert_eq!(change.scheduled.status(), ScheduleStatus::Materialized);
    assert_eq!(change.scheduled.task_id().unwrap().as_str(), "t-9");
    let reloaded =
        project_schedule_history(sid("s-9"), &vec![created(10), change.event]).unwrap().unwrap();
    assert_eq!(reloaded.status(), ScheduleStatus::Materialized);
    let cancelled = vec![
        created(10),
        ScheduleEvent::Cancelled { reason: ScheduleCancellation::new("no".to_string()).unwrap() },
    ];
    let loaded = project_schedule_history(sid("s-9"), &cancelled).unwrap().unwrap();
    assert!(matches!(
        plan_due_materialization(loaded, TaskId::new("t-9".to_string()).unwrap()),
        Err(ScheduleStoreError::AlreadyCancelled { .. })
    ));
}

#[test]
fn occurrence_streams_of_colliding_looking_ids_stay_distinct() {
    let a = recurrence_occurrence_stream(&RecurrenceId::new("a:1".to_string()).unwrap(), 2);
    let b = recurrence_occurrence_stream(&RecurrenceId::new("a".to_string()).unwrap(), 12);
    assert_ne!(a.as_str(), b.as_str());
    assert_eq!(a.as_str(), "recurrence-occurrence:3:a:1:2");
    assert_eq!(b.as_str(), "recurrence-occurrence:1:a:12");
}

#[test]
fn a_cancelled_schedule_accepts_no_claim() {
    let cancelled = vec![
        created(10),
        ScheduleEvent::Cancelled { reason: ScheduleCancellation::new("stop".to_string()).unwrap() },
    ];
    let loaded = project_schedule_history(sid("s-7"), &cancelled).unwrap();
    let claim = plan_schedule_change(
        loaded,
        &sid("s-7"),
        2,
        ScheduleOperation::Claim(ScheduleInstant::from_unix_millis(100)),
    );
    assert!(matches!(claim, Err(ScheduleStoreError::AlreadyCancelled { .. })));
}

#[test]
fn library_events_always_pass_metadata_validation() {
    let created = created(5);
    assert_eq!(Event::event_type(&created), "schedule.created");
    assert_eq!(Event::payload_version(&created), 1);
    assert!(validate_event_metadata(
        Event::event_type(&created),
        Event::payload_version(&created)
    )
    .is_ok());
}

#[test]
fn a_task_bound_to_two_schedules_is_ambiguous() {
    let materialized = |schedule: &str, task: &str| {
        let history = vec![
            created(1),
            ScheduleEvent::Materialized { task_id: TaskId::new(task.to_string()).unwrap() },
        ];
        project_schedule_history(sid(schedule), &history).unwrap().unwrap()
    };
    let task = TaskId::new("t-1".to_string()).unwrap();
    let none = schedule_for_task(vec![materialized("a", "t-2")], &task).unwrap();
    assert!(none.is_none());
    let one = schedule_for_task(vec![materialized("a", "t-2"), materialized("b", "t-1")], &task)
        .unwrap()
        .unwrap();
    assert_eq!(one.id().as_str(), "b");
    let two = schedule_for_task(vec![materialized("a", "t-1"), materialized("b", "t-1")], &task);
    assert!(matches!(
        two,
        Err(ScheduleStoreError::AmbiguousTaskBinding { schedule_count: 2, .. })
    ));
}

#[test]
fn a_stored_occurrence_release_decodes_back_to_itself() {
    let event = RecurrenceOccurrenceEvent::Released {
        reason: RecurrenceOccurrenceRelease::new("worker lost".to_string()).unwrap(),
    };
    let kind = occurrence_payload_kind(event.event_type(), event.payload_version()).unwrap();
    let decoded =
        occurrence_event_from_payload(kind, OccurrencePayload::Text("worker lost".to_string()))
            .unwrap();
    match decoded {
        RecurrenceOccurrenceEvent::Released { reason } => assert_eq!(reason.as_str(), "worker lost"),
        _ => panic!("expected a release"),
    }
}
