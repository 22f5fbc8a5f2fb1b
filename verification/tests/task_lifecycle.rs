use vela_kernel::event_log::{DecodeError, ExpectedVersion};
use vela_kernel::bindings::tasks_for_session;
use vela_kernel::session::SessionId;
use vela_kernel::task::{
    plan_observation_append, plan_task_start, plan_task_terminal, project_task_history,
    task_event_from_payload, task_payload_kind, task_stream, TaskEvent, TaskGoal, TaskId,
    TaskObservationId, TaskObservationKind, TaskObservationText, TaskOutput, TaskPayload,
    TaskPayloadKind, TaskStatus, TaskStoreError, TaskTerminal,
};

fn tid(v: &str) -> TaskId {
    TaskId::new(v.to_string()).unwrap()
}

fn started() -> TaskEvent {
    TaskEvent::Started { goal: TaskGoal::new("Ship".to_string()).unwrap() }
}

#[test]
fn started_task_is_reloaded_as_active() {
    let change = plan_task_start(tid("t-1"), TaskGoal::new("Ship".to_string()).unwrap());
    assert_eq!(change.expected, ExpectedVersion::NoStream);
    let loaded = project_task_history(&tid("t-1"), vec![change.event]).unwrap().unwrap();
    assert_eq!(loaded.task.status(), TaskStatus::Active);
    assert_eq!(loaded.task.goal().as_str(), "Ship");
    assert_eq!(loaded.stream_version, 1);
}

#[test]
fn completion_is_reloaded_and_refused_twice() {
    let loaded = project_task_history(&tid("t-2"), vec![started()]).unwrap();
    let change = plan_task_terminal(
        loaded,
        &tid("t-2"),
        TaskTerminal::Completed(TaskOutput::new("done".to_string()).unwrap()),
    )
    .unwrap();
    let reloaded = project_task_history(&tid("t-2"), vec![started(), change.event]).unwrap();
    assert_eq!(reloaded.as_ref().unwrap().task.status(), TaskStatus::Completed);
    let again = plan_task_terminal(
        reloaded,
        &tid("t-2"),
        TaskTerminal::Completed(TaskOutput::new("again".to_string()).unwrap()),
    );
    assert!(matches!(again, Err(TaskStoreError::AlreadyCompleted { .. })));
}

#[test]
fn observations_need_unique_ids_and_attempt_parents() {
    let loaded = project_task_history(&tid("t-3"), vec![started()]).unwrap();
    let attempt = plan_observation_append(
        loaded,
        &tid("t-3"),
        TaskObservationId::new("a1".to_string()).unwrap(),
        TaskObservationKind::Attempt,
        TaskObservationText::new("tried".to_string()).unwrap(),
        None,
    )
    .unwrap();
    let history = vec![started(), attempt.event];
    let loaded = project_task_history(&tid("t-3"), history).unwrap();
    assert_eq!(loaded.as_ref().unwrap().task.observations().len(), 1);
    let duplicate = plan_observation_append(
        loaded,
        &tid("t-3"),
        TaskObservationId::new("a1".to_string()).unwrap(),
        TaskObservationKind::Diagnostic,
        TaskObservationText::new("again".to_string()).unwrap(),
        None,
    );
    assert!(matches!(duplicate, Err(TaskStoreError::DuplicateObservation { .. })));
    let loaded = project_task_history(
        &tid("t-3"),
        vec![
            started(),
            TaskEvent::ObservationAppended {
                id: TaskObservationId::new("a1".to_string()).unwrap(),
                kind: TaskObservationKind::Attempt,
                text: TaskObservationText::new("tried".to_string()).unwrap(),
                parent_attempt_id: None,
            },
        ],
    )
    .unwrap();
    let orphan = plan_observation_append(
        loaded,
        &tid("t-3"),
        TaskObservationId::new("c1".to_string()).unwrap(),
        TaskObservationKind::Correction,
        TaskObservationText::new("fix".to_string()).unwrap(),
        Some(TaskObservationId::new("missing".to_string()).unwrap()),
    );
    assert!(matches!(orphan, Err(TaskStoreError::ParentObservationNotFound { .. })));
}

#[test]
fn task_payloads_decode_in_field_order() {
    assert_eq!(task_payload_kind("task.failed", 2).unwrap(), TaskPayloadKind::FailedWithFailure);
    assert!(matches!(task_payload_kind("task.started", 2), Err(DecodeError::UnsupportedEvent { .. })));
    let refused = task_event_from_payload(
        TaskPayloadKind::ObservationWithParent,
        TaskPayload::Observation {
            id: "o".to_string(),
            kind: TaskObservationKind::Attempt,
            text: "  ".to_string(),
            parent_attempt_id: Some(" ".to_string()),
        },
    );
    assert_eq!(
        refused.unwrap_err(),
        DecodeError::MalformedPayload { message: "task observation text must not be blank".to_string() }
    );
    let association = task_event_from_payload(
        TaskPayloadKind::SessionAssociated,
        TaskPayload::SessionAssociation { task_id: "t".to_string(), session_id: String::new() },
    );
    assert_eq!(
        association.unwrap_err(),
        DecodeError::MalformedPayload { message: "session id must not be empty".to_string() }
    );
    let completed = task_event_from_payload(TaskPayloadKind::Completed, TaskPayload::Empty).unwrap();
    assert_eq!(completed.event_type(), "task.completed");
    assert_eq!(completed.payload_version(), 2);
    assert_eq!(task_stream(&tid("x")).as_str(), "task:x");
    let _ = SessionId::new("s".to_string()).unwrap();
}

#[test]
fn a_finished_task_takes_no_more_evidence_or_outcomes() {
    let failed = TaskEvent::Failed { failure: None };
    let loaded = project_task_history(&tid("t-8"), vec![started(), failed]).unwrap();
    assert_eq!(loaded.as_ref().unwrap().task.status(), TaskStatus::Failed);
    let observation = plan_observation_append(
        loaded,
        &tid("t-8"),
        TaskObservationId::new("o1".to_string()).unwrap(),
        TaskObservationKind::Diagnostic,
        TaskObservationText::new("late".to_string()).unwrap(),
        None,
    );
    assert!(matches!(observation, Err(TaskStoreError::AlreadyFailed { .. })));
    let replayed = project_task_history(
        &tid("t-8"),
        vec![started(), TaskEvent::Failed { failure: None }, TaskEvent::Completed { output: None }],
    );
    assert!(matches!(replayed, Err(TaskStoreError::InvalidHistory { event_count: 3 })));
}

#[test]
fn tasks_are_selected_by_their_exact_session() {
    let associated = |task: &str, session: &str| {
        let history = vec![
            started(),
            TaskEvent::SessionAssociated {
                task_id: tid(task),
                session_id: SessionId::new(session.to_string()).unwrap(),
            },
        ];
        project_task_history(&tid(task), history).unwrap().unwrap().task
    };
    let plain = project_task_history(&tid("t-0"), vec![started()]).unwrap().unwrap().task;
    let session = SessionId::new("s-1".to_string()).unwrap();
    let selected = tasks_for_session(
        vec![associated("t-1", "s-1"), plain, associated("t-2", "s-10"), associated("t-3", "s-1")],
        &session,
    );
    let ids: Vec<&str> = selected.iter().map(|t| t.id().as_str()).collect();
    assert_eq!(ids, vec!["t-1", "t-3"]);
}
