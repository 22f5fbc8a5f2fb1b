use vela_kernel::due_batch::plan_due_batch;
use vela_kernel::event_log::{next_append_version, EventLogError, ExpectedVersion};
use vela_kernel::runtime::{
    check_turn_task, tool_step_action, ProviderAnswer, ToolStepAction, ToolStepContinuation,
    TurnRefusal,
};
use vela_kernel::scheduler::{
    plan_occurrence_claim, plan_occurrence_release, plan_recurrence_creation,
    project_due_occurrences_page, project_occurrence_state, recurrence_occurrence_stream,
    occurrence_persistence_failure, occurrence_task_append_failure, schedule_task_append_failure,
    FixedIntervalRecurrence, OccurrenceTaskAppendFailure, OccurrenceCount, OccurrencePageSize,
    RecurrenceId, RecurrenceOccurrenceEvent, RecurrenceOccurrenceRelease, RecurrenceStoreError,
    ScheduleInstant, ScheduleInterval, ScheduleStoreError, ScheduleTaskAppendFailure,
};
use vela_kernel::session::SessionId;
use vela_kernel::task::{
    plan_task_start, project_task_history, TaskEvent, TaskGoal, TaskId, TaskObservationId,
    TaskObservationKind, TaskObservationText, TaskStoreError,
};
use vela_kernel::tool::{
    attempt_status, authorization_step, AttemptOutcome, InvocationStep, PermissionDecision,
    ToolInvocationStatus,
};
use vela_kernel::workflow::{
    RegisteredWorkflow, RegisteredWorkflowPhase, RegisteredWorkflowTransition, WorkflowCursor,
    WorkflowCursorError, WorkflowId,
};

fn workflow(start: &str, phases: Vec<RegisteredWorkflowPhase>) -> RegisteredWorkflow {
    RegisteredWorkflow::new(WorkflowId::new("w".to_string()).unwrap(), start.to_string(), phases)
}

fn terminal(id: &str) -> RegisteredWorkflowPhase {
    RegisteredWorkflowPhase::new(id.to_string(), true, vec![])
}

#[test]
fn cursor_reports_the_gate_mismatch_with_its_fields_and_stays() {
    let wf = workflow(
        "draft",
        vec![
            RegisteredWorkflowPhase::new(
                "draft".to_string(),
                false,
                vec![RegisteredWorkflowTransition::new(
                    "done".to_string(),
                    Some("review".to_string()),
                )],
            ),
            terminal("done"),
        ],
    );
    let mut cursor = WorkflowCursor::new(&wf).unwrap();
    assert_eq!(
        cursor.advance(0, Some("approve")),
        Err(WorkflowCursorError::GateAcknowledgementMismatch {
            phase_id: "draft".to_string(),
            transition_index: 0,
            expected_gate_id: "review".to_string(),
            actual_gate_id: "approve".to_string(),
        })
    );
    assert_eq!(cursor.current_phase().id(), "draft");
}

#[test]
fn cursor_reports_missing_and_ambiguous_targets() {
    let wf = workflow(
        "a",
        vec![
            RegisteredWorkflowPhase::new(
                "a".to_string(),
                false,
                vec![
                    RegisteredWorkflowTransition::new("nowhere".to_string(), None),
                    RegisteredWorkflowTransition::new("twice".to_string(), None),
                ],
            ),
            terminal("twice"),
            terminal("twice"),
        ],
    );
    let mut cursor = WorkflowCursor::new(&wf).unwrap();
    assert_eq!(
        cursor.advance(0, None),
        Err(WorkflowCursorError::TargetNotFound {
            phase_id: "a".to_string(),
            transition_index: 0,
            target_phase_id: "nowhere".to_string(),
        })
    );
    assert_eq!(
        cursor.advance(1, None),
        Err(WorkflowCursorError::TargetAmbiguous {
            phase_id: "a".to_string(),
            transition_index: 1,
            target_phase_id: "twice".to_string(),
        })
    );
    assert_eq!(cursor.current_phase().id(), "a");
}

#[test]
fn cursor_start_is_missing_ambiguous_or_found() {
    assert_eq!(
        WorkflowCursor::new(&workflow("s", vec![terminal("x")])).err(),
        Some(WorkflowCursorError::StartNotFound { phase_id: "s".to_string() })
    );
    assert_eq!(
        WorkflowCursor::new(&workflow("s", vec![terminal("s"), terminal("s")])).err(),
        Some(WorkflowCursorError::StartAmbiguous { phase_id: "s".to_string() })
    );
    let found = workflow("s", vec![terminal("x"), terminal("s")]);
    assert_eq!(WorkflowCursor::new(&found).unwrap().current_phase().id(), "s");
}

fn recurrence(id: &str, count: u64) -> FixedIntervalRecurrence {
    plan_recurrence_creation(
        RecurrenceId::new(id.to_string()).unwrap(),
        TaskGoal::new("Water plants".to_string()).unwrap(),
        ScheduleInstant::from_unix_millis(1_000),
        ScheduleInterval::from_millis(500).unwrap(),
        OccurrenceCount::new(count).unwrap(),
    )
    .unwrap()
    .recurrence
}

#[test]
fn a_persisted_due_page_reloads_as_that_page() {
    let id = RecurrenceId::new("plants".to_string()).unwrap();
    let r = recurrence("plants", 4);
    let page = project_due_occurrences_page(
        &r,
        1,
        OccurrencePageSize::new(2).unwrap(),
        ScheduleInstant::from_unix_millis(10_000),
    )
    .unwrap();
    assert_eq!(page.occurrences().len(), 2);
    let plan = plan_due_batch(&id, 1, page.occurrences(), None);
    assert_eq!(plan.guard.as_str(), "recurrence:plants");
    assert_eq!(plan.guard_expected, ExpectedVersion::Exact(1));
    assert!(plan.tasks.is_empty());
    assert_eq!(plan.occurrences.len(), 2);
    for (write, occurrence) in plan.occurrences.into_iter().zip(page.occurrences()) {
        assert_eq!(write.expected, ExpectedVersion::NoStream);
        assert_eq!(
            write.stream.as_str(),
            recurrence_occurrence_stream(&id, occurrence.offset()).as_str()
        );
        assert!(write.materialized.is_none());
        let state = project_occurrence_state(&r, occurrence.offset(), &vec![write.persisted])
            .unwrap()
            .unwrap();
        assert_eq!(state.revision, 1);
        assert!(!state.claimed);
        assert_eq!(state.occurrence.offset(), occurrence.offset());
        assert_eq!(
            state.occurrence.instant().unix_millis(),
            occurrence.instant().unix_millis()
        );
    }
}

#[test]
fn a_materializing_batch_binds_each_occurrence_to_its_task() {
    let id = RecurrenceId::new("plants".to_string()).unwrap();
    let r = recurrence("plants", 2);
    let page = project_due_occurrences_page(
        &r,
        0,
        OccurrencePageSize::new(2).unwrap(),
        ScheduleInstant::from_unix_millis(10_000),
    )
    .unwrap();
    let tasks = vec![
        TaskId::new("t-0".to_string()).unwrap(),
        TaskId::new("t-1".to_string()).unwrap(),
    ];
    let plan = plan_due_batch(&id, 1, page.occurrences(), Some(tasks.as_slice()));
    assert_eq!(plan.tasks.len(), 2);
    assert_eq!(plan.tasks[1].stream.as_str(), "task:t-1");
    assert_eq!(plan.tasks[1].expected, ExpectedVersion::NoStream);
    let started = project_task_history(&tasks[1], vec![plan.tasks.into_iter().nth(1).unwrap().event])
        .unwrap()
        .unwrap();
    assert_eq!(started.task.goal().as_str(), "Water plants");
    let write = plan.occurrences.into_iter().nth(1).unwrap();
    let events = vec![write.persisted, write.materialized.unwrap()];
    let state = project_occurrence_state(&r, 1, &events).unwrap().unwrap();
    assert_eq!(state.revision, 2);
    assert_eq!(state.task_id.unwrap().as_str(), "t-1");
}

#[test]
fn a_released_occurrence_reloads_as_released() {
    let id = RecurrenceId::new("plants".to_string()).unwrap();
    let r = recurrence("plants", 2);
    let page = project_due_occurrences_page(
        &r,
        0,
        OccurrencePageSize::new(1).unwrap(),
        ScheduleInstant::from_unix_millis(10_000),
    )
    .unwrap();
    let write = plan_due_batch(&id, 1, page.occurrences(), None)
        .occurrences
        .into_iter()
        .next()
        .unwrap();
    let mut history = vec![write.persisted];
    let fresh = project_occurrence_state(&r, 0, &history).unwrap();
    plan_occurrence_claim(fresh, &id, 0, 1, ScheduleInstant::from_unix_millis(10_000)).unwrap();
    history.push(RecurrenceOccurrenceEvent::Claimed {});
    let claimed = project_occurrence_state(&r, 0, &history).unwrap();
    let reason = RecurrenceOccurrenceRelease::new("worker stopped".to_string()).unwrap();
    let released = plan_occurrence_release(claimed, &id, 0, 2, reason).unwrap();
    assert_eq!(released.revision(), 3);
    history.push(RecurrenceOccurrenceEvent::Released {
        reason: RecurrenceOccurrenceRelease::new("worker stopped".to_string()).unwrap(),
    });
    let reloaded = project_occurrence_state(&r, 0, &history).unwrap().unwrap();
    assert_eq!(reloaded.revision, released.revision());
    assert!(!reloaded.claimed);
    assert!(reloaded.task_id.is_none());
    assert_eq!(
        reloaded.latest_release.unwrap().as_str(),
        released.latest_release().as_str()
    );
}

#[test]
fn a_stale_occurrence_release_names_both_revisions() {
    let id = RecurrenceId::new("plants".to_string()).unwrap();
    let r = recurrence("plants", 1);
    let page = project_due_occurrences_page(
        &r,
        0,
        OccurrencePageSize::new(1).unwrap(),
        ScheduleInstant::from_unix_millis(10_000),
    )
    .unwrap();
    let write = plan_due_batch(&id, 1, page.occurrences(), None)
        .occurrences
        .into_iter()
        .next()
        .unwrap();
    let state = project_occurrence_state(&r, 0, &vec![write.persisted]).unwrap();
    let reason = RecurrenceOccurrenceRelease::new("late".to_string()).unwrap();
    assert!(matches!(
        plan_occurrence_release(state, &id, 0, 7, reason),
        Err(RecurrenceStoreError::OccurrenceConcurrentModification {
            offset: 0,
            expected_revision: 7,
            current_revision: 1,
            ..
        })
    ));
}

#[test]
fn schedule_task_append_failures_are_told_apart() {
    let task_id = TaskId::new("t".to_string()).unwrap();
    let taken = next_append_version(ExpectedVersion::NoStream, Some(1)).unwrap_err();
    assert!(matches!(
        schedule_task_append_failure(task_id.clone(), taken),
        ScheduleTaskAppendFailure::Fail(ScheduleStoreError::TaskAlreadyExists { ref task_id })
            if task_id.as_str() == "t"
    ));
    let moved = next_append_version(ExpectedVersion::Exact(2), Some(3)).unwrap_err();
    assert!(matches!(
        schedule_task_append_failure(task_id.clone(), moved),
        ScheduleTaskAppendFailure::ScheduleConflict
    ));
    let overflow = next_append_version(ExpectedVersion::Exact(i64::MAX as u64), Some(i64::MAX))
        .unwrap_err();
    assert!(matches!(
        schedule_task_append_failure(task_id, overflow),
        ScheduleTaskAppendFailure::Fail(ScheduleStoreError::EventLog(
            EventLogError::VersionOutOfRange(_)
        ))
    ));
}

#[test]
fn only_an_allow_reaches_the_adapter_and_outcomes_map_to_statuses() {
    assert_eq!(authorization_step(PermissionDecision::Allow), InvocationStep::Invoke);
    assert_eq!(authorization_step(PermissionDecision::Deny), InvocationStep::Refuse);
    assert_eq!(attempt_status(AttemptOutcome::Refused), ToolInvocationStatus::Denied);
    assert_eq!(
        attempt_status(AttemptOutcome::AdapterSucceeded),
        ToolInvocationStatus::Succeeded
    );
    assert_eq!(attempt_status(AttemptOutcome::AdapterFailed), ToolInvocationStatus::Failed);
}

#[test]
fn a_final_answer_completes_and_a_tool_request_needs_the_provider_again() {
    assert_eq!(
        tool_step_action(ProviderAnswer::Final),
        (ToolStepAction::Finish, ToolStepContinuation::Complete)
    );
    assert_eq!(
        tool_step_action(ProviderAnswer::ToolRequest),
        (ToolStepAction::InvokeOnce, ToolStepContinuation::ProviderRequired)
    );
}

#[test]
fn a_turn_needs_an_existing_active_associated_task() {
    let task_id = TaskId::new("t".to_string()).unwrap();
    let observation = TaskObservationId::new("o-1".to_string()).unwrap();
    assert!(matches!(
        check_turn_task(&task_id, None, &observation, TaskObservationKind::Attempt, None),
        Err(TurnRefusal::Task(TaskStoreError::NotFound { .. }))
    ));
    let start = plan_task_start(task_id.clone(), TaskGoal::new("g".to_string()).unwrap());
    let task = project_task_history(&task_id, vec![start.event]).unwrap().unwrap().task;
    assert!(matches!(
        check_turn_task(&task_id, Some(task), &observation, TaskObservationKind::Attempt, None),
        Err(TurnRefusal::TaskNotAssociated { ref task_id }) if task_id.as_str() == "t"
    ));
    let start = plan_task_start(task_id.clone(), TaskGoal::new("g".to_string()).unwrap());
    let associated = TaskEvent::SessionAssociated {
        task_id: task_id.clone(),
        session_id: SessionId::new("s".to_string()).unwrap(),
    };
    let attempt = TaskEvent::ObservationAppended {
        id: observation.clone(),
        kind: TaskObservationKind::Attempt,
        text: TaskObservationText::new("first try".to_string()).unwrap(),
        parent_attempt_id: None,
    };
    let load = |events: Vec<TaskEvent>| {
        project_task_history(&task_id, events).unwrap().unwrap().task
    };
    let bound = load(vec![start.event, associated]);
    let session = check_turn_task(&task_id, Some(bound), &observation, TaskObservationKind::Attempt, None);
    assert!(matches!(session, Ok(ref s) if s.as_str() == "s"));
    let start = plan_task_start(task_id.clone(), TaskGoal::new("g".to_string()).unwrap());
    let associated = TaskEvent::SessionAssociated {
        task_id: task_id.clone(),
        session_id: SessionId::new("s".to_string()).unwrap(),
    };
    let repeated = load(vec![start.event, associated, attempt]);
    assert!(matches!(
        check_turn_task(&task_id, Some(repeated), &observation, TaskObservationKind::Attempt, None),
        Err(TurnRefusal::Task(TaskStoreError::DuplicateObservation { .. }))
    ));
}

#[test]
fn occurrence_append_failures_are_told_apart() {
    let id = RecurrenceId::new("plants".to_string()).unwrap();
    let exists = next_append_version(ExpectedVersion::NoStream, Some(1)).unwrap_err();
    assert!(matches!(
        occurrence_persistence_failure(&id, 4, exists),
        RecurrenceStoreError::OccurrenceAlreadyPersisted { offset: 4, ref recurrence_id }
            if recurrence_id.as_str() == "plants"
    ));
    let task_id = TaskId::new("t".to_string()).unwrap();
    let taken = next_append_version(ExpectedVersion::NoStream, Some(1)).unwrap_err();
    assert!(matches!(
        occurrence_task_append_failure(task_id.clone(), taken),
        OccurrenceTaskAppendFailure::Fail(RecurrenceStoreError::TaskAlreadyExists { ref task_id })
            if task_id.as_str() == "t"
    ));
    let moved = next_append_version(ExpectedVersion::Exact(1), Some(2)).unwrap_err();
    assert!(matches!(
        occurrence_task_append_failure(task_id, moved),
        OccurrenceTaskAppendFailure::OccurrenceConflict
    ));
}
