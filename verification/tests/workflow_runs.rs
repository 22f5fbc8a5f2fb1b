use vela_kernel::event_log::{
    next_append_version, DecodeError, EventLogError, ExpectedVersion, ReplayError,
};
use vela_kernel::run_list::{list_runs, runs_for_task};
use vela_kernel::task::{
    plan_task_start, plan_task_terminal, project_task_history, TaskGoal, TaskId, TaskOutput,
    TaskTerminal,
};
use vela_kernel::workflow::{
    plan_run_advance, plan_run_cancel, plan_run_fail, plan_run_pause, plan_run_resume,
    plan_run_start, plan_run_start_for_task, project_workflow_run, run_append_failure, run_event_from_payload,
    run_id_from_stream, run_payload_kind, run_start_failure, workflow_run_history,
    workflow_run_stream, RegisteredWorkflow, RegisteredWorkflowPhase,
    RegisteredWorkflowTransition, WorkflowCursor, WorkflowCursorError, WorkflowId,
    WorkflowRegistry, WorkflowRegistryError, WorkflowRunCancellation, WorkflowRunEvent,
    WorkflowRunFailure, WorkflowRunHistoryEvent, WorkflowRunId, WorkflowRunPauseReason,
    WorkflowRunPayload, WorkflowRunPayloadKind, WorkflowRunResumeReason, WorkflowRunStatus,
    WorkflowRunStoreError, WorkflowSnapshot,
};

fn review_workflow() -> RegisteredWorkflow {
    RegisteredWorkflow::new(
        WorkflowId::new("review".to_string()).unwrap(),
        "draft".to_string(),
        vec![
            RegisteredWorkflowPhase::new(
                "draft".to_string(),
                false,
                vec![
                    RegisteredWorkflowTransition::new("review".to_string(), None),
                    RegisteredWorkflowTransition::new(
                        "done".to_string(),
                        Some("approval".to_string()),
                    ),
                ],
            ),
            RegisteredWorkflowPhase::new(
                "review".to_string(),
                false,
                vec![RegisteredWorkflowTransition::new("done".to_string(), None)],
            ),
            RegisteredWorkflowPhase::new("done".to_string(), true, vec![]),
        ],
    )
}

fn run_id(value: &str) -> WorkflowRunId {
    WorkflowRunId::new(value.to_string()).unwrap()
}

fn started(task: Option<&str>) -> WorkflowRunEvent {
    WorkflowRunEvent::Started {
        workflow: WorkflowSnapshot::from_workflow(&review_workflow()),
        task_id: task.map(|t| TaskId::new(t.to_string()).unwrap()),
    }
}

#[test]
fn cursor_follows_authored_transitions_and_checks_gates() {
    let workflow = review_workflow();
    let mut cursor = WorkflowCursor::new(&workflow).unwrap();
    assert_eq!(cursor.current_phase().id(), "draft");
    assert!(matches!(
        cursor.advance(1, None),
        Err(WorkflowCursorError::GateAcknowledgementMissing { transition_index: 1, .. })
    ));
    assert!(matches!(
        cursor.advance(1, Some("other")),
        Err(WorkflowCursorError::GateAcknowledgementMismatch { .. })
    ));
    assert!(matches!(
        cursor.advance(0, Some("approval")),
        Err(WorkflowCursorError::GateAcknowledgementUnexpected { .. })
    ));
    assert!(matches!(cursor.advance(7, None), Err(WorkflowCursorError::TransitionNotFound { .. })));
    assert_eq!(cursor.current_phase().id(), "draft");
    cursor.advance(1, Some("approval")).unwrap();
    assert!(cursor.is_terminal());
    assert!(matches!(cursor.advance(0, None), Err(WorkflowCursorError::TerminalPhase { .. })));
}

#[test]
fn cursor_refuses_missing_and_ambiguous_start() {
    let missing = RegisteredWorkflow::new(
        WorkflowId::new("w".to_string()).unwrap(),
        "nowhere".to_string(),
        vec![RegisteredWorkflowPhase::new("a".to_string(), true, vec![])],
    );
    let error = WorkflowCursor::new(&missing).unwrap_err();
    assert_eq!(error.to_string(), "workflow start phase nowhere was not found");
    let twice = RegisteredWorkflow::new(
        WorkflowId::new("w".to_string()).unwrap(),
        "a".to_string(),
        vec![
            RegisteredWorkflowPhase::new("a".to_string(), true, vec![]),
            RegisteredWorkflowPhase::new("a".to_string(), true, vec![]),
        ],
    );
    assert!(matches!(
        WorkflowCursor::new(&twice),
        Err(WorkflowCursorError::StartAmbiguous { .. })
    ));
}

#[test]
fn cursor_error_text_names_the_transition() {
    let error = WorkflowCursorError::TargetNotFound {
        phase_id: "draft".to_string(),
        transition_index: 12,
        target_phase_id: "gone".to_string(),
    };
    assert_eq!(error.to_string(), "workflow phase draft transition 12 target gone was not found");
}

#[test]
fn started_run_is_reloaded_at_its_start_phase() {
    let change = plan_run_start(run_id("r-1"), &review_workflow(), None).unwrap();
    assert_eq!(change.expected, ExpectedVersion::NoStream);
    let committed = change.committed(1);
    assert_eq!(committed.current_phase().id(), "draft");
    assert_eq!(committed.revision(), 1);
    let loaded = project_workflow_run(&run_id("r-1"), &vec![change_event_start()]).unwrap().unwrap();
    assert_eq!(loaded.current_phase().id(), "draft");
    assert_eq!(loaded.status(), WorkflowRunStatus::Active);
}

fn change_event_start() -> WorkflowRunEvent {
    started(None)
}

#[test]
fn advance_then_reload_gives_the_target_phase() {
    let events = vec![started(None)];
    let loaded = project_workflow_run(&run_id("r-2"), &events).unwrap();
    let change = plan_run_advance(loaded, &run_id("r-2"), 1, 0, None).unwrap();
    assert_eq!(change.expected, ExpectedVersion::Exact(1));
    let after = change.committed(2);
    assert_eq!(after.current_phase().id(), "review");
    let reloaded = project_workflow_run(
        &run_id("r-2"),
        &vec![
            started(None),
            WorkflowRunEvent::Advanced {
                source_phase_index: 0,
                transition_index: 0,
                target_phase_index: 1,
                gate_acknowledgement: None,
            },
        ],
    )
    .unwrap()
    .unwrap();
    assert_eq!(reloaded.current_phase().id(), "review");
    assert_eq!(reloaded.revision(), 2);
}

#[test]
fn stale_revision_is_refused_without_retry() {
    let loaded = project_workflow_run(&run_id("r-3"), &vec![started(None)]).unwrap();
    let refused = plan_run_advance(loaded, &run_id("r-3"), 5, 0, None);
    assert!(matches!(
        refused,
        Err(WorkflowRunStoreError::ConcurrentModification { expected_revision: 5, current_revision: 1 })
    ));
    let missing = plan_run_advance(None, &run_id("r-3"), 1, 0, None);
    assert!(matches!(missing, Err(WorkflowRunStoreError::NotFound { .. })));
}

#[test]
fn pause_blocks_advance_until_resume() {
    let loaded = project_workflow_run(&run_id("r-4"), &vec![started(None)]).unwrap();
    let paused = plan_run_pause(
        loaded,
        &run_id("r-4"),
        1,
        WorkflowRunPauseReason::new("wait".to_string()).unwrap(),
    )
    .unwrap()
    .committed(2);
    assert_eq!(paused.status(), WorkflowRunStatus::Paused);
    assert!(matches!(
        plan_run_advance(Some(paused.clone()), &run_id("r-4"), 2, 0, None),
        Err(WorkflowRunStoreError::Paused { .. })
    ));
    assert!(matches!(
        plan_run_pause(
            Some(paused.clone()),
            &run_id("r-4"),
            2,
            WorkflowRunPauseReason::new("again".to_string()).unwrap()
        ),
        Err(WorkflowRunStoreError::AlreadyPaused { .. })
    ));
    let resumed = plan_run_resume(
        Some(paused),
        &run_id("r-4"),
        2,
        WorkflowRunResumeReason::new("go".to_string()).unwrap(),
    )
    .unwrap()
    .committed(3);
    assert_eq!(resumed.status(), WorkflowRunStatus::Active);
    assert!(matches!(
        plan_run_resume(
            Some(resumed),
            &run_id("r-4"),
            3,
            WorkflowRunResumeReason::new("go".to_string()).unwrap()
        ),
        Err(WorkflowRunStoreError::NotPaused { .. })
    ));
}

#[test]
fn cancellation_and_failure_take_precedence_and_close_the_run() {
    let loaded = project_workflow_run(&run_id("r-5"), &vec![started(None)]).unwrap();
    let cancelled = plan_run_cancel(
        loaded,
        &run_id("r-5"),
        1,
        WorkflowRunCancellation::new("stop".to_string()).unwrap(),
    )
    .unwrap()
    .committed(2);
    assert_eq!(cancelled.status(), WorkflowRunStatus::Cancelled);
    assert!(matches!(
        plan_run_fail(
            Some(cancelled),
            &run_id("r-5"),
            2,
            WorkflowRunFailure::new("boom".to_string()).unwrap()
        ),
        Err(WorkflowRunStoreError::AlreadyCancelled { .. })
    ));
    let history = vec![
        started(None),
        WorkflowRunEvent::Failed {
            source_phase_index: 0,
            failure: WorkflowRunFailure::new("boom".to_string()).unwrap(),
        },
        WorkflowRunEvent::Resumed {
            source_phase_index: 0,
            reason: WorkflowRunResumeReason::new("x".to_string()).unwrap(),
        },
    ];
    assert!(matches!(
        project_workflow_run(&run_id("r-5"), &history),
        Err(WorkflowRunStoreError::InvalidHistory { event_count: 3 })
    ));
}

#[test]
fn terminal_run_refuses_pause_cancel_and_fail() {
    let history = vec![
        started(None),
        WorkflowRunEvent::Advanced {
            source_phase_index: 0,
            transition_index: 1,
            target_phase_index: 2,
            gate_acknowledgement: Some("approval".to_string()),
        },
    ];
    let run = project_workflow_run(&run_id("r-6"), &history).unwrap().unwrap();
    assert_eq!(run.status(), WorkflowRunStatus::AuthoredTerminal);
    assert!(matches!(
        plan_run_cancel(
            Some(run),
            &run_id("r-6"),
            2,
            WorkflowRunCancellation::new("late".to_string()).unwrap()
        ),
        Err(WorkflowRunStoreError::AlreadyTerminal { .. })
    ));
}

#[test]
fn history_names_phases_by_their_ids() {
    let events = vec![
        started(Some("t-1")),
        WorkflowRunEvent::Advanced {
            source_phase_index: 0,
            transition_index: 0,
            target_phase_index: 1,
            gate_acknowledgement: None,
        },
    ];
    let history = workflow_run_history(&run_id("r-7"), &events).unwrap().unwrap();
    assert_eq!(history.len(), 2);
    assert_eq!(history[0].revision(), 1);
    assert!(matches!(
        history[0].event(),
        WorkflowRunHistoryEvent::TaskStarted { phase_id, .. } if phase_id == "draft"
    ));
    assert!(matches!(
        history[1].event(),
        WorkflowRunHistoryEvent::Advanced { source_phase_id, target_phase_id, .. }
            if source_phase_id == "draft" && target_phase_id == "review"
    ));
    assert!(workflow_run_history(&run_id("r-7"), &vec![]).unwrap().is_none());
}

#[test]
fn malformed_recorded_workflow_is_reported_as_a_replay_error() {
    let bad = WorkflowRunEvent::Started {
        workflow: WorkflowSnapshot {
            id: "w".to_string(),
            start: "missing".to_string(),
            phases: vec![],
        },
        task_id: None,
    };
    match project_workflow_run(&run_id("r-8"), &vec![bad]) {
        Err(WorkflowRunStoreError::Replay(ReplayError::MalformedPayload { stream_version, message })) => {
            assert_eq!(stream_version, 1);
            assert_eq!(message, "workflow start phase missing was not found");
        }
        _ => panic!("expected a malformed payload"),
    }
}

#[test]
fn start_failures_map_to_existing_run_and_changed_task() {
    let exists = run_start_failure(
        run_id("r-9"),
        None,
        EventLogError::WrongExpectedVersion { expected: ExpectedVersion::NoStream, current: Some(1) },
    );
    assert!(matches!(exists, WorkflowRunStoreError::AlreadyExists { .. }));
    let task = TaskId::new("t".to_string()).unwrap();
    let changed = run_start_failure(
        run_id("r-9"),
        Some(&task),
        EventLogError::WrongExpectedVersion { expected: ExpectedVersion::Exact(3), current: Some(4) },
    );
    assert!(matches!(changed, WorkflowRunStoreError::TaskChanged { .. }));
    let stale = run_append_failure(
        4,
        EventLogError::WrongExpectedVersion { expected: ExpectedVersion::Exact(4), current: Some(6) },
    );
    assert!(matches!(
        stale,
        WorkflowRunStoreError::ConcurrentModification { expected_revision: 4, current_revision: 6 }
    ));
}

#[test]
fn run_streams_round_trip_their_identity() {
    let stream = workflow_run_stream(&run_id("r-10"));
    assert_eq!(stream.as_str(), "workflow-run:r-10");
    assert_eq!(run_id_from_stream(stream.as_str().to_string()).unwrap().as_str(), "r-10");
    assert!(matches!(
        run_id_from_stream("workflow-run:   ".to_string()),
        Err(WorkflowRunStoreError::InvalidStreamId { .. })
    ));
    assert!(run_id_from_stream("task:x".to_string()).is_err());
}

#[test]
fn listing_orders_runs_by_identity_and_filters_by_task() {
    let streams = vec![
        ("workflow-run:b".to_string(), vec![started(Some("t-1"))]),
        ("workflow-run:a".to_string(), vec![started(None)]),
        ("workflow-run:c".to_string(), vec![started(Some("t-1"))]),
    ];
    let runs = list_runs(streams).unwrap();
    let ids: Vec<&str> = runs.iter().map(|r| r.id().as_str()).collect();
    assert_eq!(ids, vec!["a", "b", "c"]);
    let for_task = runs_for_task(runs, &TaskId::new("t-1".to_string()).unwrap());
    let ids: Vec<&str> = for_task.iter().map(|r| r.id().as_str()).collect();
    assert_eq!(ids, vec!["b", "c"]);
    let broken = list_runs(vec![
        ("workflow-run:a".to_string(), vec![started(None)]),
        ("bogus".to_string(), vec![started(None)]),
    ]);
    assert!(matches!(broken, Err(WorkflowRunStoreError::InvalidStreamId { .. })));
}

#[test]
fn workflow_payloads_decode_and_validate() {
    assert_eq!(run_payload_kind("workflow_run.started", 2).unwrap(), WorkflowRunPayloadKind::TaskStarted);
    assert!(matches!(
        run_payload_kind("workflow_run.advanced", 2),
        Err(DecodeError::UnsupportedEvent { .. })
    ));
    let refused = run_event_from_payload(
        WorkflowRunPayloadKind::Paused,
        WorkflowRunPayload::Noted { source_phase_index: 0, text: String::new() },
    );
    assert_eq!(
        refused.unwrap_err(),
        DecodeError::MalformedPayload {
            message: "workflow run pause reason must not be empty".to_string()
        }
    );
    let blank = run_event_from_payload(
        WorkflowRunPayloadKind::Started,
        WorkflowRunPayload::Started {
            workflow: WorkflowSnapshot { id: " ".to_string(), start: "a".to_string(), phases: vec![] },
            task_id: None,
        },
    );
    assert_eq!(
        blank.unwrap_err(),
        DecodeError::MalformedPayload { message: "workflow id must not be blank".to_string() }
    );
    let ok = run_event_from_payload(
        WorkflowRunPayloadKind::Started,
        WorkflowRunPayload::Started {
            workflow: WorkflowSnapshot::from_workflow(&review_workflow()),
            task_id: None,
        },
    )
    .unwrap();
    assert_eq!(ok.event_type(), "workflow_run.started");
    assert_eq!(ok.payload_version(), 1);
}

#[test]
fn registry_registers_atomically_and_reports_the_least_collision() {
    let make = |id: &str| {
        RegisteredWorkflow::new(
            WorkflowId::new(id.to_string()).unwrap(),
            "a".to_string(),
            vec![RegisteredWorkflowPhase::new("a".to_string(), true, vec![])],
        )
    };
    let mut registry = WorkflowRegistry::new();
    registry.register_all(vec![make("m"), make("b")]).unwrap();
    let ids: Vec<&str> = registry.workflows().iter().map(|w| w.id().as_str()).collect();
    assert_eq!(ids, vec!["b", "m"]);
    let refused = registry.register_all(vec![make("z"), make("x"), make("z"), make("m")]);
    match refused {
        Err(WorkflowRegistryError::DuplicateId { workflow_id }) => {
            assert_eq!(workflow_id.as_str(), "m")
        }
        _ => panic!("expected a duplicate"),
    }
    assert_eq!(registry.workflows().len(), 2);
    assert!(registry.get(&WorkflowId::new("x".to_string()).unwrap()).is_none());
    assert!(registry.get(&WorkflowId::new("b".to_string()).unwrap()).is_some());
}

#[test]
fn workflow_descriptions_name_identity_start_and_size() {
    assert_eq!(
        review_workflow().describe(),
        "RegisteredWorkflow { id: WorkflowId(\"review\"), start: \"draft\", phases_len: 3 }"
    );
}

#[test]
fn task_revision_race_rejects_attributed_start_without_creating_a_run() {
    let task_id = TaskId::new("racing-task".to_string()).unwrap();
    let run_id = WorkflowRunId::new("racing-run".to_string()).unwrap();
    let started = || {
        plan_task_start(task_id.clone(), TaskGoal::new("race start".to_string()).unwrap()).event
    };
    let observed = project_task_history(&task_id, vec![started()]).unwrap();
    let observed_version = observed.as_ref().unwrap().stream_version;
    let workflow = RegisteredWorkflow::new(
        WorkflowId::new("race.workflow".to_string()).unwrap(),
        "done".to_string(),
        vec![RegisteredWorkflowPhase::new("done".to_string(), true, vec![])],
    );
    let start = plan_run_start_for_task(run_id.clone(), &task_id, &workflow, false, observed).unwrap();
    assert_eq!(start.task_version, observed_version);
    // The task completes before the guarded start is appended.
    let completion = plan_task_terminal(
        project_task_history(&task_id, vec![started()]).unwrap(),
        &task_id,
        TaskTerminal::Completed(TaskOutput::new("won race".to_string()).unwrap()),
    )
    .unwrap();
    let current = project_task_history(&task_id, vec![started(), completion.event])
        .unwrap()
        .unwrap()
        .stream_version;
    let race = next_append_version(ExpectedVersion::Exact(start.task_version), Some(current as i64))
        .unwrap_err();
    assert!(matches!(
        run_start_failure(run_id.clone(), Some(&task_id), race),
        WorkflowRunStoreError::TaskChanged { .. }
    ));
    // The refused append writes nothing; that no stream appears is checked by
    // the store that performs the append, not by this decision.
}
