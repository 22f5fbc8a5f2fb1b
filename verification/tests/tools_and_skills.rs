use vela_kernel::event_log::{next_append_version, DecodeError, EventLogError, ExpectedVersion};
use vela_kernel::invocation_list::list_invocations;
use vela_kernel::skill::{RegisteredSkill, SkillId, SkillRegistry, SkillRegistryError};
use vela_kernel::task::{
    plan_task_start, plan_task_terminal, project_task_history, TaskGoal, TaskId, TaskOutput,
    TaskTerminal,
};
use vela_kernel::tool::{
    intent_failure, invocation_id_from_stream, outcome_event, plan_task_intent, plan_tool_intent,
    project_tool_invocation, tool_event_from_payload, tool_invocation_stream, tool_payload_kind,
    ToolCatalog, ToolEffect, ToolId, ToolInvocationEvent, ToolInvocationId,
    ToolInvocationStatus, ToolInvocationStoreError, ToolMetadata, ToolPayload, ToolPayloadKind,
    ToolRegistryError,
};

fn tool(v: &str) -> ToolId {
    ToolId::new(v.to_string()).unwrap()
}

fn inv(v: &str) -> ToolInvocationId {
    ToolInvocationId::new(v.to_string()).unwrap()
}

#[test]
fn intent_alone_is_pending_and_an_outcome_settles_it() {
    let intent = plan_tool_intent(tool("echo"), ToolEffect::Pure);
    let pending = project_tool_invocation(&inv("i-1"), &vec![intent]).unwrap().unwrap();
    assert_eq!(pending.status(), ToolInvocationStatus::Pending);
    assert_eq!(pending.tool_id().as_str(), "echo");
    let outcome = outcome_event(ToolInvocationStatus::Denied).unwrap();
    let settled = project_tool_invocation(
        &inv("i-1"),
        &vec![plan_tool_intent(tool("echo"), ToolEffect::Pure), outcome],
    )
    .unwrap()
    .unwrap();
    assert_eq!(settled.status(), ToolInvocationStatus::Denied);
    assert!(matches!(
        outcome_event(ToolInvocationStatus::Pending),
        Err(ToolInvocationStoreError::InvalidHistory { event_count: 1 })
    ));
}

#[test]
fn invocation_histories_beyond_one_outcome_are_invalid() {
    let history = vec![
        plan_tool_intent(tool("echo"), ToolEffect::Pure),
        ToolInvocationEvent::Succeeded,
        ToolInvocationEvent::Failed,
    ];
    assert!(matches!(
        project_tool_invocation(&inv("i-2"), &history),
        Err(ToolInvocationStoreError::InvalidHistory { event_count: 3 })
    ));
    assert!(matches!(
        project_tool_invocation(&inv("i-2"), &vec![ToolInvocationEvent::Succeeded]),
        Err(ToolInvocationStoreError::InvalidHistory { event_count: 1 })
    ));
    assert!(matches!(project_tool_invocation(&inv("i-2"), &vec![]), Ok(None)));
}

#[test]
fn intent_failures_map_to_existing_invocation_and_changed_task() {
    let exists = intent_failure(
        &inv("i-3"),
        None,
        EventLogError::WrongExpectedVersion { expected: ExpectedVersion::NoStream, current: Some(1) },
    );
    assert!(matches!(exists, ToolInvocationStoreError::AlreadyExists { .. }));
    let task = TaskId::new("task-1".to_string()).unwrap();
    let changed = intent_failure(
        &inv("i-3"),
        Some(&task),
        EventLogError::WrongExpectedVersion { expected: ExpectedVersion::Exact(1), current: Some(2) },
    );
    match changed {
        ToolInvocationStoreError::TaskChanged { task_id } => assert_eq!(task_id.as_str(), "task-1"),
        _ => panic!("expected a changed task"),
    }
}

#[test]
fn catalog_keeps_ascending_ids_and_refuses_duplicates() {
    let mut catalog = ToolCatalog::new();
    assert_eq!(catalog.register(ToolMetadata::new(tool("write"), ToolEffect::ExternalWrite)), Ok(0));
    assert_eq!(catalog.register(ToolMetadata::new(tool("read"), ToolEffect::ExternalRead)), Ok(0));
    assert_eq!(catalog.register(ToolMetadata::new(tool("zap"), ToolEffect::Destructive)), Ok(2));
    assert!(matches!(
        catalog.register(ToolMetadata::new(tool("read"), ToolEffect::Pure)),
        Err(ToolRegistryError::DuplicateId { .. })
    ));
    let ids: Vec<String> = catalog.metadata().iter().map(|m| m.id().as_str().to_string()).collect();
    assert_eq!(ids, vec!["read", "write", "zap"]);
    assert_eq!(catalog.position(&tool("write")), Some(1));
    assert_eq!(catalog.position(&tool("nope")), None);
}

#[test]
fn tool_payloads_decode_and_streams_round_trip() {
    assert_eq!(tool_payload_kind("tool.invocation_intended", 2).unwrap(), ToolPayloadKind::TaskIntended);
    assert!(matches!(
        tool_payload_kind("tool.invocation_denied", 2),
        Err(DecodeError::UnsupportedEvent { .. })
    ));
    let refused = tool_event_from_payload(
        ToolPayloadKind::Intended,
        ToolPayload::Intent { tool_id: " ".to_string(), effect: ToolEffect::Pure, task_id: None },
    );
    assert_eq!(
        refused.unwrap_err(),
        DecodeError::MalformedPayload { message: "tool id must not be blank".to_string() }
    );
    let event = tool_event_from_payload(
        ToolPayloadKind::TaskIntended,
        ToolPayload::Intent {
            tool_id: "echo".to_string(),
            effect: ToolEffect::Pure,
            task_id: Some("t".to_string()),
        },
    )
    .unwrap();
    assert_eq!(event.payload_version(), 2);
    assert_eq!(event.event_type(), "tool.invocation_intended");
    let stream = tool_invocation_stream(&inv("i-4"));
    assert_eq!(stream.as_str(), "tool-invocation:i-4");
    assert_eq!(invocation_id_from_stream(stream.as_str().to_string()).unwrap().as_str(), "i-4");
}

#[test]
fn invocations_list_in_identity_order() {
    let streams = vec![
        ("tool-invocation:z".to_string(), vec![plan_tool_intent(tool("a"), ToolEffect::Pure)]),
        ("tool-invocation:k".to_string(), vec![plan_tool_intent(tool("b"), ToolEffect::Pure)]),
    ];
    let listed = list_invocations(streams).unwrap();
    let ids: Vec<&str> = listed.iter().map(|i| i.id().as_str()).collect();
    assert_eq!(ids, vec!["k", "z"]);
}

#[test]
fn skills_register_atomically_and_report_the_first_repeat() {
    let skill = |id: &str, text: &str| {
        RegisteredSkill::new(SkillId::new(id.to_string()).unwrap(), text.to_string())
    };
    let mut registry = SkillRegistry::new();
    registry.register_all(vec![skill("review", "Look closely"), skill("plan", "Think")]).unwrap();
    let ids: Vec<&str> = registry.skills().iter().map(|s| s.id().as_str()).collect();
    assert_eq!(ids, vec!["plan", "review"]);
    let refused =
        registry.register_all(vec![skill("alpha", "a"), skill("beta", "b"), skill("alpha", "c")]);
    match refused {
        Err(SkillRegistryError::DuplicateId { skill_id }) => assert_eq!(skill_id.as_str(), "alpha"),
        _ => panic!("expected a duplicate"),
    }
    assert_eq!(registry.skills().len(), 2);
    let found = registry.get(&SkillId::new("plan".to_string()).unwrap()).unwrap();
    assert_eq!(found.instructions(), "Think");
    assert!(SkillId::new("   ".to_string()).is_err());
}

#[test]
fn skill_descriptions_hide_the_instructions() {
    let skill = RegisteredSkill::new(
        SkillId::new("plan".to_string()).unwrap(),
        "secret steps".to_string(),
    );
    assert_eq!(
        skill.describe(),
        "RegisteredSkill { id: SkillId(\"plan\"), instructions_len: 12 }"
    );
    assert!(!skill.describe().contains("secret"));
}

#[test]
fn task_change_after_validation_rejects_intent_without_retry() {
    let task_id = TaskId::new("task-1".to_string()).unwrap();
    let start =
        plan_task_start(task_id.clone(), TaskGoal::new("exercise tool".to_string()).unwrap());
    let started = vec![start.event];
    let intent = plan_task_intent(
        &task_id,
        project_task_history(&task_id, started).unwrap(),
        ToolId::new("test.echo".to_string()).unwrap(),
        ToolEffect::Pure,
    )
    .unwrap();
    assert_eq!(intent.task_version, 1);
    // The task completes between validation and the guarded append.
    let start =
        plan_task_start(task_id.clone(), TaskGoal::new("exercise tool".to_string()).unwrap());
    let completion = plan_task_terminal(
        project_task_history(&task_id, vec![start.event]).unwrap(),
        &task_id,
        TaskTerminal::Completed(TaskOutput::new("done".to_string()).unwrap()),
    )
    .unwrap();
    let start =
        plan_task_start(task_id.clone(), TaskGoal::new("exercise tool".to_string()).unwrap());
    let current = project_task_history(&task_id, vec![start.event, completion.event])
        .unwrap()
        .unwrap()
        .stream_version;
    let race = next_append_version(
        ExpectedVersion::Exact(intent.task_version),
        Some(current as i64),
    )
    .unwrap_err();
    let invocation_id = ToolInvocationId::new("raced".to_string()).unwrap();
    let error = intent_failure(&invocation_id, Some(&task_id), race);
    assert!(matches!(
        error,
        ToolInvocationStoreError::TaskChanged { task_id: ref changed }
            if changed.as_str() == task_id.as_str()
    ));
    // The refused append writes nothing; that no stream appears is checked by
    // the store that performs the append, not by this decision.
}
