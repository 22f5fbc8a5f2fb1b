use vela_kernel::event_log::{DecodeError, EventLogError, ExpectedVersion};
use vela_kernel::session::{
    plan_session_close, plan_session_creation, plan_session_rename, plan_session_reopen,
    project_session_history, session_append_failure, session_creation_failure,
    session_event_from_payload, session_payload_kind, session_stream, SessionAppendFailure,
    SessionClosure, SessionEvent, SessionId, SessionPayloadKind, SessionReopenReason,
    SessionStatus, SessionStoreError, SessionTitle,
};

fn id(value: &str) -> SessionId {
    SessionId::new(value.to_string()).unwrap()
}

fn title(value: &str) -> SessionTitle {
    SessionTitle::new(value.to_string()).unwrap()
}

#[test]
fn created_session_is_reloaded_as_open() {
    let change = plan_session_creation(id("s-1"), title("Plan"));
    assert_eq!(change.expected, ExpectedVersion::NoStream);
    let loaded = project_session_history(&id("s-1"), vec![change.event]).unwrap().unwrap();
    assert_eq!(loaded.stream_version, 1);
    assert_eq!(loaded.session.title().as_str(), "Plan");
    assert_eq!(loaded.session.status(), SessionStatus::Open);
}

#[test]
fn rename_then_reload_gives_the_new_title() {
    let created = plan_session_creation(id("s-1"), title("Plan"));
    let loaded = project_session_history(&id("s-1"), vec![SessionEvent::Created {
        title: title("Plan"),
    }])
    .unwrap();
    let change = plan_session_rename(loaded, &id("s-1"), title("Better plan")).unwrap();
    assert_eq!(change.expected, ExpectedVersion::Exact(1));
    let reloaded =
        project_session_history(&id("s-1"), vec![created.event, change.event]).unwrap().unwrap();
    assert_eq!(reloaded.session.title().as_str(), "Better plan");
    assert_eq!(reloaded.stream_version, 2);
}

#[test]
fn closing_twice_is_refused_and_reopening_restores() {
    let events = vec![
        SessionEvent::Created { title: title("Plan") },
        SessionEvent::Closed { reason: Some(SessionClosure::new("done".to_string()).unwrap()) },
    ];
    let loaded = project_session_history(&id("s-2"), events).unwrap();
    assert_eq!(loaded.as_ref().unwrap().session.status(), SessionStatus::Closed);
    let again = plan_session_close(
        project_session_history(&id("s-2"), vec![
            SessionEvent::Created { title: title("Plan") },
            SessionEvent::Closed { reason: None },
        ])
        .unwrap(),
        &id("s-2"),
        SessionClosure::new("again".to_string()).unwrap(),
    );
    assert!(matches!(again, Err(SessionStoreError::AlreadyClosed { .. })));
    let reopen = plan_session_reopen(
        loaded,
        &id("s-2"),
        SessionReopenReason::new("more".to_string()).unwrap(),
    )
    .unwrap();
    assert_eq!(reopen.session.status(), SessionStatus::Open);
    assert!(reopen.session.closure().is_none());
}

#[test]
fn history_that_does_not_open_with_creation_is_invalid() {
    let result = project_session_history(&id("s-3"), vec![SessionEvent::Closed { reason: None }]);
    assert!(matches!(result, Err(SessionStoreError::InvalidHistory { event_count: 1 })));
    let missing = plan_session_rename(None, &id("s-3"), title("x"));
    assert!(matches!(missing, Err(SessionStoreError::NotFound { .. })));
}

#[test]
fn append_failures_map_to_store_outcomes() {
    let existing = session_creation_failure(
        id("s-4"),
        EventLogError::WrongExpectedVersion { expected: ExpectedVersion::NoStream, current: Some(1) },
    );
    assert!(matches!(existing, SessionStoreError::AlreadyExists { .. }));
    let retry = session_append_failure(EventLogError::WrongExpectedVersion {
        expected: ExpectedVersion::Exact(1),
        current: Some(2),
    });
    assert!(matches!(retry, SessionAppendFailure::Retry));
    let other = session_append_failure(EventLogError::InvalidEventType);
    assert!(matches!(other, SessionAppendFailure::Fail(SessionStoreError::EventLog(_))));
}

#[test]
fn session_payloads_decode_by_type_and_version() {
    assert_eq!(session_payload_kind("session.closed", 2).unwrap(), SessionPayloadKind::ClosedWithReason);
    assert_eq!(session_payload_kind("session.closed", 1).unwrap(), SessionPayloadKind::Closed);
    assert!(matches!(
        session_payload_kind("session.created", 2),
        Err(DecodeError::UnsupportedEvent { payload_version: 2, .. })
    ));
    let event = session_event_from_payload(SessionPayloadKind::Created, "Plan".to_string()).unwrap();
    assert_eq!(event.event_type(), "session.created");
    assert_eq!(event.payload_version(), 1);
    let refused = session_event_from_payload(SessionPayloadKind::Renamed, String::new());
    assert_eq!(
        refused.unwrap_err(),
        DecodeError::MalformedPayload { message: "session title must not be empty".to_string() }
    );
    let closed = SessionEvent::Closed { reason: Some(SessionClosure::new("x".to_string()).unwrap()) };
    assert_eq!(closed.payload_version(), 2);
    assert_eq!(session_stream(&id("abc")).as_str(), "session:abc");
}
