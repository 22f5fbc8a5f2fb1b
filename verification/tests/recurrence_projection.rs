use vela_kernel::scheduler::{
    orphan_occurrence_state, project_recurrence_history, recurrence_event_from_payload, RecurrenceEvent, RecurrenceId,
    RecurrencePayload, RecurrenceStoreError,
};
use vela_kernel::task::TaskGoal;

#[test]
fn invalid_decoded_recurrence_definitions_fail_as_invalid_history() {
    for event in [
        RecurrenceEvent::Created {
            goal: TaskGoal::new("Invalid interval".to_string()).unwrap(),
            anchor_unix_millis: 1,
            interval_millis: 0,
            occurrence_count: 1,
        },
        RecurrenceEvent::Created {
            goal: TaskGoal::new("Invalid count".to_string()).unwrap(),
            anchor_unix_millis: 1,
            interval_millis: 1,
            occurrence_count: 0,
        },
        RecurrenceEvent::Created {
            goal: TaskGoal::new("Invalid range".to_string()).unwrap(),
            anchor_unix_millis: u64::MAX,
            interval_millis: 1,
            occurrence_count: 2,
        },
    ] {
        assert!(matches!(
            project_recurrence_history(
                RecurrenceId::new("invalid-definition".to_string()).unwrap(),
                vec![event]
            ),
            Err(RecurrenceStoreError::InvalidHistory { event_count: 1 })
        ));
    }
}

#[test]
fn valid_recurrence_definition_projects_at_revision_one() {
    let event = RecurrenceEvent::Created {
        goal: TaskGoal::new("Water plants".to_string()).unwrap(),
        anchor_unix_millis: 1_000,
        interval_millis: 500,
        occurrence_count: 3,
    };
    let recurrence = project_recurrence_history(
        RecurrenceId::new("plants".to_string()).unwrap(),
        vec![event],
    )
    .unwrap()
    .unwrap();
    assert_eq!(recurrence.revision(), 1);
    assert_eq!(recurrence.anchor().unix_millis(), 1_000);
    assert_eq!(recurrence.interval().millis(), 500);
    assert_eq!(recurrence.occurrence_count().get(), 3);
    assert_eq!(recurrence.final_occurrence().unix_millis(), 2_000);
    let second = recurrence.occurrence_at(1).unwrap();
    assert_eq!(second.instant().unix_millis(), 1_500);
    assert!(recurrence.occurrence_at(3).is_err());
}

#[test]
fn empty_recurrence_stream_projects_to_nothing() {
    let projected =
        project_recurrence_history(RecurrenceId::new("none".to_string()).unwrap(), vec![]);
    assert!(matches!(projected, Ok(None)));
}

#[test]
fn recurrence_payload_checks_each_field_in_order() {
    let message = |p: RecurrencePayload| match recurrence_event_from_payload(p) {
        Err(vela_kernel::event_log::DecodeError::MalformedPayload { message }) => message,
        _ => panic!("expected a malformed payload"),
    };
    assert_eq!(
        message(RecurrencePayload {
            goal: String::new(),
            anchor_unix_millis: 0,
            interval_millis: 0,
            occurrence_count: 0
        }),
        "task goal must not be empty"
    );
    assert_eq!(
        message(RecurrencePayload {
            goal: "g".to_string(),
            anchor_unix_millis: 0,
            interval_millis: 0,
            occurrence_count: 0
        }),
        "schedule interval must be greater than zero milliseconds"
    );
    assert_eq!(
        message(RecurrencePayload {
            goal: "g".to_string(),
            anchor_unix_millis: 0,
            interval_millis: 1,
            occurrence_count: 0
        }),
        "recurrence occurrence count must be greater than zero"
    );
    assert_eq!(
        message(RecurrencePayload {
            goal: "g".to_string(),
            anchor_unix_millis: u64::MAX,
            interval_millis: 1,
            occurrence_count: 2
        }),
        format!(
            "schedule instant {} cannot advance by interval 1 milliseconds at offset 1",
            u64::MAX
        )
    );
    assert!(recurrence_event_from_payload(RecurrencePayload {
        goal: "g".to_string(),
        anchor_unix_millis: 5,
        interval_millis: 1,
        occurrence_count: 2
    })
    .is_ok());
}

#[test]
fn an_occurrence_stream_without_its_recurrence_is_invalid_unless_empty() {
    let id = RecurrenceId::new("gone".to_string()).unwrap();
    assert!(orphan_occurrence_state(&id, 3, 0).unwrap().is_none());
    assert!(matches!(
        orphan_occurrence_state(&id, 3, 2),
        Err(RecurrenceStoreError::InvalidOccurrenceHistory { offset: 3, event_count: 2, .. })
    ));
}
