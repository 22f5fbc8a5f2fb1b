use vstd::prelude::*;

use crate::event_log::Event;
use crate::scheduler::{RecurrenceEvent, RecurrenceOccurrenceEvent, ScheduleEvent};
use crate::session::{session_payload_version, SessionEvent};
use crate::task::{task_payload_version, TaskEvent};
use crate::tool::{tool_payload_version, ToolInvocationEvent};
use crate::text::{is_blank, opt_view};
use crate::workflow::{
    run_decoded, run_event_type, run_payload_fits, run_payload_kind_of, start_index, WorkflowRunEvent,
    WorkflowRunEventView, WorkflowRunPayload,
};

verus! {

impl Event for SessionEvent {
    fn event_type(&self) -> (r: &'static str) {
        proof {
            reveal_strlit("session.closed");
            reveal_strlit("session.created");
            reveal_strlit("session.renamed");
            reveal_strlit("session.reopened");
            reveal_strlit("session.summarized");
        }
        SessionEvent::event_type(self)
    }

    fn payload_version(&self) -> (r: u32)
        ensures
            r == session_payload_version(self@),
    {
        SessionEvent::payload_version(self)
    }
}

impl Event for TaskEvent {
    fn event_type(&self) -> (r: &'static str) {
        proof {
            reveal_strlit("task.cancelled");
            reveal_strlit("task.completed");
            reveal_strlit("task.failed");
            reveal_strlit("task.observation_appended");
            reveal_strlit("task.session_associated");
            reveal_strlit("task.started");
        }
        TaskEvent::event_type(self)
    }

    fn payload_version(&self) -> (r: u32)
        ensures
            r == task_payload_version(self@),
    {
        TaskEvent::payload_version(self)
    }
}

impl Event for ScheduleEvent {
    fn event_type(&self) -> (r: &'static str) {
        proof {
            reveal_strlit("schedule.cancelled");
            reveal_strlit("schedule.claimed");
            reveal_strlit("schedule.created");
            reveal_strlit("schedule.materialized");
            reveal_strlit("schedule.released");
        }
        ScheduleEvent::event_type(self)
    }

    fn payload_version(&self) -> (r: u32)
        ensures
            r == 1,
    {
        ScheduleEvent::payload_version(self)
    }
}

impl Event for RecurrenceEvent {
    fn event_type(&self) -> (r: &'static str) {
        proof {
            reveal_strlit("recurrence.fixed_interval_created");
        }
        RecurrenceEvent::event_type(self)
    }

    fn payload_version(&self) -> (r: u32)
        ensures
            r == 1,
    {
        RecurrenceEvent::payload_version(self)
    }
}

impl Event for RecurrenceOccurrenceEvent {
    fn event_type(&self) -> (r: &'static str) {
        proof {
            reveal_strlit("recurrence.occurrence_claimed");
            reveal_strlit("recurrence.occurrence_materialized");
            reveal_strlit("recurrence.occurrence_persisted");
            reveal_strlit("recurrence.occurrence_released");
        }
        RecurrenceOccurrenceEvent::event_type(self)
    }

    fn payload_version(&self) -> (r: u32)
        ensures
            r == 1,
    {
        RecurrenceOccurrenceEvent::payload_version(self)
    }
}

impl Event for ToolInvocationEvent {
    fn event_type(&self) -> (r: &'static str) {
        proof {
            reveal_strlit("tool.invocation_denied");
            reveal_strlit("tool.invocation_failed");
            reveal_strlit("tool.invocation_intended");
            reveal_strlit("tool.invocation_succeeded");
        }
        ToolInvocationEvent::event_type(self)
    }

    fn payload_version(&self) -> (r: u32)
        ensures
            r == tool_payload_version(self@),
    {
        ToolInvocationEvent::payload_version(self)
    }
}

impl Event for WorkflowRunEvent {
    fn event_type(&self) -> (r: &'static str) {
        proof {
            reveal_strlit("workflow_run.advanced");
            reveal_strlit("workflow_run.cancelled");
            reveal_strlit("workflow_run.failed");
            reveal_strlit("workflow_run.paused");
            reveal_strlit("workflow_run.resumed");
            reveal_strlit("workflow_run.started");
        }
        WorkflowRunEvent::event_type(self)
    }

    fn payload_version(&self) -> (r: u32)
        ensures
            r == run_payload_version(self@),
    {
        WorkflowRunEvent::payload_version(self)
    }
}

/// The payload version each workflow-run event is stored at: a task-attributed
/// start at 2, every other event at 1.
pub open spec fn run_payload_version(e: WorkflowRunEventView) -> u32 {
    if e matches WorkflowRunEventView::Started { task_id: Some(_), .. } {
        2
    } else {
        1
    }
}

/// The parsed payload `p` carries exactly the fields of the workflow-run event `e`.
pub open spec fn run_payload_carries(e: WorkflowRunEventView, p: WorkflowRunPayload) -> bool {
    match (e, p) {
        (
            WorkflowRunEventView::Started { workflow, task_id },
            WorkflowRunPayload::Started { workflow: w, task_id: t },
        ) => w@ == workflow && opt_view(t) == task_id,
        (
            WorkflowRunEventView::Advanced {
                source_phase_index,
                transition_index,
                target_phase_index,
                gate_acknowledgement,
            },
            WorkflowRunPayload::Advanced {
                source_phase_index: s,
                transition_index: t,
                target_phase_index: g,
                gate_acknowledgement: a,
            },
        ) => s as int == source_phase_index && t as int == transition_index && g as int
            == target_phase_index && opt_view(a) == gate_acknowledgement,
        (
            WorkflowRunEventView::Cancelled { source_phase_index, reason },
            WorkflowRunPayload::Noted { source_phase_index: s, text },
        ) => s as int == source_phase_index && text@ == reason,
        (
            WorkflowRunEventView::Paused { source_phase_index, reason },
            WorkflowRunPayload::Noted { source_phase_index: s, text },
        ) => s as int == source_phase_index && text@ == reason,
        (
            WorkflowRunEventView::Resumed { source_phase_index, reason },
            WorkflowRunPayload::Noted { source_phase_index: s, text },
        ) => s as int == source_phase_index && text@ == reason,
        (
            WorkflowRunEventView::Failed { source_phase_index, failure },
            WorkflowRunPayload::Noted { source_phase_index: s, text },
        ) => s as int == source_phase_index && text@ == failure,
        _ => false,
    }
}

/// The fields of a workflow-run event satisfy the rules of their types; a
/// start records a definition whose start phase resolves.
pub open spec fn run_event_fields_valid(e: WorkflowRunEventView) -> bool {
    match e {
        WorkflowRunEventView::Started { workflow, task_id } => (task_id matches Some(t) ==> t.len()
            > 0) && !is_blank(workflow.id) && start_index(workflow) is Some,
        WorkflowRunEventView::Advanced { .. } => true,
        WorkflowRunEventView::Cancelled { reason, .. } => reason.len() > 0,
        WorkflowRunEventView::Paused { reason, .. } => reason.len() > 0,
        WorkflowRunEventView::Resumed { reason, .. } => reason.len() > 0,
        WorkflowRunEventView::Failed { failure, .. } => failure.len() > 0,
    }
}

/// Round trip: the stored type and version of a workflow-run event select a
/// schema that its payload fits, and the payload decodes back to the event.
pub proof fn lemma_run_event_round_trip(e: WorkflowRunEventView, p: WorkflowRunPayload)
    requires
        run_event_fields_valid(e),
        run_payload_carries(e, p),
    ensures
        run_payload_kind_of(run_event_type(e), run_payload_version(e)) matches Some(k)
            && run_payload_fits(k, p) && run_decoded(k, p) == Ok::<WorkflowRunEventView, Seq<char>>(
            e,
        ),
{
    reveal_strlit("workflow_run.started");
    reveal_strlit("workflow_run.advanced");
    reveal_strlit("workflow_run.cancelled");
    reveal_strlit("workflow_run.paused");
    reveal_strlit("workflow_run.resumed");
    reveal_strlit("workflow_run.failed");
    assert("workflow_run.started"@.len() == 20);
    assert("workflow_run.advanced"@.len() == 21);
    assert("workflow_run.cancelled"@.len() == 22);
    assert("workflow_run.paused"@.len() == 19);
    assert("workflow_run.resumed"@.len() == 20);
    assert("workflow_run.failed"@.len() == 19);
    assert("workflow_run.started"@[13] != "workflow_run.resumed"@[13]);
    assert("workflow_run.paused"@[13] != "workflow_run.failed"@[13]);
}

} // verus!
