use vstd::prelude::*;

use crate::event_log::{ExpectedVersion, StreamId};
use crate::scheduler::{
    authored_occurrence, lemma_occurrence_event_is_reloaded, lemma_persisted_occurrence_is_reloaded,
    occurrence_stream_name, persisted_event, project_occurrence, recurrence_occurrence_stream,
    recurrence_stream, FixedIntervalRecurrenceView, OccurrenceFlags, OccurrenceStateView,
    RecurrenceId, RecurrenceOccurrence, RecurrenceOccurrenceEvent, RecurrenceOccurrenceEventView,
    RecurrenceOccurrenceView,
};
use crate::task::{task_stream, TaskEvent, TaskEventView, TaskId};

verus! {

/// The persistence event recording exactly the occurrence `o`.
pub open spec fn persisted_view(o: RecurrenceOccurrenceView) -> RecurrenceOccurrenceEventView {
    RecurrenceOccurrenceEventView::Persisted {
        recurrence_id: o.recurrence_id,
        recurrence_revision: o.recurrence_revision,
        offset: o.offset,
        goal: o.goal,
        unix_millis: o.instant,
    }
}

/// The events a due-occurrence batch writes to one fresh occurrence stream: the
/// persisted occurrence, followed by its task binding when the batch materializes.
pub open spec fn due_write_events(o: RecurrenceOccurrenceView, task: Option<Seq<char>>) -> Seq<
    RecurrenceOccurrenceEventView,
> {
    match task {
        None => seq![persisted_view(o)],
        Some(t) => seq![
            persisted_view(o),
            RecurrenceOccurrenceEventView::Materialized { task_id: t },
        ],
    }
}

/// The task bound to the `k`-th occurrence of a batch, when the batch binds tasks.
pub open spec fn task_at(tasks: Option<Seq<Seq<char>>>, k: int) -> Option<Seq<char>> {
    match tasks {
        None => None,
        Some(t) => Some(t[k]),
    }
}

pub open spec fn task_ids_view(task_ids: Option<&[TaskId]>) -> Option<Seq<Seq<char>>> {
    match task_ids {
        None => None,
        Some(t) => Some(t@.map_values(|x: TaskId| x@)),
    }
}

/// One fresh occurrence stream a due-occurrence batch creates.
pub struct OccurrenceWrite {
    pub stream: StreamId,
    pub expected: ExpectedVersion,
    pub persisted: RecurrenceOccurrenceEvent,
    pub materialized: Option<RecurrenceOccurrenceEvent>,
}

pub open spec fn occurrence_write_events(w: OccurrenceWrite) -> Seq<RecurrenceOccurrenceEventView> {
    match w.materialized {
        None => seq![w.persisted@],
        Some(m) => seq![w.persisted@, m@],
    }
}

/// One fresh task stream a materializing batch starts.
pub struct TaskStartWrite {
    pub stream: StreamId,
    pub expected: ExpectedVersion,
    pub event: TaskEvent,
}

/// The appends of one due-occurrence batch, written together only while the
/// recurrence stream stands at the caller's expected revision.
pub struct DueBatchPlan {
    pub occurrences: Vec<OccurrenceWrite>,
    pub tasks: Vec<TaskStartWrite>,
    pub guard: StreamId,
    pub guard_expected: ExpectedVersion,
}

/// Whether the `k`-th occurrence write of a batch creates the stream of occurrence `o`
/// with exactly its planned events.
pub open spec fn occurrence_write_planned(
    w: OccurrenceWrite,
    id: Seq<char>,
    o: RecurrenceOccurrenceView,
    task: Option<Seq<char>>,
) -> bool {
    &&& w.stream@ == occurrence_stream_name(id, o.offset)
    &&& w.expected == ExpectedVersion::NoStream
    &&& occurrence_write_events(w) == due_write_events(o, task)
}

/// Whether a task write starts the fresh stream of task `t` with the occurrence's goal.
pub open spec fn task_write_planned(w: TaskStartWrite, t: Seq<char>, o: RecurrenceOccurrenceView) -> bool {
    &&& w.stream@ == "task:"@ + t
    &&& w.expected == ExpectedVersion::NoStream
    &&& w.event@ == (TaskEventView::Started { goal: o.goal })
}

/// Plans the atomic batch that persists a selection of due occurrences and, when
/// task identities are given, binds each occurrence to a freshly started task.
pub fn plan_due_batch(
    id: &RecurrenceId,
    expected_revision: u64,
    occurrences: &[RecurrenceOccurrence],
    task_ids: Option<&[TaskId]>,
) -> (r: DueBatchPlan)
    requires
        task_ids matches Some(t) ==> t@.len() == occurrences@.len(),
    ensures
        r.guard@ == "recurrence:"@ + id@,
        r.guard_expected == ExpectedVersion::Exact(expected_revision),
        r.occurrences@.len() == occurrences@.len(),
        forall|k: int|
            0 <= k < occurrences@.len() ==> occurrence_write_planned(
                #[trigger] r.occurrences@[k],
                id@,
                occurrences@[k]@,
                task_at(task_ids_view(task_ids), k),
            ),
        task_ids is None ==> r.tasks@.len() == 0,
        task_ids matches Some(t) ==> r.tasks@.len() == t@.len() && forall|k: int|
            0 <= k < t@.len() ==> task_write_planned(
                #[trigger] r.tasks@[k],
                t@[k]@,
                occurrences@[k]@,
            ),
{
    let mut writes: Vec<OccurrenceWrite> = Vec::new();
    let mut starts: Vec<TaskStartWrite> = Vec::new();
    let mut i: usize = 0;
    while i < occurrences.len()
        invariant
            i <= occurrences@.len(),
            task_ids matches Some(t) ==> t@.len() == occurrences@.len(),
            writes@.len() == i,
            forall|k: int|
                0 <= k < i ==> occurrence_write_planned(
                    #[trigger] writes@[k],
                    id@,
                    occurrences@[k]@,
                    task_at(task_ids_view(task_ids), k),
                ),
            task_ids is None ==> starts@.len() == 0,
            task_ids matches Some(t) ==> starts@.len() == i && forall|k: int|
                0 <= k < i ==> task_write_planned(#[trigger] starts@[k], t@[k]@, occurrences@[k]@),
        decreases occurrences@.len() - i,
    {
        let o = &occurrences[i];
        let persisted = persisted_event(o);
        let stream = recurrence_occurrence_stream(id, o.offset());
        let materialized = match task_ids {
            Some(t) => {
                let task_id = t[i].clone();
                let goal = o.goal().clone();
                starts.push(
                    TaskStartWrite {
                        stream: task_stream(&task_id),
                        expected: ExpectedVersion::NoStream,
                        event: TaskEvent::Started { goal },
                    },
                );
                Some(RecurrenceOccurrenceEvent::Materialized { task_id })
            },
            None => None,
        };
        let w = OccurrenceWrite {
            stream,
            expected: ExpectedVersion::NoStream,
            persisted,
            materialized,
        };
        assert(occurrence_write_planned(w, id@, o@, task_at(task_ids_view(task_ids), i as int))) by {
            if let Some(t) = task_ids {
                assert(task_ids_view(task_ids) == Some(t@.map_values(|x: TaskId| x@)));
            }
            assert(occurrence_write_events(w) =~= due_write_events(
                o@,
                task_at(task_ids_view(task_ids), i as int),
            ));
        }
        writes.push(w);
        i = i + 1;
    }
    DueBatchPlan {
        occurrences: writes,
        tasks: starts,
        guard: recurrence_stream(id),
        guard_expected: ExpectedVersion::Exact(expected_revision),
    }
}

/// A persisted due page reloads as that page: every occurrence stream a due batch
/// writes replays to exactly the occurrence it was planned for, unclaimed and with no
/// release, bound to its task when the batch binds tasks, at one revision per event.
pub proof fn lemma_due_page_is_reloaded(
    r: FixedIntervalRecurrenceView,
    page: Seq<RecurrenceOccurrenceView>,
    tasks: Option<Seq<Seq<char>>>,
)
    requires
        forall|k: int|
            0 <= k < page.len() ==> #[trigger] page[k] == authored_occurrence(r, page[k].offset)
                && page[k].offset < r.occurrence_count,
        tasks matches Some(t) ==> t.len() == page.len(),
    ensures
        forall|k: int|
            0 <= k < page.len() ==> project_occurrence(
                r,
                page[k].offset,
                #[trigger] due_write_events(page[k], task_at(tasks, k)),
            ) == Some(
                Some(
                    OccurrenceStateView {
                        occurrence: page[k],
                        revision: due_write_events(page[k], task_at(tasks, k)).len() as u64,
                        claimed: false,
                        latest_release: None,
                        task_id: task_at(tasks, k),
                    },
                ),
            ),
{
    assert forall|k: int| 0 <= k < page.len() implies project_occurrence(
        r,
        page[k].offset,
        #[trigger] due_write_events(page[k], task_at(tasks, k)),
    ) == Some(
        Some(
            OccurrenceStateView {
                occurrence: page[k],
                revision: due_write_events(page[k], task_at(tasks, k)).len() as u64,
                claimed: false,
                latest_release: None,
                task_id: task_at(tasks, k),
            },
        ),
    ) by {
        let o = page[k];
        let p = persisted_view(o);
        lemma_persisted_occurrence_is_reloaded(r, o.offset, p);
        if let Some(t) = task_at(tasks, k) {
            let before = OccurrenceStateView {
                occurrence: authored_occurrence(r, o.offset),
                revision: 1,
                claimed: false,
                latest_release: None,
                task_id: None,
            };
            let m = RecurrenceOccurrenceEventView::Materialized { task_id: t };
            lemma_occurrence_event_is_reloaded(
                r,
                o.offset,
                seq![p],
                before,
                m,
                OccurrenceFlags { claimed: false, latest_release: None, task_id: Some(t) },
            );
            assert(seq![p].push(m) =~= due_write_events(o, Some(t)));
        }
    }
}

} // verus!
