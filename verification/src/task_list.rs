use vstd::prelude::*;

use crate::listing::{listed_in_order, sort_listed, ListOrder};
use crate::task::{project_task, project_task_history, task_events_view, Task, TaskEvent, TaskId, TaskStoreError, TaskView};
use crate::text::{is_blank, lemma_text_lt_asymmetric, lemma_text_lt_transitive, strip_prefix, suffix_after, text_less, text_lt};

verus! {

/// Tasks listed by ascending exact identity.
pub struct TasksById;

impl ListOrder<Task> for TasksById {
    open spec fn before(&self, a: Task, b: Task) -> bool {
        text_lt(a@.id, b@.id)
    }

    fn is_before(&self, a: &Task, b: &Task) -> (r: bool) {
        text_less(a.id().as_str(), b.id().as_str())
    }

    proof fn lemma_before_transitive(&self, a: Task, b: Task, c: Task) {
        lemma_text_lt_transitive(a@.id, b@.id, c@.id);
    }

    proof fn lemma_before_asymmetric(&self, a: Task, b: Task) {
        lemma_text_lt_asymmetric(a@.id, b@.id);
    }
}

/// The identity named by a listed stream, if the stream names one.
pub open spec fn listed_task_id(stream_id: Seq<char>) -> Option<Seq<char>> {
    match suffix_after(stream_id, "task:"@) {
        Some(rest) => if rest.len() == 0 {
            None
        } else {
            Some(rest)
        },
        None => None,
    }
}

/// Recovers an identity from the name of a stream that the listing found.
pub fn task_id_from_stream(stream_id: String) -> (r: Result<TaskId, TaskStoreError>)
    ensures
        match listed_task_id(stream_id@) {
            Some(id) => r matches Ok(i) && i@ == id,
            None => r matches Err(TaskStoreError::InvalidStreamId { stream_id: s }) && s@ == stream_id@,
        },
{
    let rest = match strip_prefix(stream_id.as_str(), "task:") {
        Some(rest) => rest.to_owned(),
        None => {
            return Err(TaskStoreError::InvalidStreamId { stream_id });
        },
    };
    match TaskId::new(rest) {
        Ok(id) => Ok(id),
        Err(_) => Err(TaskStoreError::InvalidStreamId { stream_id }),
    }
}

/// The task that one listed stream holds, when it holds a valid one.
pub open spec fn listed_task(stream_id: Seq<char>, events: Seq<TaskEvent>) -> Option<TaskView> {
    match listed_task_id(stream_id) {
        Some(id) => match project_task(id, task_events_view(events)) {
            Some(Some(v)) => Some(v),
            _ => None,
        },
        None => None,
    }
}

/// The refusal that one listed stream without a valid task meets.
pub open spec fn listed_task_refusal(stream_id: Seq<char>, events: Seq<TaskEvent>, e: TaskStoreError) -> bool {
    match listed_task_id(stream_id) {
        None => e matches TaskStoreError::InvalidStreamId { stream_id: s } && s@ == stream_id,
        Some(id) => match project_task(id, task_events_view(events)) {
            Some(None) => e matches TaskStoreError::InvalidHistory { event_count } && event_count == 0,
            None => e matches TaskStoreError::InvalidHistory { event_count } && event_count == events.len(),
            Some(Some(_)) => false,
        },
    }
}

/// A listed stream that meets a refusal after earlier streams that held valid
/// values makes the whole listing fail with that refusal.
proof fn lemma_task_refusal_at(all: Seq<(String, Vec<TaskEvent>)>, found: Seq<Task>, k: int, e: TaskStoreError)
    requires
        0 <= k < all.len(),
        found.len() == k,
        forall|i: int| 0 <= i < k ==> Some(#[trigger] found[i]@) == listed_task(all[i].0@, all[i].1@),
        listed_task_refusal(all[k].0@, all[k].1@, e),
    ensures
        !(forall|i: int| 0 <= i < all.len() ==> #[trigger] listed_task(all[i].0@, all[i].1@) is Some),
        exists|j: int|
            0 <= j < all.len() && (forall|i: int|
                0 <= i < j ==> #[trigger] listed_task(all[i].0@, all[i].1@) is Some)
                && listed_task_refusal(all[j].0@, all[j].1@, e),
{
    assert forall|i: int| 0 <= i < k implies #[trigger] listed_task(all[i].0@, all[i].1@) is Some by {
        assert(Some(found[i]@) == listed_task(all[i].0@, all[i].1@));
    }
    assert(listed_task(all[k].0@, all[k].1@) is None);
}

/// Replays every discovered stream into its task; the first stream, in the
/// given order, that holds no valid task is reported.
pub fn collect_tasks(streams: Vec<(String, Vec<TaskEvent>)>) -> (r: Result<Vec<Task>, TaskStoreError>)
    ensures
        r is Ok <==> forall|k: int|
            0 <= k < streams@.len() ==> #[trigger] listed_task(streams@[k].0@, streams@[k].1@) is Some,
        r matches Ok(v) ==> v@.len() == streams@.len() && forall|k: int|
            0 <= k < v@.len() ==> Some(#[trigger] v@[k]@) == listed_task(
                streams@[k].0@,
                streams@[k].1@,
            ),
        r matches Err(e) ==> exists|k: int|
            0 <= k < streams@.len() && (forall|i: int|
                0 <= i < k ==> #[trigger] listed_task(streams@[i].0@, streams@[i].1@) is Some)
                && listed_task_refusal(streams@[k].0@, streams@[k].1@, e),
{
    let ghost all = streams@;
    let n = streams.len();
    let mut rest = streams;
    let mut found: Vec<Task> = Vec::new();
    let mut k: usize = 0;
    while rest.len() > 0
        invariant
            k + rest@.len() == all.len(),
            all.len() == n,
            all == streams@,
            rest@ == all.subrange(k as int, all.len() as int),
            found@.len() == k,
            forall|i: int| 0 <= i < k ==> Some(#[trigger] found@[i]@) == listed_task(all[i].0@, all[i].1@),
        decreases rest@.len(),
    {
        let ghost before = rest@;
        let (stream_id, events) = rest.remove(0);
        proof {
            assert(before[0] == all[k as int]);
            assert(rest@ =~= all.subrange(k + 1, all.len() as int));
        }
        let id = match task_id_from_stream(stream_id) {
            Ok(id) => id,
            Err(e) => {
                proof {
                    lemma_task_refusal_at(all, found@, k as int, e);
                }
                return Err(e);
            },
        };
        match project_task_history(&id, events) {
            Ok(Some(loaded)) => {
                found.push(loaded.task);
            },
            Ok(None) => {
                let e = TaskStoreError::InvalidHistory { event_count: 0 };
                proof {
                    lemma_task_refusal_at(all, found@, k as int, e);
                }
                return Err(e);
            },
            Err(e) => {
                proof {
                    lemma_task_refusal_at(all, found@, k as int, e);
                }
                return Err(e);
            },
        }
        k = k + 1;
    }
    proof {
        assert forall|i: int| 0 <= i < all.len() implies #[trigger] listed_task(all[i].0@, all[i].1@) is Some by {
            assert(Some(found@[i]@) == listed_task(all[i].0@, all[i].1@));
        }
    }
    Ok(found)
}

/// Replays every discovered stream and lists the tasks by ascending identity.
pub fn list_tasks(streams: Vec<(String, Vec<TaskEvent>)>) -> (r: Result<Vec<Task>, TaskStoreError>)
    ensures
        r is Ok <==> forall|k: int|
            0 <= k < streams@.len() ==> #[trigger] listed_task(streams@[k].0@, streams@[k].1@) is Some,
        r matches Ok(v) ==> {
            &&& listed_in_order(TasksById, v@)
            &&& exists|found: Seq<Task>|
                #![trigger found.to_multiset()]
                {
                    &&& found.len() == streams@.len()
                    &&& forall|k: int|
                        0 <= k < found.len() ==> Some(#[trigger] found[k]@) == listed_task(
                            streams@[k].0@,
                            streams@[k].1@,
                        )
                    &&& v@.to_multiset() == found.to_multiset()
                }
        },
        r matches Err(e) ==> exists|k: int|
            0 <= k < streams@.len() && (forall|i: int|
                0 <= i < k ==> #[trigger] listed_task(streams@[i].0@, streams@[i].1@) is Some)
                && listed_task_refusal(streams@[k].0@, streams@[k].1@, e),
{
    match collect_tasks(streams) {
        Ok(found) => {
            let ghost found_all = found@;
            let sorted = sort_listed(found, &TasksById);
            Ok(sorted)
        },
        Err(e) => Err(e),
    }
}


} // verus!
