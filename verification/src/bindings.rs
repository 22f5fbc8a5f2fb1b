use vstd::prelude::*;

use crate::scheduler::{MaterializedRecurrenceOccurrence, RecurrenceStoreError, ScheduleStoreError, ScheduledTask};
use crate::session::SessionId;
use crate::task::{Task, TaskId};
use crate::text::str_equals;

verus! {

/// Whether a schedule materialized the task `task_id`.
pub open spec fn schedule_bound_to(task_id: Seq<char>) -> spec_fn(ScheduledTask) -> bool {
    |x: ScheduledTask| x@.task_id == Some(task_id)
}

/// Whether a materialized occurrence is bound to the task `task_id`.
pub open spec fn occurrence_bound_to(task_id: Seq<char>) -> spec_fn(MaterializedRecurrenceOccurrence) -> bool {
    |x: MaterializedRecurrenceOccurrence| x@.task_id == task_id
}

/// Whether a task is associated with the session `session_id`.
pub open spec fn task_in_session(session_id: Seq<char>) -> spec_fn(Task) -> bool {
    |x: Task| x@.session_id == Some(session_id)
}

/// The schedules that materialized one exact task, in their given order.
#[verifier::loop_isolation(false)]
pub fn schedules_for_task(items: Vec<ScheduledTask>, task_id: &TaskId) -> (r: Vec<ScheduledTask>)
    ensures
        r@ == items@.filter(schedule_bound_to(task_id@)),
{
    let ghost pred = schedule_bound_to(task_id@);
    let ghost all = items@;
    let n = items.len();
    let mut rest = items;
    let mut out: Vec<ScheduledTask> = Vec::new();
    let mut k: usize = 0;
    assert(all.subrange(0, 0).filter(pred) =~= Seq::<ScheduledTask>::empty()) by {
        reveal(Seq::filter);
    }
    while rest.len() > 0
        invariant
            k + rest@.len() == all.len(),
            all.len() == n,
            rest@ == all.subrange(k as int, all.len() as int),
            out@ == all.subrange(0, k as int).filter(pred),
        decreases rest@.len(),
    {
        let ghost before = rest@;
        let item = rest.remove(0);
        proof {
            assert(before[0] == all[k as int]);
            assert(rest@ =~= all.subrange(k + 1, all.len() as int));
            reveal(Seq::filter);
            assert(all.subrange(0, k + 1).len() > 0);
            assert(all.subrange(0, k + 1).drop_last() =~= all.subrange(0, k as int));
            assert(all.subrange(0, k + 1).last() == item);
        }
        let keep = match item.task_id() {
            Some(t) => str_equals(t.as_str(), task_id.as_str()),
            None => false,
        };
        assert(keep == pred(item));
        let ghost prior = all.subrange(0, k as int).filter(pred);
        proof {
            assert(all.subrange(0, k + 1).filter(pred) == (if pred(item) {
                prior.push(item)
            } else {
                prior
            }));
        }
        if keep {
            out.push(item);
        }
        k = k + 1;
    }
    assert(all.subrange(0, all.len() as int) =~= all);
    out
}

/// The materialized occurrences bound to one exact task, in their given order.
#[verifier::loop_isolation(false)]
pub fn occurrences_for_task(items: Vec<MaterializedRecurrenceOccurrence>, task_id: &TaskId) -> (r: Vec<MaterializedRecurrenceOccurrence>)
    ensures
        r@ == items@.filter(occurrence_bound_to(task_id@)),
{
    let ghost pred = occurrence_bound_to(task_id@);
    let ghost all = items@;
    let n = items.len();
    let mut rest = items;
    let mut out: Vec<MaterializedRecurrenceOccurrence> = Vec::new();
    let mut k: usize = 0;
    assert(all.subrange(0, 0).filter(pred) =~= Seq::<MaterializedRecurrenceOccurrence>::empty()) by {
        reveal(Seq::filter);
    }
    while rest.len() > 0
        invariant
            k + rest@.len() == all.len(),
            all.len() == n,
            rest@ == all.subrange(k as int, all.len() as int),
            out@ == all.subrange(0, k as int).filter(pred),
        decreases rest@.len(),
    {
        let ghost before = rest@;
        let item = rest.remove(0);
        proof {
            assert(before[0] == all[k as int]);
            assert(rest@ =~= all.subrange(k + 1, all.len() as int));
            reveal(Seq::filter);
            assert(all.subrange(0, k + 1).len() > 0);
            assert(all.subrange(0, k + 1).drop_last() =~= all.subrange(0, k as int));
            assert(all.subrange(0, k + 1).last() == item);
        }
        let keep = str_equals(item.task_id().as_str(), task_id.as_str());
        assert(keep == pred(item));
        let ghost prior = all.subrange(0, k as int).filter(pred);
        proof {
            assert(all.subrange(0, k + 1).filter(pred) == (if pred(item) {
                prior.push(item)
            } else {
                prior
            }));
        }
        if keep {
            out.push(item);
        }
        k = k + 1;
    }
    assert(all.subrange(0, all.len() as int) =~= all);
    out
}

/// The tasks associated with one exact session, in their given order.
#[verifier::loop_isolation(false)]
pub fn tasks_for_session(items: Vec<Task>, session_id: &SessionId) -> (r: Vec<Task>)
    ensures
        r@ == items@.filter(task_in_session(session_id@)),
{
    let ghost pred = task_in_session(session_id@);
    let ghost all = items@;
    let n = items.len();
    let mut rest = items;
    let mut out: Vec<Task> = Vec::new();
    let mut k: usize = 0;
    assert(all.subrange(0, 0).filter(pred) =~= Seq::<Task>::empty()) by {
        reveal(Seq::filter);
    }
    while rest.len() > 0
        invariant
            k + rest@.len() == all.len(),
            all.len() == n,
            rest@ == all.subrange(k as int, all.len() as int),
            out@ == all.subrange(0, k as int).filter(pred),
        decreases rest@.len(),
    {
        let ghost before = rest@;
        let item = rest.remove(0);
        proof {
            assert(before[0] == all[k as int]);
            assert(rest@ =~= all.subrange(k + 1, all.len() as int));
            reveal(Seq::filter);
            assert(all.subrange(0, k + 1).len() > 0);
            assert(all.subrange(0, k + 1).drop_last() =~= all.subrange(0, k as int));
            assert(all.subrange(0, k + 1).last() == item);
        }
        let keep = match item.session_id() {
            Some(s) => str_equals(s.as_str(), session_id.as_str()),
            None => false,
        };
        assert(keep == pred(item));
        let ghost prior = all.subrange(0, k as int).filter(pred);
        proof {
            assert(all.subrange(0, k + 1).filter(pred) == (if pred(item) {
                prior.push(item)
            } else {
                prior
            }));
        }
        if keep {
            out.push(item);
        }
        k = k + 1;
    }
    assert(all.subrange(0, all.len() as int) =~= all);
    out
}

/// The schedule that materialized one exact task, if any; a task bound to more
/// than one schedule is an ambiguous binding.
pub fn schedule_for_task(schedules: Vec<ScheduledTask>, task_id: &TaskId) -> (r: Result<
    Option<ScheduledTask>,
    ScheduleStoreError,
>)
    ensures
        ({
            let m = schedules@.filter(schedule_bound_to(task_id@));
            &&& m.len() == 0 ==> (r matches Ok(None))
            &&& m.len() == 1 ==> r == Ok::<Option<ScheduledTask>, ScheduleStoreError>(Some(m[0]))
            &&& m.len() > 1 ==> (r matches Err(
                ScheduleStoreError::AmbiguousTaskBinding { task_id: t, schedule_count },
            ) && t@ == task_id@ && schedule_count == m.len())
        }),
{
    let mut matches = schedules_for_task(schedules, task_id);
    let n = matches.len();
    if n > 1 {
        return Err(
            ScheduleStoreError::AmbiguousTaskBinding { task_id: task_id.clone(), schedule_count: n },
        );
    }
    if n == 0 {
        return Ok(None);
    }
    Ok(matches.pop())
}

/// The occurrence bound to one exact task, if any; a task bound to more than one
/// occurrence is an ambiguous binding.
pub fn occurrence_for_task(
    bindings: Vec<MaterializedRecurrenceOccurrence>,
    task_id: &TaskId,
) -> (r: Result<Option<MaterializedRecurrenceOccurrence>, RecurrenceStoreError>)
    ensures
        ({
            let m = bindings@.filter(occurrence_bound_to(task_id@));
            &&& m.len() == 0 ==> (r matches Ok(None))
            &&& m.len() == 1 ==> r == Ok::<
                Option<MaterializedRecurrenceOccurrence>,
                RecurrenceStoreError,
            >(Some(m[0]))
            &&& m.len() > 1 ==> (r matches Err(
                RecurrenceStoreError::AmbiguousTaskBinding { task_id: t, occurrence_count },
            ) && t@ == task_id@ && occurrence_count == m.len())
        }),
{
    let mut matches = occurrences_for_task(bindings, task_id);
    let n = matches.len();
    if n > 1 {
        return Err(
            RecurrenceStoreError::AmbiguousTaskBinding {
                task_id: task_id.clone(),
                occurrence_count: n,
            },
        );
    }
    if n == 0 {
        return Ok(None);
    }
    Ok(matches.pop())
}

} // verus!
