use vstd::prelude::*;

use crate::event_log::ReplayError;
use crate::listing::{listed_in_order, sort_listed, ListOrder};
use crate::task::TaskId;
use crate::text::{is_blank, lemma_suffix_after, lemma_text_lt_asymmetric, lemma_text_lt_transitive, str_equals, suffix_after, text_less, text_lt};
use crate::workflow::{
    project_run, project_workflow_run, run_events_view, run_id_from_stream, WorkflowRun,
    WorkflowRunEvent, WorkflowRunEventView, WorkflowRunProjection, WorkflowRunStoreError,
    WorkflowRunView,
};

verus! {

/// Workflow runs listed by ascending exact run identity.
pub struct RunsById;

impl ListOrder<WorkflowRun> for RunsById {
    open spec fn before(&self, a: WorkflowRun, b: WorkflowRun) -> bool {
        text_lt(a@.id, b@.id)
    }

    fn is_before(&self, a: &WorkflowRun, b: &WorkflowRun) -> (r: bool) {
        text_less(a.id().as_str(), b.id().as_str())
    }

    proof fn lemma_before_transitive(&self, a: WorkflowRun, b: WorkflowRun, c: WorkflowRun) {
        lemma_text_lt_transitive(a@.id, b@.id, c@.id);
    }

    proof fn lemma_before_asymmetric(&self, a: WorkflowRun, b: WorkflowRun) {
        lemma_text_lt_asymmetric(a@.id, b@.id);
    }
}

/// The run identity named by a listed stream, if the stream names one.
pub open spec fn listed_run_id(stream_id: Seq<char>) -> Option<Seq<char>> {
    match suffix_after(stream_id, "workflow-run:"@) {
        Some(rest) => if is_blank(rest) {
            None
        } else {
            Some(rest)
        },
        None => None,
    }
}

/// The run that one listed stream holds, when it holds a valid one.
pub open spec fn listed_run(stream_id: Seq<char>, events: Seq<WorkflowRunEventView>) -> Option<
    WorkflowRunView,
> {
    match listed_run_id(stream_id) {
        Some(id) => match project_run(id, events) {
            WorkflowRunProjection::Found(s) => Some(s),
            _ => None,
        },
        None => None,
    }
}

/// The refusal that one listed stream without a valid run meets.
pub open spec fn listed_run_refusal(
    stream_id: Seq<char>,
    events: Seq<WorkflowRunEventView>,
    e: WorkflowRunStoreError,
) -> bool {
    match listed_run_id(stream_id) {
        None => e matches WorkflowRunStoreError::InvalidStreamId { stream_id: s } && s@ == stream_id,
        Some(id) => match project_run(id, events) {
            WorkflowRunProjection::Empty => e matches WorkflowRunStoreError::InvalidHistory {
                event_count,
            } && event_count == 0,
            WorkflowRunProjection::InvalidHistory => e matches WorkflowRunStoreError::InvalidHistory {
                event_count,
            } && event_count == events.len(),
            WorkflowRunProjection::Malformed(m) => e matches WorkflowRunStoreError::Replay(
                ReplayError::MalformedPayload { stream_version, message },
            ) && stream_version == 1 && message@ == m,
            WorkflowRunProjection::Found(_) => false,
        },
    }
}

/// Replays every started run stream and lists the runs by ascending run identity;
/// the first stream, in the given order, that holds no valid run is reported.
#[verifier::rlimit(40)]
pub fn list_runs(streams: Vec<(String, Vec<WorkflowRunEvent>)>) -> (r: Result<
    Vec<WorkflowRun>,
    WorkflowRunStoreError,
>)
    ensures
        r is Ok <==> forall|k: int|
            0 <= k < streams@.len() ==> #[trigger] listed_run(
                streams@[k].0@,
                run_events_view(streams@[k].1@),
            ) is Some,
        r matches Ok(v) ==> {
            &&& listed_in_order(RunsById, v@)
            &&& exists|found: Seq<WorkflowRun>|
                #![trigger found.to_multiset()]
                {
                    &&& found.len() == streams@.len()
                    &&& forall|k: int|
                        0 <= k < found.len() ==> Some(#[trigger] found[k]@) == listed_run(
                            streams@[k].0@,
                            run_events_view(streams@[k].1@),
                        )
                    &&& v@.to_multiset() == found.to_multiset()
                }
        },
        r matches Err(e) ==> exists|k: int|
            0 <= k < streams@.len() && (forall|i: int|
                0 <= i < k ==> #[trigger] listed_run(
                    streams@[i].0@,
                    run_events_view(streams@[i].1@),
                ) is Some) && listed_run_refusal(
                streams@[k].0@,
                run_events_view(streams@[k].1@),
                e,
            ),
{
    let ghost all = streams@;
    let n = streams.len();
    let mut rest = streams;
    let mut found: Vec<WorkflowRun> = Vec::new();
    let mut k: usize = 0;
    while rest.len() > 0
        invariant
            k + rest@.len() == all.len(),
            all.len() == n,
            all == streams@,
            rest@ == all.subrange(k as int, all.len() as int),
            found@.len() == k,
            forall|i: int|
                0 <= i < k ==> Some(#[trigger] found@[i]@) == listed_run(
                    all[i].0@,
                    run_events_view(all[i].1@),
                ),
        decreases rest@.len(),
    {
        let ghost before = rest@;
        let (stream_id, events) = rest.remove(0);
        proof {
            assert(before[0] == all[k as int]);
            assert(rest@ =~= all.subrange(k + 1, all.len() as int));
        }
        let ghost sid = stream_id@;
        let ghost evs = run_events_view(events@);
        let id = match run_id_from_stream(stream_id) {
            Ok(id) => id,
            Err(e) => {
                proof {
                    if listed_run_id(sid) is Some {
                        let rest_id = suffix_after(sid, "workflow-run:"@)->0;
                        lemma_suffix_after(sid, "workflow-run:"@, rest_id);
                        assert(sid == "workflow-run:"@ + rest_id && !is_blank(rest_id));
                    }
                    assert(listed_run_id(sid) is None);
                    assert(sid == all[k as int].0@);
                    assert(listed_run_refusal(all[k as int].0@, run_events_view(all[k as int].1@), e));
                    lemma_list_refusal_at(all, found@, k as int, e);
                    assert(!(forall|i: int|
                        0 <= i < all.len() ==> #[trigger] listed_run(
                            all[i].0@,
                            run_events_view(all[i].1@),
                        ) is Some));
                }
                return Err(e);
            },
        };
        proof {
            let w = choose|rest: Seq<char>| sid == "workflow-run:"@ + rest && !is_blank(rest);
            lemma_suffix_after(sid, "workflow-run:"@, w);
            lemma_suffix_after(sid, "workflow-run:"@, id@);
            assert(listed_run_id(sid) == Some(id@));
        }
        match project_workflow_run(&id, &events) {
            Ok(Some(run)) => {
                found.push(run);
            },
            Ok(None) => {
                let e = WorkflowRunStoreError::InvalidHistory { event_count: 0 };
                proof {
                    lemma_list_refusal_at(all, found@, k as int, e);
                }
                return Err(e);
            },
            Err(e) => {
                proof {
                    lemma_list_refusal_at(all, found@, k as int, e);
                }
                return Err(e);
            },
        }
        k = k + 1;
    }
    let ghost found_all = found@;
    let sorted = sort_listed(found, &RunsById);
    proof {
        assert forall|i: int| 0 <= i < all.len() implies #[trigger] listed_run(
            all[i].0@,
            run_events_view(all[i].1@),
        ) is Some by {
            assert(Some(found_all[i]@) == listed_run(all[i].0@, run_events_view(all[i].1@)));
        }
    }
    Ok(sorted)
}

/// A listed stream that meets a refusal after earlier streams that held runs
/// makes the whole listing fail with that refusal.
proof fn lemma_list_refusal_at(
    all: Seq<(String, Vec<WorkflowRunEvent>)>,
    found: Seq<WorkflowRun>,
    k: int,
    e: WorkflowRunStoreError,
)
    requires
        0 <= k < all.len(),
        found.len() == k,
        forall|i: int|
            0 <= i < k ==> Some(#[trigger] found[i]@) == listed_run(
                all[i].0@,
                run_events_view(all[i].1@),
            ),
        listed_run_refusal(all[k].0@, run_events_view(all[k].1@), e),
    ensures
        !(forall|i: int|
            0 <= i < all.len() ==> #[trigger] listed_run(
                all[i].0@,
                run_events_view(all[i].1@),
            ) is Some),
        exists|j: int|
            0 <= j < all.len() && (forall|i: int|
                0 <= i < j ==> #[trigger] listed_run(all[i].0@, run_events_view(all[i].1@)) is Some)
                && listed_run_refusal(all[j].0@, run_events_view(all[j].1@), e),
{
    assert forall|i: int| 0 <= i < k implies #[trigger] listed_run(
        all[i].0@,
        run_events_view(all[i].1@),
    ) is Some by {
        assert(Some(found[i]@) == listed_run(all[i].0@, run_events_view(all[i].1@)));
    }
    assert(listed_run(all[k].0@, run_events_view(all[k].1@)) is None);
}

/// The runs attributed to one exact task, in their given order.
#[verifier::loop_isolation(false)]
pub fn runs_for_task(runs: Vec<WorkflowRun>, task_id: &TaskId) -> (r: Vec<WorkflowRun>)
    ensures
        r@ == runs@.filter(|x: WorkflowRun| x@.task_id == Some(task_id@)),
{
    let ghost pred = |x: WorkflowRun| x@.task_id == Some(task_id@);
    let ghost all = runs@;
    let n = runs.len();
    let mut rest = runs;
    let mut out: Vec<WorkflowRun> = Vec::new();
    let mut k: usize = 0;
    assert(all.subrange(0, 0).filter(pred) =~= Seq::<WorkflowRun>::empty()) by {
        reveal(Seq::filter);
    }
    while rest.len() > 0
        invariant
            k + rest@.len() == all.len(),
            all.len() == n,
            rest@ == all.subrange(k as int, all.len() as int),
            out@ == all.subrange(0, k as int).filter(pred),
        decreases rest@.len(),
    {
        let ghost before = rest@;
        let run = rest.remove(0);
        proof {
            assert(before[0] == all[k as int]);
            assert(rest@ =~= all.subrange(k + 1, all.len() as int));
            reveal(Seq::filter);
            assert(all.subrange(0, k + 1).len() > 0);
            assert(all.subrange(0, k + 1).drop_last() =~= all.subrange(0, k as int));
            assert(all.subrange(0, k + 1).last() == run);
        }
        let keep = match run.task_id() {
            Some(t) => str_equals(t.as_str(), task_id.as_str()),
            None => false,
        };
        assert(keep == (run@.task_id == Some(task_id@)));
        let ghost prior = all.subrange(0, k as int).filter(pred);
        proof {
            assert(all.subrange(0, k + 1).filter(pred) == (if pred(run) {
                prior.push(run)
            } else {
                prior
            }));
        }
        if keep {
            out.push(run);
        }
        k = k + 1;
    }
    assert(all.subrange(0, all.len() as int) =~= all);
    out
}

} // verus!
