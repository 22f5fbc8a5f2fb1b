use vstd::prelude::*;

use crate::listing::{listed_in_order, sort_listed, ListOrder};
use crate::text::{is_blank, lemma_suffix_after, lemma_text_lt_asymmetric, lemma_text_lt_transitive, suffix_after, text_less, text_lt};
use crate::tool::{
    invocation_id_from_stream, project_invocation, project_tool_invocation, tool_events_view,
    ToolInvocation, ToolInvocationEvent, ToolInvocationEventView, ToolInvocationProjection,
    ToolInvocationStoreError, ToolInvocationView,
};

verus! {

/// Tool invocations listed by ascending exact invocation identity.
pub struct InvocationsById;

impl ListOrder<ToolInvocation> for InvocationsById {
    open spec fn before(&self, a: ToolInvocation, b: ToolInvocation) -> bool {
        text_lt(a@.id, b@.id)
    }

    fn is_before(&self, a: &ToolInvocation, b: &ToolInvocation) -> (r: bool) {
        text_less(a.id().as_str(), b.id().as_str())
    }

    proof fn lemma_before_transitive(&self, a: ToolInvocation, b: ToolInvocation, c: ToolInvocation) {
        lemma_text_lt_transitive(a@.id, b@.id, c@.id);
    }

    proof fn lemma_before_asymmetric(&self, a: ToolInvocation, b: ToolInvocation) {
        lemma_text_lt_asymmetric(a@.id, b@.id);
    }
}

/// The invocation identity named by a listed stream, if the stream names one.
pub open spec fn listed_invocation_id(stream_id: Seq<char>) -> Option<Seq<char>> {
    match suffix_after(stream_id, "tool-invocation:"@) {
        Some(rest) => if is_blank(rest) {
            None
        } else {
            Some(rest)
        },
        None => None,
    }
}

/// The invocation that one listed stream holds, when it holds a valid one.
pub open spec fn listed_invocation(stream_id: Seq<char>, events: Seq<ToolInvocationEventView>) -> Option<
    ToolInvocationView,
> {
    match listed_invocation_id(stream_id) {
        Some(id) => match project_invocation(id, events) {
            ToolInvocationProjection::Found(s) => Some(s),
            _ => None,
        },
        None => None,
    }
}

/// The refusal that one listed stream without a valid invocation meets.
pub open spec fn listed_invocation_refusal(
    stream_id: Seq<char>,
    events: Seq<ToolInvocationEventView>,
    e: ToolInvocationStoreError,
) -> bool {
    match listed_invocation_id(stream_id) {
        None => e matches ToolInvocationStoreError::InvalidStreamId { stream_id: s } && s@ == stream_id,
        Some(id) => match project_invocation(id, events) {
            ToolInvocationProjection::Empty => e matches ToolInvocationStoreError::InvalidHistory {
                event_count,
            } && event_count == 0,
            ToolInvocationProjection::InvalidHistory => e matches ToolInvocationStoreError::InvalidHistory {
                event_count,
            } && event_count == events.len(),
            ToolInvocationProjection::Found(_) => false,
        },
    }
}

/// Replays every intended invocation stream and lists the runs by ascending invocation identity;
/// the first stream, in the given order, that holds no valid invocation is reported.
#[verifier::rlimit(40)]
pub fn list_invocations(streams: Vec<(String, Vec<ToolInvocationEvent>)>) -> (r: Result<
    Vec<ToolInvocation>,
    ToolInvocationStoreError,
>)
    ensures
        r is Ok <==> forall|k: int|
            0 <= k < streams@.len() ==> #[trigger] listed_invocation(
                streams@[k].0@,
                tool_events_view(streams@[k].1@),
            ) is Some,
        r matches Ok(v) ==> {
            &&& listed_in_order(InvocationsById, v@)
            &&& exists|found: Seq<ToolInvocation>|
                #![trigger found.to_multiset()]
                {
                    &&& found.len() == streams@.len()
                    &&& forall|k: int|
                        0 <= k < found.len() ==> Some(#[trigger] found[k]@) == listed_invocation(
                            streams@[k].0@,
                            tool_events_view(streams@[k].1@),
                        )
                    &&& v@.to_multiset() == found.to_multiset()
                }
        },
        r matches Err(e) ==> exists|k: int|
            0 <= k < streams@.len() && (forall|i: int|
                0 <= i < k ==> #[trigger] listed_invocation(
                    streams@[i].0@,
                    tool_events_view(streams@[i].1@),
                ) is Some) && listed_invocation_refusal(
                streams@[k].0@,
                tool_events_view(streams@[k].1@),
                e,
            ),
{
    let ghost all = streams@;
    let n = streams.len();
    let mut rest = streams;
    let mut found: Vec<ToolInvocation> = Vec::new();
    let mut k: usize = 0;
    while rest.len() > 0
        invariant
            k + rest@.len() == all.len(),
            all.len() == n,
            all == streams@,
            rest@ == all.subrange(k as int, all.len() as int),
            found@.len() == k,
            forall|i: int|
                0 <= i < k ==> Some(#[trigger] found@[i]@) == listed_invocation(
                    all[i].0@,
                    tool_events_view(all[i].1@),
                ),
        decreases rest@.len(),
    {
        let ghost before = rest@;
        let (stream_id, events) = rest.remove(0);
        proof {
            assert(before[0] == all[k as int]);
            assert(rest@ =~= all.subrange(k + 1, all.len() as int));
        }
        let ghost sid = stream_id@;
        let ghost evs = tool_events_view(events@);
        let id = match invocation_id_from_stream(stream_id) {
            Ok(id) => id,
            Err(e) => {
                proof {
                    if listed_invocation_id(sid) is Some {
                        let rest_id = suffix_after(sid, "tool-invocation:"@)->0;
                        lemma_suffix_after(sid, "tool-invocation:"@, rest_id);
                        assert(sid == "tool-invocation:"@ + rest_id && !is_blank(rest_id));
                    }
                    assert(listed_invocation_id(sid) is None);
                    assert(sid == all[k as int].0@);
                    assert(listed_invocation_refusal(all[k as int].0@, tool_events_view(all[k as int].1@), e));
                    lemma_invocation_refusal_at(all, found@, k as int, e);
                    assert(!(forall|i: int|
                        0 <= i < all.len() ==> #[trigger] listed_invocation(
                            all[i].0@,
                            tool_events_view(all[i].1@),
                        ) is Some));
                }
                return Err(e);
            },
        };
        proof {
            let w = choose|rest: Seq<char>| sid == "tool-invocation:"@ + rest && !is_blank(rest);
            lemma_suffix_after(sid, "tool-invocation:"@, w);
            lemma_suffix_after(sid, "tool-invocation:"@, id@);
            assert(listed_invocation_id(sid) == Some(id@));
        }
        match project_tool_invocation(&id, &events) {
            Ok(Some(invocation)) => {
                found.push(invocation);
            },
            Ok(None) => {
                let e = ToolInvocationStoreError::InvalidHistory { event_count: 0 };
                proof {
                    lemma_invocation_refusal_at(all, found@, k as int, e);
                }
                return Err(e);
            },
            Err(e) => {
                proof {
                    lemma_invocation_refusal_at(all, found@, k as int, e);
                }
                return Err(e);
            },
        }
        k = k + 1;
    }
    let ghost found_all = found@;
    let sorted = sort_listed(found, &InvocationsById);
    proof {
        assert forall|i: int| 0 <= i < all.len() implies #[trigger] listed_invocation(
            all[i].0@,
            tool_events_view(all[i].1@),
        ) is Some by {
            assert(Some(found_all[i]@) == listed_invocation(all[i].0@, tool_events_view(all[i].1@)));
        }
    }
    Ok(sorted)
}

/// A listed stream that meets a refusal after earlier streams that held invocations
/// makes the whole listing fail with that refusal.
proof fn lemma_invocation_refusal_at(
    all: Seq<(String, Vec<ToolInvocationEvent>)>,
    found: Seq<ToolInvocation>,
    k: int,
    e: ToolInvocationStoreError,
)
    requires
        0 <= k < all.len(),
        found.len() == k,
        forall|i: int|
            0 <= i < k ==> Some(#[trigger] found[i]@) == listed_invocation(
                all[i].0@,
                tool_events_view(all[i].1@),
            ),
        listed_invocation_refusal(all[k].0@, tool_events_view(all[k].1@), e),
    ensures
        !(forall|i: int|
            0 <= i < all.len() ==> #[trigger] listed_invocation(
                all[i].0@,
                tool_events_view(all[i].1@),
            ) is Some),
        exists|j: int|
            0 <= j < all.len() && (forall|i: int|
                0 <= i < j ==> #[trigger] listed_invocation(all[i].0@, tool_events_view(all[i].1@)) is Some)
                && listed_invocation_refusal(all[j].0@, tool_events_view(all[j].1@), e),
{
    assert forall|i: int| 0 <= i < k implies #[trigger] listed_invocation(
        all[i].0@,
        tool_events_view(all[i].1@),
    ) is Some by {
        assert(Some(found[i]@) == listed_invocation(all[i].0@, tool_events_view(all[i].1@)));
    }
    assert(listed_invocation(all[k].0@, tool_events_view(all[k].1@)) is None);
}

} // verus!
