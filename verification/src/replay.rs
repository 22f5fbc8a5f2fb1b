use vstd::prelude::*;

verus! {

/// Folds a partial transition function over a sequence of events, from the first
/// event to the last; `None` once any event is rejected.
pub open spec fn replay<S, E>(apply: spec_fn(S, E) -> Option<S>, s: S, events: Seq<E>) -> Option<S>
    decreases events.len(),
{
    if events.len() == 0 {
        Some(s)
    } else {
        match replay(apply, s, events.drop_last()) {
            Some(p) => apply(p, events.last()),
            None => None,
        }
    }
}

/// Replaying one more event applies it to the replayed state.
pub proof fn lemma_replay_push<S, E>(apply: spec_fn(S, E) -> Option<S>, s: S, events: Seq<E>, e: E)
    ensures
        replay(apply, s, events.push(e)) == (match replay(apply, s, events) {
            Some(p) => apply(p, e),
            None => None,
        }),
{
    assert(events.push(e).drop_last() =~= events);
}

/// A rejected prefix rejects the whole history.
pub proof fn lemma_replay_rejected_prefix<S, E>(
    apply: spec_fn(S, E) -> Option<S>,
    s: S,
    events: Seq<E>,
    k: int,
)
    requires
        0 <= k <= events.len(),
        replay(apply, s, events.subrange(0, k)) is None,
    ensures
        replay(apply, s, events) is None,
    decreases events.len() - k,
{
    if k == events.len() {
        assert(events.subrange(0, k) =~= events);
    } else {
        lemma_replay_push(apply, s, events.subrange(0, k), events[k]);
        assert(events.subrange(0, k).push(events[k]) =~= events.subrange(0, k + 1));
        lemma_replay_rejected_prefix(apply, s, events, k + 1);
    }
}

/// Extending the replayed prefix by the next event.
pub proof fn lemma_replay_step<S, E>(apply: spec_fn(S, E) -> Option<S>, s: S, events: Seq<E>, k: int)
    requires
        0 <= k < events.len(),
    ensures
        replay(apply, s, events.subrange(0, k + 1)) == (match replay(
            apply,
            s,
            events.subrange(0, k),
        ) {
            Some(p) => apply(p, events[k]),
            None => None,
        }),
{
    lemma_replay_push(apply, s, events.subrange(0, k), events[k]);
    assert(events.subrange(0, k).push(events[k]) =~= events.subrange(0, k + 1));
}

} // verus!
