use vstd::multiset::Multiset;
use vstd::prelude::*;

verus! {

broadcast use {vstd::multiset::group_multiset_axioms, vstd::seq_lib::group_to_multiset_ensures};

/// A strict order in which listed items are presented.
pub trait ListOrder<T> {
    /// Whether `a` is listed strictly before `b`.
    spec fn before(&self, a: T, b: T) -> bool;

    fn is_before(&self, a: &T, b: &T) -> (r: bool)
        ensures
            r == self.before(*a, *b),
    ;

    proof fn lemma_before_transitive(&self, a: T, b: T, c: T)
        requires
            self.before(a, b),
            self.before(b, c),
        ensures
            self.before(a, c),
    ;

    proof fn lemma_before_asymmetric(&self, a: T, b: T)
        requires
            self.before(a, b),
        ensures
            !self.before(b, a),
    ;
}

/// Whether no item of `s` is listed strictly before an item ahead of it.
pub open spec fn listed_in_order<T, O: ListOrder<T>>(order: O, s: Seq<T>) -> bool {
    forall|i: int, j: int| 0 <= i < j < s.len() ==> !order.before(#[trigger] s[j], #[trigger] s[i])
}

/// Orders items by a list order; the result holds exactly the given items.
pub fn sort_listed<T, O: ListOrder<T>>(items: Vec<T>, order: &O) -> (r: Vec<T>)
    ensures
        r@.to_multiset() == items@.to_multiset(),
        listed_in_order(*order, r@),
{
    let ghost all = items@.to_multiset();
    let mut rest = items;
    let mut out: Vec<T> = Vec::new();
    proof {
        assert(out@.len() == 0);
        assert(out@.to_multiset() =~= Multiset::<T>::empty());
    }
    while rest.len() > 0
        invariant
            out@.to_multiset().add(rest@.to_multiset()) == all,
            listed_in_order(*order, out@),
        decreases rest@.len(),
    {
        let ghost before_rest = rest@;
        let x = rest.remove(0);
        proof {
            vstd::seq_lib::to_multiset_remove(before_rest, 0);
            assert(before_rest.contains(x));
            assert(before_rest.to_multiset().count(x) > 0);
            assert(before_rest.to_multiset() =~= rest@.to_multiset().insert(x));
        }
        let ghost before = out@;
        let mut k: usize = 0;
        let mut found = false;
        while k < out.len() && !found
            invariant
                k <= out@.len(),
                before == out@,
                forall|j: int| 0 <= j < k ==> !order.before(x, #[trigger] before[j]),
                found ==> k < out@.len() && order.before(x, before[k as int]),
            decreases out@.len() - k + (if found { 0int } else { 1int }),
        {
            if order.is_before(&x, &out[k]) {
                found = true;
            } else {
                k = k + 1;
            }
        }
        let ghost xv = x;
        out.insert(k, x);
        proof {
            vstd::seq_lib::to_multiset_insert(before, k as int, xv);
            let after = out@;
            assert(after =~= before.insert(k as int, xv));
            assert forall|i: int, j: int| 0 <= i < j < after.len() implies !order.before(
                #[trigger] after[j],
                #[trigger] after[i],
            ) by {
                if j < k {
                    assert(after[i] == before[i] && after[j] == before[j]);
                } else if j == k {
                    assert(after[i] == before[i]);
                } else if i == k {
                    assert(after[j] == before[j - 1]);
                    if j - 1 == k {
                        order.lemma_before_asymmetric(xv, before[k as int]);
                    } else if order.before(before[j - 1], xv) {
                        order.lemma_before_transitive(before[j - 1], xv, before[k as int]);
                    }
                } else if i < k {
                    assert(after[i] == before[i] && after[j] == before[j - 1]);
                } else {
                    assert(after[i] == before[i - 1] && after[j] == before[j - 1]);
                }
            }
            assert(out@.to_multiset() == before.to_multiset().insert(xv));
        }
    }
    proof {
        assert(rest@.len() == 0);
        assert(rest@.to_multiset().len() == 0);
        assert(rest@.to_multiset() =~= Multiset::<T>::empty());
    }
    out
}

} // verus!
