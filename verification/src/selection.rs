//! What it means to keep some of a list, in order.

use vstd::prelude::*;

verus! {

/// The positions, in order, of everything that is kept of a list of `n`.
pub open spec fn keeps(at: Seq<int>, n: nat, keep: spec_fn(int) -> bool) -> bool {
    &&& forall|k: int| 0 <= k < at.len() ==> 0 <= #[trigger] at[k] < n && keep(at[k])
    &&& forall|j: int, k: int| 0 <= j < k < at.len() ==> #[trigger] at[j] < #[trigger] at[k]
    &&& forall|i: int| 0 <= i < n && #[trigger] keep(i) ==> at.contains(i)
}

/// The positions of what a filter keeps.
pub open spec fn kept_positions<A>(list: Seq<A>, keep: spec_fn(A) -> bool) -> Seq<int>
    decreases list.len(),
{
    if list.len() == 0 {
        Seq::empty()
    } else {
        let before = kept_positions(list.drop_last(), keep);
        if keep(list.last()) {
            before.push(list.len() - 1)
        } else {
            before
        }
    }
}

/// A filter keeps exactly what it is to keep, in the order of the list.
pub proof fn filter_keeps<A>(list: Seq<A>, keep: spec_fn(A) -> bool)
    ensures
        keeps(kept_positions(list, keep), list.len(), |i: int| keep(list[i])),
        list.filter(keep).len() == kept_positions(list, keep).len(),
        forall|k: int|
            0 <= k < list.filter(keep).len() ==> #[trigger] list.filter(keep)[k]
                == list[kept_positions(list, keep)[k]],
    decreases list.len(),
{
    reveal(Seq::filter);
    let at = kept_positions(list, keep);
    let here = |i: int| keep(list[i]);
    if list.len() > 0 {
        let rest = list.drop_last();
        let there = |i: int| keep(rest[i]);
        filter_keeps(rest, keep);
        let before = kept_positions(rest, keep);
        assert forall|i: int| 0 <= i < list.len() && #[trigger] here(i) implies at.contains(i) by {
            if i < rest.len() {
                assert(there(i));
                let k = choose|k: int| 0 <= k < before.len() && before[k] == i;
                assert(at[k] == i);
            } else {
                assert(at[at.len() - 1] == i);
            }
        }
        assert forall|k: int| 0 <= k < at.len() implies 0 <= #[trigger] at[k] < list.len() && here(
            at[k],
        ) by {
            if k < before.len() {
                assert(there(before[k]));
            }
        }
        assert forall|j: int, k: int| 0 <= j < k < at.len() implies #[trigger] at[j]
            < #[trigger] at[k] by {
            assert(0 <= before[j] < rest.len());
        }
        assert forall|k: int| 0 <= k < list.filter(keep).len() implies #[trigger] list.filter(
            keep,
        )[k] == list[at[k]] by {
            if k < before.len() {
                assert(rest.filter(keep)[k] == rest[before[k]]);
            }
        }
    }
}

/// There is only one way to keep what is to be kept, in order.
pub proof fn keeping_is_unique(a: Seq<int>, b: Seq<int>, n: nat, keep: spec_fn(int) -> bool)
    requires
        keeps(a, n, keep),
        keeps(b, n, keep),
    ensures
        a == b,
    decreases a.len(),
{
    if a.len() == 0 || b.len() == 0 {
        if b.len() > 0 {
            assert(keep(b[0]));
            assert(a.contains(b[0]));
        }
        if a.len() > 0 {
            assert(keep(a[0]));
            assert(b.contains(a[0]));
        }
        assert(a =~= b);
    } else {
        let la = a.last();
        let lb = b.last();
        assert(keep(la) && keep(lb));
        assert(a.contains(lb) && b.contains(la));
        let i = choose|i: int| 0 <= i < a.len() && a[i] == lb;
        let j = choose|j: int| 0 <= j < b.len() && b[j] == la;
        assert(lb <= la);
        assert(la <= lb);
        let below = |i: int| keep(i) && i < la;
        assert forall|i: int| 0 <= i < n && #[trigger] below(i) implies a.drop_last().contains(
            i,
        ) by {
            assert(keep(i));
            let k = choose|k: int| 0 <= k < a.len() && a[k] == i;
            assert(a.drop_last()[k] == i);
        }
        assert forall|i: int| 0 <= i < n && #[trigger] below(i) implies b.drop_last().contains(
            i,
        ) by {
            assert(keep(i));
            let k = choose|k: int| 0 <= k < b.len() && b[k] == i;
            assert(b.drop_last()[k] == i);
        }
        assert forall|k: int| 0 <= k < a.drop_last().len() implies 0 <= #[trigger] a.drop_last()[k]
            < n && below(a.drop_last()[k]) by {
            assert(a[k] < a[a.len() - 1]);
        }
        assert forall|k: int| 0 <= k < b.drop_last().len() implies 0 <= #[trigger] b.drop_last()[k]
            < n && below(b.drop_last()[k]) by {
            assert(b[k] < b[b.len() - 1]);
        }
        keeping_is_unique(a.drop_last(), b.drop_last(), n, below);
        assert(a =~= a.drop_last().push(la));
        assert(b =~= b.drop_last().push(lb));
    }
}

} // verus!
