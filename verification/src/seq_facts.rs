//! Facts about filtering a sequence in which at most one element stands out.

use vstd::prelude::*;

verus! {

/// Filtering by a predicate that no element meets leaves nothing.
pub proof fn lemma_filter_none<A>(s: Seq<A>, pred: spec_fn(A) -> bool)
    requires
        forall|i: int| 0 <= i < s.len() ==> !pred(#[trigger] s[i]),
    ensures
        s.filter(pred) == Seq::<A>::empty(),
    decreases s.len(),
{
    reveal(Seq::filter);
    if s.len() > 0 {
        lemma_filter_none(s.drop_last(), pred);
    }
}

/// Filtering by a predicate that every element meets changes nothing.
pub proof fn lemma_filter_all<A>(s: Seq<A>, pred: spec_fn(A) -> bool)
    requires
        forall|i: int| 0 <= i < s.len() ==> pred(#[trigger] s[i]),
    ensures
        s.filter(pred) == s,
    decreases s.len(),
{
    reveal(Seq::filter);
    if s.len() > 0 {
        lemma_filter_all(s.drop_last(), pred);
        assert(s.drop_last().push(s.last()) =~= s);
    }
}

/// Filtering one element keeps it or drops it.
pub proof fn lemma_filter_single<A>(x: A, pred: spec_fn(A) -> bool)
    ensures
        seq![x].filter(pred) == if pred(x) {
            seq![x]
        } else {
            Seq::<A>::empty()
        },
{
    reveal(Seq::filter);
    let s = seq![x];
    assert(s.drop_last() =~= Seq::<A>::empty());
    assert(s.drop_last().filter(pred) =~= Seq::<A>::empty());
    assert(Seq::<A>::empty().push(x) =~= s);
}

/// Filtering after one more element was pushed.
pub proof fn lemma_filter_push<A>(s: Seq<A>, x: A, pred: spec_fn(A) -> bool)
    ensures
        s.push(x).filter(pred) == if pred(x) {
            s.filter(pred).push(x)
        } else {
            s.filter(pred)
        },
{
    reveal(Seq::filter);
    assert(s.push(x).drop_last() =~= s);
}

/// Where exactly the element at `k` meets the predicate, filtering by it
/// leaves that element alone.
pub proof fn lemma_filter_only<A>(s: Seq<A>, pred: spec_fn(A) -> bool, k: int)
    requires
        0 <= k < s.len(),
        pred(s[k]),
        forall|i: int| 0 <= i < s.len() && i != k ==> !pred(#[trigger] s[i]),
    ensures
        s.filter(pred) == seq![s[k]],
{
    let front = s.subrange(0, k);
    let back = s.subrange(k + 1, s.len() as int);
    lemma_filter_none(front, pred);
    lemma_filter_none(back, pred);
    lemma_filter_single(s[k], pred);
    Seq::filter_distributes_over_add(front, seq![s[k]], pred);
    Seq::filter_distributes_over_add(front + seq![s[k]], back, pred);
    assert(front + seq![s[k]] + back =~= s);
    assert(Seq::<A>::empty() + seq![s[k]] + Seq::<A>::empty() =~= seq![s[k]]);
}

/// Where exactly the element at `k` fails the predicate, filtering by it
/// removes that element and keeps the rest in order.
pub proof fn lemma_filter_all_but<A>(s: Seq<A>, pred: spec_fn(A) -> bool, k: int)
    requires
        0 <= k < s.len(),
        !pred(s[k]),
        forall|i: int| 0 <= i < s.len() && i != k ==> pred(#[trigger] s[i]),
    ensures
        s.filter(pred) == s.remove(k),
{
    let front = s.subrange(0, k);
    let back = s.subrange(k + 1, s.len() as int);
    lemma_filter_all(front, pred);
    lemma_filter_all(back, pred);
    lemma_filter_single(s[k], pred);
    Seq::filter_distributes_over_add(front, seq![s[k]], pred);
    Seq::filter_distributes_over_add(front + seq![s[k]], back, pred);
    assert(front + seq![s[k]] + back =~= s);
    assert(front + Seq::<A>::empty() + back =~= s.remove(k));
}

} // verus!
