//! A stable sort for values that are ranked by what they stand for.

use crate::text::{
    lemma_precedes_irreflexive, lemma_precedes_total, lemma_precedes_transitive, precedes,
    same_text, text_before,
};
use vstd::prelude::*;

verus! {

/// Values with an order in which several may share a rank.
pub trait Ranked: View + Sized {
    /// Whether `a` has to stand before `b`.
    spec fn before(a: Self::V, b: Self::V) -> bool;

    proof fn before_is_asymmetric(a: Self::V, b: Self::V)
        requires
            Self::before(a, b),
        ensures
            !Self::before(b, a),
    ;

    proof fn not_before_is_transitive(a: Self::V, b: Self::V, c: Self::V)
        requires
            !Self::before(a, b),
            !Self::before(b, c),
        ensures
            !Self::before(a, c),
    ;

    fn comes_before(&self, other: &Self) -> (result: bool)
        ensures
            result == Self::before(self@, other@),
    ;
}

/// What the items of a vector stand for.
pub open spec fn views<T: View>(items: Seq<T>) -> Seq<T::V> {
    items.map_values(|item: T| item@)
}

/// `item` put into `sorted`, in front of the first that need not stand before it.
pub open spec fn inserted<T: Ranked>(item: T::V, sorted: Seq<T::V>) -> Seq<T::V>
    decreases sorted.len(),
{
    if sorted.len() == 0 || !T::before(sorted[0], item) {
        seq![item] + sorted
    } else {
        seq![sorted[0]] + inserted::<T>(item, sorted.drop_first())
    }
}

/// `items` in order, those of one rank as they came.
pub open spec fn stably_sorted<T: Ranked>(items: Seq<T::V>) -> Seq<T::V>
    decreases items.len(),
{
    if items.len() == 0 {
        items
    } else {
        inserted::<T>(items[0], stably_sorted::<T>(items.drop_first()))
    }
}

/// Whether no item stands behind one that it has to stand before.
pub open spec fn in_order<T: Ranked>(items: Seq<T::V>) -> bool {
    forall|i: int, j: int|
        0 <= i < j < items.len() ==> !T::before(#[trigger] items[j], #[trigger] items[i])
}

proof fn lemma_inserted_at<T: Ranked>(item: T::V, sorted: Seq<T::V>, at: int)
    requires
        0 <= at <= sorted.len(),
        forall|i: int| 0 <= i < at ==> T::before(#[trigger] sorted[i], item),
        at < sorted.len() ==> !T::before(sorted[at], item),
    ensures
        inserted::<T>(item, sorted) == sorted.insert(at, item),
    decreases at,
{
    if at == 0 {
        assert(inserted::<T>(item, sorted) =~= sorted.insert(at, item));
    } else {
        assert(T::before(sorted[0], item));
        assert forall|i: int| 0 <= i < at - 1 implies T::before(
            #[trigger] sorted.drop_first()[i],
            item,
        ) by {
            assert(sorted.drop_first()[i] == sorted[i + 1]);
        }
        lemma_inserted_at::<T>(item, sorted.drop_first(), at - 1);
        assert(inserted::<T>(item, sorted) =~= sorted.insert(at, item));
    }
}

/// Sorts `items`, keeping those of one rank in the order in which they came.
pub fn sort<T: Ranked>(items: Vec<T>) -> (sorted: Vec<T>)
    ensures
        views(sorted@) == stably_sorted::<T>(views(items@)),
{
    let ghost all = views(items@);
    let mut rest = items;
    let mut sorted: Vec<T> = Vec::new();
    proof {
        assert(views(sorted@) =~= all.skip(rest@.len() as int));
        assert(views(rest@) =~= all.take(rest@.len() as int));
    }
    while rest.len() > 0
        invariant
            rest@.len() <= all.len(),
            views(rest@) == all.take(rest@.len() as int),
            views(sorted@) == stably_sorted::<T>(all.skip(rest@.len() as int)),
        decreases rest.len(),
    {
        let ghost count = rest@.len() as int;
        let ghost before_rest = rest@;
        let ghost before_sorted = sorted@;
        let item = match rest.pop() {
            Some(item) => item,
            None => {
                return sorted;
            },
        };
        proof {
            assert(views(before_rest)[count - 1] == item@);
            assert(all.skip(count - 1)[0] == item@);
            assert(all.skip(count - 1).drop_first() =~= all.skip(count));
            assert(views(rest@) =~= all.take(count - 1));
        }
        let mut at: usize = 0;
        while at < sorted.len() && sorted[at].comes_before(&item)
            invariant
                at <= sorted@.len(),
                forall|i: int| 0 <= i < at ==> T::before(#[trigger] views(sorted@)[i], item@),
            ensures
                at <= sorted@.len(),
                forall|i: int| 0 <= i < at ==> T::before(#[trigger] views(sorted@)[i], item@),
                at < sorted@.len() ==> !T::before(views(sorted@)[at as int], item@),
            decreases sorted@.len() - at,
        {
            at = at + 1;
        }
        proof {
            lemma_inserted_at::<T>(item@, views(sorted@), at as int);
        }
        sorted.insert(at, item);
        proof {
            assert(views(sorted@) =~= views(before_sorted).insert(at as int, item@));
        }
    }
    proof {
        assert(all.skip(0) =~= all);
    }
    sorted
}

proof fn lemma_inserted_sorted<T: Ranked>(item: T::V, sorted: Seq<T::V>)
    requires
        in_order::<T>(sorted),
    ensures
        in_order::<T>(inserted::<T>(item, sorted)),
        inserted::<T>(item, sorted).to_multiset() == sorted.to_multiset().insert(item),
        inserted::<T>(item, sorted).len() == sorted.len() + 1,
    decreases sorted.len(),
{
    broadcast use vstd::seq_lib::group_to_multiset_ensures;

    let result = inserted::<T>(item, sorted);
    if sorted.len() == 0 || !T::before(sorted[0], item) {
        assert(result =~= sorted.insert(0, item));
        assert forall|i: int, j: int| 0 <= i < j < result.len() implies !T::before(
            #[trigger] result[j],
            #[trigger] result[i],
        ) by {
            if i == 0 {
                assert(result[j] == sorted[j - 1]);
                if j - 1 > 0 {
                    T::not_before_is_transitive(sorted[j - 1], sorted[0], item);
                }
            } else {
                assert(result[j] == sorted[j - 1]);
                assert(result[i] == sorted[i - 1]);
            }
        }
        vstd::seq_lib::to_multiset_insert(sorted, 0, item);
    } else {
        let tail = sorted.drop_first();
        assert forall|i: int, j: int| 0 <= i < j < tail.len() implies !T::before(
            #[trigger] tail[j],
            #[trigger] tail[i],
        ) by {
            assert(tail[j] == sorted[j + 1]);
            assert(tail[i] == sorted[i + 1]);
        }
        lemma_inserted_sorted::<T>(item, tail);
        let rest = inserted::<T>(item, tail);
        assert(result =~= rest.insert(0, sorted[0]));
        assert(sorted =~= tail.insert(0, sorted[0]));
        vstd::seq_lib::to_multiset_insert(rest, 0, sorted[0]);
        vstd::seq_lib::to_multiset_insert(tail, 0, sorted[0]);
        assert(rest.to_multiset().insert(sorted[0]) =~= tail.to_multiset().insert(
            sorted[0],
        ).insert(item));
        T::before_is_asymmetric(sorted[0], item);
        assert forall|i: int, j: int| 0 <= i < j < result.len() implies !T::before(
            #[trigger] result[j],
            #[trigger] result[i],
        ) by {
            if i == 0 {
                assert(result[j] == rest[j - 1]);
                assert(rest.to_multiset().contains(rest[j - 1]));
                if rest[j - 1] != item {
                    assert(tail.to_multiset().contains(rest[j - 1]));
                    let k = tail.index_of(rest[j - 1]);
                    assert(tail[k] == sorted[k + 1]);
                }
            } else {
                assert(result[j] == rest[j - 1]);
                assert(result[i] == rest[i - 1]);
            }
        }
    }
}

/// A sorted sequence is in order and holds the same items.
pub proof fn stably_sorted_is_sorted<T: Ranked>(items: Seq<T::V>)
    ensures
        in_order::<T>(stably_sorted::<T>(items)),
        stably_sorted::<T>(items).to_multiset() == items.to_multiset(),
        stably_sorted::<T>(items).len() == items.len(),
    decreases items.len(),
{
    if items.len() > 0 {
        stably_sorted_is_sorted::<T>(items.drop_first());
        let tail = items.drop_first();
        lemma_inserted_sorted::<T>(items[0], stably_sorted::<T>(tail));
        assert(items =~= tail.insert(0, items[0]));
        vstd::seq_lib::to_multiset_insert(tail, 0, items[0]);
    }
}

/// Whether neither of two items has to stand before the other.
pub open spec fn same_rank<T: Ranked>(a: T::V, b: T::V) -> bool {
    !T::before(a, b) && !T::before(b, a)
}

proof fn lemma_inserted_stable<T: Ranked>(item: T::V, sorted: Seq<T::V>, rank: T::V)
    ensures
        inserted::<T>(item, sorted).filter(|x: T::V| same_rank::<T>(x, rank)) == (seq![item]
            + sorted).filter(|x: T::V| same_rank::<T>(x, rank)),
    decreases sorted.len(),
{
    let keep = |x: T::V| same_rank::<T>(x, rank);
    if sorted.len() > 0 && T::before(sorted[0], item) {
        let tail = sorted.drop_first();
        let first = sorted[0];
        lemma_inserted_stable::<T>(item, tail, rank);
        Seq::filter_distributes_over_add(seq![first], inserted::<T>(item, tail), keep);
        Seq::filter_distributes_over_add(seq![item], tail, keep);
        Seq::filter_distributes_over_add(seq![item], sorted, keep);
        assert(sorted =~= seq![first] + tail);
        Seq::filter_distributes_over_add(seq![first], tail, keep);
        lemma_filter_one(first, keep);
        lemma_filter_one(item, keep);
        if keep(first) && keep(item) {
            T::not_before_is_transitive(first, rank, item);
        }
        assert(inserted::<T>(item, sorted).filter(keep) =~= (seq![item] + sorted).filter(keep));
    }
}

proof fn lemma_filter_one<A>(a: A, keep: spec_fn(A) -> bool)
    ensures
        seq![a].filter(keep) == if keep(a) {
            seq![a]
        } else {
            Seq::empty()
        },
{
    reveal(Seq::filter);
    assert(seq![a].drop_last() =~= Seq::empty());
    assert(seq![a].last() == a);
    assert(seq![a].drop_last().filter(keep) =~= Seq::empty());
    if keep(a) {
        assert(seq![a].filter(keep) =~= seq![a]);
    }
}

/// Sorting is stable: the items of each rank stay in the order in which they came.
pub proof fn stably_sorted_is_stable<T: Ranked>(items: Seq<T::V>, rank: T::V)
    ensures
        stably_sorted::<T>(items).filter(|x: T::V| same_rank::<T>(x, rank)) == items.filter(
            |x: T::V| same_rank::<T>(x, rank),
        ),
    decreases items.len(),
{
    if items.len() > 0 {
        let keep = |x: T::V| same_rank::<T>(x, rank);
        let tail = items.drop_first();
        stably_sorted_is_stable::<T>(tail, rank);
        lemma_inserted_stable::<T>(items[0], stably_sorted::<T>(tail), rank);
        Seq::filter_distributes_over_add(seq![items[0]], stably_sorted::<T>(tail), keep);
        Seq::filter_distributes_over_add(seq![items[0]], tail, keep);
        assert(items =~= seq![items[0]] + tail);
    }
}

impl Ranked for String {
    open spec fn before(a: Seq<char>, b: Seq<char>) -> bool {
        precedes(a, b)
    }

    proof fn before_is_asymmetric(a: Seq<char>, b: Seq<char>) {
        if precedes(b, a) {
            lemma_precedes_transitive(a, b, a);
            lemma_precedes_irreflexive(a);
        }
    }

    proof fn not_before_is_transitive(a: Seq<char>, b: Seq<char>, c: Seq<char>) {
        lemma_precedes_total(a, b);
        lemma_precedes_total(b, c);
        if precedes(a, c) {
            if a != b && b != c {
                lemma_precedes_transitive(c, b, a);
                lemma_precedes_transitive(a, c, a);
            }
            lemma_precedes_irreflexive(a);
        }
    }

    fn comes_before(&self, other: &Self) -> (result: bool) {
        text_before(self.as_str(), other.as_str())
    }
}

// ---- sets of texts ----

/// A sorted sequence with each text once.
pub open spec fn deduped(sorted: Seq<Seq<char>>) -> Seq<Seq<char>>
    decreases sorted.len(),
{
    if sorted.len() == 0 {
        sorted
    } else if sorted.len() > 1 && sorted[sorted.len() - 2] == sorted.last() {
        deduped(sorted.drop_last())
    } else {
        deduped(sorted.drop_last()).push(sorted.last())
    }
}

/// Texts in order, each once.
pub open spec fn sorted_set(texts: Seq<Seq<char>>) -> Seq<Seq<char>> {
    deduped(stably_sorted::<String>(texts))
}

/// Puts texts in order and drops repetitions.
pub fn sorted_unique(texts: Vec<String>) -> (unique: Vec<String>)
    ensures
        views(unique@) == sorted_set(views(texts@)),
{
    let sorted = sort(texts);
    let ghost all = views(sorted@);
    let mut unique: Vec<String> = Vec::new();
    let mut i: usize = 0;
    proof {
        assert(all.take(0) =~= Seq::empty());
        assert(views(unique@) =~= Seq::empty());
    }
    while i < sorted.len()
        invariant
            i <= sorted@.len(),
            all == views(sorted@),
            views(unique@) == deduped(all.take(i as int)),
        decreases sorted@.len() - i,
    {
        proof {
            assert(all.take(i + 1).drop_last() =~= all.take(i as int));
            assert(all.take(i + 1).last() == sorted@[i as int]@);
            if i > 0 {
                assert(all.take(i + 1)[i - 1] == sorted@[i - 1]@);
            }
        }
        let repeated = i > 0 && same_text(sorted[i - 1].as_str(), sorted[i].as_str());
        if !repeated {
            let ghost before = views(unique@);
            unique.push(sorted[i].clone());
            proof {
                assert(views(unique@) =~= before.push(sorted@[i as int]@));
            }
        }
        i = i + 1;
    }
    proof {
        assert(all.take(i as int) =~= all);
    }
    unique
}

proof fn lemma_deduped(sorted: Seq<Seq<char>>)
    requires
        in_order::<String>(sorted),
    ensures
        forall|i: int, j: int|
            0 <= i < j < deduped(sorted).len() ==> precedes(
                #[trigger] deduped(sorted)[i],
                #[trigger] deduped(sorted)[j],
            ),
        forall|text: Seq<char>| #[trigger]
            deduped(sorted).contains(text) <==> sorted.contains(text),
        sorted.len() > 0 ==> deduped(sorted).len() > 0 && deduped(sorted).last() == sorted.last(),
    decreases sorted.len(),
{
    if sorted.len() > 0 {
        let front = sorted.drop_last();
        let last = sorted.last();
        let n = sorted.len() - 1;
        assert forall|i: int, j: int| 0 <= i < j < front.len() implies !String::before(
            #[trigger] front[j],
            #[trigger] front[i],
        ) by {
            assert(front[i] == sorted[i] && front[j] == sorted[j]);
        }
        lemma_deduped(front);
        let result = deduped(sorted);
        let kept = deduped(front);
        if n > 0 && sorted[n - 1] == last {
            assert(front.last() == last);
            assert forall|text: Seq<char>| #[trigger]
                result.contains(text) <==> sorted.contains(text) by {
                if sorted.contains(text) {
                    let k = sorted.index_of(text);
                    if k < n {
                        assert(front[k] == text);
                    } else {
                        assert(front[n - 1] == text);
                    }
                }
                if front.contains(text) {
                    let k = front.index_of(text);
                    assert(sorted[k] == text);
                }
            }
        } else {
            assert forall|i: int, j: int| 0 <= i < j < result.len() implies precedes(
                #[trigger] result[i],
                #[trigger] result[j],
            ) by {
                if j < kept.len() {
                    assert(result[i] == kept[i] && result[j] == kept[j]);
                } else {
                    assert(result[i] == kept[i]);
                    assert(kept.contains(kept[i]));
                    let k = front.index_of(kept[i]);
                    assert(front[k] == sorted[k]);
                    assert(!String::before(sorted[n], sorted[k]));
                    lemma_precedes_total(sorted[k], sorted[n]);
                    if sorted[k] == sorted[n] {
                        assert(kept.last() == front.last());
                        assert(front.last() == sorted[n - 1]);
                        if k < n - 1 {
                            assert(!String::before(sorted[n - 1], sorted[k]));
                            assert(!String::before(sorted[n], sorted[n - 1]));
                            lemma_precedes_total(sorted[n - 1], sorted[n]);
                        }
                    }
                }
            }
            assert forall|text: Seq<char>| #[trigger]
                result.contains(text) <==> sorted.contains(text) by {
                if result.contains(text) {
                    let k = result.index_of(text);
                    if k < kept.len() {
                        assert(kept[k] == text);
                        assert(kept.contains(text));
                        let m = front.index_of(text);
                        assert(sorted[m] == text);
                    } else {
                        assert(sorted[n] == text);
                    }
                }
                if sorted.contains(text) {
                    let k = sorted.index_of(text);
                    if k < n {
                        assert(front[k] == text);
                        assert(kept.contains(text));
                        let m = kept.index_of(text);
                        assert(result[m] == text);
                    } else {
                        assert(result[kept.len() as int] == text);
                    }
                }
            }
        }
    }
}

/// The texts are strictly in order, so each occurs once, and they are those
/// that were given.
pub proof fn sorted_set_is_sorted(texts: Seq<Seq<char>>)
    ensures
        forall|i: int, j: int|
            0 <= i < j < sorted_set(texts).len() ==> precedes(
                #[trigger] sorted_set(texts)[i],
                #[trigger] sorted_set(texts)[j],
            ),
        forall|text: Seq<char>| #[trigger]
            sorted_set(texts).contains(text) <==> texts.contains(text),
{
    broadcast use vstd::seq_lib::group_to_multiset_ensures;

    let sorted = stably_sorted::<String>(texts);
    stably_sorted_is_sorted::<String>(texts);
    lemma_deduped(sorted);
    assert forall|text: Seq<char>| #[trigger] sorted_set(texts).contains(text) <==> texts.contains(
        text,
    ) by {
        assert(sorted.contains(text) <==> sorted.to_multiset().count(text) > 0);
        assert(texts.contains(text) <==> texts.to_multiset().count(text) > 0);
    }
}

} // verus!
