//! Facts about filtering and mapping sequences that the proofs about the
//! tables rest on.

use vstd::prelude::*;

verus! {

/// What a filter keeps satisfies the predicate and was there before.
pub proof fn lemma_filter_members<A>(rows: Seq<A>, keep: spec_fn(A) -> bool)
    ensures
        forall|i: int|
            0 <= i < rows.filter(keep).len() ==> keep(#[trigger] rows.filter(keep)[i])
                && rows.contains(rows.filter(keep)[i]),
{
    let kept = rows.filter(keep);
    assert forall|i: int| 0 <= i < kept.len() implies keep(#[trigger] kept[i]) && rows.contains(
        kept[i],
    ) by {
        rows.lemma_filter_pred(keep, i);
        assert(kept.contains(kept[i]));
        rows.lemma_filter_contains_rev(keep, kept[i]);
    }
}

/// A filter that every element passes changes nothing.
pub proof fn lemma_filter_all<A>(rows: Seq<A>, keep: spec_fn(A) -> bool)
    requires
        forall|i: int| 0 <= i < rows.len() ==> keep(#[trigger] rows[i]),
    ensures
        rows.filter(keep) == rows,
    decreases rows.len(),
{
    reveal(Seq::filter);
    if rows.len() > 0 {
        assert forall|i: int| 0 <= i < rows.drop_last().len() implies keep(
            #[trigger] rows.drop_last()[i],
        ) by {
            assert(rows.drop_last()[i] == rows[i]);
        }
        lemma_filter_all(rows.drop_last(), keep);
        assert(keep(rows[rows.len() - 1]));
        assert(rows.drop_last().push(rows.last()) =~= rows);
    }
}

/// A filter that no element passes leaves nothing.
pub proof fn lemma_filter_none<A>(rows: Seq<A>, keep: spec_fn(A) -> bool)
    requires
        forall|i: int| 0 <= i < rows.len() ==> !keep(#[trigger] rows[i]),
    ensures
        rows.filter(keep) == Seq::<A>::empty(),
{
    lemma_filter_members(rows, keep);
    let kept = rows.filter(keep);
    if kept.len() > 0 {
        assert(rows.contains(kept[0]));
        let at = choose|at: int| 0 <= at < rows.len() && rows[at] == kept[0];
        assert(!keep(rows[at]));
    }
    assert(kept =~= Seq::<A>::empty());
}

/// Filtering by a weaker predicate first does not change what a filter
/// keeps.
pub proof fn lemma_filter_twice<A>(rows: Seq<A>, first: spec_fn(A) -> bool, then: spec_fn(A) -> bool)
    requires
        forall|i: int| 0 <= i < rows.len() && then(#[trigger] rows[i]) ==> first(rows[i]),
    ensures
        rows.filter(first).filter(then) == rows.filter(then),
    decreases rows.len(),
{
    reveal(Seq::filter);
    if rows.len() > 0 {
        let rest = rows.drop_last();
        let last = rows.last();
        assert forall|i: int| 0 <= i < rest.len() && then(#[trigger] rest[i]) implies first(
            rest[i],
        ) by {
            assert(rest[i] == rows[i]);
        }
        lemma_filter_twice(rest, first, then);
        assert(last == rows[rows.len() - 1]);
        if first(last) {
            rest.filter(first).lemma_filter_push(last, then);
        }
    }
}

/// Filtering and then mapping is mapping and then filtering, where the two
/// predicates agree through the map.
pub proof fn lemma_filter_map_commute<A, B>(
    rows: Seq<A>,
    keep: spec_fn(A) -> bool,
    map: spec_fn(A) -> B,
    keep_mapped: spec_fn(B) -> bool,
)
    requires
        forall|i: int| 0 <= i < rows.len() ==> keep(#[trigger] rows[i]) == keep_mapped(map(rows[i])),
    ensures
        rows.filter(keep).map_values(map) == rows.map_values(map).filter(keep_mapped),
    decreases rows.len(),
{
    reveal(Seq::filter);
    if rows.len() > 0 {
        let rest = rows.drop_last();
        let last = rows.last();
        assert forall|i: int| 0 <= i < rest.len() implies keep(#[trigger] rest[i]) == keep_mapped(
            map(rest[i]),
        ) by {
            assert(rest[i] == rows[i]);
        }
        lemma_filter_map_commute(rest, keep, map, keep_mapped);
        assert(last == rows[rows.len() - 1]);
        assert(rows.map_values(map).drop_last() =~= rest.map_values(map));
        assert(rows.map_values(map).last() == map(last));
        if keep(last) {
            assert(rest.filter(keep).push(last).map_values(map) =~= rest.filter(keep).map_values(
                map,
            ).push(map(last)));
        }
    } else {
        assert(rows.filter(keep).map_values(map) =~= rows.map_values(map).filter(keep_mapped));
    }
}

} // verus!
