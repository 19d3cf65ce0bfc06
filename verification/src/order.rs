//! Facts about order in sequences that several modules share.

use vstd::prelude::*;

verus! {

/// `places` tells where in `whole` each item of `part` stands: one place for
/// each item, the places strictly rising.
pub open spec fn stands_in_order<A>(part: Seq<A>, whole: Seq<A>, places: Seq<int>) -> bool {
    &&& places.len() == part.len()
    &&& forall|i: int| 0 <= i < places.len() ==> 0 <= #[trigger] places[i] < whole.len()
    &&& forall|i: int| 0 <= i < places.len() ==> whole[#[trigger] places[i]] == part[i]
    &&& forall|i: int, j: int|
        0 <= i < j < places.len() ==> #[trigger] places[i] < #[trigger] places[j]
}

/// The places of the items of `whole` that `keep` accepts, rising.
pub open spec fn kept_places<A>(whole: Seq<A>, keep: spec_fn(A) -> bool) -> Seq<int>
    decreases whole.len(),
{
    if whole.len() == 0 {
        Seq::empty()
    } else if keep(whole.last()) {
        kept_places(whole.drop_last(), keep).push(whole.len() - 1)
    } else {
        kept_places(whole.drop_last(), keep)
    }
}

/// What a filter keeps stands in the order of what it was given.
pub proof fn lemma_filter_keeps_order<A>(whole: Seq<A>, keep: spec_fn(A) -> bool)
    ensures
        stands_in_order(whole.filter(keep), whole, kept_places(whole, keep)),
    decreases whole.len(),
{
    reveal(Seq::filter);
    if whole.len() > 0 {
        let head = whole.drop_last();
        lemma_filter_keeps_order(head, keep);
        let places = kept_places(whole, keep);
        let before = kept_places(head, keep);
        assert forall|i: int| 0 <= i < places.len() implies whole[#[trigger] places[i]]
            == whole.filter(keep)[i] by {
            if i < before.len() {
                assert(head[before[i]] == whole[before[i]]);
            }
        }
    }
}

/// Every item of the list passes `ok`.
pub open spec fn all_pass<A>(items: Seq<A>, ok: spec_fn(A) -> bool) -> bool {
    forall|i: int| 0 <= i < items.len() ==> ok(#[trigger] items[i])
}

/// The place of the first item that fails `ok`, or the list's length when
/// every item passes.
pub open spec fn first_failing<A>(items: Seq<A>, ok: spec_fn(A) -> bool) -> int
    decreases items.len(),
{
    if items.len() == 0 {
        0
    } else if first_failing(items.drop_last(), ok) < items.len() - 1 {
        first_failing(items.drop_last(), ok)
    } else if ok(items.last()) {
        items.len() as int
    } else {
        items.len() - 1
    }
}

/// Where the first failing item stands: everything before it passes, it fails
/// itself, and there is none exactly when every item passes.
pub proof fn lemma_first_failing<A>(items: Seq<A>, ok: spec_fn(A) -> bool)
    ensures
        0 <= first_failing(items, ok) <= items.len(),
        forall|i: int| 0 <= i < first_failing(items, ok) ==> ok(#[trigger] items[i]),
        first_failing(items, ok) < items.len() ==> !ok(items[first_failing(items, ok)]),
        first_failing(items, ok) == items.len() <==> all_pass(items, ok),
    decreases items.len(),
{
    if items.len() > 0 {
        let head = items.drop_last();
        lemma_first_failing(head, ok);
        assert forall|i: int| 0 <= i < first_failing(items, ok) implies ok(#[trigger] items[i]) by {
            if i < head.len() {
                assert(head[i] == items[i]);
            }
        }
        if first_failing(head, ok) < head.len() {
            assert(head[first_failing(head, ok)] == items[first_failing(head, ok)]);
        }
    }
}

/// An item that fails, with only passing items before it, is the first
/// failing one.
pub proof fn lemma_first_failing_is<A>(items: Seq<A>, ok: spec_fn(A) -> bool, place: int)
    requires
        0 <= place < items.len(),
        !ok(items[place]),
        forall|i: int| 0 <= i < place ==> ok(#[trigger] items[i]),
    ensures
        first_failing(items, ok) == place,
        !all_pass(items, ok),
{
    lemma_first_failing(items, ok);
    let first = first_failing(items, ok);
    if first < place {
        assert(ok(items[first]));
    }
}

} // verus!
