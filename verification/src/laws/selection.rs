//! What it is to take some elements of a list, in their order.

use vstd::prelude::*;

use crate::text::{first_where, lemma_first_where_at, lemma_first_where_none};

verus! {

/// Whether `part` holds what stands in `all` at the places `at`, which are the
/// places of the wanted elements, in their order.
pub open spec fn selects<A>(
    all: Seq<A>,
    part: Seq<A>,
    wanted: spec_fn(A) -> bool,
    at: Seq<int>,
) -> bool {
    &&& at.len() == part.len()
    &&& forall|i: int| 0 <= i < at.len() ==> 0 <= #[trigger] at[i] < all.len()
    &&& forall|i: int, j: int| 0 <= i < j < at.len() ==> #[trigger] at[i] < #[trigger] at[j]
    &&& forall|i: int|
        0 <= i < at.len() ==> wanted(all[#[trigger] at[i]]) && part[i] == all[at[i]]
    &&& forall|k: int| 0 <= k < all.len() && wanted(#[trigger] all[k]) ==> at.contains(k)
}

/// Whether `part` holds the wanted elements of `all`, each as often as there and in
/// the same order, and nothing else.
pub open spec fn selected<A>(all: Seq<A>, part: Seq<A>, wanted: spec_fn(A) -> bool) -> bool {
    exists|at: Seq<int>| selects(all, part, wanted, at)
}

/// Whether `part` holds what the elements of `all` at the places `at` are read as,
/// which are the places of the elements that are read as something.
pub open spec fn draws<A, B>(
    all: Seq<A>,
    part: Seq<B>,
    reading: spec_fn(A) -> Option<B>,
    at: Seq<int>,
) -> bool {
    &&& at.len() == part.len()
    &&& forall|i: int| 0 <= i < at.len() ==> 0 <= #[trigger] at[i] < all.len()
    &&& forall|i: int, j: int| 0 <= i < j < at.len() ==> #[trigger] at[i] < #[trigger] at[j]
    &&& forall|i: int| 0 <= i < at.len() ==> reading(all[#[trigger] at[i]]) == Some(part[i])
    &&& forall|k: int|
        0 <= k < all.len() && reading(#[trigger] all[k]) is Some ==> at.contains(k)
}

/// Whether `part` holds what the elements of `all` are read as, in the same order,
/// leaving out those that are read as nothing.
pub open spec fn drawn<A, B>(
    all: Seq<A>,
    part: Seq<B>,
    reading: spec_fn(A) -> Option<B>,
) -> bool {
    exists|at: Seq<int>| draws(all, part, reading, at)
}

/// Whether `part` tells of the elements of `all` at the places `at`, which are the
/// places of the wanted elements, in their order.
pub open spec fn relates<A, B>(
    all: Seq<A>,
    part: Seq<B>,
    wanted: spec_fn(A) -> bool,
    tells: spec_fn(A, B) -> bool,
    at: Seq<int>,
) -> bool {
    &&& at.len() == part.len()
    &&& forall|i: int| 0 <= i < at.len() ==> 0 <= #[trigger] at[i] < all.len()
    &&& forall|i: int, j: int| 0 <= i < j < at.len() ==> #[trigger] at[i] < #[trigger] at[j]
    &&& forall|i: int|
        0 <= i < at.len() ==> wanted(all[#[trigger] at[i]]) && tells(all[at[i]], part[i])
    &&& forall|k: int| 0 <= k < all.len() && wanted(#[trigger] all[k]) ==> at.contains(k)
}

/// Whether `part` tells of the wanted elements of `all`, one for one and in the same
/// order.
pub open spec fn related<A, B>(
    all: Seq<A>,
    part: Seq<B>,
    wanted: spec_fn(A) -> bool,
    tells: spec_fn(A, B) -> bool,
) -> bool {
    exists|at: Seq<int>| relates(all, part, wanted, tells, at)
}

/// Whether the element at a place is the first wanted one.
pub open spec fn is_first<A>(all: Seq<A>, wanted: spec_fn(A) -> bool, at: int) -> bool {
    &&& 0 <= at < all.len()
    &&& wanted(all[at])
    &&& forall|k: int| 0 <= k < at ==> !wanted(#[trigger] all[k])
}

/// Whether no element is wanted.
pub open spec fn is_lacking<A>(all: Seq<A>, wanted: spec_fn(A) -> bool) -> bool {
    forall|k: int| 0 <= k < all.len() ==> !wanted(#[trigger] all[k])
}

proof fn lemma_filter_places<A>(all: Seq<A>, wanted: spec_fn(A) -> bool) -> (at: Seq<int>)
    ensures
        selects(all, all.filter(wanted), wanted, at),
    decreases all.len(),
{
    reveal(Seq::filter);
    if all.len() == 0 {
        Seq::empty()
    } else {
        let front = all.drop_last();
        let before = lemma_filter_places(front, wanted);
        let last = all.len() - 1;
        let at = if wanted(all.last()) {
            before.push(last)
        } else {
            before
        };
        assert forall|k: int| 0 <= k < all.len() && wanted(#[trigger] all[k]) implies at.contains(
            k,
        ) by {
            if k < last {
                assert(front[k] == all[k]);
                let i = choose|i: int| 0 <= i < before.len() && before[i] == k;
                assert(at[i] == k);
            } else {
                assert(at[at.len() - 1] == k);
            }
        }
        assert forall|i: int| 0 <= i < at.len() implies wanted(all[#[trigger] at[i]])
            && all.filter(wanted)[i] == all[at[i]] by {
            if i < before.len() {
                assert(at[i] == before[i]);
                assert(front[before[i]] == all[before[i]]);
            }
        }
        assert forall|i: int| 0 <= i < at.len() implies 0 <= #[trigger] at[i] < all.len() by {
            if i < before.len() {
                assert(at[i] == before[i]);
            }
        }
        assert forall|i: int, j: int| 0 <= i < j < at.len() implies #[trigger] at[i]
            < #[trigger] at[j] by {
            assert(at[i] == before[i]);
            if j < before.len() {
                assert(at[j] == before[j]);
            }
        }
        at
    }
}

/// A filter selects.
pub proof fn lemma_filter_selected<A>(all: Seq<A>, wanted: spec_fn(A) -> bool)
    ensures
        selected(all, all.filter(wanted), wanted),
{
    let at = lemma_filter_places(all, wanted);
}

proof fn lemma_filter_map_places<A, B>(all: Seq<A>, reading: spec_fn(A) -> Option<B>) -> (at: Seq<
    int,
>)
    ensures
        draws(all, all.filter_map(reading), reading, at),
    decreases all.len(),
{
    if all.len() == 0 {
        Seq::empty()
    } else {
        let front = all.drop_last();
        let before = lemma_filter_map_places(front, reading);
        let last = all.len() - 1;
        let part = all.filter_map(reading);
        let at = if reading(all.last()) is Some {
            before.push(last)
        } else {
            before
        };
        assert forall|k: int| 0 <= k < all.len() && reading(
            #[trigger] all[k],
        ) is Some implies at.contains(k) by {
            if k < last {
                assert(front[k] == all[k]);
                let i = choose|i: int| 0 <= i < before.len() && before[i] == k;
                assert(at[i] == k);
            } else {
                assert(at[at.len() - 1] == k);
            }
        }
        assert forall|i: int| 0 <= i < at.len() implies reading(all[#[trigger] at[i]]) == Some(
            part[i],
        ) by {
            if i < before.len() {
                assert(at[i] == before[i]);
                assert(front[before[i]] == all[before[i]]);
                assert(part[i] == front.filter_map(reading)[i]);
            }
        }
        assert forall|i: int| 0 <= i < at.len() implies 0 <= #[trigger] at[i] < all.len() by {
            if i < before.len() {
                assert(at[i] == before[i]);
            }
        }
        assert forall|i: int, j: int| 0 <= i < j < at.len() implies #[trigger] at[i]
            < #[trigger] at[j] by {
            assert(at[i] == before[i]);
            if j < before.len() {
                assert(at[j] == before[j]);
            }
        }
        at
    }
}

/// A filtering map draws.
pub proof fn lemma_filter_map_drawn<A, B>(all: Seq<A>, reading: spec_fn(A) -> Option<B>)
    ensures
        drawn(all, all.filter_map(reading), reading),
{
    let at = lemma_filter_map_places(all, reading);
}

/// What a filtering map gives tells of the elements that it reads as something.
pub proof fn lemma_filter_map_related<A, B>(
    all: Seq<A>,
    reading: spec_fn(A) -> Option<B>,
    wanted: spec_fn(A) -> bool,
    tells: spec_fn(A, B) -> bool,
)
    requires
        forall|item: A| #[trigger] reading(item) is Some <==> wanted(item),
        forall|item: A| #[trigger] reading(item) is Some ==> tells(item, reading(item)->Some_0),
    ensures
        related(all, all.filter_map(reading), wanted, tells),
{
    let part = all.filter_map(reading);
    let at = lemma_filter_map_places(all, reading);
    assert forall|i: int| 0 <= i < at.len() implies wanted(all[#[trigger] at[i]]) && tells(
        all[at[i]],
        part[i],
    ) by {
        assert(reading(all[at[i]]) == Some(part[i]));
    }
    assert forall|k: int| 0 <= k < all.len() && wanted(#[trigger] all[k]) implies at.contains(
        k,
    ) by {
        assert(reading(all[k]) is Some);
    }
    assert(relates(all, part, wanted, tells, at));
}

/// A search finds the first wanted element, and nothing where none is wanted.
pub proof fn law_search_finds_the_first<A>(all: Seq<A>, wanted: spec_fn(A) -> bool)
    ensures
        forall|at: int| #[trigger]
            is_first(all, wanted, at) ==> first_where(all, wanted) == Some(all[at]),
        is_lacking(all, wanted) ==> first_where(all, wanted) is None,
{
    assert forall|at: int| #[trigger] is_first(all, wanted, at) implies first_where(all, wanted)
        == Some(all[at]) by {
        lemma_first_where_at(all, wanted, at);
    }
    if is_lacking(all, wanted) {
        lemma_first_where_none(all, wanted);
    }
}

} // verus!
