//! First-match lookup in sequences.

use vstd::prelude::*;

verus! {

/// The first element that satisfies `p`, if any does.
pub open spec fn first_where<T>(items: Seq<T>, p: spec_fn(T) -> bool) -> Option<T>
    decreases items.len(),
{
    if items.len() == 0 {
        None
    } else if p(items[0]) {
        Some(items[0])
    } else {
        first_where(items.drop_first(), p)
    }
}

/// The element at `at` is the first match when it matches and none before it does.
pub proof fn lemma_first_where_at<T>(items: Seq<T>, p: spec_fn(T) -> bool, at: int)
    requires
        0 <= at < items.len(),
        p(items[at]),
        forall|k: int| 0 <= k < at ==> !p(#[trigger] items[k]),
    ensures
        first_where(items, p) == Some(items[at]),
    decreases items.len(),
{
    if at > 0 {
        assert(!p(items[0]));
        assert forall|k: int| 0 <= k < at - 1 implies !p(#[trigger] items.drop_first()[k]) by {
            assert(items.drop_first()[k] == items[k + 1]);
        }
        lemma_first_where_at(items.drop_first(), p, at - 1);
    }
}

/// The first match is an element that matches; where nothing matches there is
/// none.
pub proof fn lemma_first_where_found<T>(items: Seq<T>, p: spec_fn(T) -> bool)
    ensures
        match first_where(items, p) {
            Some(found) => p(found) && items.contains(found),
            None => forall|k: int| 0 <= k < items.len() ==> !p(#[trigger] items[k]),
        },
    decreases items.len(),
{
    if items.len() > 0 {
        let rest = items.drop_first();
        if p(items[0]) {
            assert(items.contains(items[0]));
        } else {
            lemma_first_where_found(rest, p);
            match first_where(rest, p) {
                Some(found) => {
                    let k = choose|k: int| 0 <= k < rest.len() && rest[k] == found;
                    assert(items[k + 1] == found);
                },
                None => {
                    assert forall|k: int| 0 <= k < items.len() implies !p(#[trigger] items[k]) by {
                        if k > 0 {
                            assert(rest[k - 1] == items[k]);
                        }
                    }
                },
            }
        }
    }
}

/// There is no first match when nothing matches.
pub proof fn lemma_first_where_none<T>(items: Seq<T>, p: spec_fn(T) -> bool)
    requires
        forall|k: int| 0 <= k < items.len() ==> !p(#[trigger] items[k]),
    ensures
        first_where(items, p) is None,
    decreases items.len(),
{
    if items.len() > 0 {
        assert(!p(items[0]));
        assert forall|k: int| 0 <= k < items.drop_first().len() implies !p(
            #[trigger] items.drop_first()[k],
        ) by {
            assert(items.drop_first()[k] == items[k + 1]);
        }
        lemma_first_where_none(items.drop_first(), p);
    }
}

/// The first match stands at a position that matches, with no match before it;
/// where nothing matches there is none.
pub proof fn lemma_first_where_position<T>(items: Seq<T>, p: spec_fn(T) -> bool)
    ensures
        match first_where(items, p) {
            Some(found) => exists|at: int|
                0 <= at < items.len() && #[trigger] items[at] == found && p(items[at])
                    && forall|k: int| 0 <= k < at ==> !p(#[trigger] items[k]),
            None => forall|k: int| 0 <= k < items.len() ==> !p(#[trigger] items[k]),
        },
    decreases items.len(),
{
    if items.len() > 0 {
        let rest = items.drop_first();
        if p(items[0]) {
            assert(items[0] == first_where(items, p)->0);
        } else {
            lemma_first_where_position(rest, p);
            match first_where(rest, p) {
                Some(found) => {
                    let at = choose|at: int|
                        0 <= at < rest.len() && #[trigger] rest[at] == found && p(rest[at])
                            && forall|k: int| 0 <= k < at ==> !p(#[trigger] rest[k]);
                    assert(items[at + 1] == found);
                    assert forall|k: int| 0 <= k < at + 1 implies !p(#[trigger] items[k]) by {
                        if k > 0 {
                            assert(rest[k - 1] == items[k]);
                        }
                    }
                },
                None => {
                    assert forall|k: int| 0 <= k < items.len() implies !p(#[trigger] items[k]) by {
                        if k > 0 {
                            assert(rest[k - 1] == items[k]);
                        }
                    }
                },
            }
        }
    }
}

} // verus!
