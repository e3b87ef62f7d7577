//! Stable ordering of items by textual keys.
//!
//! A key is a list of texts compared component by component, so one sort
//! serves tuples of names as well as single names.

use vstd::prelude::*;
use vstd::seq_lib::{to_multiset_build, to_multiset_insert};

use crate::text::{
    lemma_text_before_irreflexive, lemma_text_before_total, lemma_text_before_transitive, precedes,
    text_before,
};

verus! {

/// Lexicographic order of keys: `a` comes strictly before `b`.
pub open spec fn key_before(a: Seq<Seq<char>>, b: Seq<Seq<char>>) -> bool
    decreases a.len(),
{
    if b.len() == 0 {
        false
    } else if a.len() == 0 {
        true
    } else if a[0] != b[0] {
        text_before(a[0], b[0])
    } else {
        key_before(a.drop_first(), b.drop_first())
    }
}

pub proof fn lemma_key_before_irreflexive(a: Seq<Seq<char>>)
    ensures
        !key_before(a, a),
    decreases a.len(),
{
    if a.len() > 0 {
        lemma_key_before_irreflexive(a.drop_first());
    }
}

pub proof fn lemma_key_before_transitive(
    a: Seq<Seq<char>>,
    b: Seq<Seq<char>>,
    c: Seq<Seq<char>>,
)
    requires
        key_before(a, b),
        key_before(b, c),
    ensures
        key_before(a, c),
    decreases a.len(),
{
    if a.len() > 0 {
        if a[0] == b[0] && b[0] == c[0] {
            lemma_key_before_transitive(a.drop_first(), b.drop_first(), c.drop_first());
        } else if a[0] != b[0] && b[0] != c[0] {
            lemma_text_before_transitive(a[0], b[0], c[0]);
            lemma_text_before_irreflexive(a[0]);
        }
    }
}

pub proof fn lemma_key_before_total(a: Seq<Seq<char>>, b: Seq<Seq<char>>)
    ensures
        a == b || key_before(a, b) || key_before(b, a),
    decreases a.len(),
{
    if a.len() == 0 || b.len() == 0 {
        if a.len() == 0 && b.len() == 0 {
            assert(a =~= b);
        }
    } else if a[0] == b[0] {
        lemma_key_before_total(a.drop_first(), b.drop_first());
        if a.drop_first() == b.drop_first() {
            assert(a =~= seq![a[0]] + a.drop_first());
            assert(b =~= seq![b[0]] + b.drop_first());
        }
    } else {
        lemma_text_before_total(a[0], b[0]);
    }
}

/// An item with the key it is ordered by.
pub struct Keyed<T: DeepView> {
    pub key: Vec<String>,
    pub item: T,
}

impl<T: DeepView> View for Keyed<T> {
    type V = (Seq<Seq<char>>, T::V);

    open spec fn view(&self) -> (Seq<Seq<char>>, T::V) {
        (self.key.deep_view(), self.item.deep_view())
    }
}

/// The keys and items of a list.
pub open spec fn keyed_view<T: DeepView>(items: Seq<Keyed<T>>) -> Seq<(Seq<Seq<char>>, T::V)> {
    items.map_values(|entry: Keyed<T>| entry@)
}

/// The items of some entries, without their keys.
pub open spec fn items_of<V>(entries: Seq<(Seq<Seq<char>>, V)>) -> Seq<V> {
    entries.map_values(|entry: (Seq<Seq<char>>, V)| entry.1)
}

/// The items ordered by `key`, those with equal keys in their old order.
pub open spec fn sorted_by<V>(items: Seq<V>, key: spec_fn(V) -> Seq<Seq<char>>) -> Seq<V> {
    items_of(stably_sorted(items.map_values(|item: V| (key(item), item))))
}

/// No entry comes strictly before an earlier one.
pub open spec fn in_key_order<T>(entries: Seq<(Seq<Seq<char>>, T)>) -> bool {
    forall|i: int, j: int|
        0 <= i < j < entries.len() ==> !key_before(
            (#[trigger] entries[j]).0,
            (#[trigger] entries[i]).0,
        )
}

/// The entries that carry exactly `key`, in list order.
pub open spec fn with_key<T>(
    entries: Seq<(Seq<Seq<char>>, T)>,
    key: Seq<Seq<char>>,
) -> Seq<(Seq<Seq<char>>, T)> {
    entries.filter(|entry: (Seq<Seq<char>>, T)| entry.0 == key)
}

/// `sorted` with `entry` placed behind every entry that may stay before it.
pub open spec fn place<T>(
    sorted: Seq<(Seq<Seq<char>>, T)>,
    entry: (Seq<Seq<char>>, T),
) -> Seq<(Seq<Seq<char>>, T)>
    decreases sorted.len(),
{
    if sorted.len() > 0 && key_before(entry.0, sorted.last().0) {
        place(sorted.drop_last(), entry).push(sorted.last())
    } else {
        sorted.push(entry)
    }
}

/// The stable sort of `entries` by key.
///
/// [`law_stably_sorted`] characterises it: the result is in key order, and for
/// each key it holds exactly the entries with that key, in their old order.
pub open spec fn stably_sorted<T>(entries: Seq<(Seq<Seq<char>>, T)>) -> Seq<
    (Seq<Seq<char>>, T),
>
    decreases entries.len(),
{
    if entries.len() == 0 {
        entries
    } else {
        place(stably_sorted(entries.drop_last()), entries.last())
    }
}

proof fn lemma_place_at<T>(
    sorted: Seq<(Seq<Seq<char>>, T)>,
    entry: (Seq<Seq<char>>, T),
    at: int,
)
    requires
        0 <= at <= sorted.len(),
        forall|j: int| at <= j < sorted.len() ==> key_before(entry.0, (#[trigger] sorted[j]).0),
        at > 0 ==> !key_before(entry.0, sorted[at - 1].0),
    ensures
        place(sorted, entry) == sorted.insert(at, entry),
    decreases sorted.len(),
{
    if at == sorted.len() {
        assert(sorted.insert(at, entry) =~= sorted.push(entry));
    } else {
        assert(sorted[sorted.len() - 1] == sorted.last());
        assert forall|j: int| at <= j < sorted.drop_last().len() implies key_before(
            entry.0,
            (#[trigger] sorted.drop_last()[j]).0,
        ) by {
            assert(sorted.drop_last()[j] == sorted[j]);
        }
        lemma_place_at(sorted.drop_last(), entry, at);
        assert(sorted.drop_last().insert(at, entry).push(sorted.last()) =~= sorted.insert(
            at,
            entry,
        ));
    }
}

proof fn lemma_place<T>(
    sorted: Seq<(Seq<Seq<char>>, T)>,
    entry: (Seq<Seq<char>>, T),
    key: Seq<Seq<char>>,
)
    requires
        in_key_order(sorted),
    ensures
        in_key_order(place(sorted, entry)),
        with_key(place(sorted, entry), key) == with_key(sorted.push(entry), key),
        place(sorted, entry).len() == sorted.len() + 1,
        forall|i: int|
            0 <= i < place(sorted, entry).len() ==> {
                ||| #[trigger] place(sorted, entry)[i] == entry
                ||| sorted.contains(place(sorted, entry)[i])
            },
    decreases sorted.len(),
{
    reveal(Seq::filter);
    let placed = place(sorted, entry);
    if sorted.len() > 0 && key_before(entry.0, sorted.last().0) {
        let front = sorted.drop_last();
        let last = sorted.last();
        lemma_place(front, entry, key);
        let inner = place(front, entry);
        assert(placed == inner.push(last));
        assert forall|i: int| 0 <= i < inner.len() implies !key_before(
            last.0,
            (#[trigger] inner[i]).0,
        ) by {
            if inner[i] == entry {
                if key_before(last.0, entry.0) {
                    lemma_key_before_transitive(entry.0, last.0, entry.0);
                    lemma_key_before_irreflexive(entry.0);
                }
            } else {
                let k = choose|k: int| 0 <= k < front.len() && front[k] == inner[i];
                assert(sorted[k] == inner[i]);
                assert(sorted[sorted.len() - 1] == last);
            }
        }
        assert(placed.drop_last() =~= inner);
        assert(front.push(entry).drop_last() =~= front);
        assert(sorted.push(entry).drop_last() =~= sorted);
        lemma_key_before_irreflexive(entry.0);
        assert(placed.last() == last);
        assert(with_key(placed, key) == if last.0 == key {
            with_key(inner, key).push(last)
        } else {
            with_key(inner, key)
        });
        assert(front.push(entry).last() == entry);
        assert(sorted.push(entry).last() == entry);
        assert(with_key(inner, key) == if entry.0 == key {
            with_key(front, key).push(entry)
        } else {
            with_key(front, key)
        });
        assert(with_key(sorted, key) == if last.0 == key {
            with_key(front, key).push(last)
        } else {
            with_key(front, key)
        });
        assert forall|i: int| 0 <= i < placed.len() implies {
            ||| #[trigger] placed[i] == entry
            ||| sorted.contains(placed[i])
        } by {
            if i < inner.len() {
                if inner[i] != entry {
                    let k = choose|k: int| 0 <= k < front.len() && front[k] == inner[i];
                    assert(sorted[k] == inner[i]);
                }
            } else {
                assert(sorted[sorted.len() - 1] == last);
            }
        }
    } else {
        assert forall|i: int| 0 <= i < sorted.len() implies !key_before(
            entry.0,
            (#[trigger] sorted[i]).0,
        ) by {
            if i < sorted.len() - 1 && key_before(entry.0, sorted[i].0) {
                lemma_key_before_total(entry.0, sorted.last().0);
                assert(sorted[sorted.len() - 1] == sorted.last());
                if key_before(sorted.last().0, entry.0) {
                    lemma_key_before_transitive(sorted.last().0, entry.0, sorted[i].0);
                }
            }
        }
        assert forall|i: int| 0 <= i < placed.len() implies {
            ||| #[trigger] placed[i] == entry
            ||| sorted.contains(placed[i])
        } by {
            if i < sorted.len() {
                assert(sorted[i] == placed[i]);
            }
        }
    }
}

/// A stable sort puts entries in key order and keeps, for each key, exactly
/// the entries with that key in the order they had.
pub proof fn law_stably_sorted<T>(entries: Seq<(Seq<Seq<char>>, T)>, key: Seq<Seq<char>>)
    ensures
        in_key_order(stably_sorted(entries)),
        with_key(stably_sorted(entries), key) == with_key(entries, key),
        stably_sorted(entries).len() == entries.len(),
    decreases entries.len(),
{
    reveal(Seq::filter);
    if entries.len() > 0 {
        let front = stably_sorted(entries.drop_last());
        law_stably_sorted(entries.drop_last(), key);
        lemma_place(front, entries.last(), key);
        assert(front.push(entries.last()).drop_last() =~= front);
    }
}

/// Sorting keeps exactly the entries there were.
pub proof fn lemma_sorting_keeps_entries<T>(
    entries: Seq<(Seq<Seq<char>>, T)>,
    entry: (Seq<Seq<char>>, T),
)
    ensures
        stably_sorted(entries).contains(entry) <==> entries.contains(entry),
{
    let sorted = stably_sorted(entries);
    law_stably_sorted(entries, entry.0);
    let same_key = with_key(entries, entry.0);
    assert(same_key == with_key(sorted, entry.0));
    lemma_with_key_contains(entries, entry);
    lemma_with_key_contains(sorted, entry);
}

proof fn lemma_with_key_contains<T>(
    entries: Seq<(Seq<Seq<char>>, T)>,
    entry: (Seq<Seq<char>>, T),
)
    ensures
        with_key(entries, entry.0).contains(entry) <==> entries.contains(entry),
    decreases entries.len(),
{
    reveal(Seq::filter);
    if entries.len() > 0 {
        let rest = entries.drop_last();
        lemma_with_key_contains(rest, entry);
        let found = with_key(entries, entry.0);
        let before = with_key(rest, entry.0);
        if entries.last().0 == entry.0 {
            assert(found == before.push(entries.last()));
            assert(found[before.len() as int] == entries.last());
        } else {
            assert(found == before);
        }
        if before.contains(entry) {
            let k = choose|k: int| 0 <= k < before.len() && before[k] == entry;
            assert(found[k] == entry);
        }
        if found.contains(entry) {
            let k = choose|k: int| 0 <= k < found.len() && found[k] == entry;
            if k < before.len() {
                assert(before[k] == entry);
            }
        }
        if rest.contains(entry) {
            let k = choose|k: int| 0 <= k < rest.len() && rest[k] == entry;
            assert(entries[k] == entry);
        }
        if entries.contains(entry) {
            let k = choose|k: int| 0 <= k < entries.len() && entries[k] == entry;
            if k < rest.len() {
                assert(rest[k] == entry);
            }
        }
        assert(entries[entries.len() - 1] == entries.last());
    }
}

proof fn lemma_place_multiset<T>(
    sorted: Seq<(Seq<Seq<char>>, T)>,
    entry: (Seq<Seq<char>>, T),
)
    ensures
        place(sorted, entry).to_multiset() == sorted.to_multiset().insert(entry),
    decreases sorted.len(),
{
    if sorted.len() > 0 && key_before(entry.0, sorted.last().0) {
        let rest = sorted.drop_last();
        lemma_place_multiset(rest, entry);
        to_multiset_build(place(rest, entry), sorted.last());
        to_multiset_build(rest, sorted.last());
        assert(rest.push(sorted.last()) =~= sorted);
        assert(place(sorted, entry).to_multiset() =~= sorted.to_multiset().insert(entry));
    } else {
        to_multiset_build(sorted, entry);
    }
}

/// Sorting keeps the multiset of entries.
pub proof fn lemma_sorting_keeps_multiset<T>(entries: Seq<(Seq<Seq<char>>, T)>)
    ensures
        stably_sorted(entries).to_multiset() == entries.to_multiset(),
    decreases entries.len(),
{
    if entries.len() > 0 {
        let rest = entries.drop_last();
        lemma_sorting_keeps_multiset(rest);
        lemma_place_multiset(stably_sorted(rest), entries.last());
        to_multiset_build(rest, entries.last());
        assert(rest.push(entries.last()) =~= entries);
    }
}

/// Whether entries with the same key are the same entry.
pub open spec fn keys_decide<T>(entries: Seq<(Seq<Seq<char>>, T)>) -> bool {
    forall|i: int, j: int|
        0 <= i < entries.len() && 0 <= j < entries.len() && (#[trigger] entries[i]).0 == (
        #[trigger] entries[j]).0 ==> entries[i] == entries[j]
}

proof fn lemma_ordered_is_unique<T>(
    left: Seq<(Seq<Seq<char>>, T)>,
    right: Seq<(Seq<Seq<char>>, T)>,
)
    requires
        in_key_order(left),
        in_key_order(right),
        left.to_multiset() == right.to_multiset(),
        keys_decide(left),
    ensures
        left == right,
    decreases left.len(),
{
    left.to_multiset_ensures();
    right.to_multiset_ensures();
    assert(left.len() == right.len());
    if left.len() == 0 {
        assert(left =~= right);
    } else {
        assert(left.contains(left[0]));
        assert(right.to_multiset().count(left[0]) > 0);
        assert(right.contains(left[0]));
        assert(right.contains(right[0]));
        assert(left.to_multiset().count(right[0]) > 0);
        assert(left.contains(right[0]));
        let i = choose|i: int| 0 <= i < right.len() && right[i] == left[0];
        let j = choose|j: int| 0 <= j < left.len() && left[j] == right[0];
        if i > 0 {
            assert(!key_before(right[i].0, right[0].0));
        }
        if j > 0 {
            assert(!key_before(left[j].0, left[0].0));
        }
        lemma_key_before_total(left[0].0, right[0].0);
        assert(left[0].0 == left[j].0);
        assert(left[0] == right[0]);
        let x = left.remove(0);
        let y = right.remove(0);
        assert(x.to_multiset() == left.to_multiset().remove(left[0]));
        assert(y.to_multiset() == right.to_multiset().remove(right[0]));
        assert forall|p: int, q: int| 0 <= p < q < x.len() implies !key_before(
            (#[trigger] x[q]).0,
            (#[trigger] x[p]).0,
        ) by {
            assert(x[p] == left[p + 1] && x[q] == left[q + 1]);
        }
        assert forall|p: int, q: int| 0 <= p < q < y.len() implies !key_before(
            (#[trigger] y[q]).0,
            (#[trigger] y[p]).0,
        ) by {
            assert(y[p] == right[p + 1] && y[q] == right[q + 1]);
        }
        assert forall|p: int, q: int|
            0 <= p < x.len() && 0 <= q < x.len() && (#[trigger] x[p]).0 == (
            #[trigger] x[q]).0 implies x[p] == x[q] by {
            assert(x[p] == left[p + 1] && x[q] == left[q + 1]);
        }
        lemma_ordered_is_unique(x, y);
        assert(left =~= seq![left[0]] + x);
        assert(right =~= seq![right[0]] + y);
    }
}

/// Where keys decide entries, the order that entries come in does not matter:
/// two permutations sort to the same list.
pub proof fn law_sorting_ignores_order<T>(
    left: Seq<(Seq<Seq<char>>, T)>,
    right: Seq<(Seq<Seq<char>>, T)>,
)
    requires
        left.to_multiset() == right.to_multiset(),
        keys_decide(left),
    ensures
        stably_sorted(left) == stably_sorted(right),
{
    let a = stably_sorted(left);
    let b = stably_sorted(right);
    lemma_sorting_keeps_multiset(left);
    lemma_sorting_keeps_multiset(right);
    law_stably_sorted(left, Seq::empty());
    law_stably_sorted(right, Seq::empty());
    assert forall|i: int, j: int|
        0 <= i < a.len() && 0 <= j < a.len() && (#[trigger] a[i]).0 == (
        #[trigger] a[j]).0 implies a[i] == a[j] by {
        assert(a.contains(a[i]));
        assert(a.contains(a[j]));
        lemma_sorting_keeps_entries(left, a[i]);
        lemma_sorting_keeps_entries(left, a[j]);
        let p = choose|p: int| 0 <= p < left.len() && left[p] == a[i];
        let q = choose|q: int| 0 <= q < left.len() && left[q] == a[j];
        assert(left[p] == left[q]);
    }
    lemma_ordered_is_unique(a, b);
}

proof fn lemma_selected_without<A, B>(
    items: Seq<A>,
    keep: spec_fn(A) -> bool,
    image: spec_fn(A) -> B,
    at: int,
)
    requires
        0 <= at < items.len(),
    ensures
        items.filter(keep).map_values(image).to_multiset() == (if keep(items[at]) {
            items.remove(at).filter(keep).map_values(image).to_multiset().insert(image(items[at]))
        } else {
            items.remove(at).filter(keep).map_values(image).to_multiset()
        }),
{
    let head = items.take(at);
    let tail = items.skip(at + 1);
    let one = seq![items[at]];
    assert(items =~= head + one + tail);
    assert(items.remove(at) =~= head + tail);
    Seq::filter_distributes_over_add(head + one, tail, keep);
    Seq::filter_distributes_over_add(head, one, keep);
    Seq::filter_distributes_over_add(head, tail, keep);
    let h = head.filter(keep).map_values(image);
    let t = tail.filter(keep).map_values(image);
    let o = one.filter(keep).map_values(image);
    assert(items.filter(keep).map_values(image) =~= h + o + t);
    assert(items.remove(at).filter(keep).map_values(image) =~= h + t);
    reveal(Seq::filter);
    assert(one.drop_last() =~= Seq::<A>::empty());
    assert(Seq::<A>::empty().filter(keep) =~= Seq::<A>::empty());
    assert(one.last() == items[at]);
    if keep(items[at]) {
        assert(one.filter(keep) =~= one);
        assert(o =~= seq![image(items[at])]);
        assert(h + o + t =~= (h + t).insert(h.len() as int, image(items[at])));
        to_multiset_insert(h + t, h.len() as int, image(items[at]));
    } else {
        assert(one.filter(keep) =~= Seq::<A>::empty());
        assert(h + o + t =~= h + t);
    }
}

/// Selecting and mapping keeps permutations permutations.
pub proof fn lemma_selected_permutation<A, B>(
    left: Seq<A>,
    right: Seq<A>,
    keep: spec_fn(A) -> bool,
    image: spec_fn(A) -> B,
)
    requires
        left.to_multiset() == right.to_multiset(),
    ensures
        left.filter(keep).map_values(image).to_multiset() == right.filter(keep).map_values(
            image,
        ).to_multiset(),
    decreases left.len(),
{
    left.to_multiset_ensures();
    right.to_multiset_ensures();
    assert(left.len() == right.len());
    if left.len() == 0 {
        assert(left =~= right);
    } else {
        assert(left.contains(left[0]));
        assert(right.to_multiset().count(left[0]) > 0);
        assert(right.contains(left[0]));
        let i = choose|i: int| 0 <= i < right.len() && right[i] == left[0];
        assert(left.remove(0).to_multiset() == left.to_multiset().remove(left[0]));
        assert(right.remove(i).to_multiset() == right.to_multiset().remove(right[i]));
        lemma_selected_permutation(left.remove(0), right.remove(i), keep, image);
        lemma_selected_without(left, keep, image, 0);
        lemma_selected_without(right, keep, image, i);
    }
}

/// Sorting by a key keeps exactly the items there were.
pub proof fn law_sorting_keeps_items<V>(
    items: Seq<V>,
    key: spec_fn(V) -> Seq<Seq<char>>,
    item: V,
)
    ensures
        sorted_by(items, key).contains(item) <==> items.contains(item),
{
    let entry_of = |i: V| (key(i), i);
    let entries = items.map_values(entry_of);
    let sorted = stably_sorted(entries);
    lemma_sorting_keeps_entries(entries, (key(item), item));
    if items.contains(item) {
        let k = choose|k: int| 0 <= k < items.len() && items[k] == item;
        assert(entries[k] == (key(item), item));
        assert(sorted.contains((key(item), item)));
        let m = choose|m: int| 0 <= m < sorted.len() && sorted[m] == (key(item), item);
        assert(sorted_by(items, key)[m] == item);
    }
    if sorted_by(items, key).contains(item) {
        let m = choose|m: int|
            0 <= m < sorted_by(items, key).len() && sorted_by(items, key)[m] == item;
        assert(sorted.contains(sorted[m]));
        lemma_sorting_keeps_entries(entries, sorted[m]);
        let k = choose|k: int| 0 <= k < entries.len() && entries[k] == sorted[m];
        assert(items[k] == item);
    }
}

/// Whether key `a` comes strictly before key `b`.
pub fn key_precedes(a: &Vec<String>, b: &Vec<String>) -> (r: bool)
    ensures
        r == key_before(a.deep_view(), b.deep_view()),
{
    let ghost left = a.deep_view();
    let ghost right = b.deep_view();
    let mut i: usize = 0;
    assert(left.skip(0) =~= left);
    assert(right.skip(0) =~= right);
    while i < a.len() && i < b.len()
        invariant
            left == a.deep_view(),
            right == b.deep_view(),
            i <= a@.len(),
            i <= b@.len(),
            key_before(left, right) == key_before(left.skip(i as int), right.skip(i as int)),
        decreases a@.len() - i,
    {
        assert(left[i as int] == a@[i as int]@);
        assert(right[i as int] == b@[i as int]@);
        if a[i] != b[i] {
            return precedes(a[i].as_str(), b[i].as_str());
        }
        assert(left.skip(i as int).drop_first() =~= left.skip(i + 1));
        assert(right.skip(i as int).drop_first() =~= right.skip(i + 1));
        i = i + 1;
    }
    i < b.len()
}

/// Sorts items by key, keeping the order of items whose keys are equal.
pub fn stable_sort<T: DeepView>(items: Vec<Keyed<T>>) -> (r: Vec<Keyed<T>>)
    ensures
        keyed_view(r@) == stably_sorted(keyed_view(items@)),
{
    let mut sorted: Vec<Keyed<T>> = Vec::new();
    let ghost all = keyed_view(items@);
    let ghost source = items@;
    assert(keyed_view(sorted@) =~= stably_sorted(all.take(0)));
    for entry in iter: items
        invariant
            iter.seq() == source,
            all == keyed_view(source),
            keyed_view(sorted@) == stably_sorted(all.take(iter.index() as int)),
    {
        let ghost done = iter.index() as int;
        let ghost before = keyed_view(sorted@);
        let mut at: usize = sorted.len();
        while at > 0 && key_precedes(&entry.key, &sorted[at - 1].key)
            invariant
                at <= sorted@.len(),
                before == keyed_view(sorted@),
                forall|j: int|
                    at <= j < before.len() ==> key_before(entry@.0, (#[trigger] before[j]).0),
            decreases at,
        {
            at = at - 1;
            assert(before[at as int] == sorted@[at as int]@);
        }
        assert(at > 0 ==> before[at - 1] == sorted@[at - 1]@);
        proof {
            lemma_place_at(before, entry@, at as int);
            assert(all[done] == entry@);
            assert(all.take(done + 1).drop_last() =~= all.take(done));
            assert(all.take(done + 1).last() == entry@);
        }
        let ghost item = entry@;
        sorted.insert(at, entry);
        assert(keyed_view(sorted@) =~= before.insert(at as int, item));
    }
    assert(all.take(all.len() as int) =~= all);
    sorted
}

/// Sorts items by key and drops the keys.
pub fn sorted_items<T: DeepView>(items: Vec<Keyed<T>>) -> (r: Vec<T>)
    ensures
        r.deep_view() == items_of(stably_sorted(keyed_view(items@))),
{
    let sorted = stable_sort(items);
    let ghost source = sorted@;
    let mut out: Vec<T> = Vec::new();
    assert(out.deep_view() =~= items_of(keyed_view(source.take(0))));
    for entry in iter: sorted
        invariant
            iter.seq() == source,
            out.deep_view() == items_of(keyed_view(source.take(iter.index() as int))),
    {
        let ghost done = iter.index() as int;
        let ghost before = out.deep_view();
        let ghost item = entry.item.deep_view();
        out.push(entry.item);
        assert(out.deep_view() =~= before.push(item));
        assert(before.push(item) =~= items_of(keyed_view(source.take(done + 1))));
    }
    assert(source.take(source.len() as int) =~= source);
    out
}

/// The first part in which two keys differ decides their order; a key comes before
/// every longer one that it starts.
pub proof fn law_first_different_part_decides_the_order(
    common: Seq<Seq<char>>,
    left: Seq<Seq<char>>,
    right: Seq<Seq<char>>,
)
    requires
        right.len() > 0,
        left.len() > 0 ==> left[0] != right[0],
    ensures
        key_before(common + left, common + right) <==> left.len() == 0 || text_before(
            left[0],
            right[0],
        ),
        !key_before(common + right, common),
    decreases common.len(),
{
    let a = common + left;
    let b = common + right;
    if common.len() > 0 {
        assert(a.drop_first() =~= common.drop_first() + left);
        assert(b.drop_first() =~= common.drop_first() + right);
        law_first_different_part_decides_the_order(common.drop_first(), left, right);
    } else {
        assert(a =~= left);
        assert(b =~= right);
    }
}

/// Sorting entries keeps exactly the entries there were, each as often, and puts
/// none before one with a smaller key.
pub proof fn law_sorted_entries_are_the_entries_in_order<T>(entries: Seq<(Seq<Seq<char>>, T)>)
    ensures
        stably_sorted(entries).len() == entries.len(),
        stably_sorted(entries).to_multiset() == entries.to_multiset(),
        forall|i: int, j: int|
            0 <= i < j < entries.len() ==> !key_before(
                (#[trigger] stably_sorted(entries)[j]).0,
                (#[trigger] stably_sorted(entries)[i]).0,
            ),
        forall|item: T|
            #![trigger items_of(stably_sorted(entries)).contains(item)]
            items_of(stably_sorted(entries)).contains(item) <==> exists|k: int|
                0 <= k < entries.len() && (#[trigger] entries[k]).1 == item,
{
    let sorted = stably_sorted(entries);
    law_stably_sorted(entries, Seq::empty());
    lemma_sorting_keeps_multiset(entries);
    assert forall|item: T|
        #![trigger items_of(sorted).contains(item)]
        items_of(sorted).contains(item) <==> exists|k: int|
            0 <= k < entries.len() && (#[trigger] entries[k]).1 == item by {
        if items_of(sorted).contains(item) {
            let m = choose|m: int| 0 <= m < items_of(sorted).len() && items_of(sorted)[m] == item;
            assert(sorted.contains(sorted[m]));
            lemma_sorting_keeps_entries(entries, sorted[m]);
            let k = choose|k: int| 0 <= k < entries.len() && entries[k] == sorted[m];
            assert(entries[k].1 == item);
        }
        if exists|k: int| 0 <= k < entries.len() && (#[trigger] entries[k]).1 == item {
            let k = choose|k: int| 0 <= k < entries.len() && (#[trigger] entries[k]).1 == item;
            assert(entries.contains(entries[k]));
            lemma_sorting_keeps_entries(entries, entries[k]);
            let m = choose|m: int| 0 <= m < sorted.len() && sorted[m] == entries[k];
            assert(items_of(sorted)[m] == item);
        }
    }
}

/// Items sorted by a key are the same items, as many, and none stands before one with a
/// smaller key.
pub proof fn law_sorted_by_is_in_key_order<V>(items: Seq<V>, key: spec_fn(V) -> Seq<Seq<char>>)
    ensures
        sorted_by(items, key).len() == items.len(),
        forall|i: int, j: int|
            0 <= i < j < items.len() ==> !key_before(
                key(#[trigger] sorted_by(items, key)[j]),
                key(#[trigger] sorted_by(items, key)[i]),
            ),
{
    let entries = items.map_values(|item: V| (key(item), item));
    let sorted = stably_sorted(entries);
    law_sorted_entries_are_the_entries_in_order(entries);
    assert forall|i: int| 0 <= i < sorted.len() implies (#[trigger] sorted[i]).0 == key(
        sorted[i].1,
    ) by {
        assert(sorted.contains(sorted[i]));
        lemma_sorting_keeps_entries(entries, sorted[i]);
        let k = choose|k: int| 0 <= k < entries.len() && entries[k] == sorted[i];
        assert(entries[k] == (key(items[k]), items[k]));
    }
    assert forall|i: int, j: int| 0 <= i < j < items.len() implies !key_before(
        key(#[trigger] sorted_by(items, key)[j]),
        key(#[trigger] sorted_by(items, key)[i]),
    ) by {
        assert(!key_before(sorted[j].0, sorted[i].0));
        assert(sorted[j].0 == key(sorted[j].1));
        assert(sorted[i].0 == key(sorted[i].1));
    }
}

} // verus!
