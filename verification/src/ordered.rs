//! Lists of named entries kept in ascending order of their names: what an
//! ordered map is, as a sequence.
use vstd::prelude::*;
use crate::json::{lemma_lookup_push, lookup};
use crate::text::{
    lemma_precedes_irreflexive, lemma_precedes_total, lemma_precedes_transitive, precedes,
};

verus! {

/// Each name comes strictly before the next, so no name occurs twice.
pub open spec fn ascending<V>(entries: Seq<(Seq<char>, V)>) -> bool {
    forall|i: int, j: int|
        0 <= i < j < entries.len() ==> precedes(#[trigger] entries[i].0, #[trigger] entries[j].0)
}

/// Every name in the list comes strictly before `key`.
pub open spec fn all_before<V>(entries: Seq<(Seq<char>, V)>, key: Seq<char>) -> bool {
    forall|i: int| 0 <= i < entries.len() ==> precedes(#[trigger] entries[i].0, key)
}

/// The list with `value` under `key`: in place of the entry of that name where
/// there is one, else at the place that keeps the list ascending.
pub open spec fn inserted<V>(entries: Seq<(Seq<char>, V)>, key: Seq<char>, value: V) -> Seq<
    (Seq<char>, V),
>
    decreases entries.len(),
{
    if entries.len() == 0 {
        seq![(key, value)]
    } else if precedes(entries.last().0, key) {
        entries.push((key, value))
    } else if entries.last().0 == key {
        entries.drop_last().push((key, value))
    } else {
        inserted(entries.drop_last(), key, value).push(entries.last())
    }
}

/// In an ascending list, all but the last entry come before the last.
pub proof fn lemma_ascending_drop_last<V>(entries: Seq<(Seq<char>, V)>)
    requires
        ascending(entries),
        entries.len() > 0,
    ensures
        ascending(entries.drop_last()),
        all_before(entries.drop_last(), entries.last().0),
{
    let front = entries.drop_last();
    assert forall|i: int, j: int| 0 <= i < j < front.len() implies precedes(
        #[trigger] front[i].0,
        #[trigger] front[j].0,
    ) by {
        assert(front[i] == entries[i] && front[j] == entries[j]);
    }
    assert forall|i: int| 0 <= i < front.len() implies precedes(
        #[trigger] front[i].0,
        entries.last().0,
    ) by {
        assert(front[i] == entries[i]);
        assert(entries.last() == entries[entries.len() - 1]);
    }
}

/// An ascending list stays ascending with one more entry at its end whose
/// name comes after all the others.
pub proof fn lemma_ascending_push<V>(entries: Seq<(Seq<char>, V)>, key: Seq<char>, value: V)
    requires
        ascending(entries),
        all_before(entries, key),
    ensures
        ascending(entries.push((key, value))),
{
    let longer = entries.push((key, value));
    assert forall|i: int, j: int| 0 <= i < j < longer.len() implies precedes(
        #[trigger] longer[i].0,
        #[trigger] longer[j].0,
    ) by {
        assert(longer[i] == entries[i]);
        if j < entries.len() {
            assert(longer[j] == entries[j]);
        }
    }
}

/// What comes before `key` comes before whatever `key` comes before.
pub proof fn lemma_all_before_later<V>(
    entries: Seq<(Seq<char>, V)>,
    key: Seq<char>,
    later: Seq<char>,
)
    requires
        all_before(entries, key),
        precedes(key, later),
    ensures
        all_before(entries, later),
{
    assert forall|i: int| 0 <= i < entries.len() implies precedes(
        #[trigger] entries[i].0,
        later,
    ) by {
        lemma_precedes_transitive(entries[i].0, key, later);
    }
}

/// A name that all names of a list come before is not in the list.
pub proof fn lemma_all_before_absent<V>(entries: Seq<(Seq<char>, V)>, key: Seq<char>)
    requires
        all_before(entries, key),
    ensures
        lookup(entries, key) is None,
    decreases entries.len(),
{
    if entries.len() > 0 {
        lemma_precedes_irreflexive(key);
        assert(precedes(entries[entries.len() - 1].0, key));
        assert forall|i: int| 0 <= i < entries.drop_last().len() implies precedes(
            #[trigger] entries.drop_last()[i].0,
            key,
        ) by {
            assert(entries.drop_last()[i] == entries[i]);
        }
        lemma_all_before_absent(entries.drop_last(), key);
    }
}

/// Inserting under a name that comes before `bound` into a list whose names
/// all come before `bound` gives such a list again.
pub proof fn lemma_inserted_before<V>(
    entries: Seq<(Seq<char>, V)>,
    key: Seq<char>,
    value: V,
    bound: Seq<char>,
)
    requires
        all_before(entries, bound),
        precedes(key, bound),
    ensures
        all_before(inserted(entries, key, value), bound),
    decreases entries.len(),
{
    let out = inserted(entries, key, value);
    if entries.len() == 0 {
    } else {
        let front = entries.drop_last();
        assert forall|i: int| 0 <= i < front.len() implies precedes(
            #[trigger] front[i].0,
            bound,
        ) by {
            assert(front[i] == entries[i]);
        }
        assert(precedes(entries[entries.len() - 1].0, bound));
        if precedes(entries.last().0, key) {
            assert forall|i: int| 0 <= i < out.len() implies precedes(
                #[trigger] out[i].0,
                bound,
            ) by {
                if i < entries.len() {
                    assert(out[i] == entries[i]);
                }
            }
        } else if entries.last().0 == key {
            assert forall|i: int| 0 <= i < out.len() implies precedes(
                #[trigger] out[i].0,
                bound,
            ) by {
                if i < front.len() {
                    assert(out[i] == front[i]);
                }
            }
        } else {
            lemma_inserted_before(front, key, value, bound);
            let inner = inserted(front, key, value);
            assert forall|i: int| 0 <= i < out.len() implies precedes(
                #[trigger] out[i].0,
                bound,
            ) by {
                if i < inner.len() {
                    assert(out[i] == inner[i]);
                }
            }
        }
    }
}

/// What holds of every value of a list and of a new value holds of every
/// value of the list after the insertion.
pub proof fn lemma_inserted_values<V>(
    entries: Seq<(Seq<char>, V)>,
    key: Seq<char>,
    value: V,
    holds: spec_fn(V) -> bool,
)
    requires
        forall|i: int| 0 <= i < entries.len() ==> holds(#[trigger] entries[i].1),
        holds(value),
    ensures
        forall|i: int|
            0 <= i < inserted(entries, key, value).len() ==> holds(
                #[trigger] inserted(entries, key, value)[i].1,
            ),
    decreases entries.len(),
{
    let out = inserted(entries, key, value);
    if entries.len() > 0 {
        let front = entries.drop_last();
        assert forall|i: int| 0 <= i < front.len() implies holds(#[trigger] front[i].1) by {
            assert(front[i] == entries[i]);
        }
        assert(holds(entries[entries.len() - 1].1));
        if precedes(entries.last().0, key) {
            assert forall|i: int| 0 <= i < out.len() implies holds(#[trigger] out[i].1) by {
                if i < entries.len() {
                    assert(out[i] == entries[i]);
                }
            }
        } else if entries.last().0 == key {
            assert forall|i: int| 0 <= i < out.len() implies holds(#[trigger] out[i].1) by {
                if i < front.len() {
                    assert(out[i] == front[i]);
                }
            }
        } else {
            lemma_inserted_values(front, key, value, holds);
            let inner = inserted(front, key, value);
            assert forall|i: int| 0 <= i < out.len() implies holds(#[trigger] out[i].1) by {
                if i < inner.len() {
                    assert(out[i] == inner[i]);
                }
            }
        }
    }
}

/// Inserting into an ascending list gives an ascending list.
pub proof fn lemma_inserted_ascending<V>(entries: Seq<(Seq<char>, V)>, key: Seq<char>, value: V)
    requires
        ascending(entries),
    ensures
        ascending(inserted(entries, key, value)),
    decreases entries.len(),
{
    let out = inserted(entries, key, value);
    if entries.len() == 0 {
    } else {
        let front = entries.drop_last();
        let last = entries.last();
        lemma_ascending_drop_last(entries);
        if precedes(last.0, key) {
            lemma_all_before_later(front, last.0, key);
            assert forall|i: int| 0 <= i < entries.len() implies precedes(
                #[trigger] entries[i].0,
                key,
            ) by {
                if i < front.len() {
                    assert(entries[i] == front[i]);
                }
            }
            lemma_ascending_push(entries, key, value);
        } else if last.0 == key {
            lemma_ascending_push(front, key, value);
        } else {
            lemma_precedes_total(last.0, key);
            lemma_inserted_ascending(front, key, value);
            lemma_inserted_before(front, key, value, last.0);
            lemma_ascending_push(inserted(front, key, value), last.0, last.1);
        }
    }
}

/// After an insertion the list holds the new value under the new name, and
/// under every other name what it held before.
pub proof fn lemma_inserted_lookup<V>(
    entries: Seq<(Seq<char>, V)>,
    key: Seq<char>,
    value: V,
    other: Seq<char>,
)
    requires
        ascending(entries),
    ensures
        lookup(inserted(entries, key, value), other) == (if other == key {
            Some(value)
        } else {
            lookup(entries, other)
        }),
    decreases entries.len(),
{
    if entries.len() == 0 {
        let none = Seq::<(Seq<char>, V)>::empty();
        assert(seq![(key, value)] =~= none.push((key, value)));
        lemma_lookup_push(none, key, value, other);
    } else {
        let front = entries.drop_last();
        let last = entries.last();
        lemma_ascending_drop_last(entries);
        if precedes(last.0, key) {
            lemma_lookup_push(entries, key, value, other);
            lemma_all_before_later(front, last.0, key);
            assert forall|i: int| 0 <= i < entries.len() implies precedes(
                #[trigger] entries[i].0,
                key,
            ) by {
                if i < front.len() {
                    assert(entries[i] == front[i]);
                }
            }
            lemma_all_before_absent(entries, key);
        } else if last.0 == key {
            lemma_lookup_push(front, key, value, other);
            assert(entries =~= front.push(last));
            lemma_lookup_push(front, last.0, last.1, other);
            lemma_all_before_absent(front, key);
        } else {
            let inner = inserted(front, key, value);
            lemma_lookup_push(inner, last.0, last.1, other);
            assert(entries =~= front.push(last));
            lemma_lookup_push(front, last.0, last.1, other);
            lemma_inserted_lookup(front, key, value, other);
        }
    }
}

/// A name that is found stands at some place of the list, with the value
/// found.
pub proof fn lemma_lookup_found<V>(entries: Seq<(Seq<char>, V)>, key: Seq<char>) -> (i: int)
    requires
        lookup(entries, key) is Some,
    ensures
        0 <= i < entries.len(),
        entries[i].0 == key,
        lookup(entries, key) == Some(entries[i].1),
    decreases entries.len(),
{
    if lookup(entries.drop_last(), key) is Some {
        let i = lemma_lookup_found(entries.drop_last(), key);
        assert(entries.drop_last()[i] == entries[i]);
        i
    } else {
        entries.len() - 1
    }
}

/// In an ascending list each name is found with the value that stands beside
/// it.
pub proof fn lemma_lookup_entry<V>(entries: Seq<(Seq<char>, V)>, i: int)
    requires
        ascending(entries),
        0 <= i < entries.len(),
    ensures
        lookup(entries, entries[i].0) == Some(entries[i].1),
    decreases entries.len(),
{
    lemma_ascending_drop_last(entries);
    if i == entries.len() - 1 {
        lemma_all_before_absent(entries.drop_last(), entries.last().0);
    } else {
        assert(entries.drop_last()[i] == entries[i]);
        lemma_lookup_entry(entries.drop_last(), i);
    }
}

/// Two ascending lists that hold the same value under every name are the same
/// list.
pub proof fn lemma_ascending_unique<V>(a: Seq<(Seq<char>, V)>, b: Seq<(Seq<char>, V)>)
    requires
        ascending(a),
        ascending(b),
        forall|key: Seq<char>| lookup(a, key) == lookup(b, key),
    ensures
        a == b,
    decreases a.len(),
{
    if a.len() == 0 {
        if b.len() > 0 {
            lemma_lookup_entry(b, 0);
            assert(lookup(a, b[0].0) == lookup(b, b[0].0));
        }
        assert(a =~= b);
    } else if b.len() == 0 {
        lemma_lookup_entry(a, 0);
        assert(lookup(a, a[0].0) == lookup(b, a[0].0));
    } else {
        let la = a.len() - 1;
        let lb = b.len() - 1;
        lemma_lookup_entry(a, la);
        lemma_lookup_entry(b, lb);
        assert(lookup(b, a[la].0) == lookup(a, a[la].0));
        assert(lookup(a, b[lb].0) == lookup(b, b[lb].0));
        let j = lemma_lookup_found(b, a[la].0);
        let i = lemma_lookup_found(a, b[lb].0);
        lemma_precedes_total(a[la].0, b[lb].0);
        if j < lb {
            assert(precedes(b[j].0, b[lb].0));
        }
        if i < la {
            assert(precedes(a[i].0, a[la].0));
        }
        assert(a[la].0 == b[lb].0);
        assert(a[la].1 == b[lb].1);
        lemma_ascending_drop_last(a);
        lemma_ascending_drop_last(b);
        let fa = a.drop_last();
        let fb = b.drop_last();
        assert forall|key: Seq<char>| lookup(fa, key) == lookup(fb, key) by {
            assert(lookup(a, key) == lookup(b, key));
            if key == a[la].0 {
                lemma_all_before_absent(fa, key);
                lemma_all_before_absent(fb, key);
            }
        }
        lemma_ascending_unique(fa, fb);
        assert(a =~= fa.push(a[la]));
        assert(b =~= fb.push(b[lb]));
    }
}

/// Two insertions under different names give the same list in either order.
pub proof fn lemma_insertion_order<V>(
    entries: Seq<(Seq<char>, V)>,
    first_key: Seq<char>,
    first: V,
    second_key: Seq<char>,
    second: V,
)
    requires
        ascending(entries),
        first_key != second_key,
    ensures
        inserted(inserted(entries, first_key, first), second_key, second) == inserted(
            inserted(entries, second_key, second),
            first_key,
            first,
        ),
{
    let one = inserted(entries, first_key, first);
    let two = inserted(entries, second_key, second);
    let a = inserted(one, second_key, second);
    let b = inserted(two, first_key, first);
    lemma_inserted_ascending(entries, first_key, first);
    lemma_inserted_ascending(entries, second_key, second);
    lemma_inserted_ascending(one, second_key, second);
    lemma_inserted_ascending(two, first_key, first);
    assert forall|key: Seq<char>| lookup(a, key) == lookup(b, key) by {
        lemma_inserted_lookup(entries, first_key, first, key);
        lemma_inserted_lookup(entries, second_key, second, key);
        lemma_inserted_lookup(one, second_key, second, key);
        lemma_inserted_lookup(two, first_key, first, key);
    }
    lemma_ascending_unique(a, b);
}

/// Where an insertion lands, given the place `i` of the first entry whose
/// name does not come before `key`.
pub proof fn lemma_inserted_at<V>(entries: Seq<(Seq<char>, V)>, key: Seq<char>, value: V, i: int)
    requires
        ascending(entries),
        0 <= i <= entries.len(),
        forall|k: int| 0 <= k < i ==> precedes(#[trigger] entries[k].0, key),
        i < entries.len() ==> !precedes(entries[i].0, key),
    ensures
        inserted(entries, key, value) == (if i < entries.len() && entries[i].0 == key {
            entries.update(i, (key, value))
        } else {
            entries.insert(i, (key, value))
        }),
    decreases entries.len(),
{
    let n = entries.len() as int;
    if n == 0 {
        assert(seq![(key, value)] =~= entries.insert(0, (key, value)));
    } else if i == n {
        assert(precedes(entries[n - 1].0, key));
        assert(entries.push((key, value)) =~= entries.insert(n, (key, value)));
    } else {
        let front = entries.drop_last();
        let last = entries.last();
        lemma_ascending_drop_last(entries);
        if i == n - 1 {
            if last.0 == key {
                assert(front.push((key, value)) =~= entries.update(i, (key, value)));
            } else {
                assert forall|k: int| 0 <= k < i implies precedes(#[trigger] front[k].0, key) by {
                    assert(front[k] == entries[k]);
                }
                lemma_inserted_at(front, key, value, i);
                assert(front.insert(i, (key, value)).push(last) =~= entries.insert(
                    i,
                    (key, value),
                ));
            }
        } else {
            assert(precedes(entries[i].0, entries[n - 1].0));
            lemma_precedes_total(entries[i].0, key);
            if entries[i].0 != key {
                lemma_precedes_transitive(key, entries[i].0, last.0);
            }
            lemma_precedes_total(last.0, key);
            assert forall|k: int| 0 <= k < i implies precedes(#[trigger] front[k].0, key) by {
                assert(front[k] == entries[k]);
            }
            assert(front[i] == entries[i]);
            lemma_inserted_at(front, key, value, i);
            if entries[i].0 == key {
                assert(front.update(i, (key, value)).push(last) =~= entries.update(
                    i,
                    (key, value),
                ));
            } else {
                assert(front.insert(i, (key, value)).push(last) =~= entries.insert(
                    i,
                    (key, value),
                ));
            }
        }
    }
}

} // verus!
