//! Ordering rows by a key and picking rows by a condition: what these leave
//! and in what order.

use vstd::prelude::*;

verus! {

/// Puts `x` into a sequence that ascends by `key`, behind everything whose key
/// is not greater.
pub open spec fn insert_by_key<T>(sorted: Seq<T>, x: T, key: spec_fn(T) -> int) -> Seq<T>
    decreases sorted.len(),
{
    if sorted.len() == 0 || key(sorted.last()) <= key(x) {
        sorted.push(x)
    } else {
        insert_by_key(sorted.drop_last(), x, key).push(sorted.last())
    }
}

/// The first `upto` of `rows`, arranged to ascend by `key`; rows of equal key
/// keep their order.
pub open spec fn ordered_by_key<T>(rows: Seq<T>, key: spec_fn(T) -> int, upto: int) -> Seq<T>
    decreases upto,
{
    if upto <= 0 {
        Seq::empty()
    } else {
        insert_by_key(ordered_by_key(rows, key, upto - 1), rows[upto - 1], key)
    }
}

/// Whether a sequence ascends by `key`; equal keys may follow each other.
pub open spec fn ascends<T>(rows: Seq<T>, key: spec_fn(T) -> int) -> bool {
    forall|i: int, j: int| 0 <= i < j < rows.len() ==> key(rows[i]) <= key(rows[j])
}

/// Whether a sequence ascends by `key` and no key comes twice.
pub open spec fn strictly_ascends<T>(rows: Seq<T>, key: spec_fn(T) -> int) -> bool {
    forall|i: int, j: int| 0 <= i < j < rows.len() ==> key(rows[i]) < key(rows[j])
}

/// Inserting by key adds the new row and nothing else, and keeps the order.
pub proof fn lemma_insert_by_key<T>(sorted: Seq<T>, x: T, key: spec_fn(T) -> int)
    requires
        ascends(sorted, key),
    ensures
        insert_by_key(sorted, x, key).len() == sorted.len() + 1,
        ascends(insert_by_key(sorted, x, key), key),
        forall|y: T|
            #![trigger insert_by_key(sorted, x, key).contains(y)]
            #![trigger sorted.contains(y)]
            insert_by_key(sorted, x, key).contains(y) <==> sorted.contains(y) || y == x,
        insert_by_key(sorted, x, key).contains(x),
        strictly_ascends(sorted, key) && (forall|i: int|
            0 <= i < sorted.len() ==> key(#[trigger] sorted[i]) != key(x)) ==> strictly_ascends(
            insert_by_key(sorted, x, key),
            key,
        ),
    decreases sorted.len(),
{
    let result = insert_by_key(sorted, x, key);
    if sorted.len() == 0 || key(sorted.last()) <= key(x) {
        assert(result[sorted.len() as int] == x);
        assert forall|y: T| result.contains(y) <==> sorted.contains(y) || y == x by {
            if result.contains(y) {
                let i = choose|i: int| 0 <= i < result.len() && result[i] == y;
                if i < sorted.len() {
                    assert(sorted[i] == y);
                }
            }
            if sorted.contains(y) {
                let i = choose|i: int| 0 <= i < sorted.len() && sorted[i] == y;
                assert(result[i] == y);
            }
        }
    } else {
        let front = sorted.drop_last();
        let inner = insert_by_key(front, x, key);
        assert(ascends(front, key)) by {
            assert forall|i: int, j: int| 0 <= i < j < front.len() implies key(front[i]) <= key(
                front[j],
            ) by {
                assert(front[i] == sorted[i] && front[j] == sorted[j]);
            }
        }
        if strictly_ascends(sorted, key) {
            assert forall|i: int, j: int| 0 <= i < j < front.len() implies key(front[i]) < key(
                front[j],
            ) by {
                assert(front[i] == sorted[i] && front[j] == sorted[j]);
            }
        }
        lemma_insert_by_key(front, x, key);
        assert forall|i: int| 0 <= i < inner.len() implies key(#[trigger] inner[i]) <= key(
            sorted.last(),
        ) && (strictly_ascends(sorted, key) ==> key(inner[i]) < key(sorted.last())) by {
            assert(inner.contains(inner[i]));
            if front.contains(inner[i]) {
                let k = choose|k: int| 0 <= k < front.len() && front[k] == inner[i];
                assert(sorted[k] == inner[i]);
            }
        }
        assert forall|y: T| result.contains(y) <==> sorted.contains(y) || y == x by {
            if result.contains(y) {
                let i = choose|i: int| 0 <= i < result.len() && result[i] == y;
                if i < inner.len() {
                    assert(inner[i] == y);
                    assert(inner.contains(y));
                    if front.contains(y) {
                        let k = choose|k: int| 0 <= k < front.len() && front[k] == y;
                        assert(sorted[k] == y);
                    }
                } else {
                    assert(sorted[sorted.len() - 1] == y);
                }
            }
            if sorted.contains(y) {
                let k = choose|k: int| 0 <= k < sorted.len() && sorted[k] == y;
                if k < front.len() {
                    assert(front[k] == y);
                    assert(front.contains(y));
                    assert(inner.contains(y));
                    let i = choose|i: int| 0 <= i < inner.len() && inner[i] == y;
                    assert(result[i] == y);
                } else {
                    assert(result[inner.len() as int] == y);
                }
            }
            if y == x {
                assert(inner.contains(x));
                let i = choose|i: int| 0 <= i < inner.len() && inner[i] == x;
                assert(result[i] == x);
            }
        }
        assert forall|i: int, j: int| 0 <= i < j < result.len() implies key(result[i]) <= key(
            result[j],
        ) by {
            if j < inner.len() {
                assert(result[i] == inner[i] && result[j] == inner[j]);
            } else {
                assert(result[i] == inner[i]);
            }
        }
        if strictly_ascends(sorted, key) && (forall|i: int|
            0 <= i < sorted.len() ==> key(#[trigger] sorted[i]) != key(x)) {
            assert forall|i: int| 0 <= i < front.len() implies key(#[trigger] front[i]) != key(
                x,
            ) by {
                assert(front[i] == sorted[i]);
            }
            assert forall|i: int, j: int| 0 <= i < j < result.len() implies key(result[i]) < key(
                result[j],
            ) by {
                if j < inner.len() {
                    assert(result[i] == inner[i] && result[j] == inner[j]);
                } else {
                    assert(result[i] == inner[i]);
                }
            }
        }
    }
}

/// Ordering by key keeps every row and adds none, and the result ascends by
/// the key; strictly so where no two rows share a key.
pub proof fn lemma_ordered_by_key<T>(rows: Seq<T>, key: spec_fn(T) -> int, upto: int)
    requires
        0 <= upto <= rows.len(),
    ensures
        ordered_by_key(rows, key, upto).len() == upto,
        ascends(ordered_by_key(rows, key, upto), key),
        forall|y: T|
            #![trigger ordered_by_key(rows, key, upto).contains(y)]
            ordered_by_key(rows, key, upto).contains(y) <==> exists|i: int|
                0 <= i < upto && rows[i] == y,
        forall|i: int|
            0 <= i < upto ==> ordered_by_key(rows, key, upto).contains(#[trigger] rows[i]),
        (forall|i: int, j: int| 0 <= i < j < rows.len() ==> key(rows[i]) != key(rows[j]))
            ==> strictly_ascends(ordered_by_key(rows, key, upto), key),
    decreases upto,
{
    let result = ordered_by_key(rows, key, upto);
    if upto > 0 {
        let before = ordered_by_key(rows, key, upto - 1);
        let x = rows[upto - 1];
        lemma_ordered_by_key(rows, key, upto - 1);
        lemma_insert_by_key(before, x, key);
        if forall|i: int, j: int| 0 <= i < j < rows.len() ==> key(rows[i]) != key(rows[j]) {
            assert forall|i: int| 0 <= i < before.len() implies key(#[trigger] before[i]) != key(
                x,
            ) by {
                assert(before.contains(before[i]));
            }
        }
    }
}

proof fn lemma_keys_from_below<T>(rows: Seq<T>, key: spec_fn(T) -> int, k: int)
    requires
        strictly_ascends(rows, key),
        0 <= k < rows.len(),
        forall|i: int| 0 <= i < rows.len() ==> 1 <= key(#[trigger] rows[i]),
    ensures
        key(rows[k]) >= k + 1,
    decreases k,
{
    if k > 0 {
        lemma_keys_from_below(rows, key, k - 1);
    }
}

proof fn lemma_keys_from_above<T>(rows: Seq<T>, key: spec_fn(T) -> int, k: int)
    requires
        strictly_ascends(rows, key),
        0 <= k < rows.len(),
        forall|i: int| 0 <= i < rows.len() ==> key(#[trigger] rows[i]) <= rows.len(),
    ensures
        key(rows[k]) <= k + 1,
    decreases rows.len() - k,
{
    if k < rows.len() - 1 {
        lemma_keys_from_above(rows, key, k + 1);
    }
}

/// Rows whose keys are the numbers `1..=N`, each once, come out of the
/// ordering with the row of key `k` at position `k - 1`.
pub proof fn lemma_ordered_run<T>(rows: Seq<T>, key: spec_fn(T) -> int)
    requires
        forall|i: int| 0 <= i < rows.len() ==> 1 <= key(#[trigger] rows[i]) <= rows.len(),
        forall|i: int, j: int| 0 <= i < j < rows.len() ==> key(rows[i]) != key(rows[j]),
    ensures
        ordered_by_key(rows, key, rows.len() as int).len() == rows.len(),
        forall|k: int|
            0 <= k < rows.len() ==> key(
                #[trigger] ordered_by_key(rows, key, rows.len() as int)[k],
            ) == k + 1,
        forall|i: int|
            0 <= i < rows.len() ==> ordered_by_key(rows, key, rows.len() as int)[key(
                #[trigger] rows[i],
            ) - 1] == rows[i],
{
    let ordered = ordered_by_key(rows, key, rows.len() as int);
    lemma_ordered_by_key(rows, key, rows.len() as int);
    assert forall|k: int| 0 <= k < ordered.len() implies 1 <= key(#[trigger] ordered[k])
        <= ordered.len() by {
        assert(ordered.contains(ordered[k]));
    }
    assert forall|k: int| 0 <= k < rows.len() implies key(#[trigger] ordered[k]) == k + 1 by {
        lemma_keys_from_below(ordered, key, k);
        lemma_keys_from_above(ordered, key, k);
    }
}

/// A filter that no row passes leaves nothing.
pub proof fn lemma_filter_none<T>(rows: Seq<T>, pred: spec_fn(T) -> bool)
    requires
        forall|i: int| 0 <= i < rows.len() ==> !pred(#[trigger] rows[i]),
    ensures
        rows.filter(pred) == Seq::<T>::empty(),
    decreases rows.len(),
{
    reveal(Seq::filter);
    if rows.len() > 0 {
        lemma_filter_none(rows.drop_last(), pred);
    }
}

/// A filter that every row passes leaves every row.
pub proof fn lemma_filter_all<T>(rows: Seq<T>, pred: spec_fn(T) -> bool)
    requires
        forall|i: int| 0 <= i < rows.len() ==> pred(#[trigger] rows[i]),
    ensures
        rows.filter(pred) == rows,
    decreases rows.len(),
{
    reveal(Seq::filter);
    if rows.len() > 0 {
        lemma_filter_all(rows.drop_last(), pred);
    }
}

/// What a filter leaves has passed it and was there before.
pub proof fn lemma_filter_members<T>(rows: Seq<T>, pred: spec_fn(T) -> bool)
    ensures
        forall|i: int|
            0 <= i < rows.filter(pred).len() ==> pred(#[trigger] rows.filter(pred)[i])
                && rows.contains(rows.filter(pred)[i]),
{
    assert forall|i: int| 0 <= i < rows.filter(pred).len() implies pred(
        #[trigger] rows.filter(pred)[i],
    ) && rows.contains(rows.filter(pred)[i]) by {
        rows.lemma_filter_contains_rev(pred, rows.filter(pred)[i]);
    }
}

/// Filtering by a narrower condition after a wider one is filtering by the narrower alone.
pub proof fn lemma_filter_twice<T>(rows: Seq<T>, keep: spec_fn(T) -> bool, pick: spec_fn(T) -> bool)
    requires
        forall|x: T| #[trigger] pick(x) ==> keep(x),
    ensures
        rows.filter(keep).filter(pick) == rows.filter(pick),
    decreases rows.len(),
{
    if rows.len() > 0 {
        let front = rows.drop_last();
        let last = rows.last();
        assert(front.push(last) =~= rows);
        lemma_filter_twice(front, keep, pick);
        front.lemma_filter_push(last, keep);
        front.lemma_filter_push(last, pick);
        front.filter(keep).lemma_filter_push(last, pick);
    }
}

} // verus!
