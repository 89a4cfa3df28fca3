//! Searching a table: the first row that is wanted, and what a table's rows
//! are to the contracts.

use vstd::prelude::*;

verus! {

/// The rows of a table, each by its view.
pub open spec fn views<T: View>(rows: Seq<T>) -> Seq<T::V> {
    Seq::new(rows.len(), |i: int| rows[i]@)
}

/// `i` is the place of the first wanted row.
pub open spec fn is_first_position<T>(rows: Seq<T>, wanted: spec_fn(T) -> bool, i: int) -> bool {
    &&& 0 <= i < rows.len()
    &&& wanted(rows[i])
    &&& forall|j: int| 0 <= j < i ==> !wanted(#[trigger] rows[j])
}

/// No row is wanted.
pub open spec fn none_wanted<T>(rows: Seq<T>, wanted: spec_fn(T) -> bool) -> bool {
    forall|j: int| 0 <= j < rows.len() ==> !wanted(#[trigger] rows[j])
}

/// The place of the first wanted row, if there is one.
pub open spec fn first_position<T>(rows: Seq<T>, wanted: spec_fn(T) -> bool) -> Option<int> {
    if exists|i: int| is_first_position(rows, wanted, i) {
        Some(choose|i: int| is_first_position(rows, wanted, i))
    } else {
        None
    }
}

/// The first wanted row, if there is one.
pub open spec fn first_match<T>(rows: Seq<T>, wanted: spec_fn(T) -> bool) -> Option<T> {
    match first_position(rows, wanted) {
        Some(i) => Some(rows[i]),
        None => None,
    }
}

/// The rows differ pairwise in their key.
pub open spec fn distinct_by<T>(rows: Seq<T>, key: spec_fn(T) -> Seq<char>) -> bool {
    forall|i: int, j: int|
        0 <= i < j < rows.len() ==> key(#[trigger] rows[i]) != key(#[trigger] rows[j])
}

/// There is only one first place.
pub proof fn lemma_first_position<T>(rows: Seq<T>, wanted: spec_fn(T) -> bool, i: int)
    requires
        is_first_position(rows, wanted, i),
    ensures
        first_position(rows, wanted) == Some(i),
        first_match(rows, wanted) == Some(rows[i]),
{
    let chosen = choose|k: int| is_first_position(rows, wanted, k);
    assert(is_first_position(rows, wanted, chosen));
    if chosen < i {
        assert(!wanted(rows[chosen]));
    } else if i < chosen {
        assert(!wanted(rows[i]));
    }
}

/// Where no row is wanted, nothing is found.
pub proof fn lemma_none_wanted<T>(rows: Seq<T>, wanted: spec_fn(T) -> bool)
    requires
        none_wanted(rows, wanted),
    ensures
        first_position(rows, wanted) is None,
        first_match(rows, wanted) is None,
{
    assert forall|i: int| !is_first_position(rows, wanted, i) by {
        if 0 <= i < rows.len() {
            assert(!wanted(rows[i]));
        }
    }
}

/// Where some row is wanted, the first such row is found, at or before it.
pub proof fn lemma_some_wanted<T>(rows: Seq<T>, wanted: spec_fn(T) -> bool, k: int)
    requires
        0 <= k < rows.len(),
        wanted(rows[k]),
    ensures
        first_position(rows, wanted) is Some,
        0 <= first_position(rows, wanted)->0 <= k,
        is_first_position(rows, wanted, first_position(rows, wanted)->0),
    decreases k,
{
    if exists|j: int| 0 <= j < k && wanted(#[trigger] rows[j]) {
        let j = choose|j: int| 0 <= j < k && wanted(#[trigger] rows[j]);
        lemma_some_wanted(rows, wanted, j);
    } else {
        assert(is_first_position(rows, wanted, k));
        lemma_first_position(rows, wanted, k);
    }
}

/// What a search says of the table it ran on: a place that was found is the
/// first wanted one, and nothing found means that no row is wanted.
pub proof fn lemma_first_position_meaning<T>(rows: Seq<T>, wanted: spec_fn(T) -> bool)
    ensures
        match first_position(rows, wanted) {
            Some(i) => is_first_position(rows, wanted, i),
            None => none_wanted(rows, wanted),
        },
{
    match first_position(rows, wanted) {
        Some(i) => {},
        None => {
            assert forall|j: int| 0 <= j < rows.len() implies !wanted(#[trigger] rows[j]) by {
                if wanted(rows[j]) {
                    lemma_some_wanted(rows, wanted, j);
                }
            }
        },
    }
}

/// A row appended to a table is found only where no earlier row is wanted.
pub proof fn lemma_first_position_push<T>(rows: Seq<T>, wanted: spec_fn(T) -> bool, row: T)
    ensures
        first_position(rows.push(row), wanted) == match first_position(rows, wanted) {
            Some(i) => Some(i),
            None => if wanted(row) {
                Some(rows.len() as int)
            } else {
                None
            },
        },
{
    lemma_first_position_meaning(rows, wanted);
    let longer = rows.push(row);
    match first_position(rows, wanted) {
        Some(i) => {
            assert(longer[i] == rows[i]);
            assert forall|j: int| 0 <= j < i implies !wanted(#[trigger] longer[j]) by {
                assert(longer[j] == rows[j]);
            }
            lemma_first_position(longer, wanted, i);
        },
        None => {
            assert forall|j: int| 0 <= j < rows.len() implies !wanted(#[trigger] longer[j]) by {
                assert(longer[j] == rows[j]);
            }
            if wanted(row) {
                lemma_first_position(longer, wanted, rows.len() as int);
            } else {
                lemma_none_wanted(longer, wanted);
            }
        },
    }
}

/// Two tables of one length whose rows are wanted at the same places have
/// their first wanted row at the same place.
pub proof fn lemma_first_position_same<T>(a: Seq<T>, b: Seq<T>, wanted: spec_fn(T) -> bool)
    requires
        a.len() == b.len(),
        forall|j: int| 0 <= j < a.len() ==> wanted(#[trigger] a[j]) == wanted(b[j]),
    ensures
        first_position(a, wanted) == first_position(b, wanted),
{
    lemma_first_position_meaning(a, wanted);
    match first_position(a, wanted) {
        Some(i) => {
            assert(wanted(a[i]) == wanted(b[i]));
            assert forall|j: int| 0 <= j < i implies !wanted(#[trigger] b[j]) by {
                assert(wanted(a[j]) == wanted(b[j]));
            }
            lemma_first_position(b, wanted, i);
        },
        None => {
            assert forall|j: int| 0 <= j < b.len() implies !wanted(#[trigger] b[j]) by {
                assert(wanted(a[j]) == wanted(b[j]));
            }
            lemma_none_wanted(b, wanted);
        },
    }
}

/// A table with distinct keys stays so when a row with a new key is appended.
pub proof fn lemma_distinct_push<T>(rows: Seq<T>, key: spec_fn(T) -> Seq<char>, row: T)
    requires
        distinct_by(rows, key),
        forall|j: int| 0 <= j < rows.len() ==> key(#[trigger] rows[j]) != key(row),
    ensures
        distinct_by(rows.push(row), key),
{
    let longer = rows.push(row);
    assert forall|i: int, j: int| 0 <= i < j < longer.len() implies key(#[trigger] longer[i])
        != key(#[trigger] longer[j]) by {
        assert(longer[i] == rows[i]);
        if j < rows.len() {
            assert(longer[j] == rows[j]);
        }
    }
}

/// Where no row is wanted, the wanted rows are none.
pub proof fn lemma_filter_none<T>(rows: Seq<T>, wanted: spec_fn(T) -> bool)
    requires
        none_wanted(rows, wanted),
    ensures
        rows.filter(wanted) == Seq::<T>::empty(),
    decreases rows.len(),
{
    if rows.len() == 0 {
        rows.lemma_filter_len(wanted);
        assert(rows.filter(wanted) =~= Seq::<T>::empty());
    } else {
        let rest = rows.drop_last();
        assert(rows =~= rest.push(rows.last()));
        assert forall|j: int| 0 <= j < rest.len() implies !wanted(#[trigger] rest[j]) by {
            assert(rest[j] == rows[j]);
        }
        lemma_filter_none(rest, wanted);
        rest.lemma_filter_push(rows.last(), wanted);
        assert(!wanted(rows[rows.len() - 1]));
    }
}

/// Where every row is wanted, the wanted rows are all of them.
pub proof fn lemma_filter_all<T>(rows: Seq<T>, wanted: spec_fn(T) -> bool)
    requires
        forall|j: int| 0 <= j < rows.len() ==> wanted(#[trigger] rows[j]),
    ensures
        rows.filter(wanted) == rows,
    decreases rows.len(),
{
    if rows.len() == 0 {
        rows.lemma_filter_len(wanted);
        assert(rows.filter(wanted) =~= rows);
    } else {
        let rest = rows.drop_last();
        assert(rows =~= rest.push(rows.last()));
        assert forall|j: int| 0 <= j < rest.len() implies wanted(#[trigger] rest[j]) by {
            assert(rest[j] == rows[j]);
        }
        lemma_filter_all(rest, wanted);
        rest.lemma_filter_push(rows.last(), wanted);
        assert(wanted(rows[rows.len() - 1]));
    }
}

/// A wanted row of a table is among the wanted rows.
pub proof fn lemma_filter_member<T>(rows: Seq<T>, wanted: spec_fn(T) -> bool, k: int)
    requires
        0 <= k < rows.filter(wanted).len(),
    ensures
        wanted(rows.filter(wanted)[k]),
        exists|i: int| 0 <= i < rows.len() && #[trigger] rows[i] == rows.filter(wanted)[k],
    decreases rows.len(),
{
    if rows.len() == 0 {
        rows.lemma_filter_len(wanted);
    } else {
        let rest = rows.drop_last();
        assert(rows =~= rest.push(rows.last()));
        rest.lemma_filter_push(rows.last(), wanted);
        if k < rest.filter(wanted).len() {
            lemma_filter_member(rest, wanted, k);
            let i = choose|i: int| 0 <= i < rest.len() && #[trigger] rest[i] == rest.filter(
                wanted,
            )[k];
            assert(rows[i] == rows.filter(wanted)[k]);
        } else {
            assert(rows[rows.len() - 1] == rows.filter(wanted)[k]);
        }
    }
}

/// Whether two texts are the same.
pub fn same_text(a: &String, b: &String) -> (same: bool)
    ensures
        same == (a@ == b@),
{
    *a == *b
}

} // verus!
