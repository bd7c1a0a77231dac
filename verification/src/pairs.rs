//! Lists of named values, and the mapping that such a list stands for.

use vstd::prelude::*;

verus! {

/// The mapping that a list of named values stands for. Where a name comes
/// twice, the later value replaces the earlier one.
pub open spec fn folded<T>(pairs: Seq<(Seq<char>, T)>) -> Map<Seq<char>, T>
    decreases pairs.len(),
{
    if pairs.len() == 0 {
        Map::empty()
    } else {
        folded(pairs.drop_last()).insert(pairs.last().0, pairs.last().1)
    }
}

/// No name comes twice in the list.
pub open spec fn distinct_names<T>(pairs: Seq<(Seq<char>, T)>) -> bool {
    forall|i: int, j: int| 0 <= i < j < pairs.len() ==> pairs[i].0 != pairs[j].0
}

/// The name `name` stands in the list.
pub open spec fn names_key<T>(pairs: Seq<(Seq<char>, T)>, name: Seq<char>) -> bool {
    exists|i: int| 0 <= i < pairs.len() && pairs[i].0 == name
}

/// One more pair at the end of a list puts its value under its name.
pub proof fn lemma_folded_push<T>(pairs: Seq<(Seq<char>, T)>, name: Seq<char>, item: T)
    ensures
        folded(pairs.push((name, item))) == folded(pairs).insert(name, item),
{
    let longer = pairs.push((name, item));
    assert(longer.drop_last() =~= pairs);
    assert(longer.last() == (name, item));
}

/// The names under which a list maps something are the names that stand in it.
pub proof fn lemma_folded_keys<T>(pairs: Seq<(Seq<char>, T)>, name: Seq<char>)
    ensures
        folded(pairs).contains_key(name) <==> names_key(pairs, name),
    decreases pairs.len(),
{
    if pairs.len() > 0 {
        let front = pairs.drop_last();
        lemma_folded_keys(front, name);
        if names_key(front, name) {
            let i = choose|i: int| 0 <= i < front.len() && front[i].0 == name;
            assert(pairs[i].0 == name);
        }
        if pairs.last().0 == name {
            assert(pairs[pairs.len() - 1].0 == name);
        }
        if names_key(pairs, name) {
            let i = choose|i: int| 0 <= i < pairs.len() && pairs[i].0 == name;
            if i < front.len() {
                assert(front[i].0 == name);
            }
        }
    }
}

/// In a list without repeated names, each name maps to the value beside it.
pub proof fn lemma_folded_value<T>(pairs: Seq<(Seq<char>, T)>, i: int)
    requires
        distinct_names(pairs),
        0 <= i < pairs.len(),
    ensures
        folded(pairs).contains_key(pairs[i].0),
        folded(pairs)[pairs[i].0] == pairs[i].1,
    decreases pairs.len(),
{
    let front = pairs.drop_last();
    if i < front.len() {
        assert(distinct_names(front)) by {
            assert forall|a: int, b: int| 0 <= a < b < front.len() implies front[a].0
                != front[b].0 by {
                assert(pairs[a].0 != pairs[b].0);
            }
        }
        lemma_folded_value(front, i);
        assert(front[i] == pairs[i]);
        assert(pairs[i].0 != pairs[pairs.len() - 1].0);
    }
}

/// A list without repeated names maps as many names as it has pairs.
pub proof fn lemma_folded_len<T>(pairs: Seq<(Seq<char>, T)>)
    requires
        distinct_names(pairs),
    ensures
        folded(pairs).dom().finite(),
        folded(pairs).len() == pairs.len(),
    decreases pairs.len(),
{
    if pairs.len() > 0 {
        let front = pairs.drop_last();
        assert(distinct_names(front)) by {
            assert forall|a: int, b: int| 0 <= a < b < front.len() implies front[a].0
                != front[b].0 by {
                assert(pairs[a].0 != pairs[b].0);
            }
        }
        lemma_folded_len(front);
        lemma_folded_keys(front, pairs.last().0);
        if names_key(front, pairs.last().0) {
            let i = choose|i: int| 0 <= i < front.len() && front[i].0 == pairs.last().0;
            assert(pairs[i].0 != pairs[pairs.len() - 1].0);
        }
        assert(folded(pairs).dom() =~= folded(front).dom().insert(pairs.last().0));
    }
}

/// Replacing the value beside a name, in a list without repeated names, maps
/// that name to the new value and keeps the names distinct.
pub proof fn lemma_folded_update<T>(pairs: Seq<(Seq<char>, T)>, i: int, item: T)
    requires
        distinct_names(pairs),
        0 <= i < pairs.len(),
    ensures
        distinct_names(pairs.update(i, (pairs[i].0, item))),
        folded(pairs.update(i, (pairs[i].0, item))) == folded(pairs).insert(pairs[i].0, item),
{
    let key = pairs[i].0;
    let after = pairs.update(i, (key, item));
    assert(distinct_names(after)) by {
        assert forall|a: int, b: int| 0 <= a < b < after.len() implies after[a].0 != after[b].0 by {
            assert(after[a].0 == pairs[a].0);
            assert(after[b].0 == pairs[b].0);
        }
    }
    assert forall|q: Seq<char>|
        folded(after).contains_key(q) <==> #[trigger] folded(pairs).insert(key, item).contains_key(
            q,
        ) by {
        lemma_folded_keys(after, q);
        lemma_folded_keys(pairs, q);
        if names_key(pairs, q) {
            let j = choose|j: int| 0 <= j < pairs.len() && pairs[j].0 == q;
            assert(after[j].0 == q);
        }
        if names_key(after, q) {
            let j = choose|j: int| 0 <= j < after.len() && after[j].0 == q;
            assert(pairs[j].0 == q);
        }
        if q == key {
            assert(after[i].0 == q);
        }
    }
    assert forall|q: Seq<char>| folded(after).contains_key(q) implies folded(after)[q] == folded(
        pairs,
    ).insert(key, item)[q] by {
        lemma_folded_keys(after, q);
        let j = choose|j: int| 0 <= j < after.len() && after[j].0 == q;
        lemma_folded_value(after, j);
        if j != i {
            lemma_folded_value(pairs, j);
        }
    }
    assert(folded(after) =~= folded(pairs).insert(key, item));
}

/// A pair under a new name, put at the end of a list without repeated names,
/// keeps the names distinct.
pub proof fn lemma_distinct_push<T>(pairs: Seq<(Seq<char>, T)>, name: Seq<char>, item: T)
    requires
        distinct_names(pairs),
        !names_key(pairs, name),
    ensures
        distinct_names(pairs.push((name, item))),
{
    let after = pairs.push((name, item));
    assert forall|a: int, b: int| 0 <= a < b < after.len() implies after[a].0 != after[b].0 by {
        if b < pairs.len() {
            assert(pairs[a].0 != pairs[b].0);
        } else {
            assert(pairs[a].0 != name);
        }
    }
}

/// Taking a pair out of a list without repeated names takes its name out of
/// the mapping and keeps the names distinct.
pub proof fn lemma_folded_remove<T>(pairs: Seq<(Seq<char>, T)>, i: int)
    requires
        distinct_names(pairs),
        0 <= i < pairs.len(),
    ensures
        distinct_names(pairs.remove(i)),
        folded(pairs.remove(i)) == folded(pairs).remove(pairs[i].0),
{
    let key = pairs[i].0;
    let after = pairs.remove(i);
    assert(distinct_names(after)) by {
        assert forall|a: int, b: int| 0 <= a < b < after.len() implies after[a].0 != after[b].0 by {
            let a0 = if a < i { a } else { a + 1 };
            let b0 = if b < i { b } else { b + 1 };
            assert(after[a] == pairs[a0]);
            assert(after[b] == pairs[b0]);
        }
    }
    assert forall|q: Seq<char>|
        folded(after).contains_key(q) <==> #[trigger] folded(pairs).remove(key).contains_key(
            q,
        ) by {
        lemma_folded_keys(after, q);
        lemma_folded_keys(pairs, q);
        if names_key(after, q) {
            let j = choose|j: int| 0 <= j < after.len() && after[j].0 == q;
            let j0 = if j < i { j } else { j + 1 };
            assert(after[j] == pairs[j0]);
            assert(pairs[j0].0 == q);
            assert(pairs[j0].0 != pairs[i].0);
        }
        if names_key(pairs, q) && q != key {
            let j = choose|j: int| 0 <= j < pairs.len() && pairs[j].0 == q;
            let j1 = if j < i { j } else { j - 1 };
            assert(after[j1] == pairs[j]);
        }
    }
    assert forall|q: Seq<char>| folded(after).contains_key(q) implies folded(after)[q] == folded(
        pairs,
    ).remove(key)[q] by {
        lemma_folded_keys(after, q);
        let j = choose|j: int| 0 <= j < after.len() && after[j].0 == q;
        let j0 = if j < i { j } else { j + 1 };
        assert(after[j] == pairs[j0]);
        lemma_folded_value(after, j);
        lemma_folded_value(pairs, j0);
    }
    assert(folded(after) =~= folded(pairs).remove(key));
}

} // verus!
