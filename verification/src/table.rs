//! Lists of named entries. An entry is found by its name; where a name
//! occurs more than once, the first entry with it counts.

use vstd::prelude::*;
use crate::attr::{Attr, AttrVal};

verus! {

/// Whether some entry has this name.
pub open spec fn has_name<V>(table: Seq<(Seq<char>, V)>, name: Seq<char>) -> bool {
    exists|i: int| 0 <= i < table.len() && (#[trigger] table[i]).0 == name
}

/// Whether `i` is the position of the first entry with this name.
pub open spec fn is_first<V>(table: Seq<(Seq<char>, V)>, name: Seq<char>, i: int) -> bool {
    &&& 0 <= i < table.len()
    &&& table[i].0 == name
    &&& forall|j: int| 0 <= j < i ==> (#[trigger] table[j]).0 != name
}

/// The position of the first entry with this name, where there is one.
pub open spec fn first_index<V>(table: Seq<(Seq<char>, V)>, name: Seq<char>) -> int {
    choose|i: int| is_first(table, name, i)
}

/// The value of the first entry with this name, where there is one.
pub open spec fn lookup<V>(table: Seq<(Seq<char>, V)>, name: Seq<char>) -> Option<V> {
    if has_name(table, name) {
        Some(table[first_index(table, name)].1)
    } else {
        None
    }
}

/// No name occurs twice.
pub open spec fn distinct_names<V>(table: Seq<(Seq<char>, V)>) -> bool {
    forall|i: int, j: int|
        0 <= i < j < table.len() ==> (#[trigger] table[i]).0 != (#[trigger] table[j]).0
}

/// The list with `value` under `name`: in the place of the first entry with
/// that name, or at the end where the name is new.
pub open spec fn upsert<V>(table: Seq<(Seq<char>, V)>, name: Seq<char>, value: V) -> Seq<
    (Seq<char>, V),
> {
    if has_name(table, name) {
        table.update(first_index(table, name), (name, value))
    } else {
        table.push((name, value))
    }
}

/// The list after the first `n` entries of `extra` have been put into it by
/// [`upsert`], one after the other.
pub open spec fn upsert_all<V>(
    table: Seq<(Seq<char>, V)>,
    extra: Seq<(Seq<char>, V)>,
    n: nat,
) -> Seq<(Seq<char>, V)>
    decreases n,
{
    if n == 0 {
        table
    } else {
        upsert(upsert_all(table, extra, (n - 1) as nat), extra[n - 1].0, extra[n - 1].1)
    }
}

/// A position that is the first with its name is the one that
/// [`first_index`] picks.
pub proof fn lemma_first_index<V>(table: Seq<(Seq<char>, V)>, name: Seq<char>, i: int)
    requires
        is_first(table, name, i),
    ensures
        has_name(table, name),
        first_index(table, name) == i,
{
    let k = first_index(table, name);
    assert(is_first(table, name, k));
    if k < i {
        assert(table[k].0 != name);
    }
    if i < k {
        assert(table[i].0 != name);
    }
}

/// Where some entry has the name, [`first_index`] is the position of the
/// first such entry.
pub proof fn lemma_has_first<V>(table: Seq<(Seq<char>, V)>, name: Seq<char>)
    requires
        has_name(table, name),
    ensures
        is_first(table, name, first_index(table, name)),
{
    let w = choose|i: int| 0 <= i < table.len() && (#[trigger] table[i]).0 == name;
    lemma_least(table, name, w);
}

proof fn lemma_least<V>(table: Seq<(Seq<char>, V)>, name: Seq<char>, w: int)
    requires
        0 <= w < table.len(),
        table[w].0 == name,
    ensures
        exists|i: int| is_first(table, name, i),
    decreases w,
{
    if forall|j: int| 0 <= j < w ==> (#[trigger] table[j]).0 != name {
        assert(is_first(table, name, w));
    } else {
        let j = choose|j: int| 0 <= j < w && (#[trigger] table[j]).0 == name;
        lemma_least(table, name, j);
    }
}

/// Putting a value under a name keeps the names distinct, and afterwards the
/// name gives that value and every other name gives what it gave before.
pub proof fn lemma_upsert<V>(table: Seq<(Seq<char>, V)>, name: Seq<char>, value: V)
    requires
        distinct_names(table),
    ensures
        distinct_names(upsert(table, name, value)),
        lookup(upsert(table, name, value), name) == Some(value),
        forall|other: Seq<char>|
            other != name ==> lookup(upsert(table, name, value), other) == lookup(table, other),
{
    let after = upsert(table, name, value);
    if has_name(table, name) {
        let k = first_index(table, name);
        lemma_has_first(table, name);
        assert(is_first(after, name, k));
        lemma_first_index(after, name, k);
        assert forall|other: Seq<char>| other != name implies lookup(after, other) == lookup(
            table,
            other,
        ) by {
            if has_name(table, other) {
                let o = first_index(table, other);
                lemma_has_first(table, other);
                assert(o != k);
                assert(is_first(after, other, o));
                lemma_first_index(after, other, o);
            } else {
                assert forall|j: int| 0 <= j < after.len() implies (#[trigger] after[j]).0
                    != other by {
                    if j != k {
                        assert(table[j].0 != other);
                    }
                }
            }
        }
    } else {
        let k = table.len() as int;
        assert forall|j: int| 0 <= j < k implies (#[trigger] after[j]).0 != name by {
            assert(table[j].0 != name);
        }
        assert(is_first(after, name, k));
        lemma_first_index(after, name, k);
        assert forall|i: int, j: int| 0 <= i < j < after.len() implies (#[trigger] after[i]).0 != (
        #[trigger] after[j]).0 by {
            if j == k {
                assert(table[i].0 != name);
            } else {
                assert(table[i].0 != table[j].0);
            }
        }
        assert forall|other: Seq<char>| other != name implies lookup(after, other) == lookup(
            table,
            other,
        ) by {
            if has_name(table, other) {
                let o = first_index(table, other);
                lemma_has_first(table, other);
                assert(is_first(after, other, o));
                lemma_first_index(after, other, o);
            } else {
                assert forall|j: int| 0 <= j < after.len() implies (#[trigger] after[j]).0
                    != other by {
                    if j < k {
                        assert(table[j].0 != other);
                    }
                }
            }
        }
    }
}

/// Putting a run of entries into a list with distinct names keeps the names
/// distinct.
pub proof fn lemma_upsert_all_distinct<V>(
    table: Seq<(Seq<char>, V)>,
    extra: Seq<(Seq<char>, V)>,
    n: nat,
)
    requires
        distinct_names(table),
        n <= extra.len(),
    ensures
        distinct_names(upsert_all(table, extra, n)),
    decreases n,
{
    if n > 0 {
        lemma_upsert_all_distinct(table, extra, (n - 1) as nat);
        lemma_upsert(upsert_all(table, extra, (n - 1) as nat), extra[n - 1].0, extra[n - 1].1);
    }
}

/// What a list of named plain values stands for.
pub open spec fn entries<V>(table: Seq<(String, V)>) -> Seq<(Seq<char>, V)> {
    Seq::new(table.len(), |i: int| (table[i].0@, table[i].1))
}

/// The position of the first entry with this name.
fn position<V>(table: &Vec<(String, V)>, name: &String) -> (r: Option<usize>)
    ensures
        match r {
            Some(i) => is_first(entries(table@), name@, i as int),
            None => !has_name(entries(table@), name@),
        },
{
    let mut i: usize = 0;
    while i < table.len()
        invariant
            i <= table.len(),
            forall|j: int| 0 <= j < i ==> (#[trigger] entries(table@)[j]).0 != name@,
        decreases table.len() - i,
    {
        if table[i].0 == *name {
            return Some(i);
        }
        i += 1;
    }
    None
}

/// The value of the first entry with this name.
pub fn find<V: Copy>(table: &Vec<(String, V)>, name: &String) -> (r: Option<V>)
    ensures
        r == lookup(entries(table@), name@),
{
    match position(table, name) {
        Some(i) => {
            proof {
                lemma_first_index(entries(table@), name@, i as int);
            }
            Some(table[i].1)
        },
        None => None,
    }
}

/// The position of the first attribute with this key.
fn attr_position(attrs: &Vec<Attr>, key: &String) -> (r: Option<usize>)
    ensures
        match r {
            Some(i) => is_first(attrs.deep_view(), key@, i as int),
            None => !has_name(attrs.deep_view(), key@),
        },
{
    let mut i: usize = 0;
    while i < attrs.len()
        invariant
            i <= attrs.len(),
            forall|j: int| 0 <= j < i ==> (#[trigger] attrs.deep_view()[j]).0 != key@,
        decreases attrs.len() - i,
    {
        if attrs[i].0 == *key {
            return Some(i);
        }
        i += 1;
    }
    None
}

/// Puts an attribute into a list: in the place of the first attribute with
/// its key, or at the end where the key is new.
pub fn put_attr(attrs: &mut Vec<Attr>, key: String, val: AttrVal)
    ensures
        final(attrs).deep_view() == upsert(old(attrs).deep_view(), key@, val@),
{
    match attr_position(attrs, &key) {
        Some(i) => {
            proof {
                lemma_first_index(attrs.deep_view(), key@, i as int);
            }
            attrs.set(i, (key, val));
            assert(attrs.deep_view() =~= old(attrs).deep_view().update(i as int, (key@, val@)));
        },
        None => {
            attrs.push((key, val));
            assert(attrs.deep_view() =~= old(attrs).deep_view().push((key@, val@)));
        },
    }
}

/// Puts a copy of each attribute of `extra` into a list, in their order.
pub fn put_attrs(attrs: &mut Vec<Attr>, extra: &Vec<Attr>)
    ensures
        final(attrs).deep_view() == upsert_all(
            old(attrs).deep_view(),
            extra.deep_view(),
            extra.len() as nat,
        ),
{
    let mut i: usize = 0;
    while i < extra.len()
        invariant
            i <= extra.len(),
            attrs.deep_view() == upsert_all(old(attrs).deep_view(), extra.deep_view(), i as nat),
        decreases extra.len() - i,
    {
        put_attr(attrs, extra[i].0.clone(), extra[i].1.clone());
        i += 1;
    }
}

} // verus!
