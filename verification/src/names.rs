//! Lists of names and lists of named entries. A list of entries stands for
//! a map from names to values in which the first entry of a name counts;
//! the operations here keep the order in which names first came.

use crate::strings::same_text;
use vstd::prelude::*;

verus! {

/// A name as contracts see it.
pub type Name = Seq<char>;

/// The names of a list of entries, in order.
pub open spec fn keys<W>(entries: Seq<(Name, W)>) -> Seq<Name> {
    entries.map_values(|e: (Name, W)| e.0)
}

/// The value that the list holds for `key`: that of the first entry under
/// that name.
pub open spec fn lookup<W>(entries: Seq<(Name, W)>, key: Name) -> Option<W> {
    match keys(entries).index_of_first(key) {
        Some(i) => Some(entries[i].1),
        None => None,
    }
}

/// The list with `value` under `key`: in the place of the first entry of
/// that name, or at the end where there is none.
pub open spec fn with_entry<W>(entries: Seq<(Name, W)>, key: Name, value: W) -> Seq<(Name, W)> {
    match keys(entries).index_of_first(key) {
        Some(i) => entries.update(i, (key, value)),
        None => entries.push((key, value)),
    }
}

/// The list without any entry of `key`.
pub open spec fn without_key<W>(entries: Seq<(Name, W)>, key: Name) -> Seq<(Name, W)> {
    entries.filter(|e: (Name, W)| e.0 != key)
}

/// The test that a name is another one than `name`.
pub open spec fn is_not(name: Name) -> spec_fn(Name) -> bool {
    |n: Name| n != name
}

/// The list without any occurrence of `name`.
pub open spec fn without_name(names: Seq<Name>, name: Name) -> Seq<Name> {
    names.filter(is_not(name))
}

/// The first index at which `needle` stands is `i`.
pub open spec fn is_first_index<A>(s: Seq<A>, needle: A, i: int) -> bool {
    &&& 0 <= i < s.len()
    &&& s[i] == needle
    &&& forall|j: int| 0 <= j < i ==> s[j] != needle
}

/// `index_of_first` is the one index that `is_first_index` describes.
pub proof fn lemma_first_index<A>(s: Seq<A>, needle: A, i: int)
    requires
        is_first_index(s, needle, i),
    ensures
        s.index_of_first(needle) == Some(i),
{
    s.index_of_first_ensures(needle);
    assert(s.contains(needle));
}

/// Where nothing equals `needle`, `index_of_first` finds nothing.
pub proof fn lemma_no_index<A>(s: Seq<A>, needle: A)
    requires
        forall|j: int| 0 <= j < s.len() ==> s[j] != needle,
    ensures
        s.index_of_first(needle) is None,
{
    s.index_of_first_ensures(needle);
}

/// A value put under a key is the value found under it, and the values of
/// all other keys stay.
pub proof fn lemma_lookup_with_entry<W>(entries: Seq<(Name, W)>, key: Name, value: W, other: Name)
    ensures
        lookup(with_entry(entries, key, value), key) == Some(value),
        other != key ==> lookup(with_entry(entries, key, value), other) == lookup(entries, other),
{
    let after = with_entry(entries, key, value);
    keys(entries).index_of_first_ensures(key);
    keys(entries).index_of_first_ensures(other);
    keys(after).index_of_first_ensures(key);
    keys(after).index_of_first_ensures(other);
    match keys(entries).index_of_first(key) {
        Some(i) => {
            assert(keys(after)[i] == key);
            assert forall|j: int| 0 <= j < i implies keys(after)[j] != key by {
                assert(keys(entries)[j] != key);
            }
            assert(is_first_index(keys(after), key, i));
            lemma_first_index(keys(after), key, i);
            if other != key {
                match keys(entries).index_of_first(other) {
                    Some(k) => {
                        assert(keys(after)[k] == keys(entries)[k]);
                        assert forall|j: int| 0 <= j < k implies keys(after)[j] != other by {
                            assert(keys(entries)[j] != other);
                        }
                        assert(is_first_index(keys(after), other, k));
                        lemma_first_index(keys(after), other, k);
                    },
                    None => {
                        assert forall|j: int| 0 <= j < keys(after).len() implies keys(after)[j]
                            != other by {
                            assert(keys(entries)[j] != other);
                        }
                        lemma_no_index(keys(after), other);
                    },
                }
            }
        },
        None => {
            let n = entries.len() as int;
            assert forall|j: int| 0 <= j < n implies keys(after)[j] != key by {
                assert(keys(entries)[j] != key);
            }
            assert(is_first_index(keys(after), key, n));
            lemma_first_index(keys(after), key, n);
            if other != key {
                match keys(entries).index_of_first(other) {
                    Some(k) => {
                        assert(keys(after)[k] == keys(entries)[k]);
                        assert forall|j: int| 0 <= j < k implies keys(after)[j] != other by {
                            assert(keys(entries)[j] != other);
                        }
                        assert(is_first_index(keys(after), other, k));
                        lemma_first_index(keys(after), other, k);
                    },
                    None => {
                        assert forall|j: int| 0 <= j < keys(after).len() implies keys(after)[j]
                            != other by {
                            if j < n {
                                assert(keys(entries)[j] != other);
                            }
                        }
                        lemma_no_index(keys(after), other);
                    },
                }
            }
        },
    }
}

/// A key taken out is found no more, and the values of all other keys stay.
pub proof fn lemma_lookup_without_key<W>(entries: Seq<(Name, W)>, key: Name, other: Name)
    ensures
        lookup(without_key(entries, key), key) is None,
        other != key ==> lookup(without_key(entries, key), other) == lookup(entries, other),
    decreases entries.len(),
{
    let keep = |e: (Name, W)| e.0 != key;
    let after = without_key(entries, key);
    reveal(Seq::filter);
    if entries.len() == 0 {
        lemma_no_index(keys(after), key);
        lemma_no_index(keys(after), other);
        lemma_no_index(keys(entries), other);
    } else {
        let front = entries.drop_last();
        let last = entries.last();
        lemma_lookup_without_key(front, key, other);
        let front_after = without_key(front, key);
        keys(front_after).index_of_first_ensures(key);
        keys(front_after).index_of_first_ensures(other);
        keys(front).index_of_first_ensures(other);
        keys(after).index_of_first_ensures(key);
        keys(after).index_of_first_ensures(other);
        keys(entries).index_of_first_ensures(other);
        assert(after == if keep(last) {
            front_after.push(last)
        } else {
            front_after
        });
        assert forall|j: int| 0 <= j < keys(front_after).len() implies keys(front_after)[j]
            != key by {
            if keys(front_after)[j] == key {
                assert(keys(front_after).contains(key));
            }
        }
        assert forall|j: int| 0 <= j < keys(after).len() implies keys(after)[j] != key by {
            if j < keys(front_after).len() {
                assert(keys(after)[j] == keys(front_after)[j]);
            }
        }
        lemma_no_index(keys(after), key);
        if other != key {
            match keys(front).index_of_first(other) {
                Some(k) => {
                    let k2 = keys(front_after).index_of_first(other)->0;
                    assert(keys(entries)[k] == keys(front)[k]);
                    assert forall|j: int| 0 <= j < k implies keys(entries)[j] != other by {
                        assert(keys(front)[j] != other);
                    }
                    lemma_first_index(keys(entries), other, k);
                    assert(keys(after)[k2] == keys(front_after)[k2]);
                    assert forall|j: int| 0 <= j < k2 implies keys(after)[j] != other by {
                        assert(keys(front_after)[j] != other);
                    }
                    lemma_first_index(keys(after), other, k2);
                },
                None => {
                    assert(keys(front_after).index_of_first(other) is None);
                    assert forall|j: int| 0 <= j < keys(front_after).len() implies keys(
                        front_after,
                    )[j] != other by {
                        if keys(front_after)[j] == other {
                            assert(keys(front_after).contains(other));
                        }
                    }
                    assert forall|j: int| 0 <= j < keys(front).len() implies keys(front)[j]
                        != other by {
                        if keys(front)[j] == other {
                            assert(keys(front).contains(other));
                        }
                    }
                    if last.0 == other {
                        let n = front.len() as int;
                        let m = front_after.len() as int;
                        assert forall|j: int| 0 <= j < n implies keys(entries)[j] != other by {
                            assert(keys(front)[j] != other);
                        }
                        assert(is_first_index(keys(entries), other, n));
                        lemma_first_index(keys(entries), other, n);
                        assert forall|j: int| 0 <= j < m implies keys(after)[j] != other by {
                            assert(keys(front_after)[j] != other);
                        }
                        assert(is_first_index(keys(after), other, m));
                        lemma_first_index(keys(after), other, m);
                    } else {
                        assert forall|j: int| 0 <= j < keys(entries).len() implies keys(
                            entries,
                        )[j] != other by {
                            if j < front.len() {
                                assert(keys(front)[j] != other);
                            }
                        }
                        lemma_no_index(keys(entries), other);
                        assert forall|j: int| 0 <= j < keys(after).len() implies keys(after)[j]
                            != other by {
                            if j < front_after.len() {
                                assert(keys(front_after)[j] != other);
                            }
                        }
                        lemma_no_index(keys(after), other);
                    }
                },
            }
        }
    }
}

/// Every name is the key of one entry at most.
#[verifier::opaque]
pub open spec fn keys_are_distinct<W>(entries: Seq<(Name, W)>) -> bool {
    keys(entries).no_duplicates()
}

/// Putting a value under a key leaves every name the key of one entry at
/// most.
pub proof fn lemma_with_entry_keeps_keys_distinct<W>(entries: Seq<(Name, W)>, key: Name, value: W)
    requires
        keys_are_distinct(entries),
    ensures
        keys_are_distinct(with_entry(entries, key, value)),
{
    reveal(keys_are_distinct);
    let after = with_entry(entries, key, value);
    keys(entries).index_of_first_ensures(key);
    match keys(entries).index_of_first(key) {
        Some(i) => {
            assert(keys(after) =~= keys(entries));
        },
        None => {
            let n = entries.len() as int;
            assert(keys(after) =~= keys(entries).push(key));
            assert forall|a: int, b: int|
                0 <= a < keys(after).len() && 0 <= b < keys(after).len() && a != b implies keys(
                after,
            )[a] != keys(after)[b] by {
                if a < n && keys(entries)[a] == key {
                    assert(keys(entries).contains(key));
                }
                if b < n && keys(entries)[b] == key {
                    assert(keys(entries).contains(key));
                }
            }
        },
    }
}

/// Taking a key out leaves every name the key of one entry at most.
pub proof fn lemma_without_key_keeps_keys_distinct<W>(entries: Seq<(Name, W)>, key: Name)
    requires
        keys_are_distinct(entries),
    ensures
        keys_are_distinct(without_key(entries, key)),
{
    reveal(keys_are_distinct);
    lemma_without_key_is_within(entries, key);
}

/// Taking a key out of entries with distinct keys leaves entries with
/// distinct keys, each of which was there before.
pub proof fn lemma_without_key_is_within<W>(entries: Seq<(Name, W)>, key: Name)
    requires
        keys(entries).no_duplicates(),
    ensures
        keys(without_key(entries, key)).no_duplicates(),
        forall|k: Name| keys(without_key(entries, key)).contains(k) ==> keys(entries).contains(k),
        forall|j: int|
            0 <= j < without_key(entries, key).len() ==> entries.contains(
                #[trigger] without_key(entries, key)[j],
            ),
    decreases entries.len(),
{
    let keep = |e: (Name, W)| e.0 != key;
    let after = without_key(entries, key);
    reveal(Seq::filter);
    if entries.len() > 0 {
        let front = entries.drop_last();
        let last = entries.last();
        let n = front.len() as int;
        assert(keys(front) =~= keys(entries).drop_last());
        lemma_without_key_is_within(front, key);
        let front_after = without_key(front, key);
        assert(after == if keep(last) {
            front_after.push(last)
        } else {
            front_after
        });
        assert forall|j: int| 0 <= j < after.len() implies entries.contains(
            #[trigger] after[j],
        ) by {
            if j < front_after.len() {
                assert(front.contains(without_key(front, key)[j]));
                let i = choose|i: int| 0 <= i < front.len() && front[i] == front_after[j];
                assert(entries[i] == after[j]);
            } else {
                assert(entries[n] == after[j]);
            }
        }
        assert(keys(after) =~= if keep(last) {
            keys(front_after).push(last.0)
        } else {
            keys(front_after)
        });
        assert forall|k: Name| keys(after).contains(k) implies keys(entries).contains(k) by {
            let j = choose|j: int| 0 <= j < keys(after).len() && keys(after)[j] == k;
            if j < keys(front_after).len() {
                assert(keys(front_after)[j] == k);
                assert(keys(without_key(front, key)).contains(k));
                assert(keys(front).contains(k));
                let i = choose|i: int| 0 <= i < keys(front).len() && keys(front)[i] == k;
                assert(keys(entries)[i] == k);
            } else {
                assert(keys(entries)[n] == k);
            }
        }
        if keep(last) {
            let m = front_after.len() as int;
            assert forall|a: int, b: int|
                0 <= a < keys(after).len() && 0 <= b < keys(after).len() && a != b implies keys(
                after,
            )[a] != keys(after)[b] by {
                if a < m && b < m {
                    assert(keys(front_after)[a] != keys(front_after)[b]);
                } else {
                    let low = if a < m {
                        a
                    } else {
                        b
                    };
                    assert(keys(after)[low] == keys(front_after)[low]);
                    if keys(front_after)[low] == last.0 {
                        assert(keys(without_key(front, key)).contains(last.0));
                        assert(keys(front).contains(last.0));
                        let i = choose|i: int| 0 <= i < keys(front).len() && keys(front)[i] == last.0;
                        assert(keys(entries)[i] == keys(entries)[n]);
                    }
                }
            }
        }
    }
}

/// Taking a name out of a list in which no name stands twice leaves such
/// a list.
pub proof fn lemma_without_name_keeps_distinct(names: Seq<Name>, name: Name)
    requires
        names.no_duplicates(),
    ensures
        without_name(names, name).no_duplicates(),
        forall|k: Name| without_name(names, name).contains(k) ==> names.contains(k),
    decreases names.len(),
{
    let after = without_name(names, name);
    reveal(Seq::filter);
    if names.len() > 0 {
        let front = names.drop_last();
        let last = names.last();
        let n = front.len() as int;
        lemma_without_name_keeps_distinct(front, name);
        let front_after = without_name(front, name);
        assert(after == if is_not(name)(last) {
            front_after.push(last)
        } else {
            front_after
        });
        assert forall|k: Name| after.contains(k) implies names.contains(k) by {
            let j = choose|j: int| 0 <= j < after.len() && after[j] == k;
            if j < front_after.len() {
                assert(front_after[j] == k);
                assert(without_name(front, name).contains(k));
                assert(front.contains(k));
                let i = choose|i: int| 0 <= i < front.len() && front[i] == k;
                assert(names[i] == k);
            } else {
                assert(names[n] == k);
            }
        }
        if is_not(name)(last) {
            let m = front_after.len() as int;
            assert forall|a: int, b: int|
                0 <= a < after.len() && 0 <= b < after.len() && a != b implies after[a]
                != after[b] by {
                if a < m && b < m {
                    assert(front_after[a] != front_after[b]);
                } else {
                    let low = if a < m {
                        a
                    } else {
                        b
                    };
                    assert(after[low] == front_after[low]);
                    if front_after[low] == last {
                        assert(without_name(front, name).contains(last));
                        assert(front.contains(last));
                        let i = choose|i: int| 0 <= i < front.len() && front[i] == last;
                        assert(names[i] == names[n]);
                    }
                }
            }
        }
    }
}

/// The index of the first occurrence of `name` in `names`.
pub fn position_of(names: &Vec<String>, name: &str) -> (found: Option<usize>)
    ensures
        match found {
            Some(i) => i < names.len() && names.deep_view().index_of_first(name@) == Some(
                i as int,
            ),
            None => names.deep_view().index_of_first(name@) is None,
        },
{
    let mut i: usize = 0;
    while i < names.len()
        invariant
            i <= names.len(),
            forall|j: int| 0 <= j < i ==> names.deep_view()[j] != name@,
        decreases names.len() - i,
    {
        if same_text(names[i].as_str(), name) {
            proof {
                assert(names.deep_view()[i as int] == name@);
                lemma_first_index(names.deep_view(), name@, i as int);
            }
            return Some(i);
        }
        i += 1;
    }
    proof {
        lemma_no_index(names.deep_view(), name@);
    }
    None
}

/// Whether `name` occurs in `names`.
pub fn contains_name(names: &Vec<String>, name: &str) -> (found: bool)
    ensures
        found == names.deep_view().contains(name@),
{
    proof {
        names.deep_view().index_of_first_ensures(name@);
    }
    position_of(names, name).is_some()
}

/// A copy of `names`.
pub fn clone_names(names: &Vec<String>) -> (copy: Vec<String>)
    ensures
        copy.deep_view() == names.deep_view(),
{
    let mut copy: Vec<String> = Vec::new();
    let mut i: usize = 0;
    while i < names.len()
        invariant
            i <= names.len(),
            copy.len() == i,
            forall|j: int| 0 <= j < i ==> copy[j]@ == names[j]@,
        decreases names.len() - i,
    {
        copy.push(names[i].clone());
        i += 1;
    }
    assert(copy.deep_view() =~= names.deep_view());
    copy
}

/// Takes every occurrence of `name` out of `names`.
pub fn remove_name(names: &mut Vec<String>, name: &str)
    ensures
        final(names).deep_view() == without_name(old(names).deep_view(), name@),
{
    let ghost before = names.deep_view();
    let ghost keep = is_not(name@);
    let mut i: usize = 0;
    let ghost mut j: int = 0;
    assert(before.take(0).filter(keep) =~= Seq::<Name>::empty()) by {
        reveal(Seq::filter);
    }
    while i < names.len()
        invariant
            0 <= i <= names.len(),
            i <= j <= before.len(),
            names.len() - i == before.len() - j,
            names.deep_view().take(i as int) == before.take(j).filter(keep),
            names.deep_view().skip(i as int) == before.skip(j),
            keep == is_not(name@),
        decreases names.len() - i,
    {
        let ghost current = names.deep_view();
        proof {
            assert(current[i as int] == current.skip(i as int)[0]);
            assert(before[j] == before.skip(j)[0]);
            assert(before.take(j + 1) =~= before.take(j).push(before[j]));
            before.take(j).lemma_filter_push(before[j], keep);
        }
        if same_text(names[i].as_str(), name) {
            names.remove(i);
            proof {
                assert(names.deep_view() =~= current.remove(i as int));
                assert(names.deep_view().take(i as int) =~= current.take(i as int));
                assert(names.deep_view().skip(i as int) =~= current.skip(i as int).skip(1));
                assert(before.skip(j + 1) =~= before.skip(j).skip(1));
                j = j + 1;
            }
        } else {
            proof {
                assert(current.take(i + 1) =~= current.take(i as int).push(current[i as int]));
                assert(current.skip(i + 1) =~= current.skip(i as int).skip(1));
                assert(before.skip(j + 1) =~= before.skip(j).skip(1));
                j = j + 1;
            }
            i += 1;
        }
    }
    proof {
        assert(names.deep_view().take(i as int) =~= names.deep_view());
        assert(before.take(j) =~= before);
    }
}

/// The index of the first entry under `key`.
pub fn find_key<V: DeepView>(entries: &Vec<(String, V)>, key: &str) -> (found: Option<usize>)
    ensures
        match found {
            Some(i) => i < entries.len() && keys(entries.deep_view()).index_of_first(key@)
                == Some(i as int),
            None => keys(entries.deep_view()).index_of_first(key@) is None,
        },
{
    let mut i: usize = 0;
    while i < entries.len()
        invariant
            i <= entries.len(),
            forall|j: int| 0 <= j < i ==> keys(entries.deep_view())[j] != key@,
        decreases entries.len() - i,
    {
        if same_text(entries[i].0.as_str(), key) {
            proof {
                assert(keys(entries.deep_view())[i as int] == key@);
                lemma_first_index(keys(entries.deep_view()), key@, i as int);
            }
            return Some(i);
        }
        i += 1;
    }
    proof {
        lemma_no_index(keys(entries.deep_view()), key@);
    }
    None
}

/// Puts `value` under `key`, in the place of the first entry of that name
/// or at the end.
pub fn put_entry<V: DeepView>(entries: &mut Vec<(String, V)>, key: String, value: V)
    ensures
        final(entries).deep_view() == with_entry(
            old(entries).deep_view(),
            key@,
            value.deep_view(),
        ),
        keys_are_distinct(old(entries).deep_view()) ==> keys_are_distinct(
            final(entries).deep_view(),
        ),
{
    let ghost before = entries.deep_view();
    proof {
        if keys_are_distinct(before) {
            lemma_with_entry_keeps_keys_distinct(before, key@, value.deep_view());
        }
    }
    let ghost model = (key@, value.deep_view());
    match find_key(entries, key.as_str()) {
        Some(i) => {
            entries[i] = (key, value);
            assert(entries.deep_view() =~= before.update(i as int, model));
        },
        None => {
            entries.push((key, value));
            assert(entries.deep_view() =~= before.push(model));
        },
    }
}

/// Takes every entry under `key` out of the list.
pub fn drop_key<V: DeepView>(entries: &mut Vec<(String, V)>, key: &str)
    ensures
        final(entries).deep_view() == without_key(old(entries).deep_view(), key@),
        keys_are_distinct(old(entries).deep_view()) ==> keys_are_distinct(
            final(entries).deep_view(),
        ),
{
    let ghost before = entries.deep_view();
    proof {
        if keys_are_distinct(before) {
            lemma_without_key_keeps_keys_distinct(before, key@);
        }
    }
    let ghost keep = |e: (Name, V::V)| e.0 != key@;
    let mut i: usize = 0;
    let ghost mut j: int = 0;
    assert(before.take(0).filter(keep) =~= Seq::<(Name, V::V)>::empty()) by {
        reveal(Seq::filter);
    }
    while i < entries.len()
        invariant
            0 <= i <= entries.len(),
            i <= j <= before.len(),
            entries.len() - i == before.len() - j,
            entries.deep_view().take(i as int) == before.take(j).filter(keep),
            entries.deep_view().skip(i as int) == before.skip(j),
            keep == |e: (Name, V::V)| e.0 != key@,
        decreases entries.len() - i,
    {
        let ghost current = entries.deep_view();
        proof {
            assert(current[i as int] == current.skip(i as int)[0]);
            assert(before[j] == before.skip(j)[0]);
            assert(before.take(j + 1) =~= before.take(j).push(before[j]));
            before.take(j).lemma_filter_push(before[j], keep);
        }
        if same_text(entries[i].0.as_str(), key) {
            entries.remove(i);
            proof {
                assert(entries.deep_view() =~= current.remove(i as int));
                assert(entries.deep_view().take(i as int) =~= current.take(i as int));
                assert(entries.deep_view().skip(i as int) =~= current.skip(i as int).skip(1));
                assert(before.skip(j + 1) =~= before.skip(j).skip(1));
                j = j + 1;
            }
        } else {
            proof {
                assert(current.take(i + 1) =~= current.take(i as int).push(current[i as int]));
                assert(current.skip(i + 1) =~= current.skip(i as int).skip(1));
                assert(before.skip(j + 1) =~= before.skip(j).skip(1));
                j = j + 1;
            }
            i += 1;
        }
    }
    proof {
        assert(entries.deep_view().take(i as int) =~= entries.deep_view());
        assert(before.take(j) =~= before);
    }
}

} // verus!
