//! Named entries: what a string-keyed map holds, kept as a list in which no name occurs twice.
use vstd::prelude::*;

use crate::text::equal;

verus! {

/// The value that stands under `name`, if there is one.
pub open spec fn lookup<T>(entries: Seq<(String, T)>, name: Seq<char>) -> Option<T>
    decreases entries.len(),
{
    if entries.len() == 0 {
        None
    } else if entries.last().0@ == name {
        Some(entries.last().1)
    } else {
        lookup(entries.drop_last(), name)
    }
}

/// No name occurs twice.
pub open spec fn distinct<T>(entries: Seq<(String, T)>) -> bool {
    forall|i: int, j: int|
        0 <= i < j < entries.len() ==> #[trigger] entries[i].0@ != #[trigger] entries[j].0@
}

/// A name that no entry bears is not found.
pub proof fn lemma_lookup_none<T>(entries: Seq<(String, T)>, name: Seq<char>)
    requires
        forall|i: int| 0 <= i < entries.len() ==> #[trigger] entries[i].0@ != name,
    ensures
        lookup(entries, name) is None,
    decreases entries.len(),
{
    if entries.len() > 0 {
        assert(entries[entries.len() - 1].0@ != name);
        assert forall|i: int| 0 <= i < entries.drop_last().len() implies #[trigger] entries.drop_last()[i].0@
            != name by {
            assert(entries[i].0@ != name);
        }
        lemma_lookup_none(entries.drop_last(), name);
    }
}

/// What is found stands in the list.
pub proof fn lemma_lookup_some<T>(entries: Seq<(String, T)>, name: Seq<char>) -> (i: int)
    requires
        lookup(entries, name) is Some,
    ensures
        0 <= i < entries.len(),
        entries[i].0@ == name,
        lookup(entries, name) == Some(entries[i].1),
    decreases entries.len(),
{
    if entries.last().0@ == name {
        entries.len() - 1
    } else {
        lemma_lookup_some(entries.drop_last(), name)
    }
}

/// Where no name occurs twice, each entry is found under its name.
pub proof fn lemma_lookup_at<T>(entries: Seq<(String, T)>, i: int)
    requires
        distinct(entries),
        0 <= i < entries.len(),
    ensures
        lookup(entries, entries[i].0@) == Some(entries[i].1),
    decreases entries.len(),
{
    if i < entries.len() - 1 {
        assert(entries[i].0@ != entries[entries.len() - 1].0@);
        assert forall|a: int, b: int| 0 <= a < b < entries.drop_last().len() implies #[trigger] entries.drop_last()[a].0@
            != #[trigger] entries.drop_last()[b].0@ by {
            assert(entries[a].0@ != entries[b].0@);
        }
        assert(entries.drop_last()[i] == entries[i]);
        lemma_lookup_at(entries.drop_last(), i);
    }
}

/// Replacing the value of an entry changes what is found under its name, and nothing else.
proof fn lemma_lookup_update<T>(entries: Seq<(String, T)>, i: int, value: T, name: Seq<char>)
    requires
        distinct(entries),
        0 <= i < entries.len(),
    ensures
        distinct(entries.update(i, (entries[i].0, value))),
        lookup(entries.update(i, (entries[i].0, value)), name) == if name == entries[i].0@ {
            Some(value)
        } else {
            lookup(entries, name)
        },
    decreases entries.len(),
{
    let after = entries.update(i, (entries[i].0, value));
    assert forall|a: int, b: int| 0 <= a < b < after.len() implies #[trigger] after[a].0@
        != #[trigger] after[b].0@ by {
        assert(entries[a].0@ != entries[b].0@);
    }
    if name == entries[i].0@ {
        lemma_lookup_at(after, i);
    } else if lookup(entries, name) is Some {
        let k = lemma_lookup_some(entries, name);
        lemma_lookup_at(after, k);
    } else {
        assert forall|a: int| 0 <= a < after.len() implies #[trigger] after[a].0@ != name by {
            lemma_lookup_at(entries, a);
        }
        lemma_lookup_none(after, name);
    }
}

/// The position of the entry that bears `name`.
pub fn position<T>(entries: &Vec<(String, T)>, name: &str) -> (r: Option<usize>)
    ensures
        r is None <==> lookup(entries@, name@) is None,
        r matches Some(i) ==> i < entries.len() && entries@[i as int].0@ == name@,
{
    let mut i: usize = 0;
    while i < entries.len()
        invariant
            i <= entries.len(),
            forall|j: int| 0 <= j < i ==> #[trigger] entries@[j].0@ != name@,
        decreases entries.len() - i,
    {
        if equal(entries[i].0.as_str(), name) {
            proof {
                if lookup(entries@, name@) is None {
                    lemma_found(entries@, i as int);
                }
            }
            return Some(i);
        }
        i = i + 1;
    }
    proof {
        lemma_lookup_none(entries@, name@);
    }
    None
}

/// A name that some entry bears is found.
pub proof fn lemma_found<T>(entries: Seq<(String, T)>, i: int)
    requires
        0 <= i < entries.len(),
    ensures
        lookup(entries, entries[i].0@) is Some,
    decreases entries.len(),
{
    if entries.last().0@ != entries[i].0@ {
        assert(entries.drop_last()[i] == entries[i]);
        lemma_found(entries.drop_last(), i);
    }
}

/// Puts `value` under `name`, in place of what stood there.
pub fn set_entry<T>(entries: &mut Vec<(String, T)>, name: String, value: T)
    requires
        distinct(old(entries)@),
    ensures
        distinct(final(entries)@),
        forall|n: Seq<char>| #[trigger] lookup(final(entries)@, n) == if n == name@ {
            Some(value)
        } else {
            lookup(old(entries)@, n)
        },
{
    let ghost before = entries@;
    match position(entries, name.as_str()) {
        Some(i) => {
            let key = entries[i].0.clone();
            entries.set(i, (key, value));
            proof {
                assert(entries@ =~= before.update(i as int, (before[i as int].0, value)));
                assert forall|n: Seq<char>| #[trigger] lookup(entries@, n) == if n == name@ {
                    Some(value)
                } else {
                    lookup(before, n)
                } by {
                    lemma_lookup_update(before, i as int, value, n);
                }
                lemma_lookup_update(before, i as int, value, name@);
            }
        },
        None => {
            let ghost n0 = name@;
            entries.push((name, value));
            proof {
                assert(entries@.drop_last() =~= before);
                assert forall|a: int, b: int| 0 <= a < b < entries@.len() implies #[trigger] entries@[a].0@
                    != #[trigger] entries@[b].0@ by {
                    if b < before.len() {
                        assert(before[a].0@ != before[b].0@);
                    } else {
                        lemma_found(before, a);
                    }
                }
            }
        },
    }
}

} // verus!
