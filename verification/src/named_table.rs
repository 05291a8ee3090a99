//! A small table from names to values, in which every name occurs once.

use crate::text::str_eq;
use vstd::prelude::*;

verus! {

/// Whether no two of `entries` have the same name.
pub open spec fn names_distinct<T>(entries: Seq<(String, T)>) -> bool {
    forall|i: int, j: int|
        0 <= i < j < entries.len() ==> (#[trigger] entries[i]).0@ != (#[trigger] entries[j]).0@
}

/// Whether one of `entries` has the name `name`.
pub open spec fn has_name<T>(entries: Seq<(String, T)>, name: Seq<char>) -> bool {
    exists|i: int| 0 <= i < entries.len() && (#[trigger] entries[i]).0@ == name
}

/// The position among `entries` of one that has the name `name`.
pub open spec fn position<T>(entries: Seq<(String, T)>, name: Seq<char>) -> int {
    choose|i: int| 0 <= i < entries.len() && (#[trigger] entries[i]).0@ == name
}

/// The map that `entries` stand for.
pub open spec fn entries_map<T>(entries: Seq<(String, T)>) -> Map<Seq<char>, T> {
    Map::new(
        |name: Seq<char>| has_name(entries, name),
        |name: Seq<char>| entries[position(entries, name)].1,
    )
}

proof fn lemma_position<T>(entries: Seq<(String, T)>, i: int)
    requires
        names_distinct(entries),
        0 <= i < entries.len(),
    ensures
        has_name(entries, entries[i].0@),
        position(entries, entries[i].0@) == i,
{
    let name = entries[i].0@;
    let p = position(entries, name);
    assert(0 <= p < entries.len() && entries[p].0@ == name);
    if p < i {
        assert(entries[p].0@ != entries[i].0@);
    } else if i < p {
        assert(entries[i].0@ != entries[p].0@);
    }
}

/// A table from names to values.
#[derive(Debug)]
pub struct NamedTable<T> {
    entries: Vec<(String, T)>,
}

impl<T> View for NamedTable<T> {
    type V = Map<Seq<char>, T>;

    closed spec fn view(&self) -> Map<Seq<char>, T> {
        entries_map(self.entries@)
    }
}

impl<T> NamedTable<T> {
    #[verifier::type_invariant]
    spec fn well_formed(&self) -> bool {
        names_distinct(self.entries@)
    }

    /// The table without entries.
    pub fn new() -> (table: NamedTable<T>)
        ensures
            table@ == Map::<Seq<char>, T>::empty(),
    {
        let table = NamedTable { entries: Vec::new() };
        assert(table@ =~= Map::<Seq<char>, T>::empty());
        table
    }

    fn find(&self, name: &str) -> (found: Option<usize>)
        ensures
            match found {
                Some(i) => i < self.entries@.len() && self.entries@[i as int].0@ == name@,
                None => !has_name(self.entries@, name@),
            },
    {
        let mut i: usize = 0;
        while i < self.entries.len()
            invariant
                i <= self.entries@.len(),
                forall|j: int| 0 <= j < i ==> (#[trigger] self.entries@[j]).0@ != name@,
            decreases self.entries@.len() - i,
        {
            if str_eq(self.entries[i].0.as_str(), name) {
                return Some(i);
            }
            i += 1;
        }
        None
    }

    /// Whether the table has an entry of the given name.
    pub fn contains(&self, name: &str) -> (found: bool)
        ensures
            found == self@.contains_key(name@),
    {
        self.find(name).is_some()
    }

    /// The value entered under the given name, if there is one.
    pub fn get(&self, name: &str) -> (value: Option<&T>)
        ensures
            match value {
                Some(v) => self@.contains_key(name@) && *v == self@[name@],
                None => !self@.contains_key(name@),
            },
    {
        proof {
            use_type_invariant(self);
        }
        match self.find(name) {
            Some(i) => {
                proof {
                    lemma_position(self.entries@, i as int);
                }
                Some(&self.entries[i].1)
            },
            None => None,
        }
    }

    /// Enters `value` under `name`, in place of what was entered under that
    /// name before, if anything was.
    pub fn insert(&mut self, name: &str, value: T)
        ensures
            final(self)@ == old(self)@.insert(name@, value),
    {
        proof {
            use_type_invariant(&*self);
        }
        let ghost before = self.entries@;
        let key = String::from_str(name);
        match self.find(name) {
            Some(i) => {
                let mut entries: Vec<(String, T)> = Vec::new();
                core::mem::swap(&mut entries, &mut self.entries);
                entries.set(i, (key, value));
                let ghost after = entries@;
                proof {
                    assert forall|a: int, b: int| 0 <= a < b < after.len() implies (
                    #[trigger] after[a]).0@ != (#[trigger] after[b]).0@ by {
                        assert(before[a].0@ != before[b].0@);
                    }
                    assert forall|k: Seq<char>| has_name(after, k) <==> has_name(before, k) || k
                        == name@ by {
                        if has_name(after, k) {
                            let p = position(after, k);
                            assert(before[p].0@ == k);
                        }
                        if has_name(before, k) {
                            let p = position(before, k);
                            assert(after[p].0@ == k);
                        }
                        if k == name@ {
                            assert(after[i as int].0@ == k);
                        }
                    }
                    assert forall|k: Seq<char>| has_name(after, k) implies entries_map(after)[k]
                        == entries_map(before).insert(name@, value)[k] by {
                        let p = position(after, k);
                        lemma_position(after, p);
                        if k != name@ {
                            assert(before[p].0@ == k);
                            lemma_position(before, p);
                        } else {
                            lemma_position(after, i as int);
                        }
                    }
                    assert(entries_map(after) =~= entries_map(before).insert(name@, value));
                }
                self.entries = entries;
            },
            None => {
                let mut entries: Vec<(String, T)> = Vec::new();
                core::mem::swap(&mut entries, &mut self.entries);
                entries.push((key, value));
                let ghost after = entries@;
                proof {
                    let last = before.len() as int;
                    assert forall|a: int, b: int| 0 <= a < b < after.len() implies (
                    #[trigger] after[a]).0@ != (#[trigger] after[b]).0@ by {
                        if b < last {
                            assert(before[a].0@ != before[b].0@);
                        } else {
                            assert(before[a].0@ != name@);
                        }
                    }
                    assert forall|k: Seq<char>| has_name(after, k) <==> has_name(before, k) || k
                        == name@ by {
                        if has_name(after, k) {
                            let p = position(after, k);
                            if p < last {
                                assert(before[p].0@ == k);
                            }
                        }
                        if has_name(before, k) {
                            let p = position(before, k);
                            assert(after[p].0@ == k);
                        }
                        if k == name@ {
                            assert(after[last].0@ == k);
                        }
                    }
                    assert forall|k: Seq<char>| has_name(after, k) implies entries_map(after)[k]
                        == entries_map(before).insert(name@, value)[k] by {
                        let p = position(after, k);
                        lemma_position(after, p);
                        if k != name@ {
                            assert(before[p].0@ == k);
                            lemma_position(before, p);
                        } else {
                            lemma_position(after, last);
                        }
                    }
                    assert(entries_map(after) =~= entries_map(before).insert(name@, value));
                }
                self.entries = entries;
            },
        }
    }

    /// The number of entries.
    pub fn len(&self) -> (n: usize)
        ensures
            n == self@.len(),
            self@.dom().finite(),
    {
        proof {
            use_type_invariant(self);
            lemma_size(self.entries@);
        }
        self.entries.len()
    }
}

impl<T: Clone> Clone for NamedTable<T> {
    /// A table with the same names, each with a clone of its value.
    fn clone(&self) -> (copy: Self)
        ensures
            copy@.dom() == self@.dom(),
            forall|name: Seq<char>| #[trigger]
                self@.contains_key(name) ==> cloned(self@[name], copy@[name]),
    {
        proof {
            use_type_invariant(self);
        }
        let mut entries: Vec<(String, T)> = Vec::new();
        let mut i: usize = 0;
        while i < self.entries.len()
            invariant
                i <= self.entries@.len(),
                entries@.len() == i,
                forall|j: int|
                    0 <= j < i ==> (#[trigger] entries@[j]).0@ == self.entries@[j].0@ && cloned(
                        self.entries@[j].1,
                        entries@[j].1,
                    ),
            decreases self.entries@.len() - i,
        {
            entries.push((self.entries[i].0.clone(), self.entries[i].1.clone()));
            i += 1;
        }
        let ghost mine = self.entries@;
        let ghost theirs = entries@;
        proof {
            assert forall|a: int, b: int| 0 <= a < b < theirs.len() implies (
            #[trigger] theirs[a]).0@ != (#[trigger] theirs[b]).0@ by {
                assert(mine[a].0@ != mine[b].0@);
            }
            assert forall|k: Seq<char>| has_name(theirs, k) <==> has_name(mine, k) by {
                if has_name(theirs, k) {
                    let p = position(theirs, k);
                    assert(mine[p].0@ == k);
                }
                if has_name(mine, k) {
                    let p = position(mine, k);
                    assert(theirs[p].0@ == k);
                }
            }
            assert(entries_map(theirs).dom() =~= entries_map(mine).dom());
            assert forall|k: Seq<char>| #[trigger] entries_map(mine).contains_key(k) implies cloned(
                entries_map(mine)[k],
                entries_map(theirs)[k],
            ) by {
                let p = position(mine, k);
                lemma_position(mine, p);
                assert(theirs[p].0@ == k);
                lemma_position(theirs, p);
            }
        }
        NamedTable { entries }
    }
}

proof fn lemma_size<T>(entries: Seq<(String, T)>)
    requires
        names_distinct(entries),
    ensures
        entries_map(entries).dom().finite(),
        entries_map(entries).len() == entries.len(),
    decreases entries.len(),
{
    if entries.len() == 0 {
        assert(entries_map(entries).dom() =~= Set::<Seq<char>>::empty());
    } else {
        let head = entries.drop_last();
        let name = entries.last().0@;
        lemma_size(head);
        assert forall|k: Seq<char>| has_name(entries, k) <==> has_name(head, k) || k == name by {
            if has_name(entries, k) {
                let p = position(entries, k);
                if p < head.len() {
                    assert(head[p].0@ == k);
                }
            }
            if has_name(head, k) {
                let p = position(head, k);
                assert(entries[p].0@ == k);
            }
            if k == name {
                assert(entries[entries.len() - 1].0@ == k);
            }
        }
        assert(!has_name(head, name)) by {
            if has_name(head, name) {
                let p = position(head, name);
                assert(entries[p].0@ != entries[entries.len() - 1].0@);
            }
        }
        assert(entries_map(entries).dom() =~= entries_map(head).dom().insert(name));
    }
}

} // verus!
