//! Name-keyed tables: the symbol table's maps and sets.
//!
//! A [`NameMap`] maps names to values; no name occurs twice among its
//! entries. A [`NameSet`] is a set of names with no name listed twice.

use vstd::prelude::*;
use crate::text::str_eq;

verus! {

/// The map that a list of entries with distinct names denotes.
pub open spec fn entries_map<V>(s: Seq<(String, V)>) -> Map<Seq<char>, V>
    decreases s.len(),
{
    if s.len() == 0 {
        Map::empty()
    } else {
        entries_map(s.drop_last()).insert(s.last().0@, s.last().1)
    }
}

/// No name occurs twice among the entries.
pub open spec fn distinct_keys<V>(s: Seq<(String, V)>) -> bool {
    forall|i: int, j: int| 0 <= i < s.len() && 0 <= j < s.len() && i != j ==> s[i].0@ != s[j].0@
}

/// The denoted map has exactly the entries' names as keys, with their values.
pub proof fn lemma_entries_map<V>(s: Seq<(String, V)>)
    requires
        distinct_keys(s),
    ensures
        forall|k: Seq<char>| #[trigger] entries_map(s).contains_key(k) <==> exists|i: int|
            0 <= i < s.len() && s[i].0@ == k,
        forall|i: int| 0 <= i < s.len() ==> #[trigger] entries_map(s)[s[i].0@] == s[i].1,
        entries_map(s).dom().finite(),
        entries_map(s).dom().len() == s.len(),
    decreases s.len(),
{
    if s.len() > 0 {
        let t = s.drop_last();
        assert(distinct_keys(t));
        lemma_entries_map(t);
        let last = s.last();
        assert(!entries_map(t).contains_key(last.0@)) by {
            if entries_map(t).contains_key(last.0@) {
                let i = choose|i: int| 0 <= i < t.len() && t[i].0@ == last.0@;
                assert(s[i].0@ == s[s.len() - 1].0@);
            }
        }
        assert forall|k: Seq<char>| #[trigger] entries_map(s).contains_key(k) <==> exists|i: int|
            0 <= i < s.len() && s[i].0@ == k by {
            if entries_map(s).contains_key(k) && k != last.0@ {
                let i = choose|i: int| 0 <= i < t.len() && t[i].0@ == k;
                assert(s[i].0@ == k);
            }
            if exists|i: int| 0 <= i < s.len() && s[i].0@ == k {
                let i = choose|i: int| 0 <= i < s.len() && s[i].0@ == k;
                if i < s.len() - 1 {
                    assert(t[i].0@ == k);
                }
            }
        }
        assert forall|i: int| 0 <= i < s.len() implies #[trigger] entries_map(s)[s[i].0@] == s[i].1 by {
            if i < s.len() - 1 {
                assert(t[i] == s[i]);
            }
        }
    }
}

/// Replacing the value of an entry updates the denoted map at that name.
pub proof fn lemma_entries_map_update<V>(s: Seq<(String, V)>, i: int, v: V)
    requires
        distinct_keys(s),
        0 <= i < s.len(),
    ensures
        distinct_keys(s.update(i, (s[i].0, v))),
        entries_map(s.update(i, (s[i].0, v))) == entries_map(s).insert(s[i].0@, v),
{
    let u = s.update(i, (s[i].0, v));
    assert(distinct_keys(u));
    lemma_entries_map(s);
    lemma_entries_map(u);
    assert forall|k: Seq<char>| #[trigger] entries_map(u).contains_key(k) <==> entries_map(s).insert(
        s[i].0@,
        v,
    ).contains_key(k) by {
        if exists|j: int| 0 <= j < s.len() && s[j].0@ == k {
            let j = choose|j: int| 0 <= j < s.len() && s[j].0@ == k;
            assert(u[j].0@ == k);
        }
        if exists|j: int| 0 <= j < u.len() && u[j].0@ == k {
            let j = choose|j: int| 0 <= j < u.len() && u[j].0@ == k;
            assert(s[j].0@ == k);
        }
        assert(u[i].0@ == s[i].0@);
    }
    assert forall|k: Seq<char>| #[trigger] entries_map(u).contains_key(k) implies entries_map(u)[k]
        == entries_map(s).insert(s[i].0@, v)[k] by {
        let j = choose|j: int| 0 <= j < u.len() && u[j].0@ == k;
        assert(entries_map(u)[u[j].0@] == u[j].1);
        if j != i {
            assert(entries_map(s)[s[j].0@] == s[j].1);
        }
    }
    assert(entries_map(u) =~= entries_map(s).insert(s[i].0@, v));
}

/// [`lemma_entries_map_update`] for every replacement entry that keeps the name.
pub proof fn lemma_entries_map_update_any<V>(s: Seq<(String, V)>, i: int)
    requires
        distinct_keys(s),
        0 <= i < s.len(),
    ensures
        forall|e: (String, V)|
            e.0 == s[i].0 ==> distinct_keys(#[trigger] s.update(i, e)) && entries_map(s.update(i, e))
                == entries_map(s).insert(s[i].0@, e.1),
{
    assert forall|e: (String, V)| e.0 == s[i].0 implies distinct_keys(#[trigger] s.update(i, e))
        && entries_map(s.update(i, e)) == entries_map(s).insert(s[i].0@, e.1) by {
        lemma_entries_map_update(s, i, e.1);
        assert(s.update(i, e) == s.update(i, (s[i].0, e.1)));
    }
}

/// A table from names to values in which no name occurs twice.
#[derive(Debug)]
pub struct NameMap<V> {
    entries: Vec<(String, V)>,
}

impl<V> View for NameMap<V> {
    type V = Map<Seq<char>, V>;

    closed spec fn view(&self) -> Map<Seq<char>, V> {
        entries_map(self.entries@)
    }
}

impl<V> NameMap<V> {
    /// The table is well formed: no name occurs twice.
    pub closed spec fn wf(&self) -> bool {
        distinct_keys(self.entries@)
    }

    /// The entries, in the order in which their names were first inserted.
    pub closed spec fn entry_seq(&self) -> Seq<(String, V)> {
        self.entries@
    }

    /// The table has finitely many names, one per entry.
    pub proof fn lemma_finite(&self)
        requires
            self.wf(),
        ensures
            self@.dom().finite(),
            self@.dom().len() == self.entry_seq().len(),
    {
        lemma_entries_map(self.entries@);
    }

    /// Creates an empty table.
    pub fn new() -> (r: Self)
        ensures
            r.wf(),
            r@ == Map::<Seq<char>, V>::empty(),
    {
        NameMap { entries: Vec::new() }
    }

    /// Position of the entry with the given name, if there is one.
    fn position(&self, name: &str) -> (r: Option<usize>)
        requires
            self.wf(),
        ensures
            match r {
                Some(i) => i < self.entries@.len() && self.entries@[i as int].0@ == name@,
                None => forall|j: int|
                    0 <= j < self.entries@.len() ==> self.entries@[j].0@ != name@,
            },
    {
        let n = self.entries.len();
        for i in 0..n
            invariant
                n == self.entries@.len(),
                forall|j: int| 0 <= j < i ==> self.entries@[j].0@ != name@,
        {
            if str_eq(self.entries[i].0.as_str(), name) {
                return Some(i);
            }
        }
        None
    }

    /// Maps `name` to `value`, replacing any earlier value of that name.
    pub fn insert(&mut self, name: String, value: V)
        requires
            old(self).wf(),
        ensures
            final(self).wf(),
            final(self)@ == old(self)@.insert(name@, value),
    {
        proof {
            lemma_entries_map(self.entries@);
        }
        match self.position(name.as_str()) {
            Some(i) => {
                let ghost s = self.entries@;
                let ghost key = s[i as int].0;
                proof {
                    lemma_entries_map_update(s, i as int, value);
                }
                let entry = &mut self.entries[i];
                entry.1 = value;
                assert(self.entries@ == s.update(i as int, (key, value)));
            },
            None => {
                let ghost s = self.entries@;
                self.entries.push((name, value));
                assert(self.entries@.drop_last() =~= s);
                assert(distinct_keys(self.entries@));
            },
        }
    }

    /// The value of `name`, if any.
    pub fn get(&self, name: &str) -> (r: Option<&V>)
        requires
            self.wf(),
        ensures
            r is Some <==> self@.contains_key(name@),
            r matches Some(v) ==> *v == self@[name@],
    {
        proof {
            lemma_entries_map(self.entries@);
        }
        match self.position(name) {
            Some(i) => Some(&self.entries[i].1),
            None => None,
        }
    }

    /// Mutable access to the value of `name`, if any.
    pub fn get_mut(&mut self, name: &str) -> (r: Option<&mut V>)
        requires
            old(self).wf(),
        ensures
            r is Some <==> old(self)@.contains_key(name@),
            r matches Some(v) ==> *v == old(self)@[name@] && final(self).wf() && final(self)@
                == old(self)@.insert(name@, *final(v)),
            r is None ==> *final(self) == *old(self),
    {
        proof {
            lemma_entries_map(self.entries@);
        }
        match self.position(name) {
            Some(i) => {
                proof {
                    lemma_entries_map_update_any(self.entries@, i as int);
                }
                let entry = &mut self.entries[i];
                Some(&mut entry.1)
            },
            None => None,
        }
    }

    /// Whether `name` has a value.
    pub fn contains(&self, name: &str) -> (r: bool)
        requires
            self.wf(),
        ensures
            r == self@.contains_key(name@),
    {
        proof {
            lemma_entries_map(self.entries@);
        }
        self.position(name).is_some()
    }

    /// The entries of the table: each name of the table exactly once, with its value.
    pub fn entries(&self) -> (r: &[(String, V)])
        requires
            self.wf(),
        ensures
            r@ == self.entry_seq(),
            distinct_keys(r@),
            r@.len() == self@.dom().len(),
            forall|i: int| 0 <= i < r@.len() ==> #[trigger] self@.contains_key(r@[i].0@),
            forall|i: int| 0 <= i < r@.len() ==> self@[#[trigger] r@[i].0@] == r@[i].1,
            forall|k: Seq<char>| #[trigger] self@.contains_key(k) ==> exists|i: int|
                0 <= i < r@.len() && r@[i].0@ == k,
    {
        proof {
            lemma_entries_map(self.entries@);
        }
        self.entries.as_slice()
    }

    /// The number of names in the table.
    pub fn len(&self) -> (r: usize)
        requires
            self.wf(),
        ensures
            r == self@.dom().len(),
    {
        proof {
            lemma_entries_map(self.entries@);
        }
        self.entries.len()
    }
}


/// No name is listed twice.
pub open spec fn distinct_names(s: Seq<String>) -> bool {
    forall|i: int, j: int| 0 <= i < s.len() && 0 <= j < s.len() && i != j ==> s[i]@ != s[j]@
}

/// The set of names a list holds.
pub open spec fn names_set(s: Seq<String>) -> Set<Seq<char>> {
    Set::new(|k: Seq<char>| exists|i: int| 0 <= i < s.len() && s[i]@ == k)
}

/// The set of names of a list without repetitions has the list's length.
pub proof fn lemma_names_set_len(s: Seq<String>)
    requires
        distinct_names(s),
    ensures
        names_set(s).finite(),
        names_set(s).len() == s.len(),
    decreases s.len(),
{
    if s.len() == 0 {
        assert(names_set(s) =~= Set::empty());
    } else {
        let t = s.drop_last();
        lemma_names_set_len(t);
        assert(names_set(s) =~= names_set(t).insert(s.last()@)) by {
            assert forall|k: Seq<char>| names_set(s).contains(k) implies names_set(t).insert(
                s.last()@,
            ).contains(k) by {
                let i = choose|i: int| 0 <= i < s.len() && s[i]@ == k;
                if i < s.len() - 1 {
                    assert(t[i]@ == k);
                }
            }
            assert forall|k: Seq<char>| names_set(t).insert(s.last()@).contains(k) implies names_set(
                s,
            ).contains(k) by {
                if k != s.last()@ {
                    let i = choose|i: int| 0 <= i < t.len() && t[i]@ == k;
                    assert(s[i]@ == k);
                } else {
                    assert(s[s.len() - 1]@ == k);
                }
            }
        }
        assert(!names_set(t).contains(s.last()@)) by {
            if names_set(t).contains(s.last()@) {
                let i = choose|i: int| 0 <= i < t.len() && t[i]@ == s.last()@;
                assert(s[i]@ == s[s.len() - 1]@);
            }
        }
    }
}

/// A set of names in which no name is listed twice.
#[derive(Debug)]
pub struct NameSet {
    names: Vec<String>,
}

impl View for NameSet {
    type V = Set<Seq<char>>;

    closed spec fn view(&self) -> Set<Seq<char>> {
        names_set(self.names@)
    }
}

impl NameSet {
    /// The set is well formed: no name is listed twice.
    pub closed spec fn wf(&self) -> bool {
        distinct_names(self.names@)
    }

    /// The names, in the order in which they were first inserted.
    pub closed spec fn name_seq(&self) -> Seq<String> {
        self.names@
    }

    /// Creates an empty set.
    pub fn new() -> (r: Self)
        ensures
            r.wf(),
            r@ == Set::<Seq<char>>::empty(),
    {
        let r = NameSet { names: Vec::new() };
        assert(r@ =~= Set::<Seq<char>>::empty());
        r
    }

    /// Whether `name` is in the set.
    pub fn contains(&self, name: &str) -> (r: bool)
        ensures
            r == self@.contains(name@),
    {
        let n = self.names.len();
        for i in 0..n
            invariant
                n == self.names@.len(),
                forall|j: int| 0 <= j < i ==> self.names@[j]@ != name@,
        {
            if str_eq(self.names[i].as_str(), name) {
                return true;
            }
        }
        false
    }

    /// Adds `name` to the set; returns whether it was new.
    pub fn insert(&mut self, name: String) -> (r: bool)
        requires
            old(self).wf(),
        ensures
            final(self).wf(),
            final(self)@ == old(self)@.insert(name@),
            r == !old(self)@.contains(name@),
    {
        if self.contains(name.as_str()) {
            assert(self@.insert(name@) =~= self@);
            false
        } else {
            let ghost s = self.names@;
            self.names.push(name);
            assert(self@ =~= names_set(s).insert(name@)) by {
                assert forall|k: Seq<char>| #[trigger] self@.contains(k) implies names_set(s).insert(
                    name@,
                ).contains(k) by {
                    let i = choose|i: int| 0 <= i < self.names@.len() && self.names@[i]@ == k;
                    if i < s.len() {
                        assert(s[i]@ == k);
                    }
                }
                assert forall|k: Seq<char>| #[trigger] names_set(s).insert(name@).contains(k) implies self@.contains(k) by {
                    if k == name@ {
                        assert(self.names@[s.len() as int]@ == k);
                    } else {
                        let i = choose|i: int| 0 <= i < s.len() && s[i]@ == k;
                        assert(self.names@[i]@ == k);
                    }
                }
            }
            true
        }
    }

    /// Removes every name.
    pub fn clear(&mut self)
        ensures
            final(self).wf(),
            final(self)@ == Set::<Seq<char>>::empty(),
    {
        self.names = Vec::new();
        assert(self@ =~= Set::<Seq<char>>::empty());
    }

    /// The names of the set, each exactly once.
    pub fn items(&self) -> (r: &[String])
        requires
            self.wf(),
        ensures
            r@ == self.name_seq(),
            distinct_names(r@),
            names_set(r@) == self@,
            r@.len() == self@.len(),
    {
        proof {
            lemma_names_set_len(self.names@);
        }
        self.names.as_slice()
    }

    /// The number of names in the set.
    pub fn len(&self) -> (r: usize)
        requires
            self.wf(),
        ensures
            r == self@.len(),
    {
        proof {
            lemma_names_set_len(self.names@);
        }
        self.names.len()
    }
}

} // verus!
