//! A table from option names to values.

use crate::names::{
    distinct, first_index, has_name, is_first, lemma_distinct_first, lemma_first_index,
    lemma_first_is_unique, Name,
};
use crate::value::Value;
use vstd::prelude::*;

verus! {

#[derive(Debug)]
struct Entry {
    name: String,
    value: Value,
}

/// A table from option names to values. No name has two values.
///
/// To contracts the table is the map `self@`. The rows also have positions,
/// `0` to `len() - 1`, along which a caller can walk the table; the positions
/// carry no meaning beyond that.
#[derive(Debug)]
pub struct Values {
    entries: Vec<Entry>,
}

/// The names of `rows`, by position.
spec fn row_names(rows: Seq<Entry>) -> Seq<Name> {
    Seq::new(rows.len(), |i: int| rows[i].name@)
}

/// The values of `rows`, by position.
spec fn row_values(rows: Seq<Entry>) -> Seq<Value> {
    Seq::new(rows.len(), |i: int| rows[i].value)
}

impl View for Values {
    type V = Map<Name, Value>;

    open spec fn view(&self) -> Map<Name, Value> {
        Map::new(
            |name: Name| has_name(self.names(), name),
            |name: Name| self.values()[first_index(self.names(), name).unwrap()],
        )
    }
}

impl Values {
    /// The names of the rows, by position.
    pub closed spec fn names(&self) -> Seq<Name> {
        row_names(self.entries@)
    }

    /// The values of the rows, by position.
    pub closed spec fn values(&self) -> Seq<Value> {
        row_values(self.entries@)
    }

    /// Every row has a name of its own. This holds of every table that a
    /// program can get hold of.
    #[verifier::type_invariant]
    pub open spec fn wf(&self) -> bool {
        &&& distinct(self.names())
        &&& self.names().len() == self.values().len()
    }

    /// The rows and the map say the same: each row is an entry of the map,
    /// and each entry of the map is a row.
    pub proof fn lemma_rows(&self)
        requires
            self.wf(),
        ensures
            self@.dom().finite(),
            self@.len() == self.names().len(),
            forall|i: int|
                0 <= i < self.names().len() ==> self@.contains_key(#[trigger] self.names()[i])
                    && self@[self.names()[i]] == self.values()[i],
            forall|name: Name| #[trigger]
                self@.contains_key(name) ==> exists|i: int|
                    0 <= i < self.names().len() && self.names()[i] == name && self.values()[i]
                        == self@[name],
    {
        let names = self.names();
        assert forall|i: int| 0 <= i < names.len() implies self@.contains_key(#[trigger] names[i])
            && self@[names[i]] == self.values()[i] by {
            lemma_distinct_first(names, i);
        }
        assert forall|name: Name| #[trigger] self@.contains_key(name) implies exists|i: int|
            0 <= i < names.len() && names[i] == name && self.values()[i] == self@[name] by {
            lemma_first_index(names, name);
            let i = first_index(names, name).unwrap();
            assert(names[i] == name);
        }
        assert(self@.dom() =~= names.to_set());
        names.unique_seq_to_set();
    }

    /// An empty table.
    pub fn new() -> (table: Values)
        ensures
            table@ == Map::<Name, Value>::empty(),
            table.names().len() == 0,
    {
        let table = Values { entries: Vec::new() };
        assert(table@ =~= Map::<Name, Value>::empty());
        table
    }

    /// The number of rows.
    pub fn len(&self) -> (n: usize)
        ensures
            n == self.names().len(),
            n == self@.len(),
            self.wf(),
    {
        proof {
            use_type_invariant(self);
            self.lemma_rows();
        }
        self.entries.len()
    }

    /// Whether the table has no rows.
    pub fn is_empty(&self) -> (r: bool)
        ensures
            r == (self@ == Map::<Name, Value>::empty()),
    {
        proof {
            use_type_invariant(self);
            self.lemma_rows();
            if self.entries@.len() == 0 {
                assert(self@ =~= Map::<Name, Value>::empty());
            } else {
                assert(self@.contains_key(self.names()[0]));
            }
        }
        self.entries.len() == 0
    }

    /// The name of the row at `position`.
    pub fn name_at(&self, position: usize) -> (name: &String)
        requires
            position < self.names().len(),
        ensures
            name@ == self.names()[position as int],
            self@.contains_key(name@),
    {
        proof {
            use_type_invariant(self);
            self.lemma_rows();
        }
        &self.entries[position].name
    }

    /// The value of the row at `position`.
    pub fn value_at(&self, position: usize) -> (value: Value)
        requires
            position < self.names().len(),
        ensures
            value == self.values()[position as int],
            value == self@[self.names()[position as int]],
    {
        proof {
            use_type_invariant(self);
            self.lemma_rows();
        }
        self.entries[position].value
    }

    /// The position of the row called `name`.
    fn find(&self, name: &String) -> (found: Option<usize>)
        ensures
            self.wf(),
            match found {
                Some(i) => i < self.names().len() && self.names()[i as int] == name@
                    && self@.contains_key(name@) && self@[name@] == self.values()[i as int],
                None => !self@.contains_key(name@) && !has_name(self.names(), name@),
            },
    {
        proof {
            use_type_invariant(self);
            self.lemma_rows();
        }
        let mut i: usize = 0;
        while i < self.entries.len()
            invariant
                self.wf(),
                i <= self.entries@.len(),
                forall|j: int| 0 <= j < i ==> self.names()[j] != name@,
            decreases self.entries@.len() - i,
        {
            if self.entries[i].name == *name {
                proof {
                    assert(self.names()[i as int] == name@);
                    self.lemma_rows();
                }
                return Some(i);
            }
            i += 1;
        }
        proof {
            self.lemma_rows();
        }
        None
    }

    /// The value stored under `name`, if there is one.
    pub fn get(&self, name: &String) -> (value: Option<Value>)
        ensures
            value == if self@.contains_key(name@) {
                Some(self@[name@])
            } else {
                None
            },
    {
        match self.find(name) {
            Some(i) => Some(self.entries[i].value),
            None => None,
        }
    }

    /// Whether a value is stored under `name`.
    pub fn contains(&self, name: &String) -> (r: bool)
        ensures
            r == self@.contains_key(name@),
    {
        self.find(name).is_some()
    }

    /// Whether `other` holds every value of this table under the same name.
    fn within(&self, other: &Values) -> (r: bool)
        ensures
            r == forall|name: Name| #[trigger]
                self@.contains_key(name) ==> other@.contains_key(name) && other@[name]
                    == self@[name],
    {
        proof {
            use_type_invariant(self);
            self.lemma_rows();
        }
        let mut i: usize = 0;
        while i < self.entries.len()
            invariant
                self.wf(),
                i <= self.entries@.len(),
                forall|j: int|
                    0 <= j < i ==> other@.contains_key(#[trigger] self.names()[j]) && other@[self.names()[j]]
                        == self.values()[j],
            decreases self.entries@.len() - i,
        {
            let found = other.get(&self.entries[i].name);
            let same = match found {
                Some(value) => value == self.entries[i].value,
                None => false,
            };
            if !same {
                proof {
                    self.lemma_rows();
                    assert(self@.contains_key(self.names()[i as int]));
                }
                return false;
            }
            i += 1;
        }
        proof {
            self.lemma_rows();
            assert forall|name: Name| #[trigger] self@.contains_key(name) implies other@.contains_key(
                name,
            ) && other@[name] == self@[name] by {
                let j = choose|j: int|
                    0 <= j < self.names().len() && self.names()[j] == name && self.values()[j]
                        == self@[name];
                assert(self.names()[j] == name);
            }
        }
        true
    }

    /// Stores `value` under `name` and returns what was stored there before.
    pub fn set(&mut self, name: String, value: Value) -> (previous: Option<Value>)
        ensures
            final(self)@ == old(self)@.insert(name@, value),
            previous == if old(self)@.contains_key(name@) {
                Some(old(self)@[name@])
            } else {
                None
            },
    {
        let ghost before = *self;
        let ghost key = name@;
        match self.find(&name) {
            Some(i) => {
                let previous = self.entries[i].value;
                let mut entries: Vec<Entry> = Vec::new();
                std::mem::swap(&mut self.entries, &mut entries);
                entries.set(i, Entry { name, value });
                proof {
                    assert(row_names(entries@) =~= before.names());
                    assert(row_values(entries@) =~= before.values().update(i as int, value));
                }
                std::mem::swap(&mut self.entries, &mut entries);
                proof {
                    assert(self.names() =~= before.names());
                    assert(self.values() =~= before.values().update(i as int, value));
                    lemma_distinct_first(self.names(), i as int);
                    assert forall|k: Name| #[trigger]
                        has_name(self.names(), k) && k != key implies self.values()[first_index(
                        self.names(),
                        k,
                    ).unwrap()] == before.values()[first_index(before.names(), k).unwrap()] by {
                        lemma_first_index(self.names(), k);
                    }
                    assert(self@ =~= before@.insert(key, value));
                }
                Some(previous)
            },
            None => {
                let mut entries: Vec<Entry> = Vec::new();
                std::mem::swap(&mut self.entries, &mut entries);
                entries.push(Entry { name, value });
                proof {
                    assert(row_names(entries@) =~= before.names().push(key));
                    assert(row_values(entries@) =~= before.values().push(value));
                }
                std::mem::swap(&mut self.entries, &mut entries);
                proof {
                    let n = before.names().len() as int;
                    assert(self.names() =~= before.names().push(key));
                    assert(self.values() =~= before.values().push(value));
                    assert(is_first(self.names(), key, n));
                    lemma_first_is_unique(self.names(), key, n);
                    assert(self.names()[n] == key);
                    assert forall|k: Name| k != key implies has_name(self.names(), k) == has_name(
                        before.names(),
                        k,
                    ) by {
                        if has_name(self.names(), k) {
                            let i = choose|i: int| 0 <= i < self.names().len() && self.names()[i] == k;
                            assert(before.names()[i] == k);
                        }
                        if has_name(before.names(), k) {
                            let i = choose|i: int|
                                0 <= i < before.names().len() && before.names()[i] == k;
                            assert(self.names()[i] == k);
                        }
                    }
                    assert forall|k: Name| #[trigger]
                        has_name(before.names(), k) && k != key implies self.values()[first_index(
                        self.names(),
                        k,
                    ).unwrap()] == before.values()[first_index(before.names(), k).unwrap()] by {
                        lemma_first_index(before.names(), k);
                        let i = first_index(before.names(), k).unwrap();
                        assert(is_first(self.names(), k, i));
                        lemma_first_is_unique(self.names(), k, i);
                    }
                    assert(self@ =~= before@.insert(key, value));
                }
                None
            },
        }
    }
}

impl PartialEq for Values {
    /// Two tables are equal when they hold the same values under the same
    /// names.
    fn eq(&self, other: &Self) -> (r: bool) {
        let r = self.within(other) && other.within(self);
        assert(r == (self@ == other@)) by {
            if r {
                assert(self@ =~= other@);
            }
        }
        r
    }
}

impl vstd::std_specs::cmp::PartialEqSpecImpl for Values {
    open spec fn obeys_eq_spec() -> bool {
        true
    }

    open spec fn eq_spec(&self, other: &Self) -> bool {
        self@ == other@
    }
}

impl Clone for Values {
    fn clone(&self) -> (copy: Self)
        ensures
            copy@ == self@,
            copy.names() == self.names(),
            copy.values() == self.values(),
    {
        proof {
            use_type_invariant(self);
        }
        let mut entries: Vec<Entry> = Vec::new();
        let mut i: usize = 0;
        while i < self.entries.len()
            invariant
                i <= self.entries@.len(),
                entries@.len() == i,
                forall|j: int|
                    0 <= j < i ==> entries@[j].name@ == self.entries@[j].name@ && entries@[j].value
                        == self.entries@[j].value,
            decreases self.entries@.len() - i,
        {
            entries.push(Entry { name: self.entries[i].name.clone(), value: self.entries[i].value });
            i += 1;
        }
        let ghost names = Seq::new(entries@.len(), |i: int| entries@[i].name@);
        assert(names =~= self.names());
        let copy = Values { entries };
        assert(copy.names() =~= self.names());
        assert(copy.values() =~= self.values());
        copy
    }
}

} // verus!
