//! A table keyed by name, in which no name occurs twice.

use vstd::prelude::*;

verus! {

/// A finite map from names to values. Names are compared as text, case and
/// all.
pub struct NameTable<V> {
    names: Vec<String>,
    values: Vec<V>,
}

impl<V> NameTable<V> {
    /// The two columns have one length and no name stands in two rows.
    pub closed spec fn wf(&self) -> bool {
        &&& self.names.len() == self.values.len()
        &&& forall|i: int, j: int|
            0 <= i < j < self.names.len() ==> self.names[i]@ != self.names[j]@
    }

    /// The number of rows.
    pub(crate) closed spec fn spec_len(&self) -> nat {
        self.names.len() as nat
    }

    /// The name in row `i`.
    pub(crate) closed spec fn spec_name(&self, i: int) -> Seq<char> {
        self.names[i]@
    }

    /// The value in row `i`.
    pub(crate) closed spec fn spec_value(&self, i: int) -> V {
        self.values[i]
    }

    spec fn has(&self, name: Seq<char>) -> bool {
        exists|i: int| 0 <= i < self.names.len() && self.names[i]@ == name
    }

    spec fn row_of(&self, name: Seq<char>) -> int {
        choose|i: int| 0 <= i < self.names.len() && self.names[i]@ == name
    }

    /// The table as a map.
    pub closed spec fn view(&self) -> Map<Seq<char>, V> {
        Map::new(|name: Seq<char>| self.has(name), |name: Seq<char>| self.values[self.row_of(name)])
    }

    /// Row `i` holds a key of the map and that key's value.
    pub(crate) proof fn lemma_row(&self, i: int)
        requires
            self.wf(),
            0 <= i < self.spec_len(),
        ensures
            self@.contains_key(self.spec_name(i)),
            self@[self.spec_name(i)] == self.spec_value(i),
    {
        let name = self.names[i]@;
        assert(self.has(name));
        let j = self.row_of(name);
        assert(0 <= j < self.names.len() && self.names[j]@ == name);
        assert(j == i);
    }

    /// Every key of the map stands in some row.
    pub(crate) proof fn lemma_key(&self, name: Seq<char>)
        requires
            self.wf(),
            self@.contains_key(name),
        ensures
            exists|i: int| 0 <= i < self.spec_len() && self.spec_name(i) == name,
    {
        assert(self.has(name));
        let i = self.row_of(name);
        assert(0 <= i < self.spec_len() && self.spec_name(i) == name);
    }

    /// An empty table.
    pub fn new() -> (table: Self)
        ensures
            table.wf(),
            table@ == Map::<Seq<char>, V>::empty(),
    {
        let table = NameTable { names: Vec::new(), values: Vec::new() };
        assert(table@ =~= Map::<Seq<char>, V>::empty());
        table
    }

    /// The number of names in the table.
    pub(crate) fn len(&self) -> (n: usize)
        requires
            self.wf(),
        ensures
            n == self.spec_len(),
    {
        self.names.len()
    }

    /// The value in row `i`.
    pub(crate) fn value_at(&self, i: usize) -> (value: &V)
        requires
            self.wf(),
            i < self.spec_len(),
        ensures
            *value == self.spec_value(i as int),
    {
        &self.values[i]
    }

    fn find(&self, name: &String) -> (row: Option<usize>)
        requires
            self.wf(),
        ensures
            match row {
                Some(i) => i < self.names.len() && self.names[i as int]@ == name@,
                None => !self.has(name@),
            },
    {
        let mut i: usize = 0;
        while i < self.names.len()
            invariant
                i <= self.names.len(),
                forall|j: int| 0 <= j < i ==> self.names[j]@ != name@,
            decreases self.names.len() - i,
        {
            if self.names[i] == *name {
                return Some(i);
            }
            i += 1;
        }
        None
    }

    /// Whether `name` is a key of the table.
    pub fn contains(&self, name: &String) -> (found: bool)
        requires
            self.wf(),
        ensures
            found == self@.contains_key(name@),
    {
        self.find(name).is_some()
    }

    /// The value under `name`, if there is one.
    pub fn get(&self, name: &String) -> (value: Option<&V>)
        requires
            self.wf(),
        ensures
            match value {
                Some(v) => self@.contains_key(name@) && *v == self@[name@],
                None => !self@.contains_key(name@),
            },
    {
        match self.find(name) {
            Some(i) => {
                proof {
                    self.lemma_row(i as int);
                }
                Some(&self.values[i])
            },
            None => None,
        }
    }

    /// Puts `value` under `name`, in place of what was there.
    pub fn insert(&mut self, name: String, value: V)
        requires
            old(self).wf(),
        ensures
            final(self).wf(),
            final(self)@ == old(self)@.insert(name@, value),
    {
        let ghost before = *self;
        let ghost row: int;
        match self.find(&name) {
            Some(i) => {
                proof {
                    row = i as int;
                }
                self.values.set(i, value);
            },
            None => {
                proof {
                    row = self.names.len() as int;
                }
                self.names.push(name);
                self.values.push(value);
            },
        }
        proof {
            let after = *self;
            assert(after.wf());
            assert forall|k: Seq<char>| #[trigger]
                after@.contains_key(k) == before@.insert(name@, value).contains_key(k) by {
                if after.has(k) {
                    let i = after.row_of(k);
                    if i < before.names.len() {
                        assert(before.names[i]@ == k);
                    }
                }
                if before.has(k) {
                    let i = before.row_of(k);
                    assert(after.names[i]@ == k);
                }
                if k == name@ {
                    assert(after.names[row]@ == k);
                }
            }
            assert forall|k: Seq<char>| #[trigger] after@.contains_key(k) implies after@[k]
                == before@.insert(name@, value)[k] by {
                let i = after.row_of(k);
                after.lemma_row(i);
                if k != name@ {
                    assert(before.names[i]@ == k);
                    before.lemma_row(i);
                }
            }
            assert(after@ =~= before@.insert(name@, value));
        }
    }

    /// Takes `name` and its value out of the table.
    pub fn remove(&mut self, name: &String) -> (value: Option<V>)
        requires
            old(self).wf(),
        ensures
            final(self).wf(),
            final(self)@ == old(self)@.remove(name@),
            value == if old(self)@.contains_key(name@) {
                Some(old(self)@[name@])
            } else {
                None
            },
    {
        let ghost before = *self;
        match self.find(name) {
            Some(i) => {
                proof {
                    before.lemma_row(i as int);
                }
                self.names.remove(i);
                let value = self.values.remove(i);
                proof {
                    let after = *self;
                    assert(after.wf()) by {
                        assert forall|a: int, b: int| 0 <= a < b < after.names.len() implies after.names[a]@
                            != after.names[b]@ by {
                            let a0 = if a < i { a } else { a + 1 };
                            let b0 = if b < i { b } else { b + 1 };
                            assert(after.names[a] == before.names[a0]);
                            assert(after.names[b] == before.names[b0]);
                        }
                    }
                    assert forall|k: Seq<char>| #[trigger]
                        after@.contains_key(k) == before@.remove(name@).contains_key(k) by {
                        if after.has(k) {
                            let a = after.row_of(k);
                            let a0 = if a < i { a } else { a + 1 };
                            assert(before.names[a0]@ == k);
                        }
                        if before.has(k) && k != name@ {
                            let b = before.row_of(k);
                            let b1 = if b < i { b } else { b - 1 };
                            assert(after.names[b1]@ == k);
                        }
                    }
                    assert forall|k: Seq<char>| #[trigger] after@.contains_key(k) implies after@[k]
                        == before@.remove(name@)[k] by {
                        let a = after.row_of(k);
                        after.lemma_row(a);
                        let a0 = if a < i { a } else { a + 1 };
                        assert(before.names[a0]@ == k);
                        before.lemma_row(a0);
                    }
                    assert(after@ =~= before@.remove(name@));
                }
                Some(value)
            },
            None => {
                assert(self@ =~= before@.remove(name@));
                None
            },
        }
    }
}

} // verus!
