//! A small keyed table, for the records of a ledger.

use vstd::prelude::*;

use crate::address::Address;

verus! {

/// A key of a [`Table`]. Two keys are the same key where their identities
/// are equal.
pub trait Key: Sized {
    /// What tells one key from another.
    type Id;

    /// The identity of this key.
    spec fn id(&self) -> Self::Id;

    /// Tells whether two keys are the same key.
    fn same(&self, other: &Self) -> (r: bool)
        ensures
            r == (self.id() == other.id()),
    ;
}

impl Key for Address {
    type Id = Address;

    open spec fn id(&self) -> Address {
        *self
    }

    fn same(&self, other: &Self) -> (r: bool) {
        *self == *other
    }
}

impl Key for String {
    type Id = Seq<char>;

    open spec fn id(&self) -> Seq<char> {
        self@
    }

    fn same(&self, other: &Self) -> (r: bool) {
        *self == *other
    }
}

/// The key of a payment record: the handle that was paid, and the index that
/// the payer chose for the payment.
pub struct PaymentKey {
    pub handle: String,
    pub index: u64,
}

impl Key for PaymentKey {
    type Id = (Seq<char>, u64);

    open spec fn id(&self) -> (Seq<char>, u64) {
        (self.handle@, self.index)
    }

    fn same(&self, other: &Self) -> (r: bool) {
        self.index == other.index && self.handle == other.handle
    }
}

/// One row of a [`Table`].
struct Entry<K, V> {
    key: K,
    value: V,
}

/// Whether row `i` of `rows` has the key `id`.
spec fn row_has<K: Key, V>(rows: Seq<Entry<K, V>>, i: int, id: K::Id) -> bool {
    0 <= i < rows.len() && rows[i].key.id() == id
}

/// Whether no two rows have the same key.
spec fn distinct<K: Key, V>(rows: Seq<Entry<K, V>>) -> bool {
    forall|i: int, j: int|
        0 <= i < rows.len() && 0 <= j < rows.len() && i != j ==> rows[i].key.id() != rows[j].key.id()
}

/// The map from each key of `rows` to its value.
spec fn rows_map<K: Key, V>(rows: Seq<Entry<K, V>>) -> Map<K::Id, V> {
    Map::new(
        |id: K::Id| exists|i: int| row_has(rows, i, id),
        |id: K::Id| rows[choose|i: int| row_has(rows, i, id)].value,
    )
}

proof fn lemma_row<K: Key, V>(rows: Seq<Entry<K, V>>, i: int)
    requires
        distinct(rows),
        0 <= i < rows.len(),
    ensures
        rows_map(rows).contains_key(rows[i].key.id()),
        rows_map(rows)[rows[i].key.id()] == rows[i].value,
{
    let id = rows[i].key.id();
    assert(row_has(rows, i, id));
    let j = choose|j: int| row_has(rows, j, id);
    assert(row_has(rows, j, id));
    assert(i == j);
}

proof fn lemma_push<K: Key, V>(rows: Seq<Entry<K, V>>, row: Entry<K, V>)
    requires
        distinct(rows),
        !rows_map(rows).contains_key(row.key.id()),
    ensures
        distinct(rows.push(row)),
        rows_map(rows.push(row)) == rows_map(rows).insert(row.key.id(), row.value),
{
    let after = rows.push(row);
    assert forall|i: int, j: int|
        0 <= i < after.len() && 0 <= j < after.len() && i != j implies after[i].key.id()
        != after[j].key.id() by {
        if i < rows.len() {
            assert(row_has(rows, i, rows[i].key.id()));
        }
        if j < rows.len() {
            assert(row_has(rows, j, rows[j].key.id()));
        }
    }
    assert forall|id: K::Id| #[trigger]
        rows_map(after).contains_key(id) == rows_map(rows).insert(
            row.key.id(),
            row.value,
        ).contains_key(id) by {
        if rows_map(after).contains_key(id) {
            let i = choose|i: int| row_has(after, i, id);
            if i < rows.len() {
                assert(row_has(rows, i, id));
            }
        }
        if rows_map(rows).contains_key(id) {
            let i = choose|i: int| row_has(rows, i, id);
            assert(row_has(after, i, id));
        }
        if id == row.key.id() {
            assert(row_has(after, rows.len() as int, id));
        }
    }
    assert forall|id: K::Id| #[trigger]
        rows_map(after).contains_key(id) implies rows_map(after)[id] == rows_map(rows).insert(
        row.key.id(),
        row.value,
    )[id] by {
        let i = choose|i: int| row_has(after, i, id);
        lemma_row(after, i);
        if i < rows.len() {
            lemma_row(rows, i);
        }
    }
    assert(rows_map(after) =~= rows_map(rows).insert(row.key.id(), row.value));
}

proof fn lemma_update<K: Key, V>(rows: Seq<Entry<K, V>>, i: int, row: Entry<K, V>)
    requires
        distinct(rows),
        0 <= i < rows.len(),
        rows[i].key.id() == row.key.id(),
    ensures
        distinct(rows.update(i, row)),
        rows_map(rows.update(i, row)) == rows_map(rows).insert(row.key.id(), row.value),
{
    let after = rows.update(i, row);
    assert forall|id: K::Id| #[trigger]
        rows_map(after).contains_key(id) == rows_map(rows).insert(
            row.key.id(),
            row.value,
        ).contains_key(id) by {
        if rows_map(after).contains_key(id) {
            let j = choose|j: int| row_has(after, j, id);
            assert(row_has(rows, j, id));
        }
        if rows_map(rows).contains_key(id) {
            let j = choose|j: int| row_has(rows, j, id);
            assert(row_has(after, j, id));
        }
        if id == row.key.id() {
            assert(row_has(after, i, id));
        }
    }
    assert forall|id: K::Id| #[trigger]
        rows_map(after).contains_key(id) implies rows_map(after)[id] == rows_map(rows).insert(
        row.key.id(),
        row.value,
    )[id] by {
        let j = choose|j: int| row_has(after, j, id);
        lemma_row(after, j);
        lemma_row(rows, j);
    }
    assert(rows_map(after) =~= rows_map(rows).insert(row.key.id(), row.value));
}

proof fn lemma_remove<K: Key, V>(rows: Seq<Entry<K, V>>, i: int)
    requires
        distinct(rows),
        0 <= i < rows.len(),
    ensures
        distinct(rows.remove(i)),
        rows_map(rows.remove(i)) == rows_map(rows).remove(rows[i].key.id()),
{
    let after = rows.remove(i);
    let gone = rows[i].key.id();
    assert forall|a: int, b: int|
        0 <= a < after.len() && 0 <= b < after.len() && a != b implies after[a].key.id()
        != after[b].key.id() by {
        let a0 = if a < i { a } else { a + 1 };
        let b0 = if b < i { b } else { b + 1 };
        assert(after[a] == rows[a0]);
        assert(after[b] == rows[b0]);
    }
    assert forall|id: K::Id| #[trigger]
        rows_map(after).contains_key(id) == rows_map(rows).remove(gone).contains_key(id) by {
        if rows_map(after).contains_key(id) {
            let a = choose|a: int| row_has(after, a, id);
            let a0 = if a < i { a } else { a + 1 };
            assert(after[a] == rows[a0]);
            assert(row_has(rows, a0, id));
        }
        if rows_map(rows).contains_key(id) && id != gone {
            let j = choose|j: int| row_has(rows, j, id);
            let a = if j < i { j } else { j - 1 };
            assert(after[a] == rows[j]);
            assert(row_has(after, a, id));
        }
    }
    assert forall|id: K::Id| #[trigger]
        rows_map(after).contains_key(id) implies rows_map(after)[id] == rows_map(rows).remove(
        gone,
    )[id] by {
        let a = choose|a: int| row_has(after, a, id);
        let a0 = if a < i { a } else { a + 1 };
        assert(after[a] == rows[a0]);
        lemma_row(after, a);
        lemma_row(rows, a0);
    }
    assert(rows_map(after) =~= rows_map(rows).remove(gone));
}

/// A table that holds at most one value under each key.
pub struct Table<K: Key, V> {
    rows: Vec<Entry<K, V>>,
}

impl<K: Key, V> Table<K, V> {
    #[verifier::type_invariant]
    spec fn inv(self) -> bool {
        distinct(self.rows@)
    }

    /// What the table holds: a map from the identity of each key to the value
    /// under the key.
    pub closed spec fn view(&self) -> Map<K::Id, V> {
        rows_map(self.rows@)
    }

    /// Makes an empty table.
    pub fn new() -> (table: Self)
        ensures
            table@ == Map::<K::Id, V>::empty(),
    {
        let table = Table { rows: Vec::new() };
        assert(table@ =~= Map::<K::Id, V>::empty());
        table
    }

    fn position(&self, key: &K) -> (found: Option<usize>)
        ensures
            match found {
                Some(i) => row_has(self.rows@, i as int, key.id()),
                None => !self@.contains_key(key.id()),
            },
    {
        let mut i: usize = 0;
        while i < self.rows.len()
            invariant
                i <= self.rows.len(),
                forall|j: int| 0 <= j < i ==> self.rows@[j].key.id() != key.id(),
            decreases self.rows.len() - i,
        {
            if self.rows[i].key.same(key) {
                return Some(i);
            }
            i = i + 1;
        }
        None
    }

    /// Looks up the value under `key`.
    pub fn get(&self, key: &K) -> (found: Option<&V>)
        ensures
            match found {
                Some(value) => self@.contains_key(key.id()) && *value == self@[key.id()],
                None => !self@.contains_key(key.id()),
            },
    {
        proof {
            use_type_invariant(self);
        }
        match self.position(key) {
            Some(i) => {
                proof {
                    lemma_row(self.rows@, i as int);
                }
                Some(&self.rows[i].value)
            },
            None => None,
        }
    }

    /// Tells whether there is a value under `key`.
    pub fn contains(&self, key: &K) -> (r: bool)
        ensures
            r == self@.contains_key(key.id()),
    {
        proof {
            use_type_invariant(self);
        }
        match self.position(key) {
            Some(i) => {
                proof {
                    lemma_row(self.rows@, i as int);
                }
                true
            },
            None => false,
        }
    }

    /// Puts `value` under `key`, in place of what was there.
    pub fn put(&mut self, key: K, value: V)
        ensures
            final(self)@ == old(self)@.insert(key.id(), value),
    {
        proof {
            use_type_invariant(&*self);
        }
        let found = self.position(&key);
        let row = Entry { key, value };
        let mut rows: Vec<Entry<K, V>> = Vec::new();
        std::mem::swap(&mut rows, &mut self.rows);
        match found {
            Some(i) => {
                proof {
                    lemma_update(rows@, i as int, row);
                }
                rows[i] = row;
            },
            None => {
                proof {
                    lemma_push(rows@, row);
                }
                rows.push(row);
            },
        }
        self.rows = rows;
    }

    /// Takes out what is under `key`, and returns it.
    pub fn remove(&mut self, key: &K) -> (taken: Option<V>)
        ensures
            final(self)@ == old(self)@.remove(key.id()),
            match taken {
                Some(value) => old(self)@.contains_key(key.id()) && value == old(self)@[key.id()],
                None => !old(self)@.contains_key(key.id()),
            },
    {
        proof {
            use_type_invariant(&*self);
        }
        match self.position(key) {
            Some(i) => {
                proof {
                    lemma_row(self.rows@, i as int);
                    lemma_remove(self.rows@, i as int);
                }
                let mut rows: Vec<Entry<K, V>> = Vec::new();
                std::mem::swap(&mut rows, &mut self.rows);
                let row = rows.remove(i);
                self.rows = rows;
                Some(row.value)
            },
            None => {
                assert(self@.remove(key.id()) =~= self@);
                None
            },
        }
    }
}

} // verus!
