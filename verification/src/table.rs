//! A small table: values by key, each key at most once. The cache namespaces
//! and the in-memory metadata maps are built on it.

use vstd::prelude::*;

verus! {

/// What can serve as the key of a [`Table`]: a value with a mathematical
/// value of its own, and a test for equal keys.
pub trait TableKey: Sized {
    type KV;

    /// The mathematical value of the key.
    spec fn key_view(&self) -> Self::KV;

    /// Whether two keys are the same.
    fn same_key(&self, other: &Self) -> (r: bool)
        ensures
            r == (self.key_view() == other.key_view()),
    ;
}

impl TableKey for String {
    type KV = Seq<char>;

    open spec fn key_view(&self) -> Seq<char> {
        self@
    }

    fn same_key(&self, other: &Self) -> (r: bool) {
        *self == *other
    }
}

/// One row of a table.
pub struct Row<K, P> {
    pub key: K,
    pub value: P,
}

/// No key occurs in two rows.
pub open spec fn keys_unique<K: TableKey, P>(rows: Seq<Row<K, P>>) -> bool {
    forall|i: int, j: int|
        0 <= i < j < rows.len() ==> rows[i].key.key_view() != rows[j].key.key_view()
}

/// The values of a list of rows by key; a later row wins over an earlier
/// one of the same key.
pub open spec fn rows_map<K: TableKey, P: DeepView>(rows: Seq<Row<K, P>>) -> Map<K::KV, P::V>
    decreases rows.len(),
{
    if rows.len() == 0 {
        Map::empty()
    } else {
        rows_map(rows.drop_last()).insert(rows.last().key.key_view(), rows.last().value.deep_view())
    }
}

/// A key that no row carries is no key of the map.
pub proof fn lemma_absent_key<K: TableKey, P: DeepView>(rows: Seq<Row<K, P>>, key: K::KV)
    requires
        forall|i: int| 0 <= i < rows.len() ==> rows[i].key.key_view() != key,
    ensures
        !rows_map(rows).dom().contains(key),
    decreases rows.len(),
{
    if rows.len() > 0 {
        lemma_absent_key(rows.drop_last(), key);
    }
}

/// With unique keys, the map holds under a row's key that row's value.
pub proof fn lemma_present_key<K: TableKey, P: DeepView>(rows: Seq<Row<K, P>>, i: int)
    requires
        keys_unique(rows),
        0 <= i < rows.len(),
    ensures
        rows_map(rows).dom().contains(rows[i].key.key_view()),
        rows_map(rows)[rows[i].key.key_view()] == rows[i].value.deep_view(),
    decreases rows.len(),
{
    if i < rows.len() - 1 {
        lemma_present_key(rows.drop_last(), i);
    }
}

/// With unique keys, replacing a row by one of the same key is an insert
/// into the map.
pub proof fn lemma_replace_row<K: TableKey, P: DeepView>(rows: Seq<Row<K, P>>, i: int, row: Row<K, P>)
    requires
        keys_unique(rows),
        0 <= i < rows.len(),
        row.key.key_view() == rows[i].key.key_view(),
    ensures
        keys_unique(rows.update(i, row)),
        rows_map(rows.update(i, row)) == rows_map(rows).insert(
            row.key.key_view(),
            row.value.deep_view(),
        ),
    decreases rows.len(),
{
    let after = rows.update(i, row);
    if i == rows.len() - 1 {
        assert(after.drop_last() =~= rows.drop_last());
        assert(rows_map(after) =~= rows_map(rows).insert(row.key.key_view(), row.value.deep_view()));
    } else {
        lemma_replace_row(rows.drop_last(), i, row);
        assert(after.drop_last() =~= rows.drop_last().update(i, row));
        assert(after.last() == rows.last());
        assert(rows.last().key.key_view() != row.key.key_view());
        assert(rows_map(after) =~= rows_map(rows).insert(row.key.key_view(), row.value.deep_view()));
    }
}

/// Values by key.
pub struct Table<K: TableKey, P: DeepView> {
    rows: Vec<Row<K, P>>,
}

impl<K: TableKey, P: DeepView> View for Table<K, P> {
    type V = Map<K::KV, P::V>;

    closed spec fn view(&self) -> Map<K::KV, P::V> {
        rows_map(self.rows@)
    }
}

impl<K: TableKey, P: DeepView> Table<K, P> {
    /// No key is stored twice.
    pub closed spec fn wf(&self) -> bool {
        keys_unique(self.rows@)
    }

    /// The number of rows.
    pub closed spec fn spec_len(&self) -> nat {
        self.rows@.len()
    }

    /// A table without rows.
    pub fn new() -> (table: Self)
        ensures
            table.wf(),
            table@ == Map::<K::KV, P::V>::empty(),
    {
        Table { rows: Vec::new() }
    }

    /// The index of the row that carries `key`.
    fn find(&self, key: &K) -> (found: Option<usize>)
        ensures
            match found {
                Some(i) => i < self.rows@.len() && self.rows@[i as int].key.key_view()
                    == key.key_view(),
                None => forall|i: int|
                    0 <= i < self.rows@.len() ==> self.rows@[i].key.key_view() != key.key_view(),
            },
    {
        let mut i: usize = 0;
        while i < self.rows.len()
            invariant
                i <= self.rows@.len(),
                forall|j: int| 0 <= j < i ==> self.rows@[j].key.key_view() != key.key_view(),
            decreases self.rows@.len() - i,
        {
            if self.rows[i].key.same_key(key) {
                return Some(i);
            }
            i += 1;
        }
        None
    }

    /// The row stored under `key`, if there is one.
    pub fn get(&self, key: &K) -> (found: Option<&Row<K, P>>)
        requires
            self.wf(),
        ensures
            match found {
                Some(row) => self@.dom().contains(key.key_view()) && self@[key.key_view()]
                    == row.value.deep_view() && row.key.key_view() == key.key_view(),
                None => !self@.dom().contains(key.key_view()),
            },
    {
        match self.find(key) {
            Some(i) => {
                proof {
                    lemma_present_key(self.rows@, i as int);
                }
                Some(&self.rows[i])
            },
            None => {
                proof {
                    lemma_absent_key(self.rows@, key.key_view());
                }
                None
            },
        }
    }

    /// Stores `value` under `key`, in place of what was stored under that
    /// key before.
    pub fn put(&mut self, key: K, value: P)
        requires
            old(self).wf(),
        ensures
            final(self).wf(),
            final(self)@ == old(self)@.insert(key.key_view(), value.deep_view()),
    {
        let found = self.find(&key);
        let row = Row { key, value };
        match found {
            Some(i) => {
                proof {
                    lemma_replace_row(self.rows@, i as int, row);
                }
                self.rows[i] = row;
            },
            None => {
                assert(self.rows@.push(row).drop_last() =~= self.rows@);
                self.rows.push(row);
            },
        }
    }

    /// Removes every row.
    pub fn clear(&mut self)
        ensures
            final(self).wf(),
            final(self)@ == Map::<K::KV, P::V>::empty(),
    {
        self.rows.clear();
    }

    /// The number of rows.
    pub fn len(&self) -> (n: usize)
        ensures
            n == self.spec_len(),
    {
        self.rows.len()
    }

    /// The row at a position, for walking through all of them. Every key
    /// comes at one position only.
    pub fn row_at(&self, i: usize) -> (row: &Row<K, P>)
        requires
            self.wf(),
            i < self.spec_len(),
        ensures
            self@.dom().contains(row.key.key_view()),
            self@[row.key.key_view()] == row.value.deep_view(),
    {
        proof {
            lemma_present_key(self.rows@, i as int);
        }
        &self.rows[i]
    }
}

} // verus!
