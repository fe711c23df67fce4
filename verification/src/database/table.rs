//! A table of records, each found by the text of its key; no two records share
//! a key.

use vstd::prelude::*;

verus! {

/// A record that a table holds: it has a key and can be copied.
pub trait Record: View + Sized {
    spec fn key(&self) -> Seq<char>;

    /// The text of the record's key.
    fn key_text(&self) -> (res: &str)
        ensures
            res@ == self.key();

    /// A copy of the record.
    fn duplicate(&self) -> (res: Self)
        ensures
            res@ == self@,
            res.key() == self.key();
}

pub struct Table<R> {
    rows: Vec<R>,
}

/// Whether no two of `rows` share a key.
pub open spec fn unique_keys<R: Record>(rows: Seq<R>) -> bool {
    forall|i: int, j: int|
        0 <= i < rows.len() && 0 <= j < rows.len() && i != j ==> #[trigger] rows[i].key()
            != #[trigger] rows[j].key()
}

/// The position of the record with key `k` in `rows`.
pub open spec fn index_of<R: Record>(rows: Seq<R>, k: Seq<char>) -> int {
    choose|i: int| 0 <= i < rows.len() && #[trigger] rows[i].key() == k
}

/// Whether some record of `rows` has key `k`.
pub open spec fn holds_key<R: Record>(rows: Seq<R>, k: Seq<char>) -> bool {
    exists|i: int| 0 <= i < rows.len() && #[trigger] rows[i].key() == k
}

/// The records of `rows` by key.
pub open spec fn rows_map<R: Record>(rows: Seq<R>) -> Map<Seq<char>, R::V> {
    Map::new(|k: Seq<char>| holds_key(rows, k), |k: Seq<char>| rows[index_of(rows, k)]@)
}

/// With unique keys, the record at `i` is the one that its key finds.
pub proof fn lemma_lookup<R: Record>(rows: Seq<R>, i: int)
    requires
        unique_keys(rows),
        0 <= i < rows.len(),
    ensures
        rows_map(rows).contains_key(rows[i].key()),
        index_of(rows, rows[i].key()) == i,
        rows_map(rows)[rows[i].key()] == rows[i]@,
{
    assert(holds_key(rows, rows[i].key()));
    let j = index_of(rows, rows[i].key());
    assert(0 <= j < rows.len() && rows[j].key() == rows[i].key());
}

impl<R: Record> Table<R> {
    pub closed spec fn rows(&self) -> Seq<R> {
        self.rows@
    }

    /// The table's invariant: no two records share a key.
    pub closed spec fn wf(&self) -> bool {
        unique_keys(self.rows@)
    }

    /// The records by key.
    pub open spec fn contents(&self) -> Map<Seq<char>, R::V> {
        rows_map(self.rows())
    }

    /// An empty table.
    pub fn new() -> (res: Self)
        ensures
            res.wf(),
            res.contents() == Map::<Seq<char>, R::V>::empty(),
            res.rows().len() == 0,
    {
        let res = Table { rows: Vec::new() };
        assert(res.contents() =~= Map::<Seq<char>, R::V>::empty());
        res
    }

    /// The number of records.
    pub fn len(&self) -> (res: usize)
        ensures
            res == self.rows().len(),
    {
        self.rows.len()
    }

    /// The record at position `i`.
    pub fn row(&self, i: usize) -> (res: &R)
        requires
            i < self.rows().len(),
        ensures
            *res == self.rows()[i as int],
    {
        &self.rows[i]
    }

    /// With the invariant, the record at a position is the one its key finds.
    pub proof fn lemma_row(&self, i: int)
        requires
            self.wf(),
            0 <= i < self.rows().len(),
        ensures
            self.contents().contains_key(self.rows()[i].key()),
            self.contents()[self.rows()[i].key()] == self.rows()[i]@,
    {
        lemma_lookup(self.rows(), i);
    }

    /// With the invariant, every key of the contents is the key of a record.
    pub proof fn lemma_key(&self, k: Seq<char>)
        requires
            self.wf(),
            self.contents().contains_key(k),
        ensures
            0 <= index_of(self.rows(), k) < self.rows().len(),
            self.rows()[index_of(self.rows(), k)].key() == k,
    {
    }

    /// The position of the record with key `key`, if there is one.
    fn position(&self, key: &str) -> (res: Option<usize>)
        requires
            self.wf(),
        ensures
            res is None <==> !self.contents().contains_key(key@),
            res matches Some(i) ==> i < self.rows().len() && self.rows()[i as int].key() == key@,
    {
        let n = self.rows.len();
        for i in 0..n
            invariant
                n == self.rows@.len(),
                forall|j: int| 0 <= j < i ==> #[trigger] self.rows@[j].key() != key@,
        {
            if crate::path::str_eq(self.rows[i].key_text(), key) {
                return Some(i);
            }
        }
        None
    }

    /// A copy of the record with key `key`, if there is one.
    pub fn get(&self, key: &str) -> (res: Option<R>)
        requires
            self.wf(),
        ensures
            res is Some <==> self.contents().contains_key(key@),
            res matches Some(r) ==> r@ == self.contents()[key@] && r.key() == key@,
    {
        match self.position(key) {
            Some(i) => {
                proof {
                    lemma_lookup(self.rows@, i as int);
                }
                Some(self.rows[i].duplicate())
            },
            None => None,
        }
    }

    /// Whether a record with key `key` is held.
    pub fn contains(&self, key: &str) -> (res: bool)
        requires
            self.wf(),
        ensures
            res == self.contents().contains_key(key@),
    {
        self.position(key).is_some()
    }

    /// Adds `record`, whose key no record holds yet.
    pub fn insert_new(&mut self, record: R)
        requires
            old(self).wf(),
            !old(self).contents().contains_key(record.key()),
        ensures
            final(self).wf(),
            final(self).contents() == old(self).contents().insert(record.key(), record@),
    {
        let ghost old_rows = self.rows@;
        let ghost k = record.key();
        let ghost v = record@;
        self.rows.push(record);
        let ghost rows = self.rows@;
        assert(rows.len() == old_rows.len() + 1);
        assert forall|i: int| 0 <= i < old_rows.len() implies #[trigger] old_rows[i].key() != k by {
            lemma_lookup(old_rows, i);
        }
        assert(unique_keys(rows)) by {
            assert forall|i: int, j: int|
                0 <= i < rows.len() && 0 <= j < rows.len() && i != j implies #[trigger] rows[i].key()
                != #[trigger] rows[j].key() by {
                if i < old_rows.len() && j < old_rows.len() {
                    assert(rows[i] == old_rows[i] && rows[j] == old_rows[j]);
                } else if i < old_rows.len() {
                    assert(rows[i] == old_rows[i]);
                } else {
                    assert(rows[j] == old_rows[j]);
                }
            }
        }
        assert(rows_map(rows) =~= rows_map(old_rows).insert(k, v)) by {
            assert forall|k2: Seq<char>| #[trigger] rows_map(rows).contains_key(k2)
                <==> rows_map(old_rows).insert(k, v).contains_key(k2) by {
                if holds_key(old_rows, k2) {
                    let i = index_of(old_rows, k2);
                    assert(rows[i] == old_rows[i]);
                }
                if holds_key(rows, k2) && k2 != k {
                    let i = index_of(rows, k2);
                    if i < old_rows.len() {
                        assert(rows[i] == old_rows[i]);
                    }
                }
                if k2 == k {
                    assert(rows[old_rows.len() as int].key() == k);
                }
            }
            assert forall|k2: Seq<char>| #[trigger] rows_map(rows).contains_key(k2)
                implies rows_map(rows)[k2] == rows_map(old_rows).insert(k, v)[k2] by {
                if k2 == k {
                    lemma_lookup(rows, old_rows.len() as int);
                } else {
                    let i = index_of(rows, k2);
                    assert(0 <= i < rows.len() && rows[i].key() == k2);
                    assert(i < old_rows.len());
                    assert(rows[i] == old_rows[i]);
                    lemma_lookup(rows, i);
                    lemma_lookup(old_rows, i);
                }
            }
        }
    }

    /// Replaces the record whose key is that of `record` by `record`.
    pub fn replace(&mut self, record: R)
        requires
            old(self).wf(),
            old(self).contents().contains_key(record.key()),
        ensures
            final(self).wf(),
            final(self).contents() == old(self).contents().insert(record.key(), record@),
    {
        let ghost old_rows = self.rows@;
        let ghost k = record.key();
        let ghost v = record@;
        let i = self.position(record.key_text()).unwrap();
        self.rows.set(i, record);
        let ghost rows = self.rows@;
        assert(rows =~= old_rows.update(i as int, rows[i as int]));
        assert(unique_keys(rows)) by {
            assert forall|a: int, b: int|
                0 <= a < rows.len() && 0 <= b < rows.len() && a != b implies #[trigger] rows[a].key()
                != #[trigger] rows[b].key() by {
                if a != i && b != i {
                    assert(rows[a] == old_rows[a] && rows[b] == old_rows[b]);
                } else if a == i {
                    assert(rows[b] == old_rows[b]);
                    assert(old_rows[i as int].key() == k);
                } else {
                    assert(rows[a] == old_rows[a]);
                    assert(old_rows[i as int].key() == k);
                }
            }
        }
        assert(rows_map(rows) =~= rows_map(old_rows).insert(k, v)) by {
            assert forall|k2: Seq<char>| #[trigger] rows_map(rows).contains_key(k2)
                <==> rows_map(old_rows).insert(k, v).contains_key(k2) by {
                if holds_key(old_rows, k2) {
                    let j = index_of(old_rows, k2);
                    if j == i {
                        assert(rows[i as int].key() == k2);
                    } else {
                        assert(rows[j] == old_rows[j]);
                    }
                }
                if holds_key(rows, k2) {
                    let j = index_of(rows, k2);
                    if j != i {
                        assert(rows[j] == old_rows[j]);
                    }
                }
                if k2 == k {
                    assert(rows[i as int].key() == k);
                }
            }
            assert forall|k2: Seq<char>| #[trigger] rows_map(rows).contains_key(k2)
                implies rows_map(rows)[k2] == rows_map(old_rows).insert(k, v)[k2] by {
                if k2 == k {
                    lemma_lookup(rows, i as int);
                } else {
                    let j = index_of(rows, k2);
                    assert(0 <= j < rows.len() && rows[j].key() == k2);
                    assert(j != i);
                    assert(rows[j] == old_rows[j]);
                    lemma_lookup(rows, j);
                    lemma_lookup(old_rows, j);
                }
            }
        }
    }

    /// Removes the record with key `key`, if there is one.
    pub fn remove(&mut self, key: &str)
        requires
            old(self).wf(),
        ensures
            final(self).wf(),
            final(self).contents() == old(self).contents().remove(key@),
    {
        let ghost old_rows = self.rows@;
        let ghost k = key@;
        match self.position(key) {
            None => {
                assert(rows_map(old_rows) =~= rows_map(old_rows).remove(k));
            },
            Some(i) => {
                self.rows.remove(i);
                let ghost rows = self.rows@;
                assert(rows =~= old_rows.remove(i as int));
                assert forall|a: int| 0 <= a < rows.len() implies #[trigger] rows[a] == old_rows[if a < i {
                    a
                } else {
                    a + 1
                }] by {}
                assert(unique_keys(rows)) by {
                    assert forall|a: int, b: int|
                        0 <= a < rows.len() && 0 <= b < rows.len() && a != b implies #[trigger] rows[a].key()
                        != #[trigger] rows[b].key() by {
                        let a1 = if a < i { a } else { a + 1 };
                        let b1 = if b < i { b } else { b + 1 };
                        assert(rows[a] == old_rows[a1]);
                        assert(rows[b] == old_rows[b1]);
                    }
                }
                assert(rows_map(rows) =~= rows_map(old_rows).remove(k)) by {
                    assert forall|k2: Seq<char>| #[trigger] rows_map(rows).contains_key(k2)
                        <==> rows_map(old_rows).remove(k).contains_key(k2) by {
                        if holds_key(old_rows, k2) && k2 != k {
                            let j = index_of(old_rows, k2);
                            assert(j != i);
                            let j1 = if j < i { j } else { j - 1 };
                            assert(rows[j1] == old_rows[j]);
                        }
                        if holds_key(rows, k2) {
                            let j = index_of(rows, k2);
                            let j1 = if j < i { j } else { j + 1 };
                            assert(rows[j] == old_rows[j1]);
                            assert(j1 != i);
                        }
                    }
                    assert forall|k2: Seq<char>| #[trigger] rows_map(rows).contains_key(k2)
                        implies rows_map(rows)[k2] == rows_map(old_rows).remove(k)[k2] by {
                        let j = index_of(rows, k2);
                        assert(0 <= j < rows.len() && rows[j].key() == k2);
                        let j1 = if j < i { j } else { j + 1 };
                        assert(rows[j] == old_rows[j1]);
                        lemma_lookup(rows, j);
                        lemma_lookup(old_rows, j1);
                    }
                }
            },
        }
    }
}

} // verus!
