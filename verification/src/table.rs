//! A collection of values under distinct text keys.
//!
//! Keys are compared as texts. A [`Table`] keeps its rows in the order in
//! which their keys were first inserted.

use vstd::prelude::*;

verus! {

/// Some row of `rows` has the key `key`.
pub open spec fn has_row<V>(rows: Seq<(Seq<char>, V)>, key: Seq<char>) -> bool {
    exists|i: int| 0 <= i < rows.len() && (#[trigger] rows[i]).0 == key
}

/// The position of a row with the key `key`.
pub open spec fn row_of<V>(rows: Seq<(Seq<char>, V)>, key: Seq<char>) -> int {
    choose|i: int| 0 <= i < rows.len() && (#[trigger] rows[i]).0 == key
}

/// The rows as a map from keys to values.
pub open spec fn rows_map<V>(rows: Seq<(Seq<char>, V)>) -> Map<Seq<char>, V> {
    Map::new(|key: Seq<char>| has_row(rows, key), |key: Seq<char>| rows[row_of(rows, key)].1)
}

/// No two rows share a key.
pub open spec fn distinct_keys<V>(rows: Seq<(Seq<char>, V)>) -> bool {
    forall|i: int, j: int|
        0 <= i < rows.len() && 0 <= j < rows.len() && i != j ==> (#[trigger] rows[i]).0 != (
        #[trigger] rows[j]).0
}

/// A collection of values under distinct text keys.
#[derive(Debug)]
pub struct Table<V> {
    entries: Vec<(String, V)>,
}

impl<V> View for Table<V> {
    type V = Map<Seq<char>, V>;

    open spec fn view(&self) -> Map<Seq<char>, V> {
        rows_map(self.rows())
    }
}

impl<V> Table<V> {
    /// The keys and values in their order.
    pub closed spec fn rows(self) -> Seq<(Seq<char>, V)> {
        self.entries@.map_values(|e: (String, V)| (e.0@, e.1))
    }

    /// The table's invariant: no key occurs twice.
    pub open spec fn wf(self) -> bool {
        distinct_keys(self.rows())
    }

    /// An empty table.
    pub fn new() -> (r: Table<V>)
        ensures
            r.wf(),
            r@ == Map::<Seq<char>, V>::empty(),
            r.rows().len() == 0,
    {
        let r = Table { entries: Vec::new() };
        assert(r@ =~= Map::<Seq<char>, V>::empty());
        r
    }

    /// The number of rows.
    pub fn len(&self) -> (n: usize)
        requires
            self.wf(),
        ensures
            n == self.rows().len(),
            self@.dom().finite(),
            n == self@.len(),
    {
        proof {
            lemma_rows_len(self.rows());
        }
        self.entries.len()
    }

    /// The value of the row at position `i`.
    pub fn at(&self, i: usize) -> (v: &V)
        requires
            i < self.rows().len(),
        ensures
            *v == self.rows()[i as int].1,
    {
        &self.entries[i].1
    }

    /// The position of the row with the key `key`.
    pub fn find(&self, key: &str) -> (r: Option<usize>)
        ensures
            match r {
                Some(i) => i < self.rows().len() && self.rows()[i as int].0 == key@,
                None => !has_row(self.rows(), key@),
            },
    {
        let wanted: String = key.to_owned();
        let mut i: usize = 0;
        while i < self.entries.len()
            invariant
                0 <= i <= self.entries@.len(),
                wanted@ == key@,
                forall|k: int| 0 <= k < i ==> (#[trigger] self.rows()[k]).0 != key@,
            decreases self.entries@.len() - i,
        {
            let e: &(String, V) = &self.entries[i];
            assert(self.rows()[i as int] == (e.0@, e.1));
            if e.0 == wanted {
                return Some(i);
            }
            i = i + 1;
        }
        None
    }

    /// Whether the key `key` has a value.
    pub fn contains_key(&self, key: &str) -> (r: bool)
        ensures
            r == self@.contains_key(key@),
    {
        match self.find(key) {
            Some(i) => {
                assert(has_row(self.rows(), key@));
                true
            },
            None => false,
        }
    }

    /// The value under the key `key`.
    pub fn get(&self, key: &str) -> (r: Option<&V>)
        requires
            self.wf(),
        ensures
            match r {
                Some(v) => self@.contains_key(key@) && self@[key@] == *v,
                None => !self@.contains_key(key@),
            },
    {
        match self.find(key) {
            Some(i) => {
                proof {
                    lemma_row(self.rows(), i as int);
                }
                Some(&self.entries[i].1)
            },
            None => None,
        }
    }

    /// Puts `value` under the key `key`, in place of a value that is there.
    pub fn insert(&mut self, key: String, value: V)
        requires
            old(self).wf(),
        ensures
            final(self).wf(),
            final(self)@ == old(self)@.insert(key@, value),
            final(self).rows() == if has_row(old(self).rows(), key@) {
                old(self).rows().update(row_of(old(self).rows(), key@), (key@, value))
            } else {
                old(self).rows().push((key@, value))
            },
    {
        match self.find(key.as_str()) {
            Some(i) => {
                let ghost before = self.rows();
                let ghost name = key@;
                self.entries.set(i, (key, value));
                proof {
                    assert(self.rows() =~= before.update(i as int, (name, value)));
                    lemma_rows_update(before, i as int, value);
                    lemma_row(before, i as int);
                    lemma_key_row(before, name);
                    assert(row_of(before, name) == i);
                }
            },
            None => {
                let ghost before = self.rows();
                let ghost name = key@;
                self.entries.push((key, value));
                proof {
                    assert(self.rows() =~= before.push((name, value)));
                    lemma_rows_push(before, name, value);
                }
            },
        }
    }

    /// Replaces the value of the row at position `i`.
    pub fn set(&mut self, i: usize, value: V)
        requires
            old(self).wf(),
            i < old(self).rows().len(),
        ensures
            final(self).wf(),
            final(self).rows() == old(self).rows().update(
                i as int,
                (old(self).rows()[i as int].0, value),
            ),
            final(self)@ == old(self)@.insert(old(self).rows()[i as int].0, value),
    {
        let ghost before = self.rows();
        let key: String = self.entries[i].0.clone();
        let ghost name = key@;
        self.entries.set(i, (key, value));
        proof {
            assert(before[i as int].0 == name);
            assert(self.rows() =~= before.update(i as int, (name, value)));
            lemma_rows_update(before, i as int, value);
        }
    }

    /// Takes the value under the key `key` out of the table.
    pub fn remove(&mut self, key: &str) -> (r: Option<V>)
        requires
            old(self).wf(),
        ensures
            final(self).wf(),
            final(self)@ == old(self)@.remove(key@),
            final(self).rows() == if has_row(old(self).rows(), key@) {
                old(self).rows().remove(row_of(old(self).rows(), key@))
            } else {
                old(self).rows()
            },
            match r {
                Some(v) => old(self)@.contains_key(key@) && old(self)@[key@] == v,
                None => !old(self)@.contains_key(key@),
            },
    {
        match self.find(key) {
            Some(i) => {
                let ghost before = self.rows();
                let e: (String, V) = self.entries.remove(i);
                proof {
                    assert(before[i as int] == (e.0@, e.1));
                    assert(self.rows() =~= before.remove(i as int));
                    lemma_row(before, i as int);
                    lemma_key_row(before, key@);
                    assert(row_of(before, key@) == i);
                    lemma_rows_remove(before, i as int);
                }
                Some(e.1)
            },
            None => {
                assert(self@ =~= self@.remove(key@));
                None
            },
        }
    }

    /// Takes all rows out of the table.
    pub fn clear(&mut self)
        ensures
            final(self).wf(),
            final(self)@ == Map::<Seq<char>, V>::empty(),
    {
        self.entries.clear();
        assert(self@ =~= Map::<Seq<char>, V>::empty());
    }
}

/// A row's key leads to the row's value.
pub proof fn lemma_row<V>(rows: Seq<(Seq<char>, V)>, i: int)
    requires
        distinct_keys(rows),
        0 <= i < rows.len(),
    ensures
        rows_map(rows).contains_key(rows[i].0),
        rows_map(rows)[rows[i].0] == rows[i].1,
{
    let key = rows[i].0;
    assert(has_row(rows, key));
    let j = row_of(rows, key);
    assert(0 <= j < rows.len() && rows[j].0 == key);
    assert(i == j);
}

/// Every key of the map has a row.
pub proof fn lemma_key_row<V>(rows: Seq<(Seq<char>, V)>, key: Seq<char>)
    requires
        distinct_keys(rows),
        rows_map(rows).contains_key(key),
    ensures
        0 <= row_of(rows, key) < rows.len(),
        rows[row_of(rows, key)] == (key, rows_map(rows)[key]),
{
    assert(has_row(rows, key));
}

/// There are as many keys as rows.
pub proof fn lemma_rows_len<V>(rows: Seq<(Seq<char>, V)>)
    requires
        distinct_keys(rows),
    ensures
        rows_map(rows).dom().finite(),
        rows_map(rows).len() == rows.len(),
{
    let keys = rows.map_values(|r: (Seq<char>, V)| r.0);
    assert(keys.no_duplicates()) by {
        assert forall|i: int, j: int|
            0 <= i < keys.len() && 0 <= j < keys.len() && i != j implies keys[i] != keys[j] by {
            assert(rows[i].0 != rows[j].0);
        }
    }
    keys.unique_seq_to_set();
    assert(keys.to_set() =~= rows_map(rows).dom()) by {
        assert forall|k: Seq<char>| keys.to_set().contains(k) implies rows_map(
            rows,
        ).dom().contains(k) by {
            let i = choose|i: int| 0 <= i < keys.len() && keys[i] == k;
            assert(rows[i].0 == k);
        }
        assert forall|k: Seq<char>| rows_map(rows).dom().contains(k) implies keys.to_set().contains(
            k,
        ) by {
            let i = row_of(rows, k);
            assert(has_row(rows, k));
            assert(keys[i] == k);
        }
    }
}

proof fn lemma_rows_update<V>(rows: Seq<(Seq<char>, V)>, i: int, value: V)
    requires
        distinct_keys(rows),
        0 <= i < rows.len(),
    ensures
        distinct_keys(rows.update(i, (rows[i].0, value))),
        rows_map(rows.update(i, (rows[i].0, value))) == rows_map(rows).insert(rows[i].0, value),
{
    let key = rows[i].0;
    let after = rows.update(i, (key, value));
    assert forall|j: int| 0 <= j < rows.len() implies (#[trigger] after[j]).0 == rows[j].0 by {}
    assert forall|k: Seq<char>| has_row(after, k) <==> has_row(rows, k) by {
        if has_row(after, k) {
            let j = row_of(after, k);
            assert(rows[j].0 == k);
        }
        if has_row(rows, k) {
            let j = row_of(rows, k);
            assert(after[j].0 == k);
        }
    }
    lemma_row(rows, i);
    lemma_row(after, i);
    assert forall|k: Seq<char>| has_row(rows, k) && k != key implies rows_map(after)[k]
        == rows_map(rows)[k] by {
        let j = row_of(rows, k);
        lemma_row(rows, j);
        lemma_row(after, j);
    }
    assert(rows_map(after) =~= rows_map(rows).insert(key, value));
}

proof fn lemma_rows_push<V>(rows: Seq<(Seq<char>, V)>, key: Seq<char>, value: V)
    requires
        distinct_keys(rows),
        !has_row(rows, key),
    ensures
        distinct_keys(rows.push((key, value))),
        rows_map(rows.push((key, value))) == rows_map(rows).insert(key, value),
{
    let after = rows.push((key, value));
    assert forall|i: int, j: int|
        0 <= i < after.len() && 0 <= j < after.len() && i != j implies (#[trigger] after[i]).0 != (
    #[trigger] after[j]).0 by {
        if i < rows.len() {
            assert(rows[i].0 == after[i].0);
        }
        if j < rows.len() {
            assert(rows[j].0 == after[j].0);
        }
    }
    lemma_row(after, rows.len() as int);
    assert forall|k: Seq<char>| has_row(rows, k) implies has_row(after, k) && rows_map(after)[k]
        == rows_map(rows)[k] by {
        let j = row_of(rows, k);
        assert(after[j] == rows[j]);
        lemma_row(rows, j);
        lemma_row(after, j);
    }
    assert forall|k: Seq<char>| has_row(after, k) && k != key implies has_row(rows, k) by {
        let j = row_of(after, k);
        assert(rows[j].0 == k);
    }
    assert(rows_map(after) =~= rows_map(rows).insert(key, value));
}

proof fn lemma_rows_remove<V>(rows: Seq<(Seq<char>, V)>, i: int)
    requires
        distinct_keys(rows),
        0 <= i < rows.len(),
    ensures
        distinct_keys(rows.remove(i)),
        rows_map(rows.remove(i)) == rows_map(rows).remove(rows[i].0),
{
    let key = rows[i].0;
    let after = rows.remove(i);
    assert forall|j: int| 0 <= j < after.len() implies #[trigger] after[j] == rows[if j < i {
        j
    } else {
        j + 1
    }] by {}
    assert forall|k: Seq<char>| has_row(after, k) implies k != key && has_row(rows, k) && rows_map(
        after,
    )[k] == rows_map(rows)[k] by {
        let j = row_of(after, k);
        let jj = if j < i {
            j
        } else {
            j + 1
        };
        assert(after[j] == rows[jj]);
        assert(rows[jj].0 == k);
        lemma_row(rows, jj);
        lemma_row(after, j);
    }
    assert forall|k: Seq<char>| has_row(rows, k) && k != key implies has_row(after, k) by {
        let j = row_of(rows, k);
        let jj = if j < i {
            j
        } else {
            j - 1
        };
        assert(j != i);
        assert(after[jj] == rows[j]);
    }
    assert(rows_map(after) =~= rows_map(rows).remove(key));
}

} // verus!
