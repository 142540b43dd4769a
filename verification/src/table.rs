//! Storage entries by key.
use crate::types::DataKey;
use vstd::prelude::*;

verus! {

/// A collection of values, at most one for each key.
pub struct Table<V> {
    rows: Vec<(DataKey, V)>,
}

impl<V> View for Table<V> {
    type V = Map<DataKey, V>;

    closed spec fn view(&self) -> Map<DataKey, V> {
        entries(self.rows@)
    }
}

/// Whether row `i` is there and is the one for `key`.
spec fn is_row<V>(rows: Seq<(DataKey, V)>, i: int, key: DataKey) -> bool {
    0 <= i < rows.len() && rows[i].0 == key
}

/// What a sequence of rows says as a map.
spec fn entries<V>(rows: Seq<(DataKey, V)>) -> Map<DataKey, V> {
    Map::new(
        |key: DataKey| exists|i: int| is_row(rows, i, key),
        |key: DataKey| rows[choose|i: int| is_row(rows, i, key)].1,
    )
}

/// Whether no two rows have the same key.
spec fn distinct_keys<V>(rows: Seq<(DataKey, V)>) -> bool {
    forall|i: int, j: int| 0 <= i < j < rows.len() ==> (#[trigger] rows[i]).0 != (#[trigger] rows[j]).0
}

/// Where keys are distinct, a key has the value of whichever row it stands in.
proof fn lemma_row_is_entry<V>(rows: Seq<(DataKey, V)>, i: int)
    requires
        distinct_keys(rows),
        0 <= i < rows.len(),
    ensures
        entries(rows).contains_key(rows[i].0),
        entries(rows)[rows[i].0] == rows[i].1,
{
    let key = rows[i].0;
    assert(is_row(rows, i, key));
    let j = choose|j: int| is_row(rows, j, key);
    assert(is_row(rows, j, key));
    assert(i == j);
}

impl<V> Table<V> {
    /// Whether the table is as its operations leave it.
    pub closed spec fn wf(&self) -> bool {
        distinct_keys(self.rows@)
    }
}

impl<V: Copy> Table<V> {
    /// Makes an empty table.
    pub fn new() -> (table: Table<V>)
        ensures
            table.wf(),
            table@ == Map::<DataKey, V>::empty(),
    {
        let table = Table { rows: Vec::new() };
        assert(table@ =~= Map::<DataKey, V>::empty());
        table
    }

    /// Finds the row for a key.
    fn find(&self, key: &DataKey) -> (row: Option<usize>)
        ensures
            match row {
                Some(i) => is_row(self.rows@, i as int, *key),
                None => forall|i: int| !is_row(self.rows@, i, *key),
            },
    {
        let mut i: usize = 0;
        while i < self.rows.len()
            invariant
                i <= self.rows.len(),
                forall|j: int| 0 <= j < i ==> !is_row(self.rows@, j, *key),
            decreases self.rows.len() - i,
        {
            if self.rows[i].0.same(key) {
                return Some(i);
            }
            i += 1;
        }
        None
    }

    /// Returns the value stored under a key.
    pub fn get(&self, key: &DataKey) -> (value: Option<V>)
        requires
            self.wf(),
        ensures
            value is Some <==> self@.contains_key(*key),
            value matches Some(v) ==> v == self@[*key],
    {
        match self.find(key) {
            Some(i) => {
                proof {
                    lemma_row_is_entry(self.rows@, i as int);
                }
                Some(self.rows[i].1)
            },
            None => None,
        }
    }

    /// Stores a value under a key, in place of the one that was there.
    pub fn set(&mut self, key: DataKey, value: V)
        requires
            old(self).wf(),
        ensures
            final(self).wf(),
            final(self)@ == old(self)@.insert(key, value),
    {
        let ghost before = self.rows@;
        match self.find(&key) {
            Some(i) => {
                self.rows.set(i, (key, value));
                assert(is_row(self.rows@, i as int, key));
                assert forall|a: int, b: int| 0 <= a < b < self.rows@.len() implies (
                #[trigger] self.rows@[a]).0 != (#[trigger] self.rows@[b]).0 by {
                    assert(before[a].0 != before[b].0);
                }
            },
            None => {
                self.rows.push((key, value));
                assert(is_row(self.rows@, before.len() as int, key));
                assert forall|a: int, b: int| 0 <= a < b < self.rows@.len() implies (
                #[trigger] self.rows@[a]).0 != (#[trigger] self.rows@[b]).0 by {
                    assert(!is_row(before, a, key));
                    assert(b < before.len() ==> before[a].0 != before[b].0);
                }
            },
        }
        proof {
            let after = self.rows@;
            let row = choose|i: int| is_row(after, i, key);
            assert(after[row].1 == value);
            assert forall|k: DataKey| entries(after).contains_key(k) <==> entries(
                before,
            ).insert(key, value).contains_key(k) by {
                if entries(after).contains_key(k) {
                    let j = choose|j: int| is_row(after, j, k);
                    if k != key {
                        assert(is_row(before, j, k));
                    }
                }
                if entries(before).contains_key(k) {
                    let j = choose|j: int| is_row(before, j, k);
                    assert(is_row(after, j, k));
                }
            }
            assert forall|k: DataKey| entries(after).contains_key(k) implies entries(after)[k]
                == entries(before).insert(key, value)[k] by {
                let j = choose|j: int| is_row(after, j, k);
                assert(is_row(after, j, k));
                lemma_row_is_entry(after, j);
                if k != key {
                    lemma_row_is_entry(before, j);
                }
            }
            assert(entries(after) =~= entries(before).insert(key, value));
        }
    }

    /// Deletes what is stored under a key, if anything is.
    pub fn remove(&mut self, key: &DataKey)
        requires
            old(self).wf(),
        ensures
            final(self).wf(),
            final(self)@ == old(self)@.remove(*key),
    {
        let ghost before = self.rows@;
        match self.find(key) {
            Some(i) => {
                self.rows.remove(i);
                proof {
                    let after = self.rows@;
                    assert(after == before.remove(i as int));
                    assert forall|k: DataKey| entries(after).contains_key(k) <==> entries(
                        before,
                    ).remove(*key).contains_key(k) by {
                        if entries(after).contains_key(k) {
                            let j = choose|j: int| is_row(after, j, k);
                            let was = if j < i {
                                j
                            } else {
                                j + 1
                            };
                            assert(is_row(before, was, k));
                            assert(before[i as int].0 == *key);
                        }
                        if entries(before).contains_key(k) && k != *key {
                            let j = choose|j: int| is_row(before, j, k);
                            let now = if j < i {
                                j
                            } else {
                                j - 1
                            };
                            assert(is_row(after, now, k));
                        }
                    }
                    assert forall|k: DataKey| entries(after).contains_key(k) implies entries(
                        after,
                    )[k] == entries(before)[k] by {
                        let j = choose|j: int| is_row(after, j, k);
                        assert(is_row(after, j, k));
                        lemma_row_is_entry(after, j);
                        let was = if j < i {
                            j
                        } else {
                            j + 1
                        };
                        lemma_row_is_entry(before, was);
                    }
                    assert(entries(after) =~= entries(before).remove(*key));
                }
            },
            None => {
                assert(self@ =~= old(self)@.remove(*key));
            },
        }
    }
}

} // verus!
