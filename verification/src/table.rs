//! A table from keys to values in which every key is unique.

use vstd::prelude::*;
use vstd::string::*;

verus! {

/// The entries of `map` whose value is not `value`.
pub open spec fn without_value(
    map: Map<Seq<char>, Seq<char>>,
    value: Seq<char>,
) -> Map<Seq<char>, Seq<char>> {
    Map::new(|key: Seq<char>| map.contains_key(key) && map[key] != value, |key: Seq<char>| map[key])
}

/// `map` after storing `value` under `key`, unless `key` is already taken.
pub open spec fn with_default(
    map: Map<Seq<char>, Seq<char>>,
    key: Seq<char>,
    value: Seq<char>,
) -> Map<Seq<char>, Seq<char>> {
    if map.contains_key(key) {
        map
    } else {
        map.insert(key, value)
    }
}

/// A table with a unique key column and a value column.
pub struct KeyTable {
    rows: Vec<(String, String)>,
}

/// Whether `key` is the key of some row.
spec fn has_row(rows: Seq<(String, String)>, key: Seq<char>) -> bool {
    exists|i: int| 0 <= i < rows.len() && #[trigger] rows[i].0@ == key
}

/// The value of a row whose key is `key`.
spec fn row_value(rows: Seq<(String, String)>, key: Seq<char>) -> Seq<char> {
    rows[choose|i: int| 0 <= i < rows.len() && #[trigger] rows[i].0@ == key].1@
}

/// No two rows have the same key.
spec fn unique_keys(rows: Seq<(String, String)>) -> bool {
    forall|i: int, j: int|
        0 <= i < j < rows.len() ==> #[trigger] rows[i].0@ != #[trigger] rows[j].0@
}

/// What `rows` hold, as a map.
spec fn rows_map(rows: Seq<(String, String)>) -> Map<Seq<char>, Seq<char>> {
    Map::new(|key: Seq<char>| has_row(rows, key), |key: Seq<char>| row_value(rows, key))
}

impl View for KeyTable {
    type V = Map<Seq<char>, Seq<char>>;

    closed spec fn view(&self) -> Map<Seq<char>, Seq<char>> {
        rows_map(self.rows@)
    }
}

/// Each row is the entry of its key.
proof fn lemma_row_is_entry(rows: Seq<(String, String)>, i: int)
    requires
        unique_keys(rows),
        0 <= i < rows.len(),
    ensures
        rows_map(rows).contains_key(rows[i].0@),
        rows_map(rows)[rows[i].0@] == rows[i].1@,
{
    let key = rows[i].0@;
    let j = choose|j: int| 0 <= j < rows.len() && #[trigger] rows[j].0@ == key;
    assert(rows[i].0@ == key);
    assert(0 <= j < rows.len() && rows[j].0@ == key);
    if i < j {
        assert(rows[i].0@ != rows[j].0@);
    } else if j < i {
        assert(rows[j].0@ != rows[i].0@);
    }
}

impl KeyTable {
    /// The table's invariant: its keys are unique.
    pub closed spec fn wf(&self) -> bool {
        unique_keys(self.rows@)
    }

    /// An empty table.
    pub fn new() -> (table: KeyTable)
        ensures
            table.wf(),
            table@ == Map::<Seq<char>, Seq<char>>::empty(),
    {
        let table = KeyTable { rows: Vec::new() };
        assert(table@ =~= Map::<Seq<char>, Seq<char>>::empty());
        table
    }

    /// The index of the row of `key`.
    fn find(&self, key: &String) -> (row: Option<usize>)
        ensures
            match row {
                Some(i) => i < self.rows@.len() && self.rows@[i as int].0@ == key@,
                None => !has_row(self.rows@, key@),
            },
    {
        let mut i: usize = 0;
        while i < self.rows.len()
            invariant
                i <= self.rows@.len(),
                forall|j: int| 0 <= j < i ==> #[trigger] self.rows@[j].0@ != key@,
            decreases self.rows@.len() - i,
        {
            if self.rows[i].0 == *key {
                return Some(i);
            }
            i = i + 1;
        }
        None
    }

    /// The value stored under `key`.
    pub fn get(&self, key: &str) -> (value: Option<String>)
        requires
            self.wf(),
        ensures
            match value {
                Some(v) => self@.contains_key(key@) && v@ == self@[key@],
                None => !self@.contains_key(key@),
            },
    {
        match self.find(&key.to_string()) {
            Some(i) => {
                proof {
                    lemma_row_is_entry(self.rows@, i as int);
                }
                Some(self.rows[i].1.clone())
            },
            None => None,
        }
    }

    /// Stores `value` under `key` unless `key` is already taken, and returns
    /// what is stored there afterwards.
    pub fn get_or_insert(&mut self, key: &str, value: &str) -> (stored: String)
        requires
            old(self).wf(),
        ensures
            final(self).wf(),
            final(self)@ == with_default(old(self)@, key@, value@),
            stored@ == final(self)@[key@],
    {
        let key = key.to_string();
        match self.find(&key) {
            Some(i) => {
                proof {
                    lemma_row_is_entry(self.rows@, i as int);
                }
                self.rows[i].1.clone()
            },
            None => {
                let stored = value.to_string();
                let ghost before = self.rows@;
                self.rows.push((key, stored.clone()));
                proof {
                    lemma_pushed_row(before, (key, stored));
                }
                stored
            },
        }
    }

    /// Removes every row whose value is `value`.
    pub fn remove_value(&mut self, value: &str)
        requires
            old(self).wf(),
        ensures
            final(self).wf(),
            final(self)@ == without_value(old(self)@, value@),
    {
        let value = value.to_string();
        let ghost all = self.rows@;
        let mut i: usize = 0;
        while i < self.rows.len()
            invariant
                i <= self.rows@.len(),
                unique_keys(all),
                unique_keys(self.rows@),
                forall|j: int| 0 <= j < i ==> #[trigger] self.rows@[j].1@ != value@,
                forall|j: int| 0 <= j < self.rows@.len() ==> all.contains(#[trigger] self.rows@[j]),
                forall|j: int|
                    0 <= j < all.len() && all[j].1@ != value@ ==> self.rows@.contains(
                        #[trigger] all[j],
                    ),
            decreases self.rows@.len() - i,
        {
            if self.rows[i].1 == value {
                let ghost before = self.rows@;
                self.rows.swap_remove(i);
                proof {
                    lemma_removed_row(all, before, self.rows@, i as int, value@);
                }
            } else {
                i = i + 1;
            }
        }
        proof {
            lemma_kept_rows(all, self.rows@, value@);
        }
    }
}

/// A row with a new key adds its entry to those of the rows before it.
proof fn lemma_pushed_row(rows: Seq<(String, String)>, row: (String, String))
    requires
        unique_keys(rows),
        !has_row(rows, row.0@),
    ensures
        unique_keys(rows.push(row)),
        rows_map(rows.push(row)) == rows_map(rows).insert(row.0@, row.1@),
{
    let after = rows.push(row);
    assert(after[rows.len() as int].0@ == row.0@);
    lemma_row_is_entry(after, rows.len() as int);
    assert forall|k: Seq<char>| has_row(after, k) == (has_row(rows, k) || k == row.0@) by {
        if has_row(rows, k) {
            let i = choose|i: int| 0 <= i < rows.len() && #[trigger] rows[i].0@ == k;
            assert(after[i].0@ == k);
        }
        if has_row(after, k) {
            let i = choose|i: int| 0 <= i < after.len() && #[trigger] after[i].0@ == k;
            if i < rows.len() {
                assert(rows[i].0@ == k);
            }
        }
    }
    assert forall|k: Seq<char>| has_row(rows, k) implies rows_map(after)[k] == rows_map(
        rows,
    )[k] by {
        let i = choose|i: int| 0 <= i < rows.len() && #[trigger] rows[i].0@ == k;
        lemma_row_is_entry(rows, i);
        lemma_row_is_entry(after, i);
    }
    assert(rows_map(after) =~= rows_map(rows).insert(row.0@, row.1@));
}

/// Putting the last row in the place of one with the unwanted value loses no
/// other row.
proof fn lemma_removed_row(
    all: Seq<(String, String)>,
    before: Seq<(String, String)>,
    after: Seq<(String, String)>,
    gone: int,
    value: Seq<char>,
)
    requires
        0 <= gone < before.len(),
        before[gone].1@ == value,
        after == before.update(gone, before.last()).drop_last(),
        unique_keys(before),
        forall|j: int| 0 <= j < before.len() ==> all.contains(#[trigger] before[j]),
        forall|j: int|
            0 <= j < all.len() && all[j].1@ != value ==> before.contains(#[trigger] all[j]),
    ensures
        unique_keys(after),
        forall|j: int| 0 <= j < after.len() ==> all.contains(#[trigger] after[j]),
        forall|j: int|
            0 <= j < all.len() && all[j].1@ != value ==> after.contains(#[trigger] all[j]),
{
    // Where each row that is left was before.
    let origin = |j: int|
        if j == gone {
            before.len() - 1
        } else {
            j
        };
    assert forall|j: int| 0 <= j < after.len() implies all.contains(#[trigger] after[j]) by {
        assert(after[j] == before[origin(j)]);
    }
    assert forall|j: int| 0 <= j < all.len() && all[j].1@ != value implies after.contains(
        #[trigger] all[j],
    ) by {
        let k = choose|k: int| 0 <= k < before.len() && before[k] == all[j];
        if k == before.len() - 1 {
            assert(after[gone] == all[j]);
        } else {
            assert(after[k] == all[j]);
        }
    }
    assert forall|a: int, b: int| 0 <= a < b < after.len() implies #[trigger] after[a].0@
        != #[trigger] after[b].0@ by {
        assert(after[a] == before[origin(a)]);
        assert(after[b] == before[origin(b)]);
        if origin(a) < origin(b) {
            assert(before[origin(a)].0@ != before[origin(b)].0@);
        } else {
            assert(before[origin(b)].0@ != before[origin(a)].0@);
        }
    }
}

/// Rows that keep exactly those of `all` whose value is not `value` hold what
/// `all` holds without `value`.
proof fn lemma_kept_rows(all: Seq<(String, String)>, kept: Seq<(String, String)>, value: Seq<char>)
    requires
        unique_keys(all),
        unique_keys(kept),
        forall|j: int| 0 <= j < kept.len() ==> #[trigger] kept[j].1@ != value,
        forall|j: int| 0 <= j < kept.len() ==> all.contains(#[trigger] kept[j]),
        forall|j: int|
            0 <= j < all.len() && all[j].1@ != value ==> kept.contains(#[trigger] all[j]),
    ensures
        rows_map(kept) == without_value(rows_map(all), value),
{
    let expected = without_value(rows_map(all), value);
    assert forall|k: Seq<char>| has_row(kept, k) implies expected.contains_key(k) && rows_map(
        kept,
    )[k] == expected[k] by {
        let j = choose|j: int| 0 <= j < kept.len() && #[trigger] kept[j].0@ == k;
        assert(all.contains(kept[j]));
        let i = choose|i: int| 0 <= i < all.len() && all[i] == kept[j];
        lemma_row_is_entry(kept, j);
        lemma_row_is_entry(all, i);
        assert(kept[j].1@ != value);
    }
    assert forall|k: Seq<char>| expected.contains_key(k) implies has_row(kept, k) by {
        let i = choose|i: int| 0 <= i < all.len() && #[trigger] all[i].0@ == k;
        lemma_row_is_entry(all, i);
        assert(kept.contains(all[i]));
        let j = choose|j: int| 0 <= j < kept.len() && kept[j] == all[i];
        assert(kept[j].0@ == k);
    }
    assert(rows_map(kept) =~= expected);
}

} // verus!
