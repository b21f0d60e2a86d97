//! The engine's view of a synchronized table.
//!
//! The sync unit never interprets column values; it only needs each row's
//! primary key, its change-tracking timestamp, and the column text it copies.
//! A [`Row`] therefore carries the key, the timestamp, the `payload` (the
//! descriptor's update columns, the part an upsert overwrites) and the
//! `fixed` part (the columns written once at insert and never updated, such
//! as the creation timestamp).  A [`Table`] is a sequence of rows with unique
//! keys, viewed as a map from key to row data.

use vstd::prelude::*;
use vstd::string::*;
use crate::text::str_eq;

verus! {

/// One row as the sync unit sees it.
#[derive(Clone, Debug)]
pub struct Row {
    /// Primary key text; for junction tables, the encoded composite key.
    pub key: String,
    /// Value of the change-tracking column; junction tables leave it zero.
    pub changed_at: i64,
    /// The update columns: replaced on every upsert (last writer wins).
    pub payload: String,
    /// The insert-only columns: written when the row first appears, never
    /// touched by an update.
    pub fixed: String,
}

/// Mathematical content of a row, without its key.
pub ghost struct RowData {
    pub changed_at: int,
    pub payload: Seq<char>,
    pub fixed: Seq<char>,
}

impl Row {
    /// The row's content.
    pub open spec fn data(&self) -> RowData {
        RowData { changed_at: self.changed_at as int, payload: self.payload@, fixed: self.fixed@ }
    }

    /// A copy of this row, equal in every view.
    pub fn duplicate(&self) -> (r: Row)
        ensures
            r.key@ == self.key@,
            r.changed_at == self.changed_at,
            r.payload@ == self.payload@,
            r.fixed@ == self.fixed@,
            r.data() == self.data(),
    {
        Row {
            key: self.key.clone(),
            changed_at: self.changed_at,
            payload: self.payload.clone(),
            fixed: self.fixed.clone(),
        }
    }
}

/// Contents of a row sequence, keyed by primary key; a later row with the
/// same key shadows an earlier one.
pub open spec fn rows_map(s: Seq<Row>) -> Map<Seq<char>, RowData>
    decreases s.len(),
{
    if s.len() == 0 {
        Map::empty()
    } else {
        rows_map(s.drop_last()).insert(s.last().key@, s.last().data())
    }
}

/// Whether the keys of `s` are pairwise distinct.
pub open spec fn unique_keys(s: Seq<Row>) -> bool {
    forall|p: int, q: int| 0 <= p < q < s.len() ==> s[p].key@ != s[q].key@
}

/// What one last-writer-wins upsert of `row` does to table contents `m`:
/// the payload and timestamp are always taken from `row`; the fixed part is
/// kept when the key already exists and taken from `row` otherwise.
pub open spec fn upsert_map(m: Map<Seq<char>, RowData>, row: Row) -> Map<Seq<char>, RowData> {
    if m.contains_key(row.key@) {
        m.insert(
            row.key@,
            RowData {
                changed_at: row.changed_at as int,
                payload: row.payload@,
                fixed: m[row.key@].fixed,
            },
        )
    } else {
        m.insert(row.key@, row.data())
    }
}

/// What one insert-if-absent of `row` does to table contents `m`.
pub open spec fn insert_if_absent_map(m: Map<Seq<char>, RowData>, row: Row) -> Map<
    Seq<char>,
    RowData,
> {
    if m.contains_key(row.key@) {
        m
    } else {
        m.insert(row.key@, row.data())
    }
}

pub proof fn lemma_rows_map_contains(s: Seq<Row>, key: Seq<char>)
    ensures
        rows_map(s).contains_key(key) <==> exists|i: int| 0 <= i < s.len() && s[i].key@ == key,
    decreases s.len(),
{
    if s.len() > 0 {
        lemma_rows_map_contains(s.drop_last(), key);
        if rows_map(s).contains_key(key) {
            if s.last().key@ == key {
                assert(s[s.len() - 1].key@ == key);
            } else {
                let i = choose|i: int| 0 <= i < s.len() - 1 && s.drop_last()[i].key@ == key;
                assert(s[i].key@ == key);
            }
        }
        if exists|i: int| 0 <= i < s.len() && s[i].key@ == key {
            let i = choose|i: int| 0 <= i < s.len() && s[i].key@ == key;
            if i < s.len() - 1 {
                assert(s.drop_last()[i].key@ == key);
            }
        }
    }
}

pub proof fn lemma_rows_map_entry(s: Seq<Row>, i: int)
    requires
        0 <= i < s.len(),
        unique_keys(s),
    ensures
        rows_map(s).contains_key(s[i].key@),
        rows_map(s)[s[i].key@] == s[i].data(),
    decreases s.len(),
{
    if i == s.len() - 1 {
    } else {
        assert(unique_keys(s.drop_last()));
        lemma_rows_map_entry(s.drop_last(), i);
        assert(s[i].key@ != s.last().key@);
    }
}

pub proof fn lemma_rows_map_len(s: Seq<Row>)
    requires
        unique_keys(s),
    ensures
        rows_map(s).dom().finite(),
        rows_map(s).len() == s.len(),
    decreases s.len(),
{
    if s.len() == 0 {
        assert(rows_map(s).dom() =~= Set::<Seq<char>>::empty());
    } else {
        assert(unique_keys(s.drop_last()));
        lemma_rows_map_len(s.drop_last());
        lemma_rows_map_contains(s.drop_last(), s.last().key@);
        assert(!rows_map(s.drop_last()).contains_key(s.last().key@));
    }
}

proof fn lemma_rows_update(s: Seq<Row>, i: int, e: Row)
    requires
        0 <= i < s.len(),
        unique_keys(s),
        e.key@ == s[i].key@,
    ensures
        rows_map(s.update(i, e)) == rows_map(s).insert(e.key@, e.data()),
        unique_keys(s.update(i, e)),
    decreases s.len(),
{
    let u = s.update(i, e);
    if i == s.len() - 1 {
        assert(u.drop_last() =~= s.drop_last());
        assert(u.last() == e);
        assert(rows_map(u) =~= rows_map(s).insert(e.key@, e.data()));
    } else {
        assert(unique_keys(s.drop_last()));
        lemma_rows_update(s.drop_last(), i, e);
        assert(u.drop_last() =~= s.drop_last().update(i, e));
        assert(u.last() == s.last());
        assert(e.key@ != s.last().key@);
        assert(rows_map(u) == rows_map(s.drop_last()).insert(e.key@, e.data()).insert(
            s.last().key@,
            s.last().data(),
        ));
        assert(rows_map(u) =~= rows_map(s).insert(e.key@, e.data()));
    }
}

/// A synchronized table held as rows with pairwise-distinct keys.
#[derive(Clone, Debug)]
pub struct Table {
    rows: Vec<Row>,
}

impl Table {
    /// Keys are unique, so the map view loses nothing.
    pub open spec fn wf(&self) -> bool {
        unique_keys(self.seq_view())
    }

    /// The rows in storage order.
    pub closed spec fn seq_view(&self) -> Seq<Row> {
        self.rows@
    }

    /// The table as a map from key to row content.
    pub open spec fn map_view(&self) -> Map<Seq<char>, RowData> {
        rows_map(self.seq_view())
    }

    /// An empty table.
    pub fn new() -> (r: Table)
        ensures
            r.wf(),
            r.seq_view() == Seq::<Row>::empty(),
            r.map_view() == Map::<Seq<char>, RowData>::empty(),
    {
        Table { rows: Vec::new() }
    }

    /// Number of rows, which by key uniqueness is also the number of keys.
    pub fn row_count(&self) -> (n: usize)
        requires
            self.wf(),
        ensures
            n == self.seq_view().len(),
            n == self.map_view().len(),
    {
        proof {
            lemma_rows_map_len(self.rows@);
        }
        self.rows.len()
    }

    /// The row at storage index `i`.
    pub fn row_at(&self, i: usize) -> (r: &Row)
        requires
            i < self.seq_view().len(),
        ensures
            *r == self.seq_view()[i as int],
    {
        &self.rows[i]
    }

    fn find(&self, key: &str) -> (r: Option<usize>)
        ensures
            match r {
                Some(i) => i < self.rows@.len() && self.rows@[i as int].key@ == key@,
                None => forall|j: int| 0 <= j < self.rows@.len() ==> self.rows@[j].key@ != key@,
            },
    {
        let mut i: usize = 0;
        while i < self.rows.len()
            invariant
                i <= self.rows@.len(),
                forall|j: int| 0 <= j < i ==> self.rows@[j].key@ != key@,
            decreases self.rows@.len() - i,
        {
            if str_eq(self.rows[i].key.as_str(), key) {
                return Some(i);
            }
            i = i + 1;
        }
        None
    }

    /// Whether a row with this key exists.
    pub fn contains(&self, key: &str) -> (r: bool)
        ensures
            r == self.map_view().contains_key(key@),
    {
        proof {
            lemma_rows_map_contains(self.rows@, key@);
        }
        self.find(key).is_some()
    }

    /// The row stored under `key`, if any.
    pub fn get(&self, key: &str) -> (r: Option<&Row>)
        requires
            self.wf(),
        ensures
            match r {
                Some(row) => self.map_view().contains_key(key@) && row.key@ == key@
                    && self.map_view()[key@] == row.data(),
                None => !self.map_view().contains_key(key@),
            },
    {
        proof {
            lemma_rows_map_contains(self.rows@, key@);
        }
        match self.find(key) {
            Some(i) => {
                proof {
                    lemma_rows_map_entry(self.rows@, i as int);
                }
                Some(&self.rows[i])
            },
            None => None,
        }
    }

    /// Last-writer-wins upsert: insert the row, or overwrite the update
    /// columns of the row already stored under its key.
    pub fn upsert(&mut self, row: Row)
        requires
            old(self).wf(),
        ensures
            final(self).wf(),
            final(self).map_view() == upsert_map(old(self).map_view(), row),
    {
        proof {
            lemma_rows_map_contains(self.rows@, row.key@);
        }
        match self.find(row.key.as_str()) {
            Some(i) => {
                proof {
                    lemma_rows_map_entry(self.rows@, i as int);
                }
                let merged = Row {
                    key: row.key,
                    changed_at: row.changed_at,
                    payload: row.payload,
                    fixed: self.rows[i].fixed.clone(),
                };
                proof {
                    lemma_rows_update(self.rows@, i as int, merged);
                }
                self.rows.set(i, merged);
            },
            None => {
                self.rows.push(row);
                proof {
                    assert(self.rows@.drop_last() =~= old(self).rows@);
                }
            },
        }
    }

    /// Insert the row only when its key is absent; reports whether it was
    /// inserted.
    pub fn insert_if_absent(&mut self, row: Row) -> (inserted: bool)
        requires
            old(self).wf(),
        ensures
            final(self).wf(),
            inserted == !old(self).map_view().contains_key(row.key@),
            final(self).map_view() == insert_if_absent_map(old(self).map_view(), row),
            !inserted ==> *final(self) == *old(self),
    {
        proof {
            lemma_rows_map_contains(self.rows@, row.key@);
        }
        match self.find(row.key.as_str()) {
            Some(_) => false,
            None => {
                self.rows.push(row);
                proof {
                    assert(self.rows@.drop_last() =~= old(self).rows@);
                }
                true
            },
        }
    }
}

} // verus!
