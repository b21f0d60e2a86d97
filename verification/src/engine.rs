//! The table sync unit: one generic algorithm, parameterized by strategy,
//! that copies one table from a source store to a destination store and
//! reports what it did.
//!
//! The whole behaviour is pinned by a small spec model: [`apply_table_sync`]
//! says what the destination holds afterwards, and the three counting
//! functions say what the report holds.  Everything else in the crate
//! reasons against this model.

use vstd::prelude::*;
use crate::report::SyncTableReport;
use crate::row::{
    insert_if_absent_map, upsert_map, Row, RowData, Table,
};
use crate::schema::SyncStrategy;

verus! {

/// Whether this pass reads `row` from the source: full scans read everything,
/// the incremental strategies read rows changed strictly after the watermark.
pub open spec fn row_selected(strategy: SyncStrategy, row: Row, wm: int) -> bool {
    match strategy {
        SyncStrategy::FullScanDedup => true,
        _ => row.changed_at > wm,
    }
}

/// Destination contents after the selected rows of `s` have been applied in
/// order: upserts for the incremental-upsert strategy, insert-if-absent for
/// the append-only and full-scan strategies.
pub open spec fn apply_table_sync(
    strategy: SyncStrategy,
    m: Map<Seq<char>, RowData>,
    s: Seq<Row>,
    wm: int,
) -> Map<Seq<char>, RowData>
    decreases s.len(),
{
    if s.len() == 0 {
        m
    } else {
        let m1 = apply_table_sync(strategy, m, s.drop_last(), wm);
        if row_selected(strategy, s.last(), wm) {
            match strategy {
                SyncStrategy::IncrementalUpsert => upsert_map(m1, s.last()),
                _ => insert_if_absent_map(m1, s.last()),
            }
        } else {
            m1
        }
    }
}

/// How many rows of `s` this pass reads.
pub open spec fn count_selected(strategy: SyncStrategy, s: Seq<Row>, wm: int) -> int
    decreases s.len(),
{
    if s.len() == 0 {
        0
    } else {
        count_selected(strategy, s.drop_last(), wm) + if row_selected(strategy, s.last(), wm) {
            1int
        } else {
            0int
        }
    }
}

/// How many selected rows were absent from the destination when their turn
/// came, which is the number of rows the pass inserts.
pub open spec fn count_inserted(
    strategy: SyncStrategy,
    m: Map<Seq<char>, RowData>,
    s: Seq<Row>,
    wm: int,
) -> int
    decreases s.len(),
{
    if s.len() == 0 {
        0
    } else {
        let m1 = apply_table_sync(strategy, m, s.drop_last(), wm);
        count_inserted(strategy, m, s.drop_last(), wm) + if row_selected(strategy, s.last(), wm)
            && !m1.contains_key(s.last().key@) {
            1int
        } else {
            0int
        }
    }
}

/// How many selected rows already existed at the destination and were
/// overwritten; only the incremental-upsert strategy ever updates.
pub open spec fn count_updated(
    strategy: SyncStrategy,
    m: Map<Seq<char>, RowData>,
    s: Seq<Row>,
    wm: int,
) -> int
    decreases s.len(),
{
    if s.len() == 0 {
        0
    } else {
        let m1 = apply_table_sync(strategy, m, s.drop_last(), wm);
        count_updated(strategy, m, s.drop_last(), wm) + if strategy
            == SyncStrategy::IncrementalUpsert && row_selected(strategy, s.last(), wm)
            && m1.contains_key(s.last().key@) {
            1int
        } else {
            0int
        }
    }
}

/// Synchronize one table: read the selected source rows and write each to
/// the destination under the strategy's conflict rule.  The returned report
/// classifies every selected row as inserted, updated, or skipped.
pub fn sync_table(
    strategy: SyncStrategy,
    source: &Table,
    dest: &mut Table,
    watermark: i64,
) -> (r: SyncTableReport)
    requires
        source.wf(),
        old(dest).wf(),
    ensures
        final(dest).wf(),
        final(dest).map_view() == apply_table_sync(
            strategy,
            old(dest).map_view(),
            source.seq_view(),
            watermark as int,
        ),
        r.total == count_selected(strategy, source.seq_view(), watermark as int),
        r.inserted == count_inserted(
            strategy,
            old(dest).map_view(),
            source.seq_view(),
            watermark as int,
        ),
        r.updated == count_updated(
            strategy,
            old(dest).map_view(),
            source.seq_view(),
            watermark as int,
        ),
        r.inserted + r.updated <= r.total,
        r.skipped == r.total - r.inserted - r.updated,
        strategy != SyncStrategy::IncrementalUpsert ==> r.updated == 0,
        strategy == SyncStrategy::IncrementalUpsert ==> r.skipped == 0,
{
    let ghost m0 = old(dest).map_view();
    let ghost src = source.seq_view();
    let ghost wm = watermark as int;
    let n = source.row_count();
    let mut total: usize = 0;
    let mut inserted: usize = 0;
    let mut updated: usize = 0;
    let mut i: usize = 0;
    while i < n
        invariant
            source.wf(),
            dest.wf(),
            n == src.len(),
            src == source.seq_view(),
            wm == watermark as int,
            i <= n,
            dest.map_view() == apply_table_sync(strategy, m0, src.subrange(0, i as int), wm),
            total == count_selected(strategy, src.subrange(0, i as int), wm),
            inserted == count_inserted(strategy, m0, src.subrange(0, i as int), wm),
            updated == count_updated(strategy, m0, src.subrange(0, i as int), wm),
            inserted + updated <= total <= i,
            strategy != SyncStrategy::IncrementalUpsert ==> updated == 0,
            strategy == SyncStrategy::IncrementalUpsert ==> inserted + updated == total,
        decreases n - i,
    {
        let row = source.row_at(i);
        proof {
            let pre = src.subrange(0, i as int);
            let ext = src.subrange(0, i + 1);
            assert(ext.drop_last() =~= pre);
            assert(ext.last() == src[i as int]);
        }
        let is_selected = match strategy {
            SyncStrategy::FullScanDedup => true,
            _ => row.changed_at > watermark,
        };
        if is_selected {
            total = total + 1;
            match strategy {
                SyncStrategy::IncrementalUpsert => {
                    if dest.contains(row.key.as_str()) {
                        updated = updated + 1;
                    } else {
                        inserted = inserted + 1;
                    }
                    let copy = row.duplicate();
                    proof {
                        assert(upsert_map(dest.map_view(), copy) =~= upsert_map(
                            dest.map_view(),
                            src[i as int],
                        ));
                    }
                    dest.upsert(copy);
                },
                _ => {
                    let copy = row.duplicate();
                    proof {
                        assert(insert_if_absent_map(dest.map_view(), copy) =~= insert_if_absent_map(
                            dest.map_view(),
                            src[i as int],
                        ));
                        assert(dest.map_view().contains_key(copy.key@)
                            == dest.map_view().contains_key(src[i as int].key@));
                    }
                    let was_inserted = dest.insert_if_absent(copy);
                    if was_inserted {
                        inserted = inserted + 1;
                    }
                },
            }
        }
        i = i + 1;
    }
    proof {
        assert(src.subrange(0, n as int) =~= src);
    }
    let r = if strategy == SyncStrategy::IncrementalUpsert {
        SyncTableReport::upsert(total, inserted, updated)
    } else {
        SyncTableReport::dedup(total, inserted)
    };
    r
}

} // verus!
