//! Per-table and per-pass synchronization reports.

use vstd::prelude::*;

verus! {

/// Subtraction that stops at zero, mirroring how report counters are
/// combined even when a caller hands in inconsistent counts.
pub open spec fn sat_sub(a: int, b: int) -> int {
    if a >= b {
        a - b
    } else {
        0
    }
}

/// Outcome of synchronizing one table during one pass.
#[derive(Clone, Debug, PartialEq, Eq, Structural)]
pub struct SyncTableReport {
    /// Rows read from the source for this pass.
    pub total: usize,
    /// Rows that did not yet exist at the destination.
    pub inserted: usize,
    /// Rows that already existed and were overwritten.
    pub updated: usize,
    /// Rows left untouched (for dedup strategies, `total - inserted`).
    pub skipped: usize,
}

impl SyncTableReport {
    /// Report for an incremental-upsert table.
    pub fn upsert(total: usize, inserted: usize, updated: usize) -> (r: SyncTableReport)
        ensures
            r.total == total,
            r.inserted == inserted,
            r.updated == updated,
            r.skipped == sat_sub(total as int, inserted as int + updated as int),
    {
        let written = if updated > usize::MAX - inserted {
            usize::MAX
        } else {
            inserted + updated
        };
        let skipped = if total >= written {
            total - written
        } else {
            0
        };
        SyncTableReport { total, inserted, updated, skipped }
    }

    /// Report for an insert-if-absent (append-only or full-scan dedup) table.
    pub fn dedup(total: usize, inserted: usize) -> (r: SyncTableReport)
        ensures
            r.total == total,
            r.inserted == inserted,
            r.updated == 0,
            r.skipped == sat_sub(total as int, inserted as int),
    {
        let skipped = if total >= inserted {
            total - inserted
        } else {
            0
        };
        SyncTableReport { total, inserted, updated: 0, skipped }
    }
}

/// One report per synchronized table, in dependency order.
#[derive(Clone, Debug, PartialEq, Eq, Structural)]
pub struct SyncTablesReport {
    pub spaces: SyncTableReport,
    pub projects: SyncTableReport,
    pub tags: SyncTableReport,
    pub links: SyncTableReport,
    pub tasks: SyncTableReport,
    pub task_activity_logs: SyncTableReport,
    pub task_tags: SyncTableReport,
    pub task_links: SyncTableReport,
    pub project_tags: SyncTableReport,
    pub project_links: SyncTableReport,
}

/// Result of a whole `pull` or `push` pass.
#[derive(Clone, Debug, PartialEq, Eq, Structural)]
pub struct SyncCommandReport {
    /// The timestamp captured at the start of the pass; on success it becomes
    /// the direction's new watermark.
    pub synced_at: i64,
    pub tables: SyncTablesReport,
}

} // verus!
