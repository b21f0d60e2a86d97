//! The sync orchestrator.
//!
//! A pass captures its start timestamp before reading anything, reads the
//! direction's watermark, runs the table sync unit over every table in
//! dependency order, and only after every table has succeeded advances the
//! watermark to the captured start.  Rows mutated while a pass runs may be
//! re-read by the next pass; that is deliberate slack, not loss.
//!
//! The orchestrator works on in-memory [`Store`] snapshots.  Opening the
//! remote connection, running the migration, and moving rows between these
//! snapshots and the actual databases is the surrounding application's loop;
//! every decision about what to copy and what to report is made, and
//! verified, here.  Because the snapshots are read by the caller, the caller
//! must also read the clock for `pass_start` *before* it loads them: only
//! then does the stored watermark stay at or below every row the pass might
//! have missed, which is what lets the next pass catch such rows.

use vstd::prelude::*;
use crate::connector::prepare_remote_url;
use crate::engine::{count_inserted, count_selected, count_updated, apply_table_sync, sync_table};
use crate::error::SyncError;
use crate::numtext::dec_i64_spec;
use crate::report::{SyncCommandReport, SyncTableReport, SyncTablesReport};
use crate::row::{Row, RowData, Table};
use crate::schema::{strategy_of, strategy_spec, SyncStrategy, TableId};
use crate::text::trim_spec;
use crate::watermark::{key_last_pulled_at, key_last_pushed_at, SettingsStore};

verus! {

/// Unix epoch milliseconds, clamped to zero before the epoch.
///
/// Relies on `std::time::SystemTime::now` measured against the Unix epoch;
/// the result depends on the wall clock, so only its sign is promised.
#[verifier::external_body]
pub fn now_ms() -> (r: i64)
    ensures
        r >= 0,
{
    let dur = std::time::SystemTime::now()
        .duration_since(std::time::SystemTime::UNIX_EPOCH)
        .unwrap_or_default();
    dur.as_millis() as i64
}

/// One side of the synchronization: the ten replicated tables.
#[derive(Clone, Debug)]
pub struct Store {
    pub spaces: Table,
    pub projects: Table,
    pub tags: Table,
    pub links: Table,
    pub tasks: Table,
    pub task_activity_logs: Table,
    pub task_tags: Table,
    pub task_links: Table,
    pub project_tags: Table,
    pub project_links: Table,
}

impl Store {
    /// Every table is well formed.
    pub open spec fn wf(&self) -> bool {
        &&& self.spaces.wf()
        &&& self.projects.wf()
        &&& self.tags.wf()
        &&& self.links.wf()
        &&& self.tasks.wf()
        &&& self.task_activity_logs.wf()
        &&& self.task_tags.wf()
        &&& self.task_links.wf()
        &&& self.project_tags.wf()
        &&& self.project_links.wf()
    }

    /// A store with every table empty.
    pub fn new() -> (r: Store)
        ensures
            r.wf(),
            r.spaces.seq_view() == Seq::<Row>::empty(),
            r.projects.seq_view() == Seq::<Row>::empty(),
            r.tags.seq_view() == Seq::<Row>::empty(),
            r.links.seq_view() == Seq::<Row>::empty(),
            r.tasks.seq_view() == Seq::<Row>::empty(),
            r.task_activity_logs.seq_view() == Seq::<Row>::empty(),
            r.task_tags.seq_view() == Seq::<Row>::empty(),
            r.task_links.seq_view() == Seq::<Row>::empty(),
            r.project_tags.seq_view() == Seq::<Row>::empty(),
            r.project_links.seq_view() == Seq::<Row>::empty(),
    {
        Store {
            spaces: Table::new(),
            projects: Table::new(),
            tags: Table::new(),
            links: Table::new(),
            tasks: Table::new(),
            task_activity_logs: Table::new(),
            task_tags: Table::new(),
            task_links: Table::new(),
            project_tags: Table::new(),
            project_links: Table::new(),
        }
    }

    /// The table named by `t`.
    pub fn table(&self, t: TableId) -> (r: &Table)
        ensures
            *r == self.spec_table(t),
    {
        match t {
            TableId::Spaces => &self.spaces,
            TableId::Projects => &self.projects,
            TableId::Tags => &self.tags,
            TableId::Links => &self.links,
            TableId::Tasks => &self.tasks,
            TableId::TaskActivityLogs => &self.task_activity_logs,
            TableId::TaskTags => &self.task_tags,
            TableId::TaskLinks => &self.task_links,
            TableId::ProjectTags => &self.project_tags,
            TableId::ProjectLinks => &self.project_links,
        }
    }

    /// The table named by `t`.
    pub open spec fn spec_table(&self, t: TableId) -> Table {
        match t {
            TableId::Spaces => self.spaces,
            TableId::Projects => self.projects,
            TableId::Tags => self.tags,
            TableId::Links => self.links,
            TableId::Tasks => self.tasks,
            TableId::TaskActivityLogs => self.task_activity_logs,
            TableId::TaskTags => self.task_tags,
            TableId::TaskLinks => self.task_links,
            TableId::ProjectTags => self.project_tags,
            TableId::ProjectLinks => self.project_links,
        }
    }
}

/// One table fully synchronized: the destination contents and every report
/// field are those of the spec model.
pub open spec fn table_synced(
    strategy: SyncStrategy,
    src: Seq<Row>,
    old_m: Map<Seq<char>, RowData>,
    new_m: Map<Seq<char>, RowData>,
    rep: SyncTableReport,
    wm: int,
) -> bool {
    &&& new_m == apply_table_sync(strategy, old_m, src, wm)
    &&& rep.total == count_selected(strategy, src, wm)
    &&& rep.inserted == count_inserted(strategy, old_m, src, wm)
    &&& rep.updated == count_updated(strategy, old_m, src, wm)
    &&& rep.skipped == rep.total - rep.inserted - rep.updated
}

/// Every table of `dst_new` holds the result of synchronizing it from `src`
/// against watermark `wm`, and `rep` reports each table accordingly.
pub open spec fn pass_synced(
    src: Store,
    dst_old: Store,
    dst_new: Store,
    rep: SyncTablesReport,
    wm: int,
) -> bool {
    &&& table_synced(
        strategy_spec(TableId::Spaces),
        src.spaces.seq_view(),
        dst_old.spaces.map_view(),
        dst_new.spaces.map_view(),
        rep.spaces,
        wm,
    )
    &&& table_synced(
        strategy_spec(TableId::Projects),
        src.projects.seq_view(),
        dst_old.projects.map_view(),
        dst_new.projects.map_view(),
        rep.projects,
        wm,
    )
    &&& table_synced(
        strategy_spec(TableId::Tags),
        src.tags.seq_view(),
        dst_old.tags.map_view(),
        dst_new.tags.map_view(),
        rep.tags,
        wm,
    )
    &&& table_synced(
        strategy_spec(TableId::Links),
        src.links.seq_view(),
        dst_old.links.map_view(),
        dst_new.links.map_view(),
        rep.links,
        wm,
    )
    &&& table_synced(
        strategy_spec(TableId::Tasks),
        src.tasks.seq_view(),
        dst_old.tasks.map_view(),
        dst_new.tasks.map_view(),
        rep.tasks,
        wm,
    )
    &&& table_synced(
        strategy_spec(TableId::TaskActivityLogs),
        src.task_activity_logs.seq_view(),
        dst_old.task_activity_logs.map_view(),
        dst_new.task_activity_logs.map_view(),
        rep.task_activity_logs,
        wm,
    )
    &&& table_synced(
        strategy_spec(TableId::TaskTags),
        src.task_tags.seq_view(),
        dst_old.task_tags.map_view(),
        dst_new.task_tags.map_view(),
        rep.task_tags,
        wm,
    )
    &&& table_synced(
        strategy_spec(TableId::TaskLinks),
        src.task_links.seq_view(),
        dst_old.task_links.map_view(),
        dst_new.task_links.map_view(),
        rep.task_links,
        wm,
    )
    &&& table_synced(
        strategy_spec(TableId::ProjectTags),
        src.project_tags.seq_view(),
        dst_old.project_tags.map_view(),
        dst_new.project_tags.map_view(),
        rep.project_tags,
        wm,
    )
    &&& table_synced(
        strategy_spec(TableId::ProjectLinks),
        src.project_links.seq_view(),
        dst_old.project_links.map_view(),
        dst_new.project_links.map_view(),
        rep.project_links,
        wm,
    )
}

/// Run the table sync unit over every table of one direction, in dependency
/// order, against the watermark stored under `watermark_key`; afterwards
/// advance that watermark to `pass_start`.
fn run_tables(
    src: &Store,
    dst: &mut Store,
    settings: &mut SettingsStore,
    watermark_key: &str,
    pass_start: i64,
) -> (rep: SyncTablesReport)
    requires
        src.wf(),
        old(dst).wf(),
        old(settings).wf(),
    ensures
        final(dst).wf(),
        final(settings).wf(),
        pass_synced(
            *src,
            *old(dst),
            *final(dst),
            rep,
            old(settings).watermark_view(watermark_key@),
        ),
        final(settings).map_view() == old(settings).map_view().insert(
            watermark_key@,
            dec_i64_spec(pass_start as int),
        ),
{
    let wm = settings.get(watermark_key);
    let spaces = sync_table(strategy_of(TableId::Spaces), &src.spaces, &mut dst.spaces, wm);
    let projects = sync_table(
        strategy_of(TableId::Projects),
        &src.projects,
        &mut dst.projects,
        wm,
    );
    let tags = sync_table(strategy_of(TableId::Tags), &src.tags, &mut dst.tags, wm);
    let links = sync_table(strategy_of(TableId::Links), &src.links, &mut dst.links, wm);
    let tasks = sync_table(strategy_of(TableId::Tasks), &src.tasks, &mut dst.tasks, wm);
    let task_activity_logs = sync_table(
        strategy_of(TableId::TaskActivityLogs),
        &src.task_activity_logs,
        &mut dst.task_activity_logs,
        wm,
    );
    let task_tags = sync_table(
        strategy_of(TableId::TaskTags),
        &src.task_tags,
        &mut dst.task_tags,
        wm,
    );
    let task_links = sync_table(
        strategy_of(TableId::TaskLinks),
        &src.task_links,
        &mut dst.task_links,
        wm,
    );
    let project_tags = sync_table(
        strategy_of(TableId::ProjectTags),
        &src.project_tags,
        &mut dst.project_tags,
        wm,
    );
    let project_links = sync_table(
        strategy_of(TableId::ProjectLinks),
        &src.project_links,
        &mut dst.project_links,
        wm,
    );
    settings.set(watermark_key, pass_start);
    SyncTablesReport {
        spaces,
        projects,
        tags,
        links,
        tasks,
        task_activity_logs,
        task_tags,
        task_links,
        project_tags,
        project_links,
    }
}

/// A whole pull pass against explicit state: remote is the source, local the
/// destination, and `last_pulled_at` the watermark read before and advanced
/// to `pass_start` after.
pub fn run_pull(
    remote: &Store,
    local: &mut Store,
    settings: &mut SettingsStore,
    pass_start: i64,
) -> (r: SyncCommandReport)
    requires
        remote.wf(),
        old(local).wf(),
        old(settings).wf(),
    ensures
        final(local).wf(),
        final(settings).wf(),
        r.synced_at == pass_start,
        pass_synced(
            *remote,
            *old(local),
            *final(local),
            r.tables,
            old(settings).watermark_view("last_pulled_at"@),
        ),
        final(settings).map_view() == old(settings).map_view().insert(
            "last_pulled_at"@,
            dec_i64_spec(pass_start as int),
        ),
        final(settings).watermark_view("last_pulled_at"@) == pass_start as int,
        final(settings).watermark_view("last_pushed_at"@)
            == old(settings).watermark_view("last_pushed_at"@),
{
    let tables = run_tables(remote, local, settings, key_last_pulled_at(), pass_start);
    proof {
        crate::numtext::lemma_dec_parse_roundtrip(pass_start);
        crate::watermark::lemma_watermark_keys_distinct();
    }
    SyncCommandReport { synced_at: pass_start, tables }
}

/// A whole push pass against explicit state: local is the source, remote the
/// destination, and `last_pushed_at` the watermark read before and advanced
/// to `pass_start` after.
pub fn run_push(
    local: &Store,
    remote: &mut Store,
    settings: &mut SettingsStore,
    pass_start: i64,
) -> (r: SyncCommandReport)
    requires
        local.wf(),
        old(remote).wf(),
        old(settings).wf(),
    ensures
        final(remote).wf(),
        final(settings).wf(),
        r.synced_at == pass_start,
        pass_synced(
            *local,
            *old(remote),
            *final(remote),
            r.tables,
            old(settings).watermark_view("last_pushed_at"@),
        ),
        final(settings).map_view() == old(settings).map_view().insert(
            "last_pushed_at"@,
            dec_i64_spec(pass_start as int),
        ),
        final(settings).watermark_view("last_pushed_at"@) == pass_start as int,
        final(settings).watermark_view("last_pulled_at"@)
            == old(settings).watermark_view("last_pulled_at"@),
{
    let tables = run_tables(local, remote, settings, key_last_pushed_at(), pass_start);
    proof {
        crate::numtext::lemma_dec_parse_roundtrip(pass_start);
        crate::watermark::lemma_watermark_keys_distinct();
    }
    SyncCommandReport { synced_at: pass_start, tables }
}

/// Pull: remote to local.  An empty (after trimming) URL is rejected before
/// anything is read or written; otherwise the pass runs and, on success,
/// advances `last_pulled_at` to `pass_start`.  The caller must read the
/// clock for `pass_start` before it reads the snapshots it passes in, so
/// that rows changed while the snapshots were being read stay above the
/// stored watermark and are re-examined by the next pass.
pub fn pull(
    database_url: &str,
    remote: &Store,
    local: &mut Store,
    settings: &mut SettingsStore,
    pass_start: i64,
) -> (r: Result<SyncCommandReport, SyncError>)
    requires
        remote.wf(),
        old(local).wf(),
        old(settings).wf(),
    ensures
        final(local).wf(),
        final(settings).wf(),
        match r {
            Ok(rep) => {
                &&& trim_spec(database_url@).len() > 0
                &&& rep.synced_at == pass_start
                &&& pass_synced(
                    *remote,
                    *old(local),
                    *final(local),
                    rep.tables,
                    old(settings).watermark_view("last_pulled_at"@),
                )
                &&& final(settings).map_view() == old(settings).map_view().insert(
                    "last_pulled_at"@,
                    dec_i64_spec(rep.synced_at as int),
                )
                &&& final(settings).watermark_view("last_pulled_at"@) == rep.synced_at as int
                &&& final(settings).watermark_view("last_pushed_at"@)
                    == old(settings).watermark_view("last_pushed_at"@)
            },
            Err(e) => {
                &&& e is Validation
                &&& trim_spec(database_url@).len() == 0
                &&& *final(local) == *old(local)
                &&& *final(settings) == *old(settings)
            },
        },
{
    match prepare_remote_url(database_url) {
        Ok(_) => Ok(run_pull(remote, local, settings, pass_start)),
        Err(e) => Err(e),
    }
}

/// Push: local to remote, the mirror image of [`pull`]; the same rule on
/// capturing `pass_start` before reading the snapshots applies.
pub fn push(
    database_url: &str,
    local: &Store,
    remote: &mut Store,
    settings: &mut SettingsStore,
    pass_start: i64,
) -> (r: Result<SyncCommandReport, SyncError>)
    requires
        local.wf(),
        old(remote).wf(),
        old(settings).wf(),
    ensures
        final(remote).wf(),
        final(settings).wf(),
        match r {
            Ok(rep) => {
                &&& trim_spec(database_url@).len() > 0
                &&& rep.synced_at == pass_start
                &&& pass_synced(
                    *local,
                    *old(remote),
                    *final(remote),
                    rep.tables,
                    old(settings).watermark_view("last_pushed_at"@),
                )
                &&& final(settings).map_view() == old(settings).map_view().insert(
                    "last_pushed_at"@,
                    dec_i64_spec(rep.synced_at as int),
                )
                &&& final(settings).watermark_view("last_pushed_at"@) == rep.synced_at as int
                &&& final(settings).watermark_view("last_pulled_at"@)
                    == old(settings).watermark_view("last_pulled_at"@)
            },
            Err(e) => {
                &&& e is Validation
                &&& trim_spec(database_url@).len() == 0
                &&& *final(remote) == *old(remote)
                &&& *final(settings) == *old(settings)
            },
        },
{
    match prepare_remote_url(database_url) {
        Ok(_) => Ok(run_push(local, remote, settings, pass_start)),
        Err(e) => Err(e),
    }
}

} // verus!
