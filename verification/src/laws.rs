//! Cross-cutting guarantees of the sync engine, proved against the spec
//! model that [`crate::engine`] and [`crate::sync`] expose in their
//! contracts: idempotence of repeated passes, watermark monotonicity,
//! foreign-key dependency safety, and convergence under last-writer-wins.

use vstd::prelude::*;
use crate::engine::{
    apply_table_sync, count_inserted, count_selected, count_updated, row_selected,
};
use crate::numtext::{dec_i64_spec, lemma_dec_parse_roundtrip};
use crate::report::{SyncCommandReport, SyncTableReport, SyncTablesReport};
use crate::row::{Row, RowData};
use crate::schema::{strategy_spec, SyncStrategy, TableId};
use crate::sync::{pass_synced, table_synced, Store};
use crate::watermark::SettingsStore;

verus! {

proof fn lemma_sync_no_selected(
    strategy: SyncStrategy,
    m: Map<Seq<char>, RowData>,
    s: Seq<Row>,
    wm: int,
)
    requires
        forall|i: int| 0 <= i < s.len() ==> !row_selected(strategy, s[i], wm),
    ensures
        apply_table_sync(strategy, m, s, wm) == m,
        count_selected(strategy, s, wm) == 0,
        count_inserted(strategy, m, s, wm) == 0,
        count_updated(strategy, m, s, wm) == 0,
    decreases s.len(),
{
    if s.len() > 0 {
        assert(forall|i: int| 0 <= i < s.len() - 1 ==> s.drop_last()[i] == s[i]);
        lemma_sync_no_selected(strategy, m, s.drop_last(), wm);
        assert(!row_selected(strategy, s.last(), wm)) by {
            assert(s[s.len() - 1] == s.last());
        }
    }
}

proof fn lemma_sync_key_preserved(
    strategy: SyncStrategy,
    m: Map<Seq<char>, RowData>,
    s: Seq<Row>,
    wm: int,
    k: Seq<char>,
)
    requires
        m.contains_key(k),
    ensures
        apply_table_sync(strategy, m, s, wm).contains_key(k),
    decreases s.len(),
{
    if s.len() > 0 {
        lemma_sync_key_preserved(strategy, m, s.drop_last(), wm, k);
    }
}

proof fn lemma_sync_selected_present(
    strategy: SyncStrategy,
    m: Map<Seq<char>, RowData>,
    s: Seq<Row>,
    wm: int,
    i: int,
)
    requires
        0 <= i < s.len(),
        row_selected(strategy, s[i], wm),
    ensures
        apply_table_sync(strategy, m, s, wm).contains_key(s[i].key@),
    decreases s.len(),
{
    if i == s.len() - 1 {
        assert(s.last() == s[i]);
    } else {
        assert(s.drop_last()[i] == s[i]);
        lemma_sync_selected_present(strategy, m, s.drop_last(), wm, i);
    }
}

proof fn lemma_sync_all_present_noop(
    strategy: SyncStrategy,
    m: Map<Seq<char>, RowData>,
    s: Seq<Row>,
    wm: int,
)
    requires
        strategy != SyncStrategy::IncrementalUpsert,
        forall|i: int| 0 <= i < s.len() ==> m.contains_key(#[trigger] s[i].key@),
    ensures
        apply_table_sync(strategy, m, s, wm) == m,
        count_inserted(strategy, m, s, wm) == 0,
    decreases s.len(),
{
    if s.len() > 0 {
        assert(forall|i: int| 0 <= i < s.len() - 1 ==> s.drop_last()[i] == s[i]);
        lemma_sync_all_present_noop(strategy, m, s.drop_last(), wm);
        assert(m.contains_key(s.last().key@)) by {
            assert(s[s.len() - 1] == s.last());
        }
    }
}

proof fn lemma_count_updated_non_upsert(
    strategy: SyncStrategy,
    m: Map<Seq<char>, RowData>,
    s: Seq<Row>,
    wm: int,
)
    requires
        strategy != SyncStrategy::IncrementalUpsert,
    ensures
        count_updated(strategy, m, s, wm) == 0,
    decreases s.len(),
{
    if s.len() > 0 {
        lemma_count_updated_non_upsert(strategy, m, s.drop_last(), wm);
    }
}

proof fn lemma_sync_untouched(
    strategy: SyncStrategy,
    m: Map<Seq<char>, RowData>,
    s: Seq<Row>,
    wm: int,
    k: Seq<char>,
)
    requires
        forall|i: int| 0 <= i < s.len() ==> #[trigger] s[i].key@ != k,
    ensures
        apply_table_sync(strategy, m, s, wm).contains_key(k) == m.contains_key(k),
        m.contains_key(k) ==> apply_table_sync(strategy, m, s, wm)[k] == m[k],
    decreases s.len(),
{
    if s.len() > 0 {
        assert(forall|i: int| 0 <= i < s.len() - 1 ==> s.drop_last()[i] == s[i]);
        lemma_sync_untouched(strategy, m, s.drop_last(), wm, k);
        assert(s[s.len() - 1].key@ != k);
    }
}

proof fn lemma_sync_upsert_row(
    m: Map<Seq<char>, RowData>,
    s: Seq<Row>,
    wm: int,
    i: int,
)
    requires
        crate::row::unique_keys(s),
        0 <= i < s.len(),
        row_selected(SyncStrategy::IncrementalUpsert, s[i], wm),
    ensures
        ({
            let a = apply_table_sync(SyncStrategy::IncrementalUpsert, m, s, wm);
            let k = s[i].key@;
            &&& a.contains_key(k)
            &&& a[k].changed_at == s[i].changed_at as int
            &&& a[k].payload == s[i].payload@
            &&& !m.contains_key(k) ==> a[k].fixed == s[i].fixed@
            &&& m.contains_key(k) ==> a[k].fixed == m[k].fixed
        }),
    decreases s.len(),
{
    let k = s[i].key@;
    if i == s.len() - 1 {
        assert(s.last() == s[i]);
        assert(forall|j: int| 0 <= j < s.len() - 1 ==> #[trigger] s.drop_last()[j].key@ != k);
        lemma_sync_untouched(SyncStrategy::IncrementalUpsert, m, s.drop_last(), wm, k);
    } else {
        assert(crate::row::unique_keys(s.drop_last())) by {
            assert(forall|p: int, q: int|
                0 <= p < q < s.len() - 1 ==> s.drop_last()[p] == s[p] && s.drop_last()[q]
                    == s[q]);
        }
        assert(s.drop_last()[i] == s[i]);
        lemma_sync_upsert_row(m, s.drop_last(), wm, i);
        assert(s.last().key@ != k) by {
            assert(s[s.len() - 1] == s.last());
        }
    }
}

proof fn lemma_sync_content_cases(
    strategy: SyncStrategy,
    m: Map<Seq<char>, RowData>,
    s: Seq<Row>,
    wm: int,
    k: Seq<char>,
)
    requires
        apply_table_sync(strategy, m, s, wm).contains_key(k),
    ensures
        ({
            let a = apply_table_sync(strategy, m, s, wm);
            (m.contains_key(k) && a[k].payload == m[k].payload) || (exists|i: int|
                0 <= i < s.len() && #[trigger] s[i].key@ == k && row_selected(strategy, s[i], wm)
                    && a[k].payload == s[i].payload@)
        }),
    decreases s.len(),
{
    let a = apply_table_sync(strategy, m, s, wm);
    if s.len() == 0 {
    } else {
        let m1 = apply_table_sync(strategy, m, s.drop_last(), wm);
        let last = s.last();
        assert(s[s.len() - 1] == last);
        if row_selected(strategy, last, wm) && last.key@ == k {
            match strategy {
                SyncStrategy::IncrementalUpsert => {
                    assert(a[k].payload == last.payload@);
                },
                _ => {
                    if m1.contains_key(k) {
                        lemma_sync_content_cases(strategy, m, s.drop_last(), wm, k);
                    } else {
                        assert(a[k].payload == last.payload@);
                    }
                },
            }
        } else {
            lemma_sync_content_cases(strategy, m, s.drop_last(), wm, k);
        }
    }
}

proof fn lemma_table_second_pass(
    strategy: SyncStrategy,
    src: Seq<Row>,
    m0: Map<Seq<char>, RowData>,
    m1: Map<Seq<char>, RowData>,
    m2: Map<Seq<char>, RowData>,
    rep1: SyncTableReport,
    rep2: SyncTableReport,
    wm0: int,
    t1: int,
)
    requires
        table_synced(strategy, src, m0, m1, rep1, wm0),
        table_synced(strategy, src, m1, m2, rep2, t1),
        forall|i: int| 0 <= i < src.len() ==> #[trigger] src[i].changed_at <= t1,
    ensures
        rep2.inserted == 0,
        rep2.updated == 0,
        rep2.skipped == rep2.total,
        m2 == m1,
{
    match strategy {
        SyncStrategy::FullScanDedup => {
            assert(forall|i: int|
                0 <= i < src.len() ==> m1.contains_key(#[trigger] src[i].key@)) by {
                assert forall|i: int| 0 <= i < src.len() implies m1.contains_key(
                    #[trigger] src[i].key@,
                ) by {
                    lemma_sync_selected_present(strategy, m0, src, wm0, i);
                }
            }
            lemma_sync_all_present_noop(strategy, m1, src, t1);
            lemma_count_updated_non_upsert(strategy, m1, src, t1);
        },
        _ => {
            assert(forall|i: int|
                0 <= i < src.len() ==> !row_selected(strategy, #[trigger] src[i], t1));
            lemma_sync_no_selected(strategy, m1, src, t1);
        },
    }
}

/// No row of any table of `s` carries a change timestamp after `cut`.
pub open spec fn no_changes_after(s: Store, cut: int) -> bool {
    forall|t: TableId, i: int|
        0 <= i < s.spec_table(t).seq_view().len() ==> (#[trigger] s.spec_table(
            t,
        ).seq_view()[i]).changed_at <= cut
}

/// Idempotence: when a pull pass completes and the remote holds no row
/// changed after that pass's start timestamp, a second pull from the same
/// remote inserts nothing and updates nothing; every table of the second
/// report says `inserted == 0`, `updated == 0` and `skipped == total`, and
/// the local store is left exactly as the first pass left it.
pub proof fn pull_twice_idempotent(
    remote: Store,
    local0: Store,
    local1: Store,
    local2: Store,
    s0: SettingsStore,
    s1: SettingsStore,
    rep1: SyncCommandReport,
    rep2: SyncCommandReport,
)
    requires
        pass_synced(remote, local0, local1, rep1.tables, s0.watermark_view("last_pulled_at"@)),
        s1.watermark_view("last_pulled_at"@) == rep1.synced_at as int,
        pass_synced(remote, local1, local2, rep2.tables, s1.watermark_view("last_pulled_at"@)),
        no_changes_after(remote, rep1.synced_at as int),
    ensures
        rep2.tables.spaces.inserted == 0 && rep2.tables.spaces.updated == 0
            && rep2.tables.spaces.skipped == rep2.tables.spaces.total,
        rep2.tables.projects.inserted == 0 && rep2.tables.projects.updated == 0
            && rep2.tables.projects.skipped == rep2.tables.projects.total,
        rep2.tables.tags.inserted == 0 && rep2.tables.tags.updated == 0
            && rep2.tables.tags.skipped == rep2.tables.tags.total,
        rep2.tables.links.inserted == 0 && rep2.tables.links.updated == 0
            && rep2.tables.links.skipped == rep2.tables.links.total,
        rep2.tables.tasks.inserted == 0 && rep2.tables.tasks.updated == 0
            && rep2.tables.tasks.skipped == rep2.tables.tasks.total,
        rep2.tables.task_activity_logs.inserted == 0 && rep2.tables.task_activity_logs.updated
            == 0 && rep2.tables.task_activity_logs.skipped
            == rep2.tables.task_activity_logs.total,
        rep2.tables.task_tags.inserted == 0 && rep2.tables.task_tags.updated == 0
            && rep2.tables.task_tags.skipped == rep2.tables.task_tags.total,
        rep2.tables.task_links.inserted == 0 && rep2.tables.task_links.updated == 0
            && rep2.tables.task_links.skipped == rep2.tables.task_links.total,
        rep2.tables.project_tags.inserted == 0 && rep2.tables.project_tags.updated == 0
            && rep2.tables.project_tags.skipped == rep2.tables.project_tags.total,
        rep2.tables.project_links.inserted == 0 && rep2.tables.project_links.updated == 0
            && rep2.tables.project_links.skipped == rep2.tables.project_links.total,
        local2.spaces.map_view() == local1.spaces.map_view(),
        local2.projects.map_view() == local1.projects.map_view(),
        local2.tags.map_view() == local1.tags.map_view(),
        local2.links.map_view() == local1.links.map_view(),
        local2.tasks.map_view() == local1.tasks.map_view(),
        local2.task_activity_logs.map_view() == local1.task_activity_logs.map_view(),
        local2.task_tags.map_view() == local1.task_tags.map_view(),
        local2.task_links.map_view() == local1.task_links.map_view(),
        local2.project_tags.map_view() == local1.project_tags.map_view(),
        local2.project_links.map_view() == local1.project_links.map_view(),
{
    let wm0 = s0.watermark_view("last_pulled_at"@);
    let t1 = rep1.synced_at as int;
    assert(no_changes_after(remote, t1));
    assert(forall|i: int|
        0 <= i < remote.spaces.seq_view().len() ==> (#[trigger] remote.spaces.seq_view()[i]).changed_at
            <= t1) by {
        assert(remote.spec_table(TableId::Spaces) == remote.spaces);
    }
    lemma_table_second_pass(
        strategy_spec(TableId::Spaces),
        remote.spaces.seq_view(),
        local0.spaces.map_view(),
        local1.spaces.map_view(),
        local2.spaces.map_view(),
        rep1.tables.spaces,
        rep2.tables.spaces,
        wm0,
        t1,
    );
    assert(forall|i: int|
        0 <= i < remote.projects.seq_view().len() ==> (#[trigger] remote.projects.seq_view()[i]).changed_at
            <= t1) by {
        assert(remote.spec_table(TableId::Projects) == remote.projects);
    }
    lemma_table_second_pass(
        strategy_spec(TableId::Projects),
        remote.projects.seq_view(),
        local0.projects.map_view(),
        local1.projects.map_view(),
        local2.projects.map_view(),
        rep1.tables.projects,
        rep2.tables.projects,
        wm0,
        t1,
    );
    assert(forall|i: int|
        0 <= i < remote.tags.seq_view().len() ==> (#[trigger] remote.tags.seq_view()[i]).changed_at
            <= t1) by {
        assert(remote.spec_table(TableId::Tags) == remote.tags);
    }
    lemma_table_second_pass(
        strategy_spec(TableId::Tags),
        remote.tags.seq_view(),
        local0.tags.map_view(),
        local1.tags.map_view(),
        local2.tags.map_view(),
        rep1.tables.tags,
        rep2.tables.tags,
        wm0,
        t1,
    );
    assert(forall|i: int|
        0 <= i < remote.links.seq_view().len() ==> (#[trigger] remote.links.seq_view()[i]).changed_at
            <= t1) by {
        assert(remote.spec_table(TableId::Links) == remote.links);
    }
    lemma_table_second_pass(
        strategy_spec(TableId::Links),
        remote.links.seq_view(),
        local0.links.map_view(),
        local1.links.map_view(),
        local2.links.map_view(),
        rep1.tables.links,
        rep2.tables.links,
        wm0,
        t1,
    );
    assert(forall|i: int|
        0 <= i < remote.tasks.seq_view().len() ==> (#[trigger] remote.tasks.seq_view()[i]).changed_at
            <= t1) by {
        assert(remote.spec_table(TableId::Tasks) == remote.tasks);
    }
    lemma_table_second_pass(
        strategy_spec(TableId::Tasks),
        remote.tasks.seq_view(),
        local0.tasks.map_view(),
        local1.tasks.map_view(),
        local2.tasks.map_view(),
        rep1.tables.tasks,
        rep2.tables.tasks,
        wm0,
        t1,
    );
    assert(forall|i: int|
        0 <= i < remote.task_activity_logs.seq_view().len() ==> (
        #[trigger] remote.task_activity_logs.seq_view()[i]).changed_at <= t1) by {
        assert(remote.spec_table(TableId::TaskActivityLogs) == remote.task_activity_logs);
    }
    lemma_table_second_pass(
        strategy_spec(TableId::TaskActivityLogs),
        remote.task_activity_logs.seq_view(),
        local0.task_activity_logs.map_view(),
        local1.task_activity_logs.map_view(),
        local2.task_activity_logs.map_view(),
        rep1.tables.task_activity_logs,
        rep2.tables.task_activity_logs,
        wm0,
        t1,
    );
    assert(forall|i: int|
        0 <= i < remote.task_tags.seq_view().len() ==> (#[trigger] remote.task_tags.seq_view()[i]).changed_at
            <= t1) by {
        assert(remote.spec_table(TableId::TaskTags) == remote.task_tags);
    }
    lemma_table_second_pass(
        strategy_spec(TableId::TaskTags),
        remote.task_tags.seq_view(),
        local0.task_tags.map_view(),
        local1.task_tags.map_view(),
        local2.task_tags.map_view(),
        rep1.tables.task_tags,
        rep2.tables.task_tags,
        wm0,
        t1,
    );
    assert(forall|i: int|
        0 <= i < remote.task_links.seq_view().len() ==> (#[trigger] remote.task_links.seq_view()[i]).changed_at
            <= t1) by {
        assert(remote.spec_table(TableId::TaskLinks) == remote.task_links);
    }
    lemma_table_second_pass(
        strategy_spec(TableId::TaskLinks),
        remote.task_links.seq_view(),
        local0.task_links.map_view(),
        local1.task_links.map_view(),
        local2.task_links.map_view(),
        rep1.tables.task_links,
        rep2.tables.task_links,
        wm0,
        t1,
    );
    assert(forall|i: int|
        0 <= i < remote.project_tags.seq_view().len() ==> (#[trigger] remote.project_tags.seq_view()[i]).changed_at
            <= t1) by {
        assert(remote.spec_table(TableId::ProjectTags) == remote.project_tags);
    }
    lemma_table_second_pass(
        strategy_spec(TableId::ProjectTags),
        remote.project_tags.seq_view(),
        local0.project_tags.map_view(),
        local1.project_tags.map_view(),
        local2.project_tags.map_view(),
        rep1.tables.project_tags,
        rep2.tables.project_tags,
        wm0,
        t1,
    );
    assert(forall|i: int|
        0 <= i < remote.project_links.seq_view().len() ==> (
        #[trigger] remote.project_links.seq_view()[i]).changed_at <= t1) by {
        assert(remote.spec_table(TableId::ProjectLinks) == remote.project_links);
    }
    lemma_table_second_pass(
        strategy_spec(TableId::ProjectLinks),
        remote.project_links.seq_view(),
        local0.project_links.map_view(),
        local1.project_links.map_view(),
        local2.project_links.map_view(),
        rep1.tables.project_links,
        rep2.tables.project_links,
        wm0,
        t1,
    );
}

/// Watermark monotonicity: a successful pass stores exactly its start
/// timestamp, so as long as the clock read at the start of the pass is not
/// behind the stored watermark, the stored watermark never decreases and
/// never exceeds the wall-clock time at completion.
pub proof fn watermark_monotonic(
    s0: SettingsStore,
    s1: SettingsStore,
    key: Seq<char>,
    pass_start: i64,
    completion: int,
)
    requires
        s1.map_view() == s0.map_view().insert(key, dec_i64_spec(pass_start as int)),
        s0.watermark_view(key) <= pass_start as int,
        pass_start as int <= completion,
    ensures
        s0.watermark_view(key) <= s1.watermark_view(key),
        s1.watermark_view(key) <= completion,
        s1.watermark_view(key) == pass_start as int,
{
    lemma_dec_parse_roundtrip(pass_start);
}

/// Dependency safety: after a pull pass, every task row in the local store
/// references a project that is also in the local store, provided the remote
/// was consistent, the local store was consistent, and the local projects
/// were complete up to the watermark.  `project_ref` is how the surrounding
/// application reads the project reference out of a task row's update
/// columns; the engine treats that text as opaque, so the guarantee holds
/// for every such reading.
pub proof fn dependency_safety(
    remote: Store,
    local0: Store,
    local1: Store,
    rep: SyncTablesReport,
    wm: int,
    project_ref: spec_fn(Seq<char>) -> Option<Seq<char>>,
)
    requires
        remote.wf(),
        pass_synced(remote, local0, local1, rep, wm),
        // every remote task references a remote project
        forall|i: int|
            0 <= i < remote.tasks.seq_view().len() ==> match project_ref(
                (#[trigger] remote.tasks.seq_view()[i]).payload@,
            ) {
                Some(p) => remote.projects.map_view().contains_key(p),
                None => true,
            },
        // every local task references a local project
        forall|k: Seq<char>|
            local0.tasks.map_view().contains_key(k) ==> match project_ref(
                (#[trigger] local0.tasks.map_view()[k]).payload,
            ) {
                Some(p) => local0.projects.map_view().contains_key(p),
                None => true,
            },
        // the local projects hold every remote project changed at or before
        // the watermark
        forall|i: int|
            0 <= i < remote.projects.seq_view().len() && (
            #[trigger] remote.projects.seq_view()[i]).changed_at <= wm
                ==> local0.projects.map_view().contains_key(remote.projects.seq_view()[i].key@),
    ensures
        forall|k: Seq<char>|
            local1.tasks.map_view().contains_key(k) ==> match project_ref(
                (#[trigger] local1.tasks.map_view()[k]).payload,
            ) {
                Some(p) => local1.projects.map_view().contains_key(p),
                None => true,
            },
{
    let tasks_new = local1.tasks.map_view();
    assert forall|k: Seq<char>| tasks_new.contains_key(k) implies match project_ref(
        (#[trigger] tasks_new[k]).payload,
    ) {
        Some(p) => local1.projects.map_view().contains_key(p),
        None => true,
    } by {
        let strat = strategy_spec(TableId::Tasks);
        lemma_sync_content_cases(
            strat,
            local0.tasks.map_view(),
            remote.tasks.seq_view(),
            wm,
            k,
        );
        if local0.tasks.map_view().contains_key(k) && tasks_new[k].payload
            == local0.tasks.map_view()[k].payload {
            // the row kept its local update columns
            match project_ref(tasks_new[k].payload) {
                Some(p) => {
                    lemma_sync_key_preserved(
                        strategy_spec(TableId::Projects),
                        local0.projects.map_view(),
                        remote.projects.seq_view(),
                        wm,
                        p,
                    );
                },
                None => {},
            }
        } else {
            // the row carries a selected remote row's update columns
            let i = choose|i: int|
                0 <= i < remote.tasks.seq_view().len() && #[trigger] remote.tasks.seq_view()[i].key@
                    == k && row_selected(strat, remote.tasks.seq_view()[i], wm)
                    && tasks_new[k].payload == remote.tasks.seq_view()[i].payload@;
            match project_ref(tasks_new[k].payload) {
                Some(p) => {
                    crate::row::lemma_rows_map_contains(remote.projects.seq_view(), p);
                    let j = choose|j: int|
                        0 <= j < remote.projects.seq_view().len()
                            && #[trigger] remote.projects.seq_view()[j].key@ == p;
                    let prj = remote.projects.seq_view()[j];
                    if prj.changed_at <= wm {
                        lemma_sync_key_preserved(
                            strategy_spec(TableId::Projects),
                            local0.projects.map_view(),
                            remote.projects.seq_view(),
                            wm,
                            p,
                        );
                    } else {
                        lemma_sync_selected_present(
                            strategy_spec(TableId::Projects),
                            local0.projects.map_view(),
                            remote.projects.seq_view(),
                            wm,
                            j,
                        );
                    }
                },
                None => {},
            }
        }
    }
}

/// Convergence under last-writer-wins: whatever the destination held at key
/// `K` beforehand, after an incremental-upsert synchronization the
/// destination row at `K` carries exactly the selected source row's change
/// timestamp and update columns; a row that was absent is copied whole.
pub proof fn convergence_lww(
    src: Seq<Row>,
    m0: Map<Seq<char>, RowData>,
    m1: Map<Seq<char>, RowData>,
    rep: SyncTableReport,
    wm: int,
    i: int,
)
    requires
        crate::row::unique_keys(src),
        table_synced(SyncStrategy::IncrementalUpsert, src, m0, m1, rep, wm),
        0 <= i < src.len(),
        src[i].changed_at > wm,
    ensures
        m1.contains_key(src[i].key@),
        m1[src[i].key@].changed_at == src[i].changed_at as int,
        m1[src[i].key@].payload == src[i].payload@,
        !m0.contains_key(src[i].key@) ==> m1[src[i].key@] == src[i].data(),
{
    lemma_sync_upsert_row(m0, src, wm, i);
}

} // verus!
