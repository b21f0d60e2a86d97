use stoneflow::connector::{prepare_remote_url, remote_pool_config};
use stoneflow::engine::sync_table;
use stoneflow::error::{SyncError, SyncErrorKind};
use stoneflow::phases::{advance_phase, PassEvent, PassPhase, SYNCED_TABLE_COUNT};
use stoneflow::report::SyncTableReport;
use stoneflow::row::{Row, Table};
use stoneflow::schema::{descriptor_for, strategy_of, table_order, update_columns, SyncStrategy, TableId};
use stoneflow::sync::now_ms;
use stoneflow::watermark::{key_last_pulled_at, key_last_pushed_at, SettingsStore};

fn row(key: &str, changed_at: i64, payload: &str) -> Row {
    Row {
        key: key.to_string(),
        changed_at,
        payload: payload.to_string(),
        fixed: String::new(),
    }
}

#[test]
fn incremental_upsert_selects_by_watermark_and_classifies() {
    let mut source = Table::new();
    assert!(source.insert_if_absent(row("a", 50, "old")));
    assert!(source.insert_if_absent(row("b", 150, "new")));
    assert!(source.insert_if_absent(row("c", 200, "newer")));
    let mut dest = Table::new();
    assert!(dest.insert_if_absent(row("b", 10, "stale")));

    let rep = sync_table(SyncStrategy::IncrementalUpsert, &source, &mut dest, 100);

    assert_eq!(rep, SyncTableReport { total: 2, inserted: 1, updated: 1, skipped: 0 });
    assert_eq!(dest.get("b").unwrap().payload, "new");
    assert_eq!(dest.get("c").unwrap().payload, "newer");
    assert!(dest.get("a").is_none());
}

#[test]
fn append_only_never_updates() {
    let mut source = Table::new();
    assert!(source.insert_if_absent(row("log1", 150, "first")));
    assert!(source.insert_if_absent(row("log2", 160, "second")));
    let mut dest = Table::new();
    assert!(dest.insert_if_absent(row("log1", 150, "already here")));

    let rep = sync_table(SyncStrategy::AppendOnly, &source, &mut dest, 100);

    assert_eq!(rep, SyncTableReport { total: 2, inserted: 1, updated: 0, skipped: 1 });
    // the existing row is left untouched
    assert_eq!(dest.get("log1").unwrap().payload, "already here");
    assert_eq!(dest.get("log2").unwrap().payload, "second");
}

#[test]
fn full_scan_ignores_the_watermark() {
    let mut source = Table::new();
    assert!(source.insert_if_absent(row("j1", 0, "")));
    let mut dest = Table::new();

    let rep = sync_table(SyncStrategy::FullScanDedup, &source, &mut dest, 1_000_000);

    assert_eq!(rep, SyncTableReport { total: 1, inserted: 1, updated: 0, skipped: 0 });
}

#[test]
fn dependency_order_lists_parents_before_children() {
    let order = table_order();
    assert_eq!(order.len(), SYNCED_TABLE_COUNT);
    let pos = |t: TableId| order.iter().position(|x| *x == t).unwrap();
    assert!(pos(TableId::Spaces) < pos(TableId::Projects));
    assert!(pos(TableId::Projects) < pos(TableId::Tasks));
    assert!(pos(TableId::Tags) < pos(TableId::TaskTags));
    assert!(pos(TableId::Links) < pos(TableId::TaskLinks));
    assert!(pos(TableId::Tasks) < pos(TableId::TaskActivityLogs));
    // junction tables come last
    for t in [TableId::TaskTags, TableId::TaskLinks, TableId::ProjectTags, TableId::ProjectLinks]
    {
        assert!(pos(t) > pos(TableId::TaskActivityLogs));
    }
}

#[test]
fn descriptors_match_their_strategies() {
    for t in table_order() {
        let d = descriptor_for(t);
        assert_eq!(d.strategy, strategy_of(t));
        match d.strategy {
            SyncStrategy::FullScanDedup => {
                assert!(d.change_column.is_none());
                assert!(d.second_key_column.is_some());
                assert!(update_columns(t).is_empty());
            }
            SyncStrategy::AppendOnly => {
                assert_eq!(d.change_column, Some("created_at"));
                assert!(update_columns(t).is_empty());
            }
            SyncStrategy::IncrementalUpsert => {
                assert_eq!(d.change_column, Some("updated_at"));
                assert!(!update_columns(t).is_empty());
            }
        }
    }
    assert_eq!(descriptor_for(TableId::Spaces).name, "spaces");
    assert_eq!(descriptor_for(TableId::TaskTags).key_column, "task_id");
    assert_eq!(descriptor_for(TableId::TaskTags).second_key_column, Some("tag_id"));
}

#[test]
fn pool_config_stays_small() {
    let cfg = remote_pool_config();
    assert_eq!(cfg.max_connections, 4);
    assert_eq!(cfg.min_connections, 0);
    assert_eq!(cfg.connect_timeout_secs, 12);
    assert_eq!(cfg.acquire_timeout_secs, 20);
    assert_eq!(cfg.idle_timeout_secs, 30);
}

#[test]
fn url_preparation_trims_and_rejects_empty() {
    assert_eq!(prepare_remote_url(" postgres://x ").unwrap(), "postgres://x");
    let err = prepare_remote_url("  ").unwrap_err();
    assert_eq!(err.kind(), SyncErrorKind::Validation);
    assert!(!err.message().is_empty());
}

#[test]
fn watermark_store_reads_what_it_wrote_and_recovers_corrupt_text() {
    let mut s = SettingsStore::new();
    assert_eq!(s.get(key_last_pulled_at()), 0);
    s.set(key_last_pulled_at(), 1_736_816_400_000);
    assert_eq!(s.get(key_last_pulled_at()), 1_736_816_400_000);
    assert_eq!(s.get(key_last_pushed_at()), 0);
    s.set(key_last_pulled_at(), 1_736_816_400_001);
    assert_eq!(s.get(key_last_pulled_at()), 1_736_816_400_001);
    assert_eq!(s.get_raw(key_last_pulled_at()).unwrap().as_str(), "1736816400001");
    assert!(s.get_raw(key_last_pushed_at()).is_none());
    // corrupt persisted text recovers as zero and is never an error
    s.set_raw(key_last_pushed_at(), "not-a-number");
    assert_eq!(s.get(key_last_pushed_at()), 0);
    s.set_raw(key_last_pushed_at(), "123");
    assert_eq!(s.get(key_last_pushed_at()), 123);
}

#[test]
fn report_constructors_count_the_rest_as_skipped() {
    assert_eq!(
        SyncTableReport::upsert(10, 4, 3),
        SyncTableReport { total: 10, inserted: 4, updated: 3, skipped: 3 }
    );
    assert_eq!(
        SyncTableReport::dedup(5, 2),
        SyncTableReport { total: 5, inserted: 2, updated: 0, skipped: 3 }
    );
    // inconsistent counts saturate instead of wrapping
    assert_eq!(SyncTableReport::dedup(1, 5).skipped, 0);
}

#[test]
fn pass_phases_advance_in_order_and_failures_absorb() {
    let mut p = PassPhase::Idle;
    p = advance_phase(p, PassEvent::UrlAccepted);
    assert_eq!(p, PassPhase::Connecting);
    p = advance_phase(p, PassEvent::Connected);
    assert_eq!(p, PassPhase::MigratingRemote);
    p = advance_phase(p, PassEvent::MigratedRemote);
    assert_eq!(p, PassPhase::SyncingTable(0));
    for i in 0..SYNCED_TABLE_COUNT {
        assert_eq!(p, PassPhase::SyncingTable(i));
        p = advance_phase(p, PassEvent::TableSynced);
    }
    assert_eq!(p, PassPhase::AdvancingWatermark);
    p = advance_phase(p, PassEvent::WatermarkSaved);
    assert_eq!(p, PassPhase::Done);

    let failed = advance_phase(PassPhase::SyncingTable(3), PassEvent::TableFailed);
    assert_eq!(failed, PassPhase::Failed);
    // no event leaves the failed state
    assert_eq!(advance_phase(failed, PassEvent::TableSynced), PassPhase::Failed);
    assert_eq!(advance_phase(failed, PassEvent::WatermarkSaved), PassPhase::Failed);
}

#[test]
fn clock_is_after_the_epoch() {
    assert!(now_ms() >= 0);
}

#[test]
fn every_error_variant_names_its_stage() {
    let cases = [
        (SyncError::Validation("v".to_string()), SyncErrorKind::Validation),
        (SyncError::Connection("c".to_string()), SyncErrorKind::Connection),
        (SyncError::Migration("m".to_string()), SyncErrorKind::Migration),
        (SyncError::Query("q".to_string()), SyncErrorKind::Query),
    ];
    for (err, kind) in cases {
        assert_eq!(err.kind(), kind);
        assert_eq!(err.message().len(), 1);
    }
}
