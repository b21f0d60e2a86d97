use stoneflow::error::SyncErrorKind;
use stoneflow::report::SyncTableReport;
use stoneflow::row::{Row, Table};
use stoneflow::sync::{pull, push, Store};
use stoneflow::watermark::SettingsStore;

fn row(key: &str, changed_at: i64, payload: &str) -> Row {
    Row {
        key: key.to_string(),
        changed_at,
        payload: payload.to_string(),
        fixed: String::new(),
    }
}

fn table_of(rows: Vec<Row>) -> Table {
    let mut t = Table::new();
    for r in rows {
        assert!(t.insert_if_absent(r), "fixture rows must have distinct keys");
    }
    t
}

fn report(total: usize, inserted: usize, updated: usize, skipped: usize) -> SyncTableReport {
    SyncTableReport { total, inserted, updated, skipped }
}

#[test]
fn pull_inserts_new_remote_space() {
    // Remote has space s1 changed at 100; the local side has never pulled.
    let mut remote = Store::new();
    remote.spaces = table_of(vec![row("s1", 100, "Work|1")]);
    let mut local = Store::new();
    let mut settings = SettingsStore::new();

    let rep = pull("postgres://remote/db", &remote, &mut local, &mut settings, 1000)
        .expect("pull should succeed");

    assert_eq!(rep.synced_at, 1000);
    assert_eq!(rep.tables.spaces, report(1, 1, 0, 0));
    let got = local.spaces.get("s1").expect("s1 should be local now");
    assert_eq!(got.payload, "Work|1");
    assert!(settings.get("last_pulled_at") >= 100);
    assert_eq!(settings.get("last_pulled_at"), rep.synced_at);
}

#[test]
fn pull_overwrites_stale_local_space() {
    // Both sides hold s1; the remote copy is newer than the watermark.
    let mut remote = Store::new();
    remote.spaces = table_of(vec![row("s1", 200, "Work v2|1")]);
    let mut local = Store::new();
    local.spaces = table_of(vec![row("s1", 90, "Work|1")]);
    let mut settings = SettingsStore::new();
    settings.set("last_pulled_at", 100);

    let rep = pull("postgres://remote/db", &remote, &mut local, &mut settings, 1000)
        .expect("pull should succeed");

    assert_eq!(rep.tables.spaces, report(1, 0, 1, 0));
    let got = local.spaces.get("s1").expect("s1 stays local");
    assert_eq!(got.payload, "Work v2|1");
    assert_eq!(got.changed_at, 200);
}

#[test]
fn push_with_empty_url_is_rejected_before_anything_happens() {
    let local = Store::new();
    let mut remote = Store::new();
    let mut settings = SettingsStore::new();
    settings.set("last_pushed_at", 42);

    let err =
        push("", &local, &mut remote, &mut settings, 1000).expect_err("empty URL must fail");

    assert_eq!(err.kind(), SyncErrorKind::Validation);
    // no watermark moved
    assert_eq!(settings.get("last_pushed_at"), 42);
    assert_eq!(settings.get("last_pulled_at"), 0);
}

#[test]
fn whitespace_url_is_rejected_too() {
    let local = Store::new();
    let mut remote = Store::new();
    let mut settings = SettingsStore::new();
    let err = push("   \t ", &local, &mut remote, &mut settings, 1000).expect_err("blank URL");
    assert_eq!(err.kind(), SyncErrorKind::Validation);
}

#[test]
fn junction_row_present_on_both_sides_is_skipped() {
    // The junction row exists on both sides already.
    let mut remote = Store::new();
    remote.task_tags = table_of(vec![row("t1|g1", 0, "")]);
    let mut local = Store::new();
    local.task_tags = table_of(vec![row("t1|g1", 0, "")]);
    let mut settings = SettingsStore::new();

    let rep = pull("postgres://remote/db", &remote, &mut local, &mut settings, 1000)
        .expect("pull should succeed");

    assert_eq!(rep.tables.task_tags, report(1, 0, 0, 1));
    // no duplicate row exists afterwards
    assert_eq!(local.task_tags.row_count(), 1);
}

#[test]
fn second_pull_with_unchanged_remote_does_nothing() {
    let mut remote = Store::new();
    remote.spaces = table_of(vec![row("s1", 100, "Work|1")]);
    remote.projects = table_of(vec![row("p1", 110, "s1|Default")]);
    remote.tags = table_of(vec![row("g1", 120, "urgent")]);
    remote.task_tags = table_of(vec![row("t1|g1", 0, "")]);
    let mut local = Store::new();
    let mut settings = SettingsStore::new();

    let first = pull("postgres://remote/db", &remote, &mut local, &mut settings, 1000)
        .expect("first pull");
    assert_eq!(first.tables.spaces, report(1, 1, 0, 0));
    assert_eq!(first.tables.projects, report(1, 1, 0, 0));
    assert_eq!(first.tables.tags, report(1, 1, 0, 0));
    assert_eq!(first.tables.task_tags, report(1, 1, 0, 0));

    let second = pull("postgres://remote/db", &remote, &mut local, &mut settings, 2000)
        .expect("second pull");
    // incremental and append tables see nothing new
    assert_eq!(second.tables.spaces, report(0, 0, 0, 0));
    assert_eq!(second.tables.projects, report(0, 0, 0, 0));
    assert_eq!(second.tables.tags, report(0, 0, 0, 0));
    // the junction is re-scanned in full and fully skipped
    assert_eq!(second.tables.task_tags, report(1, 0, 0, 1));
    assert_eq!(local.task_tags.row_count(), 1);
}

#[test]
fn watermark_advances_monotonically_across_passes() {
    let remote = Store::new();
    let mut local = Store::new();
    let mut settings = SettingsStore::new();

    let first = pull("postgres://remote/db", &remote, &mut local, &mut settings, 500)
        .expect("first pull");
    let after_first = settings.get("last_pulled_at");
    assert_eq!(after_first, first.synced_at);

    let second = pull("postgres://remote/db", &remote, &mut local, &mut settings, 700)
        .expect("second pull");
    let after_second = settings.get("last_pulled_at");
    assert_eq!(after_second, second.synced_at);
    assert!(after_second >= after_first);
}

#[test]
fn pull_converges_to_remote_values_whatever_was_local() {
    // Last writer wins: whatever the local row held, it ends as the remote
    // row.
    let mut remote = Store::new();
    remote.tasks = table_of(vec![row("t1", 500, "remote title")]);
    for stale in ["", "local junk", "remote title"] {
        let mut local = Store::new();
        local.tasks = table_of(vec![row("t1", 499, stale)]);
        let mut settings = SettingsStore::new();
        pull("postgres://remote/db", &remote, &mut local, &mut settings, 1000).expect("pull");
        let got = local.tasks.get("t1").expect("t1 local");
        assert_eq!(got.payload, "remote title");
        assert_eq!(got.changed_at, 500);
    }
}

#[test]
fn parents_land_with_or_before_their_children() {
    // A task referencing a project is only replicated in a pass where the
    // project has landed too.
    let mut remote = Store::new();
    remote.projects = table_of(vec![row("p1", 100, "s1|Project One")]);
    remote.tasks = table_of(vec![row("t1", 150, "p1|Task One")]);
    let mut local = Store::new();
    let mut settings = SettingsStore::new();

    let rep =
        pull("postgres://remote/db", &remote, &mut local, &mut settings, 1000).expect("pull");
    assert_eq!(rep.tables.projects.inserted, 1);
    assert_eq!(rep.tables.tasks.inserted, 1);
    assert!(local.projects.get("p1").is_some());
    assert!(local.tasks.get("t1").is_some());
}

#[test]
fn push_mirrors_pull_with_its_own_watermark() {
    let mut local = Store::new();
    local.links = table_of(vec![row("l1", 300, "https://example.test")]);
    let mut remote = Store::new();
    let mut settings = SettingsStore::new();
    settings.set("last_pulled_at", 7777);

    let rep = push("postgres://remote/db", &local, &mut remote, &mut settings, 900)
        .expect("push should succeed");

    assert_eq!(rep.synced_at, 900);
    assert_eq!(rep.tables.links, report(1, 1, 0, 0));
    assert!(remote.links.get("l1").is_some());
    assert_eq!(settings.get("last_pushed_at"), rep.synced_at);
    // the pull watermark is untouched
    assert_eq!(settings.get("last_pulled_at"), 7777);
}

#[test]
fn upsert_keeps_the_insert_only_columns() {
    // An update rewrites the update columns but never the insert-only part.
    let mut remote = Store::new();
    remote.spaces = table_of(vec![Row {
        key: "s1".to_string(),
        changed_at: 200,
        payload: "new name".to_string(),
        fixed: "created:remote".to_string(),
    }]);
    let mut local = Store::new();
    local.spaces = table_of(vec![Row {
        key: "s1".to_string(),
        changed_at: 100,
        payload: "old name".to_string(),
        fixed: "created:local".to_string(),
    }]);
    let mut settings = SettingsStore::new();

    pull("postgres://remote/db", &remote, &mut local, &mut settings, 1000).expect("pull");
    let got = local.spaces.get("s1").expect("s1");
    assert_eq!(got.payload, "new name");
    assert_eq!(got.fixed, "created:local");
}
