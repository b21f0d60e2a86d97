use stoneflow::builder::{SqlValue, TaskUpdateBuilder};

#[test]
fn build_returns_none_without_sets() {
    let builder = TaskUpdateBuilder::new();
    assert!(builder.build("task-1").is_none());
}

#[test]
fn finalize_adds_updated_at_when_touched() {
    let mut builder = TaskUpdateBuilder::new();
    builder.add_set("title = ?", SqlValue::Text("hello".to_string()));
    builder.finalize_updated_at(123);
    let (sql, params) = builder.build("task-1").expect("should build sql");
    assert!(sql.contains("updated_at"));
    assert_eq!(params.len(), 3);
}

#[test]
fn build_joins_clauses_and_appends_id() {
    let mut builder = TaskUpdateBuilder::new();
    builder.add_set("title = ?", SqlValue::Text("a".to_string()));
    builder.add_raw_set("note = NULL");
    let (sql, params) = builder.build("t9").expect("should build sql");
    assert_eq!(sql, "UPDATE tasks SET title = ?, note = NULL WHERE id = ?");
    assert_eq!(params.len(), 2);
    match params.last().unwrap() {
        SqlValue::Text(id) => assert_eq!(id, "t9"),
        other => panic!("unexpected last parameter: {:?}", other),
    }
}

#[test]
fn finalize_without_sets_changes_nothing() {
    let mut builder = TaskUpdateBuilder::new();
    builder.finalize_updated_at(77);
    assert!(!builder.updated_at_written());
    assert!(!builder.has_sets());
    assert!(builder.build("task-1").is_none());
}
