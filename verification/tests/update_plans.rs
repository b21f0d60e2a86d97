use stoneflow::builder::SqlValue;
use stoneflow::dto::LinkInputDto;
use stoneflow::error::AppError;
use stoneflow::tasks::TaskUpdatePatch;
use stoneflow::update_plan::plan_task_update;

fn empty_patch() -> TaskUpdatePatch {
    TaskUpdatePatch::default()
}

fn text(v: &SqlValue) -> &str {
    match v {
        SqlValue::Text(t) => t.as_str(),
        other => panic!("expected text parameter, got {:?}", other),
    }
}

fn integer(v: &SqlValue) -> i64 {
    match v {
        SqlValue::Integer(i) => *i,
        other => panic!("expected integer parameter, got {:?}", other),
    }
}

#[test]
fn empty_patch_is_rejected() {
    let patch = empty_patch();
    let err = plan_task_update("t1", &patch, "todo", None, 1000).unwrap_err();
    assert!(matches!(err, AppError::Validation(_)));
}

#[test]
fn title_only_patch_builds_a_statement_with_updated_at() {
    let mut patch = empty_patch();
    patch.title = Some("  New title ".to_string());
    let plan = plan_task_update("t1", &patch, "todo", None, 1000).expect("plan");
    let (sql, params) = plan.statement.expect("statement");
    assert_eq!(sql, "UPDATE tasks SET title = ?, updated_at = ? WHERE id = ?");
    assert_eq!(params.len(), 3);
    assert_eq!(text(&params[0]), "New title");
    assert_eq!(integer(&params[1]), 1000);
    assert_eq!(text(&params[2]), "t1");
    assert!(plan.touches_updated_at);
    assert!(plan.updated_at_in_statement);
    assert!(plan.tags.is_none());
    assert!(plan.links.is_none());
}

#[test]
fn completing_a_task_writes_reason_and_completion_time() {
    let mut patch = empty_patch();
    patch.status = Some(" Done ".to_string());
    patch.done_reason = Some(Some("Completed".to_string()));
    let plan = plan_task_update("t2", &patch, "todo", None, 555).expect("plan");
    let (sql, params) = plan.statement.expect("statement");
    assert_eq!(
        sql,
        "UPDATE tasks SET status = ?, done_reason = ?, completed_at = ?, updated_at = ? WHERE id = ?"
    );
    assert_eq!(text(&params[0]), "done");
    assert_eq!(text(&params[1]), "completed");
    assert_eq!(integer(&params[2]), 555);
    assert_eq!(integer(&params[3]), 555);
    assert_eq!(text(&params[4]), "t2");
}

#[test]
fn reopening_a_task_clears_reason_and_completion_time() {
    let mut patch = empty_patch();
    patch.status = Some("todo".to_string());
    let plan = plan_task_update("t2", &patch, "done", None, 555).expect("plan");
    let (sql, params) = plan.statement.expect("statement");
    assert_eq!(
        sql,
        "UPDATE tasks SET status = ?, done_reason = NULL, completed_at = NULL, updated_at = ? WHERE id = ?"
    );
    assert_eq!(text(&params[0]), "todo");
}

#[test]
fn completing_without_a_reason_is_rejected() {
    let mut patch = empty_patch();
    patch.status = Some("done".to_string());
    assert!(plan_task_update("t", &patch, "todo", None, 1).is_err());
    patch.done_reason = Some(None);
    assert!(plan_task_update("t", &patch, "todo", None, 1).is_err());
    patch.done_reason = Some(Some("finished".to_string()));
    assert!(plan_task_update("t", &patch, "todo", None, 1).is_err());
}

#[test]
fn done_reason_alone_needs_a_completed_task() {
    let mut patch = empty_patch();
    patch.done_reason = Some(Some("cancelled".to_string()));
    assert!(plan_task_update("t", &patch, "todo", None, 1).is_err());
    let plan = plan_task_update("t", &patch, "done", None, 1).expect("plan");
    let (sql, _) = plan.statement.expect("statement");
    assert_eq!(sql, "UPDATE tasks SET done_reason = ?, updated_at = ? WHERE id = ?");
}

#[test]
fn tags_only_patch_has_no_statement_but_touches_updated_at() {
    let mut patch = empty_patch();
    patch.tags = Some(vec![" a ".to_string(), "a".to_string(), "b".to_string()]);
    let plan = plan_task_update("t", &patch, "todo", None, 9).expect("plan");
    assert!(plan.statement.is_none());
    assert!(plan.touches_updated_at);
    assert!(!plan.updated_at_in_statement);
    assert_eq!(plan.tags.unwrap(), vec!["a".to_string(), "b".to_string()]);
}

#[test]
fn bad_priority_or_links_reject_the_patch() {
    let mut patch = empty_patch();
    patch.priority = Some("p1".to_string());
    // this layer takes the priority verbatim
    assert!(plan_task_update("t", &patch, "todo", None, 1).is_err());
    patch.priority = Some("P1".to_string());
    assert!(plan_task_update("t", &patch, "todo", None, 1).is_ok());

    let mut patch = empty_patch();
    patch.links = Some(vec![LinkInputDto {
        id: None,
        title: "x".to_string(),
        url: " ".to_string(),
        kind: "web".to_string(),
        rank: None,
    }]);
    assert!(plan_task_update("t", &patch, "todo", None, 1).is_err());
}

#[test]
fn note_and_custom_fields_clear_or_set() {
    let mut patch = empty_patch();
    patch.note = Some(Some("  ".to_string()));
    patch.custom_fields = Some(None);
    let plan = plan_task_update("t", &patch, "todo", Some(None), 3).expect("plan");
    let (sql, params) = plan.statement.expect("statement");
    assert_eq!(
        sql,
        "UPDATE tasks SET note = NULL, custom_fields = NULL, updated_at = ? WHERE id = ?"
    );
    assert_eq!(params.len(), 2);
}
