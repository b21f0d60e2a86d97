use stoneflow::create_plan::plan_task_create;
use stoneflow::dto::{CustomFieldItemDto, CustomFieldsDto, LinkInputDto};
use stoneflow::tasks::TaskCreatePatchInput;

fn empty_patch() -> TaskCreatePatchInput {
    TaskCreatePatchInput {
        status: None,
        done_reason: None,
        priority: None,
        note: None,
        deadline_at: None,
        tags: None,
        links: None,
        custom_fields: None,
    }
}

#[test]
fn plain_create_uses_the_documented_defaults() {
    let plan = plan_task_create("t1", "work", "  Write spec  ", None, empty_patch(), None, 777)
        .expect("plan");
    let t = plan.task;
    assert_eq!(t.id, "t1");
    assert_eq!(t.space_id, "work");
    assert_eq!(t.title, "Write spec");
    assert_eq!(t.status, "todo");
    assert_eq!(t.done_reason, None);
    assert_eq!(t.priority, "P1");
    assert_eq!(t.rank, 1024);
    assert_eq!(t.created_at, 777);
    assert_eq!(t.updated_at, 777);
    assert_eq!(t.completed_at, None);
    assert_eq!(t.create_by, "stonefish");
    assert!(t.tags.is_empty());
    assert!(plan.links.is_empty());
}

#[test]
fn create_lands_below_the_current_bottom_rank() {
    let plan = plan_task_create("t", "w", "x", None, empty_patch(), Some(4096), 1).expect("plan");
    assert_eq!(plan.task.rank, 5120);
}

#[test]
fn creating_done_defaults_the_reason_to_completed() {
    let mut patch = empty_patch();
    patch.status = Some(" DONE ".to_string());
    let plan = plan_task_create("t", "w", "x", None, patch, None, 50).expect("plan");
    assert_eq!(plan.task.status, "done");
    assert_eq!(plan.task.done_reason.as_deref(), Some("completed"));
    assert_eq!(plan.task.completed_at, Some(50));
}

#[test]
fn creating_done_with_a_bad_reason_is_rejected() {
    let mut patch = empty_patch();
    patch.status = Some("done".to_string());
    patch.done_reason = Some("abandoned".to_string());
    assert!(plan_task_create("t", "w", "x", None, patch, None, 1).is_err());
}

#[test]
fn invalid_title_status_or_priority_is_rejected() {
    assert!(plan_task_create("t", "w", "   ", None, empty_patch(), None, 1).is_err());
    let mut patch = empty_patch();
    patch.status = Some("doing".to_string());
    assert!(plan_task_create("t", "w", "x", None, patch, None, 1).is_err());
    let mut patch = empty_patch();
    patch.priority = Some("P9".to_string());
    assert!(plan_task_create("t", "w", "x", None, patch, None, 1).is_err());
    // this layer folds the priority's case
    let mut patch = empty_patch();
    patch.priority = Some(" p2 ".to_string());
    let plan = plan_task_create("t", "w", "x", None, patch, None, 1).expect("plan");
    assert_eq!(plan.task.priority, "P2");
}

#[test]
fn create_normalizes_tags_links_and_custom_fields() {
    let mut patch = empty_patch();
    patch.note = Some("  keep me  ".to_string());
    patch.tags = Some(vec![" a ".to_string(), "a".to_string(), "".to_string()]);
    patch.links = Some(vec![LinkInputDto {
        id: None,
        title: " ".to_string(),
        url: " https://x ".to_string(),
        kind: "web".to_string(),
        rank: None,
    }]);
    patch.custom_fields = Some(CustomFieldsDto {
        fields: vec![CustomFieldItemDto {
            key: " b ".to_string(),
            label: " L ".to_string(),
            value: None,
        }],
    });
    let plan = plan_task_create("t", "w", "x", Some("p1"), patch, None, 1).expect("plan");
    assert_eq!(plan.task.note.as_deref(), Some("keep me"));
    assert_eq!(plan.task.project_id.as_deref(), Some("p1"));
    assert_eq!(plan.task.tags, vec!["a".to_string()]);
    assert_eq!(plan.links.len(), 1);
    assert_eq!(plan.links[0].title, "https://x");
    let cf = plan.task.custom_fields.expect("custom fields kept");
    assert_eq!(cf.fields.len(), 1);
    assert_eq!(cf.fields[0].key, "b");
}
