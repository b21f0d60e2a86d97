use stoneflow::activity::effective_list_limit;
use stoneflow::custom_fields::normalize_custom_fields;
use stoneflow::dto::{CustomFieldItemDto, CustomFieldsDto, LinkInputDto};
use stoneflow::error::AppError;
use stoneflow::links::{normalize_link_inputs, LinkEntity};
use stoneflow::projects::{compute_status, is_default_project_id, ProjectNode, ProjectRepo};
use stoneflow::tags::{normalize_tag_names, TagEntity};
use stoneflow::task_checks;
use stoneflow::task_rules;
use stoneflow::tasks::{
    format_link_for_log, normalize_tags_for_log, project_id_string, to_optional_join,
    TaskUpdatePatch,
};

fn is_validation(e: &AppError) -> bool {
    matches!(e, AppError::Validation(_))
}

#[test]
fn priority_rules() {
    assert_eq!(task_rules::normalize_priority("  p2 "), "P2");
    assert!(task_rules::validate_priority("p0").is_ok());
    assert!(task_rules::validate_priority(" P3 ").is_ok());
    let err = task_rules::validate_priority("P4").unwrap_err();
    assert!(is_validation(&err));
    assert_eq!(task_checks::normalize_priority(" p1").unwrap(), "P1");
    assert!(is_validation(&task_checks::normalize_priority("urgent").unwrap_err()));
}

#[test]
fn status_rules() {
    assert_eq!(task_rules::normalize_status(" TODO "), "todo");
    assert_eq!(task_rules::validate_status("Done").unwrap(), "done");
    assert!(is_validation(&task_rules::validate_status("doing").unwrap_err()));
    assert_eq!(task_checks::normalize_status("TODO").unwrap(), "todo");
}

#[test]
fn done_reason_rules() {
    assert_eq!(task_rules::normalize_done_reason(" Completed ").unwrap(), "completed");
    assert!(is_validation(&task_rules::normalize_done_reason("finished").unwrap_err()));
    assert_eq!(task_checks::require_done_reason(Some(Some("CANCELLED"))).unwrap(), "cancelled");
    assert!(is_validation(&task_checks::require_done_reason(None).unwrap_err()));
    assert!(is_validation(&task_checks::require_done_reason(Some(None)).unwrap_err()));
}

#[test]
fn title_rules() {
    assert_eq!(task_checks::trim_and_validate_title("  write spec  ").unwrap(), "write spec");
    assert!(is_validation(&task_checks::trim_and_validate_title("   ").unwrap_err()));
}

#[test]
fn tag_normalization_trims_dedups_and_keeps_order() {
    let tags = vec![" foo ".to_string(), "bar".to_string(), "foo".to_string(), "  ".to_string()];
    let normalized = normalize_tag_names(&tags);
    assert_eq!(normalized, vec!["foo".to_string(), "bar".to_string()]);
    assert_eq!(normalize_tags_for_log(&tags), vec!["foo".to_string(), "bar".to_string()]);
}

#[test]
fn tag_and_link_entities_name_their_tables() {
    assert_eq!(TagEntity::Task.table(), "task_tags");
    assert_eq!(TagEntity::Project.table(), "project_tags");
    assert_eq!(TagEntity::Task.owner_column(), "task_id");
    assert_eq!(LinkEntity::Task.junction_table(), "task_links");
    assert_eq!(LinkEntity::Project.junction_table(), "project_links");
    assert_eq!(LinkEntity::Project.owner_column(), "project_id");
}

fn link(id: Option<&str>, title: &str, url: &str, kind: &str, rank: Option<i64>) -> LinkInputDto {
    LinkInputDto {
        id: id.map(|s| s.to_string()),
        title: title.to_string(),
        url: url.to_string(),
        kind: kind.to_string(),
        rank,
    }
}

#[test]
fn link_inputs_are_normalized() {
    let inputs = vec![link(Some("l1"), "  Docs ", " https://d ", " doc ", Some(5)), link(
        None,
        "   ",
        "https://w",
        "web",
        None,
    )];
    let out = normalize_link_inputs(&inputs).expect("valid links");
    assert_eq!(out.len(), 2);
    assert_eq!(out[0].title, "Docs");
    assert_eq!(out[0].url, "https://d");
    assert_eq!(out[0].kind, "doc");
    assert_eq!(out[0].rank, 5);
    assert_eq!(out[0].id.as_deref(), Some("l1"));
    // an empty title falls back to the URL, and the rank defaults
    assert_eq!(out[1].title, "https://w");
    assert_eq!(out[1].rank, 1024);
}

#[test]
fn link_inputs_are_rejected_on_bad_url_or_kind() {
    let empty_url = vec![link(None, "t", "   ", "web", None)];
    assert!(is_validation(&normalize_link_inputs(&empty_url).unwrap_err()));
    let bad_kind = vec![link(None, "t", "https://x", "blog", None)];
    assert!(is_validation(&normalize_link_inputs(&bad_kind).unwrap_err()));
}

#[test]
fn link_log_formatting() {
    assert_eq!(format_link_for_log("web", " Home ", " https://h "), "web:Home<https://h>");
    assert_eq!(to_optional_join(vec![], ", "), None);
    assert_eq!(
        to_optional_join(vec!["a".to_string(), "b".to_string()], ", "),
        Some("a, b".to_string())
    );
    assert_eq!(project_id_string(Some("p1")), Some("p1".to_string()));
    assert_eq!(project_id_string(None), None);
}

#[test]
fn rank_only_patch_sets_nothing_else() {
    let patch = TaskUpdatePatch::rank_only(2048);
    assert_eq!(patch.rank, Some(2048));
    assert!(patch.title.is_none());
    assert!(patch.status.is_none());
    assert!(patch.tags.is_none());
    assert!(patch.deleted_at.is_none());
}

#[test]
fn computed_project_status() {
    assert_eq!(compute_status(Some(1), Some(2), 5, 5), "deleted");
    assert_eq!(compute_status(None, Some(2), 5, 5), "archived");
    assert_eq!(compute_status(None, None, 3, 0), "inProgress");
    assert_eq!(compute_status(None, None, 0, 2), "done");
    assert_eq!(compute_status(None, None, 0, 0), "inProgress");
}

#[test]
fn default_project_naming() {
    assert!(is_default_project_id("work_default"));
    assert!(!is_default_project_id("work"));
}

fn node(id: &str, parent: Option<&str>) -> ProjectNode {
    ProjectNode { id: id.to_string(), parent_id: parent.map(|s| s.to_string()) }
}

#[test]
fn subtree_collection_follows_parent_links() {
    let nodes = vec![
        node("root", None),
        node("a", Some("root")),
        node("b", Some("a")),
        node("c", Some("other")),
        node("other", None),
    ];
    let ids = ProjectRepo::collect_descendant_ids("root", &nodes);
    assert_eq!(ids[0], "root");
    assert!(ids.contains(&"a".to_string()));
    assert!(ids.contains(&"b".to_string()));
    assert!(!ids.contains(&"c".to_string()));
    assert!(!ids.contains(&"other".to_string()));
    assert_eq!(ids.len(), 3);
}

#[test]
fn custom_fields_are_trimmed_dedupped_and_sorted() {
    let input = CustomFieldsDto {
        fields: vec![
            CustomFieldItemDto {
                key: " zeta ".to_string(),
                label: " Z ".to_string(),
                value: Some(" 1 ".to_string()),
            },
            CustomFieldItemDto {
                key: "alpha".to_string(),
                label: "A".to_string(),
                value: None,
            },
            CustomFieldItemDto {
                key: "zeta".to_string(),
                label: "Z2".to_string(),
                value: Some("2".to_string()),
            },
        ],
    };
    let out = normalize_custom_fields(input).expect("valid fields");
    assert_eq!(out.fields.len(), 2);
    assert_eq!(out.fields[0].key, "alpha");
    assert_eq!(out.fields[1].key, "zeta");
    // the later duplicate wins
    assert_eq!(out.fields[1].label, "Z2");
    assert_eq!(out.fields[1].value.as_deref(), Some("2"));
}

#[test]
fn custom_fields_reject_empty_key_or_label() {
    let bad_key = CustomFieldsDto {
        fields: vec![CustomFieldItemDto {
            key: "  ".to_string(),
            label: "L".to_string(),
            value: None,
        }],
    };
    assert!(is_validation(&normalize_custom_fields(bad_key).unwrap_err()));
    let bad_label = CustomFieldsDto {
        fields: vec![CustomFieldItemDto {
            key: "k".to_string(),
            label: " ".to_string(),
            value: None,
        }],
    };
    assert!(is_validation(&normalize_custom_fields(bad_label).unwrap_err()));
}

#[test]
fn activity_list_limit_is_defaulted_and_capped() {
    assert_eq!(effective_list_limit(None), 100);
    assert_eq!(effective_list_limit(Some(10)), 10);
    assert_eq!(effective_list_limit(Some(500)), 500);
    assert_eq!(effective_list_limit(Some(501)), 500);
}
