//! Planning a task creation: from the caller's input to the exact row that
//! is inserted and the junction work around it.
//!
//! The surrounding application generates the row id, reads the highest rank
//! in the task's group, and executes the plan; every default, normalization
//! and validation is decided here.

use vstd::prelude::*;
use vstd::string::*;
use crate::custom_fields::{cf_item_ok, normalize_custom_fields};
use crate::dto::{opt_str_view, CustomFieldsDto, TaskDto};
use crate::error::AppError;
use crate::links::{link_input_ok, link_normalized, normalize_link_inputs, NormalizedLinkInput};
use crate::tags::normalize_tags_spec;
use crate::task_checks::{normalize_done_reason, normalize_priority, normalize_status,
    trim_and_validate_title};
use crate::task_rules::{is_valid_done_reason, is_valid_priority, is_valid_status};
use crate::tasks::{normalize_tags, TaskCreatePatchInput};
use crate::text::{str_eq, to_lower_spec, to_upper_spec, trim_spec, trim_str};

verus! {

/// The status text a creation patch resolves to.
pub open spec fn created_status_spec(patch: TaskCreatePatchInput) -> Seq<char> {
    match patch.status {
        Some(s) => if to_lower_spec(trim_spec(s@)) == "done"@ {
            "done"@
        } else {
            "todo"@
        },
        None => "todo"@,
    }
}

/// The done reason a creation patch resolves to: only a task created done
/// carries one, and it defaults to `completed`.
pub open spec fn created_reason_spec(patch: TaskCreatePatchInput) -> Option<Seq<char>> {
    if created_status_spec(patch) == "done"@ {
        match patch.done_reason {
            Some(r) => Some(to_lower_spec(trim_spec(r@))),
            None => Some("completed"@),
        }
    } else {
        None
    }
}

/// The priority text a creation patch resolves to, defaulting to `P1`.
pub open spec fn created_priority_spec(patch: TaskCreatePatchInput) -> Seq<char> {
    match patch.priority {
        Some(p) => to_upper_spec(trim_spec(p@)),
        None => "P1"@,
    }
}

/// The note a creation patch resolves to: trimmed, and dropped when nothing
/// is left.
pub open spec fn created_note_spec(patch: TaskCreatePatchInput) -> Option<Seq<char>> {
    match patch.note {
        Some(n) => if trim_spec(n@).len() > 0 {
            Some(trim_spec(n@))
        } else {
            None
        },
        None => None,
    }
}

/// The rank a new task lands at: just below the group's current bottom.
pub open spec fn created_rank_spec(max_rank: Option<i64>) -> int {
    match max_rank {
        Some(r) => r as int + 1024,
        None => 1024,
    }
}

/// Whether every validated part of the creation input passes.
pub open spec fn create_input_acceptable(
    title: Seq<char>,
    patch: TaskCreatePatchInput,
) -> bool {
    &&& trim_spec(title).len() > 0
    &&& (patch.status matches Some(s) ==> is_valid_status(s@))
    &&& (created_status_spec(patch) == "done"@ ==> (patch.done_reason matches Some(r)
        ==> is_valid_done_reason(r@)))
    &&& (patch.priority matches Some(p) ==> is_valid_priority(p@))
    &&& (patch.links matches Some(ls) ==> forall|i: int|
        0 <= i < ls@.len() ==> link_input_ok(#[trigger] ls@[i]))
    &&& (patch.custom_fields matches Some(cf) ==> forall|i: int|
        0 <= i < cf.fields@.len() ==> cf_item_ok(#[trigger] cf.fields@[i]))
}

/// Everything the application must insert for one accepted creation.
#[derive(Debug, Clone)]
pub struct TaskCreatePlan {
    /// The new task exactly as it is to be stored and returned.
    pub task: TaskDto,
    /// Normalized links to attach after the insert.
    pub links: Vec<NormalizedLinkInput>,
}

/// Turn one creation request into the exact row to insert, validating and
/// normalizing every field.  `id` is the caller-generated row id, and
/// `max_rank` the highest rank among the task's group, if any.
#[verifier::spinoff_prover]
#[verifier::rlimit(100)]
pub fn plan_task_create(
    id: &str,
    space_id: &str,
    title: &str,
    project_id: Option<&str>,
    patch: TaskCreatePatchInput,
    max_rank: Option<i64>,
    now: i64,
) -> (r: Result<TaskCreatePlan, AppError>)
    requires
        max_rank matches Some(mr) ==> mr + 1024 <= i64::MAX,
    ensures
        match r {
            Ok(plan) => {
                &&& create_input_acceptable(title@, patch)
                &&& plan.task.id@ == id@
                &&& plan.task.space_id@ == space_id@
                &&& opt_str_view(plan.task.project_id) == match project_id {
                    Some(p) => Some(p@),
                    None => None::<Seq<char>>,
                }
                &&& plan.task.title@ == trim_spec(title@)
                &&& opt_str_view(plan.task.note) == created_note_spec(patch)
                &&& plan.task.status@ == created_status_spec(patch)
                &&& opt_str_view(plan.task.done_reason) == created_reason_spec(patch)
                &&& plan.task.priority@ == created_priority_spec(patch)
                &&& plan.task.tags@.map_values(|s: String| s@) == normalize_tags_spec(
                    match patch.tags {
                        Some(ts) => ts@.map_values(|s: String| s@),
                        None => Seq::empty(),
                    },
                )
                &&& plan.task.rank == created_rank_spec(max_rank)
                &&& plan.task.created_at == now
                &&& plan.task.updated_at == now
                &&& plan.task.completed_at == if created_status_spec(patch) == "done"@ {
                    Some(now)
                } else {
                    None::<i64>
                }
                &&& plan.task.deadline_at == patch.deadline_at
                &&& plan.task.archived_at is None
                &&& plan.task.deleted_at is None
                &&& plan.task.links@.len() == 0
                &&& plan.task.create_by@ == "stonefish"@
                &&& match (patch.links, plan.links@.len()) {
                    (Some(ls), n) => n == ls@.len() && forall|i: int|
                        0 <= i < ls@.len() ==> link_normalized(
                            plan.links@[i],
                            #[trigger] ls@[i],
                        ),
                    (None, n) => n == 0,
                }
                &&& (patch.custom_fields is None ==> plan.task.custom_fields is None)
                &&& (patch.custom_fields is Some ==> plan.task.custom_fields is Some)
            },
            Err(e) => {
                &&& e is Validation
                &&& !create_input_acceptable(title@, patch)
            },
        },
{
    let title = match trim_and_validate_title(title) {
        Ok(t) => t,
        Err(e) => {
            return Err(e);
        },
    };

    let status: String = match &patch.status {
        Some(s) => {
            let normalized = match normalize_status(s.as_str()) {
                Ok(v) => v,
                Err(e) => {
                    return Err(e);
                },
            };
            if str_eq(normalized.as_str(), "done") {
                "done".to_owned()
            } else {
                "todo".to_owned()
            }
        },
        None => "todo".to_owned(),
    };
    let is_done = str_eq(status.as_str(), "done");
    proof {
        assert(status@ == created_status_spec(patch));
        assert(is_done == (created_status_spec(patch) == "done"@)) by {
            reveal_strlit("done");
            reveal_strlit("todo");
        }
    }

    let done_reason: Option<String> = if is_done {
        let raw: &str = match &patch.done_reason {
            Some(r) => r.as_str(),
            None => "completed",
        };
        let normalized = match normalize_done_reason(raw) {
            Ok(v) => v,
            Err(e) => {
                proof {
                    if patch.done_reason is None {
                        reveal_strlit("completed");
                        assert(trim_spec("completed"@) =~= "completed"@);
                        assert(to_lower_spec("completed"@) =~= "completed"@);
                        assert(is_valid_done_reason("completed"@));
                    }
                }
                return Err(e);
            },
        };
        Some(normalized)
    } else {
        None
    };
    proof {
        if is_done && patch.done_reason is None {
            reveal_strlit("completed");
            assert(trim_spec("completed"@) =~= "completed"@);
            assert(to_lower_spec("completed"@) =~= "completed"@);
        }
        assert(opt_str_view(done_reason) == created_reason_spec(patch));
    }

    let priority: String = match &patch.priority {
        Some(p) => match normalize_priority(p.as_str()) {
            Ok(v) => v,
            Err(e) => {
                return Err(e);
            },
        },
        None => "P1".to_owned(),
    };

    let note: Option<String> = match &patch.note {
        Some(n) => {
            let trimmed = trim_str(n.as_str());
            if trimmed.as_str().unicode_len() > 0 {
                Some(trimmed)
            } else {
                None
            }
        },
        None => None,
    };

    let normalized_tags = match patch.tags {
        Some(ts) => normalize_tags(ts),
        None => Vec::new(),
    };
    proof {
        assert(normalized_tags@.map_values(|s: String| s@) == normalize_tags_spec(
            match patch.tags {
                Some(ts) => ts@.map_values(|s: String| s@),
                None => Seq::empty(),
            },
        )) by {
            if patch.tags is None {
                assert(Seq::<String>::empty().map_values(|s: String| s@)
                    =~= Seq::<Seq<char>>::empty());
            }
        }
    }

    let normalized_links: Vec<NormalizedLinkInput> = match &patch.links {
        Some(ls) => match normalize_link_inputs(ls) {
            Ok(v) => v,
            Err(e) => {
                return Err(e);
            },
        },
        None => Vec::new(),
    };

    let normalized_custom_fields: Option<CustomFieldsDto> = match patch.custom_fields {
        Some(cf) => match normalize_custom_fields(cf) {
            Ok(v) => Some(v),
            Err(e) => {
                return Err(e);
            },
        },
        None => None,
    };

    let rank: i64 = match max_rank {
        Some(r) => r + 1024,
        None => 1024,
    };

    let task = TaskDto {
        id: id.to_owned(),
        space_id: space_id.to_owned(),
        project_id: match project_id {
            Some(p) => Some(p.to_owned()),
            None => None,
        },
        title,
        note,
        status,
        done_reason,
        priority,
        tags: normalized_tags,
        rank,
        created_at: now,
        updated_at: now,
        completed_at: if is_done {
            Some(now)
        } else {
            None
        },
        deadline_at: patch.deadline_at,
        archived_at: None,
        deleted_at: None,
        links: Vec::new(),
        custom_fields: normalized_custom_fields,
        create_by: "stonefish".to_owned(),
    };

    Ok(TaskCreatePlan { task, links: normalized_links })
}

} // verus!
