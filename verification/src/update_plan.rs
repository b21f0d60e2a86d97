//! Planning a task update: from a patch to the exact `UPDATE` statement,
//! junction work and `updated_at` bookkeeping.
//!
//! This is the decision half of applying a patch.  The surrounding
//! application reads the task's current status, serializes any custom
//! fields (after [`crate::custom_fields::normalize_custom_fields`]) and
//! executes what the plan says; every choice of clause, parameter and
//! validation outcome is made here.

use vstd::prelude::*;
use vstd::string::*;
use crate::builder::{params_content, ParamV, SqlValue, TaskUpdateBuilder};
use crate::error::AppError;
use crate::links::{link_input_ok, link_normalized, normalize_link_inputs, NormalizedLinkInput};
use crate::tags::{normalize_tag_names, normalize_tags_spec};
use crate::task_rules::{is_valid_done_reason, is_valid_status};
use crate::tasks::{patch_is_empty, TaskUpdatePatch};
use crate::text::{join_spec, str_eq, to_ascii_lower, to_lower_spec, trim_spec, trim_str};

verus! {

/// Clauses and parameters one field contributes, in order.
pub ghost struct PartV {
    pub sets: Seq<Seq<char>>,
    pub params: Seq<ParamV>,
}

pub open spec fn empty_part() -> PartV {
    PartV { sets: Seq::empty(), params: Seq::empty() }
}

pub open spec fn title_part(patch: TaskUpdatePatch) -> PartV {
    match patch.title {
        Some(t) => PartV {
            sets: seq!["title = ?"@],
            params: seq![ParamV::Text(trim_spec(t@))],
        },
        None => empty_part(),
    }
}

pub open spec fn status_part(patch: TaskUpdatePatch, now: int) -> PartV {
    match patch.status {
        Some(s) => {
            let st = to_lower_spec(trim_spec(s@));
            if st == "done"@ {
                match patch.done_reason {
                    Some(Some(r)) => PartV {
                        sets: seq!["status = ?"@, "done_reason = ?"@, "completed_at = ?"@],
                        params: seq![
                            ParamV::Text(st),
                            ParamV::Text(to_lower_spec(trim_spec(r@))),
                            ParamV::Int(now),
                        ],
                    },
                    _ => empty_part(),
                }
            } else {
                PartV {
                    sets: seq!["status = ?"@, "done_reason = NULL"@, "completed_at = NULL"@],
                    params: seq![ParamV::Text(st)],
                }
            }
        },
        None => match patch.done_reason {
            Some(Some(r)) => PartV {
                sets: seq!["done_reason = ?"@],
                params: seq![ParamV::Text(to_lower_spec(trim_spec(r@)))],
            },
            _ => empty_part(),
        },
    }
}

pub open spec fn priority_part(patch: TaskUpdatePatch) -> PartV {
    match patch.priority {
        Some(p) => PartV { sets: seq!["priority = ?"@], params: seq![ParamV::Text(p@)] },
        None => empty_part(),
    }
}

pub open spec fn note_part(patch: TaskUpdatePatch) -> PartV {
    match patch.note {
        Some(inner) => match inner {
            Some(v) => if trim_spec(v@).len() > 0 {
                PartV { sets: seq!["note = ?"@], params: seq![ParamV::Text(trim_spec(v@))] }
            } else {
                PartV { sets: seq!["note = NULL"@], params: Seq::empty() }
            },
            None => PartV { sets: seq!["note = NULL"@], params: Seq::empty() },
        },
        None => empty_part(),
    }
}

pub open spec fn space_part(patch: TaskUpdatePatch) -> PartV {
    match patch.space_id {
        Some(v) => PartV { sets: seq!["space_id = ?"@], params: seq![ParamV::Text(v@)] },
        None => empty_part(),
    }
}

pub open spec fn project_part(patch: TaskUpdatePatch) -> PartV {
    match patch.project_id {
        Some(Some(v)) => PartV {
            sets: seq!["project_id = ?"@],
            params: seq![ParamV::Text(v@)],
        },
        Some(None) => PartV { sets: seq!["project_id = NULL"@], params: Seq::empty() },
        None => empty_part(),
    }
}

pub open spec fn deadline_part(patch: TaskUpdatePatch) -> PartV {
    match patch.deadline_at {
        Some(Some(v)) => PartV {
            sets: seq!["deadline_at = ?"@],
            params: seq![ParamV::Int(v as int)],
        },
        Some(None) => PartV { sets: seq!["deadline_at = NULL"@], params: Seq::empty() },
        None => empty_part(),
    }
}

pub open spec fn rank_part(patch: TaskUpdatePatch) -> PartV {
    match patch.rank {
        Some(v) => PartV { sets: seq!["rank = ?"@], params: seq![ParamV::Int(v as int)] },
        None => empty_part(),
    }
}

pub open spec fn custom_fields_part(payload: Option<Option<Seq<char>>>) -> PartV {
    match payload {
        Some(Some(p)) => PartV {
            sets: seq!["custom_fields = ?"@],
            params: seq![ParamV::Text(p)],
        },
        Some(None) => PartV { sets: seq!["custom_fields = NULL"@], params: Seq::empty() },
        None => empty_part(),
    }
}

pub open spec fn archived_part(patch: TaskUpdatePatch) -> PartV {
    match patch.archived_at {
        Some(Some(v)) => PartV {
            sets: seq!["archived_at = ?"@],
            params: seq![ParamV::Int(v as int)],
        },
        Some(None) => PartV { sets: seq!["archived_at = NULL"@], params: Seq::empty() },
        None => empty_part(),
    }
}

pub open spec fn deleted_part(patch: TaskUpdatePatch) -> PartV {
    match patch.deleted_at {
        Some(Some(v)) => PartV {
            sets: seq!["deleted_at = ?"@],
            params: seq![ParamV::Int(v as int)],
        },
        Some(None) => PartV { sets: seq!["deleted_at = NULL"@], params: Seq::empty() },
        None => empty_part(),
    }
}

pub open spec fn join_parts(a: PartV, b: PartV) -> PartV {
    PartV { sets: a.sets + b.sets, params: a.params + b.params }
}

/// Everything the patch's fields contribute to the statement, in the fixed
/// field order, before the `updated_at` clause.
pub open spec fn planned_parts(
    patch: TaskUpdatePatch,
    payload: Option<Option<Seq<char>>>,
    now: int,
) -> PartV {
    join_parts(
        join_parts(
            join_parts(
                join_parts(
                    join_parts(title_part(patch), status_part(patch, now)),
                    priority_part(patch),
                ),
                note_part(patch),
            ),
            join_parts(
                join_parts(join_parts(space_part(patch), project_part(patch)), deadline_part(
                    patch,
                )),
                rank_part(patch),
            ),
        ),
        join_parts(
            join_parts(custom_fields_part(payload), archived_part(patch)),
            deleted_part(patch),
        ),
    )
}

/// Whether some patch field asks for the row itself to change, which is
/// what makes the plan bump `updated_at`.
pub open spec fn touches_row(patch: TaskUpdatePatch, payload: Option<Option<Seq<char>>>) -> bool {
    ||| patch.title is Some
    ||| patch.status is Some
    ||| patch.done_reason is Some
    ||| patch.priority is Some
    ||| patch.note is Some
    ||| patch.space_id is Some
    ||| patch.project_id is Some
    ||| patch.deadline_at is Some
    ||| patch.rank is Some
    ||| patch.links is Some
    ||| payload is Some
    ||| patch.archived_at is Some
    ||| patch.deleted_at is Some
}

/// The statement's clause and parameter content, with the `updated_at`
/// clause appended when a change calls for it.
pub open spec fn planned_statement(
    patch: TaskUpdatePatch,
    payload: Option<Option<Seq<char>>>,
    now: int,
) -> PartV {
    let base = planned_parts(patch, payload, now);
    if touches_row(patch, payload) && base.sets.len() > 0 {
        PartV {
            sets: base.sets.push("updated_at = ?"@),
            params: base.params.push(ParamV::Int(now)),
        }
    } else {
        base
    }
}

/// Whether every validated field of the patch passes, given the task's
/// current status text.
pub open spec fn update_patch_acceptable(
    patch: TaskUpdatePatch,
    current_status: Seq<char>,
) -> bool {
    &&& (patch.title matches Some(t) ==> trim_spec(t@).len() > 0)
    &&& (patch.status matches Some(s) ==> is_valid_status(s@))
    &&& (match patch.status {
        Some(s) => to_lower_spec(trim_spec(s@)) == "done"@ ==> (patch.done_reason matches Some(
            Some(r),
        ) && is_valid_done_reason(r@)),
        None => patch.done_reason is Some ==> (current_status == "done"@ && (
        patch.done_reason matches Some(Some(r)) && is_valid_done_reason(r@))),
    })
    &&& (patch.priority matches Some(p) ==> (p@ == "P0"@ || p@ == "P1"@ || p@ == "P2"@ || p@
        == "P3"@))
    &&& (patch.links matches Some(ls) ==> forall|i: int|
        0 <= i < ls@.len() ==> link_input_ok(#[trigger] ls@[i]))
}

/// Whether the serialized custom-field payload mirrors the patch's
/// custom-field request layer by layer.
pub open spec fn payload_matches_patch(
    patch: TaskUpdatePatch,
    payload: Option<Option<Seq<char>>>,
) -> bool {
    match (patch.custom_fields, payload) {
        (Some(Some(_)), Some(Some(_))) => true,
        (Some(None), Some(None)) => true,
        (None, None) => true,
        _ => false,
    }
}

/// What the application must execute to apply one accepted patch.
#[derive(Debug)]
pub struct TaskUpdatePlan {
    /// The `UPDATE` statement and its parameters, when any column changes.
    pub statement: Option<(String, Vec<SqlValue>)>,
    /// Normalized tag names to replace the task's tags with, when requested.
    pub tags: Option<Vec<String>>,
    /// Normalized links to replace the task's links with, when requested.
    pub links: Option<Vec<NormalizedLinkInput>>,
    /// Whether this patch bumps `updated_at` at all.
    pub touches_updated_at: bool,
    /// Whether the statement above already writes `updated_at`; when the
    /// patch touches the row only through junctions, the application issues
    /// a separate `updated_at` write.
    pub updated_at_in_statement: bool,
}

// Each helper applies one patch field to the builder.  On success the
// builder grows by exactly that field's part; on failure nothing else is
// promised, since the caller discards the builder.

fn apply_title(b: &mut TaskUpdateBuilder, patch: &TaskUpdatePatch) -> (r: Result<(), AppError>)
    ensures
        match r {
            Ok(_) => {
                &&& (patch.title matches Some(t) ==> trim_spec(t@).len() > 0)
                &&& final(b).sets_view() == old(b).sets_view() + title_part(*patch).sets
                &&& params_content(final(b).params_view()) == params_content(
                    old(b).params_view(),
                ) + title_part(*patch).params
                &&& final(b).touches_updated_at() == (old(b).touches_updated_at() || title_part(
                    *patch,
                ).sets.len() > 0)
                &&& final(b).updated_at_written_view() == old(b).updated_at_written_view()
            },
            Err(e) => e is Validation && (patch.title matches Some(t) && trim_spec(t@).len()
                == 0),
        },
{
    if let Some(title) = &patch.title {
        let trimmed = trim_str(title.as_str());
        if trimmed.as_str().unicode_len() == 0 {
            return Err(AppError::Validation("task title must not be empty".to_owned()));
        }
        b.add_set("title = ?", SqlValue::Text(trimmed));
        proof {
            assert(params_content(b.params_view()) =~= params_content(old(b).params_view())
                + title_part(*patch).params);
            assert(b.sets_view() =~= old(b).sets_view() + title_part(*patch).sets);
        }
    } else {
        proof {
            assert(b.sets_view() =~= old(b).sets_view() + title_part(*patch).sets);
            assert(params_content(b.params_view()) =~= params_content(old(b).params_view())
                + title_part(*patch).params);
        }
    }
    Ok(())
}

fn apply_status(
    b: &mut TaskUpdateBuilder,
    patch: &TaskUpdatePatch,
    current_status: &str,
    now: i64,
) -> (r: Result<(), AppError>)
    ensures
        match r {
            Ok(_) => {
                &&& (patch.status matches Some(s) ==> is_valid_status(s@))
                &&& (match patch.status {
                    Some(s) => to_lower_spec(trim_spec(s@)) == "done"@ ==> (
                    patch.done_reason matches Some(Some(rr)) && is_valid_done_reason(rr@)),
                    None => patch.done_reason is Some ==> (current_status@ == "done"@ && (
                    patch.done_reason matches Some(Some(rr)) && is_valid_done_reason(rr@))),
                })
                &&& final(b).sets_view() == old(b).sets_view() + status_part(
                    *patch,
                    now as int,
                ).sets
                &&& params_content(final(b).params_view()) == params_content(
                    old(b).params_view(),
                ) + status_part(*patch, now as int).params
                &&& final(b).touches_updated_at() == (old(b).touches_updated_at()
                    || status_part(*patch, now as int).sets.len() > 0)
                &&& final(b).updated_at_written_view() == old(b).updated_at_written_view()
            },
            Err(e) => {
                &&& e is Validation
                &&& !({
                    &&& (patch.status matches Some(s) ==> is_valid_status(s@))
                    &&& (match patch.status {
                        Some(s) => to_lower_spec(trim_spec(s@)) == "done"@ ==> (
                        patch.done_reason matches Some(Some(rr)) && is_valid_done_reason(rr@)),
                        None => patch.done_reason is Some ==> (current_status@ == "done"@ && (
                        patch.done_reason matches Some(Some(rr)) && is_valid_done_reason(
                            rr@,
                        ))),
                    })
                })
            },
        },
{
    if let Some(status) = &patch.status {
        let trimmed = trim_str(status.as_str());
        let normalized = to_ascii_lower(trimmed.as_str());
        if !(str_eq(normalized.as_str(), "todo") || str_eq(normalized.as_str(), "done")) {
            return Err(AppError::Validation("status must be todo or done".to_owned()));
        }
        let is_done = str_eq(normalized.as_str(), "done");
        b.add_set("status = ?", SqlValue::Text(normalized));
        if is_done {
            let reason = match &patch.done_reason {
                Some(Some(r)) => r,
                _ => {
                    return Err(
                        AppError::Validation(
                            "completing a task requires a doneReason".to_owned(),
                        ),
                    );
                },
            };
            let reason_trimmed = trim_str(reason.as_str());
            let reason_normalized = to_ascii_lower(reason_trimmed.as_str());
            if !(str_eq(reason_normalized.as_str(), "completed") || str_eq(
                reason_normalized.as_str(),
                "cancelled",
            )) {
                return Err(
                    AppError::Validation(
                        "doneReason must be completed or cancelled".to_owned(),
                    ),
                );
            }
            b.add_set("done_reason = ?", SqlValue::Text(reason_normalized));
            b.add_set("completed_at = ?", SqlValue::Integer(now));
            proof {
                assert(b.sets_view() =~= old(b).sets_view() + status_part(
                    *patch,
                    now as int,
                ).sets);
                assert(params_content(b.params_view()) =~= params_content(
                    old(b).params_view(),
                ) + status_part(*patch, now as int).params);
            }
        } else {
            b.add_raw_set("done_reason = NULL");
            b.add_raw_set("completed_at = NULL");
            proof {
                assert(b.sets_view() =~= old(b).sets_view() + status_part(
                    *patch,
                    now as int,
                ).sets);
                assert(params_content(b.params_view()) =~= params_content(
                    old(b).params_view(),
                ) + status_part(*patch, now as int).params);
            }
        }
    } else if let Some(reason_opt) = &patch.done_reason {
        if !str_eq(current_status, "done") {
            return Err(
                AppError::Validation("only a completed task can carry a doneReason".to_owned()),
            );
        }
        let reason = match reason_opt {
            Some(r) => r,
            None => {
                return Err(AppError::Validation("doneReason must not be empty".to_owned()));
            },
        };
        let reason_trimmed = trim_str(reason.as_str());
        let reason_normalized = to_ascii_lower(reason_trimmed.as_str());
        if !(str_eq(reason_normalized.as_str(), "completed") || str_eq(
            reason_normalized.as_str(),
            "cancelled",
        )) {
            return Err(
                AppError::Validation("doneReason must be completed or cancelled".to_owned()),
            );
        }
        b.add_set("done_reason = ?", SqlValue::Text(reason_normalized));
        proof {
            assert(b.sets_view() =~= old(b).sets_view() + status_part(*patch, now as int).sets);
            assert(params_content(b.params_view()) =~= params_content(old(b).params_view())
                + status_part(*patch, now as int).params);
        }
    } else {
        proof {
            assert(b.sets_view() =~= old(b).sets_view() + status_part(*patch, now as int).sets);
            assert(params_content(b.params_view()) =~= params_content(old(b).params_view())
                + status_part(*patch, now as int).params);
        }
    }
    Ok(())
}

fn apply_priority(b: &mut TaskUpdateBuilder, patch: &TaskUpdatePatch) -> (r: Result<(), AppError>)
    ensures
        match r {
            Ok(_) => {
                &&& (patch.priority matches Some(p) ==> (p@ == "P0"@ || p@ == "P1"@ || p@
                    == "P2"@ || p@ == "P3"@))
                &&& final(b).sets_view() == old(b).sets_view() + priority_part(*patch).sets
                &&& params_content(final(b).params_view()) == params_content(
                    old(b).params_view(),
                ) + priority_part(*patch).params
                &&& final(b).touches_updated_at() == (old(b).touches_updated_at()
                    || priority_part(*patch).sets.len() > 0)
                &&& final(b).updated_at_written_view() == old(b).updated_at_written_view()
            },
            Err(e) => e is Validation && !(patch.priority matches Some(p) ==> (p@ == "P0"@ || p@
                == "P1"@ || p@ == "P2"@ || p@ == "P3"@)),
        },
{
    if let Some(priority) = &patch.priority {
        if !(str_eq(priority.as_str(), "P0") || str_eq(priority.as_str(), "P1") || str_eq(
            priority.as_str(),
            "P2",
        ) || str_eq(priority.as_str(), "P3")) {
            return Err(AppError::Validation("priority must be P0, P1, P2 or P3".to_owned()));
        }
        b.add_set("priority = ?", SqlValue::Text(priority.clone()));
        proof {
            assert(b.sets_view() =~= old(b).sets_view() + priority_part(*patch).sets);
            assert(params_content(b.params_view()) =~= params_content(old(b).params_view())
                + priority_part(*patch).params);
        }
    } else {
        proof {
            assert(b.sets_view() =~= old(b).sets_view() + priority_part(*patch).sets);
            assert(params_content(b.params_view()) =~= params_content(old(b).params_view())
                + priority_part(*patch).params);
        }
    }
    Ok(())
}

fn apply_note(b: &mut TaskUpdateBuilder, patch: &TaskUpdatePatch)
    ensures
        final(b).sets_view() == old(b).sets_view() + note_part(*patch).sets,
        params_content(final(b).params_view()) == params_content(old(b).params_view())
            + note_part(*patch).params,
        final(b).touches_updated_at() == (old(b).touches_updated_at() || note_part(
            *patch,
        ).sets.len() > 0),
        final(b).updated_at_written_view() == old(b).updated_at_written_view(),
{
    if let Some(note_opt) = &patch.note {
        match note_opt {
            Some(v) => {
                let trimmed = trim_str(v.as_str());
                if trimmed.as_str().unicode_len() > 0 {
                    b.add_set("note = ?", SqlValue::Text(trimmed));
                } else {
                    b.add_raw_set("note = NULL");
                }
            },
            None => {
                b.add_raw_set("note = NULL");
            },
        }
    }
    proof {
        assert(b.sets_view() =~= old(b).sets_view() + note_part(*patch).sets);
        assert(params_content(b.params_view()) =~= params_content(old(b).params_view())
            + note_part(*patch).params);
    }
}

fn apply_plain_fields(b: &mut TaskUpdateBuilder, patch: &TaskUpdatePatch)
    ensures
        ({
            let part = join_parts(
                join_parts(join_parts(space_part(*patch), project_part(*patch)), deadline_part(
                    *patch,
                )),
                rank_part(*patch),
            );
            &&& final(b).sets_view() == old(b).sets_view() + part.sets
            &&& params_content(final(b).params_view()) == params_content(old(b).params_view())
                + part.params
            &&& final(b).touches_updated_at() == (old(b).touches_updated_at() || part.sets.len()
                > 0)
            &&& final(b).updated_at_written_view() == old(b).updated_at_written_view()
        }),
{
    if let Some(space_id) = &patch.space_id {
        b.add_set("space_id = ?", SqlValue::Text(space_id.clone()));
    }
    if let Some(project_opt) = &patch.project_id {
        match project_opt {
            Some(v) => b.add_set("project_id = ?", SqlValue::Text(v.clone())),
            None => b.add_raw_set("project_id = NULL"),
        }
    }
    if let Some(deadline_opt) = &patch.deadline_at {
        match deadline_opt {
            Some(v) => b.add_set("deadline_at = ?", SqlValue::Integer(*v)),
            None => b.add_raw_set("deadline_at = NULL"),
        }
    }
    if let Some(rank) = &patch.rank {
        b.add_set("rank = ?", SqlValue::Integer(*rank));
    }
    proof {
        let part = join_parts(
            join_parts(join_parts(space_part(*patch), project_part(*patch)), deadline_part(
                *patch,
            )),
            rank_part(*patch),
        );
        assert(b.sets_view() =~= old(b).sets_view() + part.sets);
        assert(params_content(b.params_view()) =~= params_content(old(b).params_view())
            + part.params);
    }
}

fn apply_lifecycle_fields(
    b: &mut TaskUpdateBuilder,
    patch: &TaskUpdatePatch,
    custom_fields_payload: Option<Option<&str>>,
)
    ensures
        ({
            let payload = match custom_fields_payload {
                Some(Some(p)) => Some(Some(p@)),
                Some(None) => Some(None::<Seq<char>>),
                None => None,
            };
            let part = join_parts(
                join_parts(custom_fields_part(payload), archived_part(*patch)),
                deleted_part(*patch),
            );
            &&& final(b).sets_view() == old(b).sets_view() + part.sets
            &&& params_content(final(b).params_view()) == params_content(old(b).params_view())
                + part.params
            &&& final(b).touches_updated_at() == (old(b).touches_updated_at() || part.sets.len()
                > 0)
            &&& final(b).updated_at_written_view() == old(b).updated_at_written_view()
        }),
{
    if let Some(payload_opt) = custom_fields_payload {
        match payload_opt {
            Some(p) => b.add_set("custom_fields = ?", SqlValue::Text(p.to_owned())),
            None => b.add_raw_set("custom_fields = NULL"),
        }
    }
    if let Some(archived_opt) = &patch.archived_at {
        match archived_opt {
            Some(v) => b.add_set("archived_at = ?", SqlValue::Integer(*v)),
            None => b.add_raw_set("archived_at = NULL"),
        }
    }
    if let Some(deleted_opt) = &patch.deleted_at {
        match deleted_opt {
            Some(v) => b.add_set("deleted_at = ?", SqlValue::Integer(*v)),
            None => b.add_raw_set("deleted_at = NULL"),
        }
    }
    proof {
        let payload = match custom_fields_payload {
            Some(Some(p)) => Some(Some(p@)),
            Some(None) => Some(None::<Seq<char>>),
            None => None,
        };
        let part = join_parts(
            join_parts(custom_fields_part(payload), archived_part(*patch)),
            deleted_part(*patch),
        );
        assert(b.sets_view() =~= old(b).sets_view() + part.sets);
        assert(params_content(b.params_view()) =~= params_content(old(b).params_view())
            + part.params);
    }
}

/// Turn one patch into the exact statement, junction work and `updated_at`
/// bookkeeping the application must perform, validating every field.
/// `current_status` is the task's stored status; `custom_fields_payload` is
/// the serialized form of the patch's (normalized) custom fields.
#[verifier::spinoff_prover]
#[verifier::rlimit(100)]
pub fn plan_task_update(
    id: &str,
    patch: &TaskUpdatePatch,
    current_status: &str,
    custom_fields_payload: Option<Option<&str>>,
    now: i64,
) -> (r: Result<TaskUpdatePlan, AppError>)
    requires
        payload_matches_patch(*patch, match custom_fields_payload {
            Some(Some(p)) => Some(Some(p@)),
            Some(None) => Some(None),
            None => None,
        }),
    ensures
        ({
            let payload = match custom_fields_payload {
                Some(Some(p)) => Some(Some(p@)),
                Some(None) => Some(None::<Seq<char>>),
                None => None,
            };
            match r {
                Ok(plan) => {
                    &&& update_patch_acceptable(*patch, current_status@)
                    &&& !patch_is_empty(*patch)
                    &&& plan.touches_updated_at == (touches_row(*patch, payload)
                        || patch.tags is Some)
                    &&& plan.updated_at_in_statement == (touches_row(*patch, payload)
                        && planned_parts(*patch, payload, now as int).sets.len() > 0)
                    &&& match plan.statement {
                        Some((sql, params)) => {
                            let stmt = planned_statement(*patch, payload, now as int);
                            &&& stmt.sets.len() > 0
                            &&& sql@ == "UPDATE tasks SET "@ + join_spec(stmt.sets, ", "@)
                                + " WHERE id = ?"@
                            &&& params_content(params@) == stmt.params.push(ParamV::Text(id@))
                        },
                        None => planned_statement(*patch, payload, now as int).sets.len() == 0,
                    }
                    &&& match (patch.tags, plan.tags) {
                        (Some(ts), Some(out)) => out@.map_values(|s: String| s@)
                            == normalize_tags_spec(ts@.map_values(|s: String| s@)),
                        (None, None) => true,
                        _ => false,
                    }
                    &&& match (patch.links, plan.links) {
                        (Some(ls), Some(out)) => out@.len() == ls@.len() && forall|i: int|
                            0 <= i < ls@.len() ==> link_normalized(out@[i], #[trigger] ls@[i]),
                        (None, None) => true,
                        _ => false,
                    }
                },
                Err(e) => {
                    &&& e is Validation
                    &&& !(update_patch_acceptable(*patch, current_status@) && !patch_is_empty(
                        *patch,
                    ))
                },
            }
        }),
{
    let ghost payload = match custom_fields_payload {
        Some(Some(p)) => Some(Some(p@)),
        Some(None) => Some(None::<Seq<char>>),
        None => None,
    };
    let mut b = TaskUpdateBuilder::new();

    if let Err(e) = apply_title(&mut b, patch) {
        return Err(e);
    }
    if let Err(e) = apply_status(&mut b, patch, current_status, now) {
        return Err(e);
    }
    if let Err(e) = apply_priority(&mut b, patch) {
        return Err(e);
    }
    apply_note(&mut b, patch);
    apply_plain_fields(&mut b, patch);

    // links are validated here; the junction write itself has no SET clause
    let planned_links: Option<Vec<NormalizedLinkInput>> = match &patch.links {
        Some(ls) => match normalize_link_inputs(ls) {
            Ok(normalized) => Some(normalized),
            Err(e) => {
                return Err(e);
            },
        },
        None => None,
    };

    apply_lifecycle_fields(&mut b, patch, custom_fields_payload);
    proof {
        assert(b.sets_view() =~= planned_parts(*patch, payload, now as int).sets);
        assert(params_content(b.params_view()) =~= planned_parts(
            *patch,
            payload,
            now as int,
        ).params);
    }

    let touches = patch.title.is_some() || patch.status.is_some() || patch.done_reason.is_some()
        || patch.priority.is_some() || patch.note.is_some() || patch.space_id.is_some()
        || patch.project_id.is_some() || patch.deadline_at.is_some() || patch.rank.is_some()
        || patch.links.is_some() || custom_fields_payload.is_some()
        || patch.archived_at.is_some() || patch.deleted_at.is_some();
    proof {
        assert(touches == touches_row(*patch, payload));
    }
    if touches {
        b.finalize_updated_at(now);
    }
    let updated_at_in_statement = b.updated_at_written();
    let has_statement = b.has_sets();

    let planned_tags: Option<Vec<String>> = match &patch.tags {
        Some(ts) => Some(normalize_tag_names(ts)),
        None => None,
    };

    if !has_statement && planned_tags.is_none() && planned_links.is_none() {
        return Err(AppError::Validation("the patch holds no updatable field".to_owned()));
    }

    let ghost stmt = planned_statement(*patch, payload, now as int);
    proof {
        assert(b.sets_view() =~= stmt.sets);
        assert(params_content(b.params_view()) =~= stmt.params);
    }
    let statement = b.build(id);
    proof {
        match &statement {
            Some((sql, params)) => {
                assert(params_content(params@) =~= stmt.params.push(ParamV::Text(id@)));
            },
            None => {},
        }
    }

    Ok(
        TaskUpdatePlan {
            statement,
            tags: planned_tags,
            links: planned_links,
            touches_updated_at: touches || patch.tags.is_some(),
            updated_at_in_statement,
        },
    )
}

} // verus!
