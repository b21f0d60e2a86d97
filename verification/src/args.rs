//! Argument shapes of the command surface.
//!
//! The surrounding application deserializes caller input into these and
//! hands them to the library; they are plain data.

use vstd::prelude::*;
use crate::dto::{CustomFieldsDto, LinkInputDto};
use crate::tasks::TaskUpdatePatch;

verus! {

/// Names the remote database for a synchronization command.
#[derive(Clone, Debug)]
pub struct DatabaseUrlArgs {
    pub database_url: String,
}

/// Filter for listing tasks.
#[derive(Clone, Debug)]
pub struct ListTasksArgs {
    pub space_id: Option<String>,
    pub status: Option<String>,
    pub project_id: Option<String>,
}

/// Filter for listing soft-deleted tasks.
#[derive(Clone, Debug)]
pub struct ListDeletedTasksArgs {
    pub space_id: Option<String>,
    pub status: Option<String>,
    pub project_id: Option<String>,
}

/// Arguments for creating a task with defaults.
#[derive(Clone, Debug)]
pub struct CreateTaskArgs {
    pub space_id: String,
    pub title: String,
    pub auto_start: Option<bool>,
    pub project_id: Option<String>,
}

/// Arguments for creating a task together with optional field values.
#[derive(Clone, Debug)]
pub struct CreateTaskWithPatchArgs {
    pub space_id: String,
    pub title: String,
    pub auto_start: Option<bool>,
    pub project_id: Option<String>,
    pub status: Option<String>,
    pub done_reason: Option<String>,
    pub priority: Option<String>,
    pub note: Option<String>,
    pub deadline_at: Option<i64>,
    pub tags: Option<Vec<String>>,
    pub links: Option<Vec<LinkInputDto>>,
    pub custom_fields: Option<CustomFieldsDto>,
}

/// A task id together with the patch to apply to it.
#[derive(Clone, Debug)]
pub struct UpdateTaskArgs {
    pub id: String,
    pub patch: UpdateTaskPatch,
}

/// Caller-facing task patch; a doubled option (`Some(None)`) clears the
/// field.
#[derive(Clone, Debug)]
pub struct UpdateTaskPatch {
    pub title: Option<String>,
    pub status: Option<String>,
    pub done_reason: Option<Option<String>>,
    pub priority: Option<String>,
    pub note: Option<Option<String>>,
    pub tags: Option<Vec<String>>,
    pub space_id: Option<String>,
    pub project_id: Option<Option<String>>,
    pub deadline_at: Option<Option<i64>>,
    pub rank: Option<i64>,
    pub links: Option<Vec<LinkInputDto>>,
    pub custom_fields: Option<Option<CustomFieldsDto>>,
    pub archived_at: Option<Option<i64>>,
    pub deleted_at: Option<Option<i64>>,
}

impl UpdateTaskPatch {
    /// The same patch in the update layer's shape; every field carries over
    /// unchanged.
    pub fn into_task_patch(self) -> (r: TaskUpdatePatch)
        ensures
            r.title == self.title,
            r.status == self.status,
            r.done_reason == self.done_reason,
            r.priority == self.priority,
            r.note == self.note,
            r.tags == self.tags,
            r.space_id == self.space_id,
            r.project_id == self.project_id,
            r.deadline_at == self.deadline_at,
            r.rank == self.rank,
            r.links == self.links,
            r.custom_fields == self.custom_fields,
            r.archived_at == self.archived_at,
            r.deleted_at == self.deleted_at,
    {
        TaskUpdatePatch {
            title: self.title,
            status: self.status,
            done_reason: self.done_reason,
            priority: self.priority,
            note: self.note,
            tags: self.tags,
            space_id: self.space_id,
            project_id: self.project_id,
            deadline_at: self.deadline_at,
            rank: self.rank,
            links: self.links,
            custom_fields: self.custom_fields,
            archived_at: self.archived_at,
            deleted_at: self.deleted_at,
        }
    }
}

/// Arguments for completing a task.
#[derive(Clone, Debug)]
pub struct CompleteTaskArgs {
    pub id: String,
}

/// Arguments for soft-deleting tasks.
#[derive(Clone, Debug)]
pub struct DeleteTasksArgs {
    pub ids: Vec<String>,
}

/// Arguments for restoring soft-deleted tasks.
#[derive(Clone, Debug)]
pub struct RestoreTasksArgs {
    pub ids: Vec<String>,
}

/// Arguments for moving one task to a new rank.
#[derive(Clone, Debug)]
pub struct ReorderTaskArgs {
    pub task_id: String,
    pub new_rank: i64,
}

/// Arguments for rebalancing task ranks with a fixed step.
#[derive(Clone, Debug)]
pub struct RebalanceRanksArgs {
    pub task_ids: Vec<String>,
    pub step: Option<i64>,
}

/// Filter for listing the projects of one space.
#[derive(Clone, Debug)]
pub struct ListProjectsArgs {
    pub space_id: String,
}

/// Arguments for creating a project.
#[derive(Clone, Debug)]
pub struct CreateProjectArgs {
    pub space_id: String,
    pub title: String,
    pub parent_id: Option<String>,
    pub note: Option<String>,
    pub priority: Option<String>,
    pub rank: Option<i64>,
    pub tags: Option<Vec<String>>,
    pub links: Option<Vec<LinkInputDto>>,
}

/// A project id together with the patch to apply to it.
#[derive(Clone, Debug)]
pub struct UpdateProjectArgs {
    pub project_id: String,
    pub patch: UpdateProjectPatch,
}

/// Caller-facing project patch; a doubled option (`Some(None)`) clears the
/// field.
#[derive(Clone, Debug)]
pub struct UpdateProjectPatch {
    pub title: Option<String>,
    pub note: Option<Option<String>>,
    pub priority: Option<String>,
    pub space_id: Option<String>,
    pub parent_id: Option<Option<String>>,
    pub tags: Option<Vec<String>>,
    pub links: Option<Vec<LinkInputDto>>,
}

/// Arguments for moving one project to a new rank and, optionally, under a
/// new parent.
#[derive(Clone, Debug)]
pub struct ReorderProjectArgs {
    pub project_id: String,
    pub new_rank: i64,
    pub new_parent_id: Option<Option<String>>,
}

/// Arguments for rebalancing project ranks with a fixed step.
#[derive(Clone, Debug)]
pub struct RebalanceProjectRanksArgs {
    pub project_ids: Vec<String>,
    pub step: Option<i64>,
}

/// Arguments for soft-deleting a project and its subtree.
#[derive(Clone, Debug)]
pub struct DeleteProjectArgs {
    pub project_id: String,
}

/// Filter for listing activity logs.
#[derive(Clone, Debug)]
pub struct ListActivityLogsArgs {
    pub entity_type: Option<String>,
    pub task_id: Option<String>,
    pub space_id: Option<String>,
    pub project_id: Option<String>,
    pub from: Option<i64>,
    pub to: Option<i64>,
    pub limit: Option<u64>,
    pub offset: Option<u64>,
}

} // verus!
