//! Data-transfer shapes exchanged with the surrounding application.
//!
//! These are plain data; the crate's functions state what they do to them
//! field by field.

use vstd::prelude::*;

verus! {

/// A space, the top-level grouping.
#[derive(Clone, Debug)]
pub struct SpaceDto {
    pub id: String,
    pub name: String,
    pub order: i64,
    pub created_at: i64,
    pub updated_at: i64,
}

/// A project, with its computed status and attached tags and links.
#[derive(Clone, Debug)]
pub struct ProjectDto {
    pub id: String,
    pub space_id: String,
    pub parent_id: Option<String>,
    pub path: String,
    pub title: String,
    pub note: Option<String>,
    pub priority: String,
    pub todo_task_count: i64,
    pub done_task_count: i64,
    pub last_task_updated_at: Option<i64>,
    pub created_at: i64,
    pub updated_at: i64,
    pub archived_at: Option<i64>,
    pub deleted_at: Option<i64>,
    pub create_by: String,
    pub rank: i64,
    pub computed_status: String,
    pub tags: Vec<String>,
    pub links: Vec<LinkDto>,
}

/// A task, with its tags, links and custom fields.
#[derive(Clone, Debug)]
pub struct TaskDto {
    pub id: String,
    pub space_id: String,
    pub project_id: Option<String>,
    pub title: String,
    pub note: Option<String>,
    /// `todo` or `done`.
    pub status: String,
    /// `completed` or `cancelled`; meaningful only while `status` is `done`.
    pub done_reason: Option<String>,
    pub priority: String,
    pub tags: Vec<String>,
    pub rank: i64,
    pub created_at: i64,
    pub updated_at: i64,
    pub completed_at: Option<i64>,
    pub deadline_at: Option<i64>,
    pub archived_at: Option<i64>,
    pub deleted_at: Option<i64>,
    pub links: Vec<LinkDto>,
    pub custom_fields: Option<CustomFieldsDto>,
    pub create_by: String,
}

/// An external link attached to a task or project.
#[derive(Clone, Debug)]
pub struct LinkDto {
    pub id: String,
    pub title: String,
    pub url: String,
    pub kind: String,
    pub rank: i64,
    pub created_at: i64,
    pub updated_at: i64,
}

/// Caller-supplied link data, before normalization.
#[derive(Clone, Debug)]
pub struct LinkInputDto {
    pub id: Option<String>,
    pub title: String,
    pub url: String,
    pub kind: String,
    pub rank: Option<i64>,
}

/// The custom fields of one task.
#[derive(Clone, Debug)]
pub struct CustomFieldsDto {
    pub fields: Vec<CustomFieldItemDto>,
}

/// One custom field.
#[derive(Clone, Debug)]
pub struct CustomFieldItemDto {
    pub key: String,
    pub label: String,
    pub value: Option<String>,
}

/// The view of an optional owned string.
pub open spec fn opt_str_view(o: Option<String>) -> Option<Seq<char>> {
    match o {
        Some(s) => Some(s@),
        None => None,
    }
}

/// A copy of an optional string, equal in view.
pub fn clone_opt_string(o: &Option<String>) -> (r: Option<String>)
    ensures
        opt_str_view(r) == opt_str_view(*o),
{
    match o {
        Some(s) => Some(s.clone()),
        None => None,
    }
}

} // verus!
