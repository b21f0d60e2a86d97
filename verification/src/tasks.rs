//! Task patch shapes and the helpers that prepare task data for activity
//! logging.

use vstd::prelude::*;
use vstd::string::*;
use crate::dto::{opt_str_view, CustomFieldsDto, LinkInputDto};
use crate::text::{join_spec, join_strings, trim_spec, trim_str};

verus! {

/// A partial update of one task: only the fields to change are present.
/// A doubled option (`Some(None)`) clears the field.
#[derive(Clone, Debug)]
pub struct TaskUpdatePatch {
    pub title: Option<String>,
    pub status: Option<String>,
    pub done_reason: Option<Option<String>>,
    pub priority: Option<String>,
    pub note: Option<Option<String>>,
    pub tags: Option<Vec<String>>,
    pub space_id: Option<String>,
    pub project_id: Option<Option<String>>,
    pub deadline_at: Option<Option<i64>>,
    pub rank: Option<i64>,
    pub links: Option<Vec<LinkInputDto>>,
    pub custom_fields: Option<Option<CustomFieldsDto>>,
    pub archived_at: Option<Option<i64>>,
    pub deleted_at: Option<Option<i64>>,
}

/// Whether every field of the patch is absent.
pub open spec fn patch_is_empty(p: TaskUpdatePatch) -> bool {
    &&& p.title is None
    &&& p.status is None
    &&& p.done_reason is None
    &&& p.priority is None
    &&& p.note is None
    &&& p.tags is None
    &&& p.space_id is None
    &&& p.project_id is None
    &&& p.deadline_at is None
    &&& p.rank is None
    &&& p.links is None
    &&& p.custom_fields is None
    &&& p.archived_at is None
    &&& p.deleted_at is None
}

impl Default for TaskUpdatePatch {
    /// The patch that changes nothing.
    fn default() -> (r: TaskUpdatePatch)
        ensures
            patch_is_empty(r),
    {
        TaskUpdatePatch {
            title: None,
            status: None,
            done_reason: None,
            priority: None,
            note: None,
            tags: None,
            space_id: None,
            project_id: None,
            deadline_at: None,
            rank: None,
            links: None,
            custom_fields: None,
            archived_at: None,
            deleted_at: None,
        }
    }
}

impl TaskUpdatePatch {
    /// The patch that only moves the task to a new rank.
    pub fn rank_only(new_rank: i64) -> (r: TaskUpdatePatch)
        ensures
            r.rank == Some(new_rank),
            r.title is None,
            r.status is None,
            r.done_reason is None,
            r.priority is None,
            r.note is None,
            r.tags is None,
            r.space_id is None,
            r.project_id is None,
            r.deadline_at is None,
            r.links is None,
            r.custom_fields is None,
            r.archived_at is None,
            r.deleted_at is None,
    {
        TaskUpdatePatch { rank: Some(new_rank), ..Default::default() }
    }
}

/// An update request: the task and the patch to apply.
#[derive(Clone, Debug)]
pub struct TaskUpdateInput {
    pub id: String,
    pub patch: TaskUpdatePatch,
}

/// Optional fields given to task creation beyond the title.
#[derive(Clone, Debug)]
pub struct TaskCreatePatchInput {
    pub status: Option<String>,
    pub done_reason: Option<String>,
    pub priority: Option<String>,
    pub note: Option<String>,
    pub deadline_at: Option<i64>,
    pub tags: Option<Vec<String>>,
    pub links: Option<Vec<LinkInputDto>>,
    pub custom_fields: Option<CustomFieldsDto>,
}

/// An owned copy of an optional project id.
pub fn project_id_string(project_id: Option<&str>) -> (r: Option<String>)
    ensures
        opt_str_view(r) == match project_id {
            Some(p) => Some(p@),
            None => None::<Seq<char>>,
        },
{
    match project_id {
        Some(p) => Some(p.to_owned()),
        None => None,
    }
}

/// How one link is written into an activity-log line.
pub open spec fn link_log_spec(l: LinkInputDto) -> Seq<char> {
    l.kind@ + ":"@ + trim_spec(l.title@) + "<"@ + trim_spec(l.url@) + ">"@
}

/// One link formatted for an activity-log line: `kind:title<url>` with the
/// title and URL trimmed.
pub fn format_link_for_log(kind: &str, title: &str, url: &str) -> (r: String)
    ensures
        r@ == kind@ + ":"@ + trim_spec(title@) + "<"@ + trim_spec(url@) + ">"@,
{
    let mut out = kind.to_owned();
    out.append(":");
    let t = trim_str(title);
    out.append(t.as_str());
    out.append("<");
    let u = trim_str(url);
    out.append(u.as_str());
    out.append(">");
    out
}

/// Every link formatted for an activity-log line, in input order.
pub fn normalize_links_for_log(links: &Vec<LinkInputDto>) -> (r: Vec<String>)
    ensures
        r@.len() == links@.len(),
        forall|i: int| 0 <= i < links@.len() ==> (#[trigger] r@[i])@ == link_log_spec(links@[i]),
{
    let mut out: Vec<String> = Vec::new();
    let mut i: usize = 0;
    while i < links.len()
        invariant
            i <= links@.len(),
            out@.len() == i,
            forall|j: int| 0 <= j < i ==> (#[trigger] out@[j])@ == link_log_spec(links@[j]),
        decreases links@.len() - i,
    {
        let l = &links[i];
        out.push(format_link_for_log(l.kind.as_str(), l.title.as_str(), l.url.as_str()));
        i = i + 1;
    }
    out
}

/// The values joined with the separator, or nothing when there are none.
pub fn to_optional_join(values: Vec<String>, separator: &str) -> (r: Option<String>)
    ensures
        match r {
            None => values@.len() == 0,
            Some(s) => values@.len() > 0 && s@ == join_spec(
                values@.map_values(|p: String| p@),
                separator@,
            ),
        },
{
    if values.len() == 0 {
        None
    } else {
        Some(join_strings(&values, separator))
    }
}

/// Tag names trimmed, with empties dropped and duplicates removed, ready for
/// an activity-log line.
pub fn normalize_tags_for_log(tags: &Vec<String>) -> (r: Vec<String>)
    ensures
        r@.map_values(|s: String| s@) == crate::tags::normalize_tags_spec(
            tags@.map_values(|s: String| s@),
        ),
{
    crate::tags::normalize_tag_names(tags)
}

/// Tag names trimmed, with empties dropped and duplicates removed, as task
/// creation stores them.
pub fn normalize_tags(values: Vec<String>) -> (r: Vec<String>)
    ensures
        r@.map_values(|s: String| s@) == crate::tags::normalize_tags_spec(
            values@.map_values(|s: String| s@),
        ),
{
    crate::tags::normalize_tag_names(&values)
}

} // verus!
