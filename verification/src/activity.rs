//! Activity-log input shapes and listing rules.

use vstd::prelude::*;

verus! {

/// Default page size of an activity-log listing.
pub const DEFAULT_LIST_LIMIT: u64 = 100;

/// Largest page size an activity-log listing may request.
pub const MAX_LIST_LIMIT: u64 = 500;

/// One task activity entry to append.
#[derive(Clone, Debug)]
pub struct NewTaskActivityLogInput {
    pub task_id: String,
    pub space_id: String,
    pub project_id: Option<String>,
    pub action: String,
    pub action_label: String,
    pub field_key: Option<String>,
    pub field_label: Option<String>,
    pub before_value: Option<String>,
    pub after_value: Option<String>,
    pub detail: String,
    pub create_by: String,
    pub created_at: i64,
}

/// Filter for listing activity logs.
#[derive(Clone, Debug)]
pub struct ListActivityLogsInput {
    pub entity_type: Option<String>,
    pub task_id: Option<String>,
    pub space_id: Option<String>,
    pub project_id: Option<String>,
    pub from: Option<i64>,
    pub to: Option<i64>,
    pub limit: Option<u64>,
    pub offset: Option<u64>,
}

/// The page size a listing actually uses: the requested limit, defaulted
/// when absent and capped at the maximum.
pub fn effective_list_limit(limit: Option<u64>) -> (r: u64)
    ensures
        r == ({
            let wanted = match limit {
                Some(v) => v,
                None => DEFAULT_LIST_LIMIT as u64,
            };
            if wanted > MAX_LIST_LIMIT as u64 {
                MAX_LIST_LIMIT as u64
            } else {
                wanted
            }
        }),
{
    let wanted = match limit {
        Some(v) => v,
        None => DEFAULT_LIST_LIMIT,
    };
    if wanted > MAX_LIST_LIMIT {
        MAX_LIST_LIMIT
    } else {
        wanted
    }
}

} // verus!
