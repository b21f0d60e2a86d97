//! Validation entry points used when a task is created or patched.

use vstd::prelude::*;
use vstd::string::*;
use crate::error::AppError;
use crate::task_rules;
use crate::text::{
    lemma_lower_of_upper, str_eq_ignore_ascii_case, to_lower_spec, to_upper_spec, trim_spec,
    trim_str,
};

verus! {

/// Trim the title and reject it when nothing is left.
pub fn trim_and_validate_title(title: &str) -> (r: Result<String, AppError>)
    ensures
        r is Ok <==> trim_spec(title@).len() > 0,
        r matches Ok(v) ==> v@ == trim_spec(title@),
        r is Err ==> r->Err_0 is Validation,
{
    let trimmed = trim_str(title);
    if trimmed.as_str().unicode_len() == 0 {
        Err(AppError::Validation("task title must not be empty".to_owned()))
    } else {
        Ok(trimmed)
    }
}

/// Accept exactly `todo` and `done`, returning the normalized form.
pub fn normalize_status(status: &str) -> (r: Result<String, AppError>)
    ensures
        r is Ok <==> task_rules::is_valid_status(status@),
        r matches Ok(v) ==> v@ == to_lower_spec(trim_spec(status@)),
        r is Err ==> r->Err_0 is Validation,
{
    task_rules::validate_status(status)
}

/// Accept exactly `completed` and `cancelled`, returning the normalized
/// form.
pub fn normalize_done_reason(reason: &str) -> (r: Result<String, AppError>)
    ensures
        r is Ok <==> task_rules::is_valid_done_reason(reason@),
        r matches Ok(v) ==> v@ == to_lower_spec(trim_spec(reason@)),
        r is Err ==> r->Err_0 is Validation,
{
    task_rules::normalize_done_reason(reason)
}

/// A done reason is owed when a task is completed: both missing layers of
/// the optional value are rejected, and what is present is validated and
/// normalized.
pub fn require_done_reason(done_reason: Option<Option<&str>>) -> (r: Result<String, AppError>)
    ensures
        r is Ok <==> (done_reason matches Some(Some(v)) && task_rules::is_valid_done_reason(
            v@,
        )),
        r matches Ok(v) ==> (done_reason matches Some(Some(reason)) && v@ == to_lower_spec(
            trim_spec(reason@),
        )),
        r is Err ==> r->Err_0 is Validation,
{
    match done_reason {
        Some(Some(reason)) => normalize_done_reason(reason),
        _ => Err(AppError::Validation("completing a task requires a doneReason".to_owned())),
    }
}

/// Normalize the priority to its trimmed, uppercase form and accept exactly
/// the four priorities.
pub fn normalize_priority(priority: &str) -> (r: Result<String, AppError>)
    ensures
        r is Ok <==> task_rules::is_valid_priority(priority@),
        r matches Ok(v) ==> v@ == to_upper_spec(trim_spec(priority@)),
        r is Err ==> r->Err_0 is Validation,
{
    let normalized = task_rules::normalize_priority(priority);
    proof {
        lemma_lower_of_upper(trim_spec(priority@));
    }
    if str_eq_ignore_ascii_case(normalized.as_str(), "P0") || str_eq_ignore_ascii_case(
        normalized.as_str(),
        "P1",
    ) || str_eq_ignore_ascii_case(normalized.as_str(), "P2") || str_eq_ignore_ascii_case(
        normalized.as_str(),
        "P3",
    ) {
        Ok(normalized)
    } else {
        Err(AppError::Validation("priority must be P0, P1, P2 or P3".to_owned()))
    }
}

} // verus!
