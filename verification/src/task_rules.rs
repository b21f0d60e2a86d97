//! Shared validation and normalization rules for task and project fields,
//! so that every layer applies the same meaning to priority, status and
//! done-reason text.

use vstd::prelude::*;
use vstd::string::*;
use crate::error::AppError;
use crate::text::{
    str_eq, str_eq_ignore_ascii_case, to_ascii_lower, to_ascii_upper, to_lower_spec,
    to_upper_spec, trim_spec, trim_str,
};

verus! {

/// Whether `s` is one of the four priorities, up to surrounding whitespace
/// and ASCII case.
pub open spec fn is_valid_priority(s: Seq<char>) -> bool {
    ||| to_lower_spec(trim_spec(s)) == to_lower_spec("P0"@)
    ||| to_lower_spec(trim_spec(s)) == to_lower_spec("P1"@)
    ||| to_lower_spec(trim_spec(s)) == to_lower_spec("P2"@)
    ||| to_lower_spec(trim_spec(s)) == to_lower_spec("P3"@)
}

/// Priority text trimmed and folded to uppercase, ready for comparison and
/// storage.
pub fn normalize_priority(priority: &str) -> (r: String)
    ensures
        r@ == to_upper_spec(trim_spec(priority@)),
{
    let trimmed = trim_str(priority);
    to_ascii_upper(trimmed.as_str())
}

/// Accept exactly the four priorities, whatever their case or surrounding
/// whitespace.
pub fn validate_priority(priority: &str) -> (r: Result<(), AppError>)
    ensures
        r is Ok <==> is_valid_priority(priority@),
        r is Err ==> r->Err_0 is Validation,
{
    let trimmed = trim_str(priority);
    if str_eq_ignore_ascii_case(trimmed.as_str(), "P0") || str_eq_ignore_ascii_case(
        trimmed.as_str(),
        "P1",
    ) || str_eq_ignore_ascii_case(trimmed.as_str(), "P2") || str_eq_ignore_ascii_case(
        trimmed.as_str(),
        "P3",
    ) {
        Ok(())
    } else {
        Err(AppError::Validation("priority must be P0, P1, P2 or P3".to_owned()))
    }
}

/// Status text trimmed and folded to lowercase.
pub fn normalize_status(status: &str) -> (r: String)
    ensures
        r@ == to_lower_spec(trim_spec(status@)),
{
    let trimmed = trim_str(status);
    to_ascii_lower(trimmed.as_str())
}

/// Whether `s` normalizes to one of the two statuses.
pub open spec fn is_valid_status(s: Seq<char>) -> bool {
    to_lower_spec(trim_spec(s)) == "todo"@ || to_lower_spec(trim_spec(s)) == "done"@
}

/// Accept exactly `todo` and `done`, whatever their case or surrounding
/// whitespace, returning the normalized form.
pub fn validate_status(status: &str) -> (r: Result<String, AppError>)
    ensures
        r is Ok <==> is_valid_status(status@),
        r matches Ok(v) ==> v@ == to_lower_spec(trim_spec(status@)),
        r is Err ==> r->Err_0 is Validation,
{
    let normalized = normalize_status(status);
    if str_eq(normalized.as_str(), "todo") || str_eq(normalized.as_str(), "done") {
        Ok(normalized)
    } else {
        Err(AppError::Validation("status must be todo or done".to_owned()))
    }
}

/// Whether `s` normalizes to one of the two done reasons.
pub open spec fn is_valid_done_reason(s: Seq<char>) -> bool {
    to_lower_spec(trim_spec(s)) == "completed"@ || to_lower_spec(trim_spec(s)) == "cancelled"@
}

/// Accept exactly `completed` and `cancelled`, whatever their case or
/// surrounding whitespace, returning the normalized form.
pub fn normalize_done_reason(reason: &str) -> (r: Result<String, AppError>)
    ensures
        r is Ok <==> is_valid_done_reason(reason@),
        r matches Ok(v) ==> v@ == to_lower_spec(trim_spec(reason@)),
        r is Err ==> r->Err_0 is Validation,
{
    let trimmed = trim_str(reason);
    let normalized = to_ascii_lower(trimmed.as_str());
    if str_eq(normalized.as_str(), "completed") || str_eq(normalized.as_str(), "cancelled") {
        Ok(normalized)
    } else {
        Err(AppError::Validation("doneReason must be completed or cancelled".to_owned()))
    }
}

} // verus!
