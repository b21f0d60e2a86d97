//! Remote connector policy.
//!
//! The engine itself never opens a connection; the surrounding application
//! does.  What is decided here, and therefore verified, is the policy the
//! application must follow: which URLs are rejected before any connection
//! attempt, and how small the short-lived connection pool has to be kept so
//! that a remote with a strict total-connection budget is never exhausted.

use vstd::prelude::*;
use vstd::string::*;
use crate::error::SyncError;
use crate::text::{trim_spec, trim_str};

verus! {

/// Pool bounds for the short-lived remote connection of one pass.
#[derive(Clone, Copy, Debug, PartialEq, Eq, Structural)]
pub struct RemotePoolConfig {
    pub max_connections: u32,
    pub min_connections: u32,
    pub connect_timeout_secs: u64,
    pub acquire_timeout_secs: u64,
    pub idle_timeout_secs: u64,
}

/// The pool configuration every pass uses: a handful of connections at most,
/// none held idle in advance, and short timeouts, because the remote may
/// enforce a strict total-connection budget.
pub fn remote_pool_config() -> (r: RemotePoolConfig)
    ensures
        r.max_connections == 4,
        r.min_connections == 0,
        r.connect_timeout_secs == 12,
        r.acquire_timeout_secs == 20,
        r.idle_timeout_secs == 30,
{
    RemotePoolConfig {
        max_connections: 4,
        min_connections: 0,
        connect_timeout_secs: 12,
        acquire_timeout_secs: 20,
        idle_timeout_secs: 30,
    }
}

/// Validate and normalize a remote database URL.  A URL that trims to empty
/// is rejected before any connection attempt; any other URL is accepted,
/// trimmed.
pub fn prepare_remote_url(url: &str) -> (r: Result<String, SyncError>)
    ensures
        match r {
            Ok(t) => t@ == trim_spec(url@) && trim_spec(url@).len() > 0,
            Err(e) => e is Validation && trim_spec(url@).len() == 0,
        },
{
    let trimmed = trim_str(url);
    if trimmed.as_str().unicode_len() == 0 {
        Err(SyncError::Validation("database URL is empty".to_owned()))
    } else {
        Ok(trimmed)
    }
}

} // verus!
