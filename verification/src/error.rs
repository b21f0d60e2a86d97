//! Error taxonomy.
//!
//! A failed pass surfaces exactly one of these; the variant names the stage
//! that failed.  Corrupt watermark text is not an error at all: the watermark
//! store recovers it as zero and never surfaces it.

use vstd::prelude::*;

verus! {

/// Which stage of a synchronization pass failed.
#[derive(Clone, Copy, Debug, PartialEq, Eq, Structural)]
pub enum SyncErrorKind {
    /// The remote URL was rejected before any connection attempt.
    Validation,
    /// The remote store could not be reached.
    Connection,
    /// The remote schema could not be brought current.
    Migration,
    /// A table's read or write failed.
    Query,
}

/// Error returned by a synchronization entry point, wrapping the underlying
/// cause text.
#[derive(Clone, Debug)]
pub enum SyncError {
    Validation(String),
    Connection(String),
    Migration(String),
    Query(String),
}

impl SyncError {
    /// The stage this error belongs to.
    pub fn kind(&self) -> (k: SyncErrorKind)
        ensures
            k == SyncErrorKind::Validation <==> self is Validation,
            k == SyncErrorKind::Connection <==> self is Connection,
            k == SyncErrorKind::Migration <==> self is Migration,
            k == SyncErrorKind::Query <==> self is Query,
    {
        match self {
            SyncError::Validation(_) => SyncErrorKind::Validation,
            SyncError::Connection(_) => SyncErrorKind::Connection,
            SyncError::Migration(_) => SyncErrorKind::Migration,
            SyncError::Query(_) => SyncErrorKind::Query,
        }
    }

    /// The underlying cause text.
    pub fn message(&self) -> (m: &String)
        ensures
            m@ == self.message_view(),
    {
        match self {
            SyncError::Validation(m) => m,
            SyncError::Connection(m) => m,
            SyncError::Migration(m) => m,
            SyncError::Query(m) => m,
        }
    }

    /// The cause text carried by any variant.
    pub open spec fn message_view(&self) -> Seq<char> {
        match self {
            SyncError::Validation(m) => m@,
            SyncError::Connection(m) => m@,
            SyncError::Migration(m) => m@,
            SyncError::Query(m) => m@,
        }
    }
}

/// Error of the local validation and normalization layer.
#[derive(Clone, Debug)]
pub enum AppError {
    /// An input failed validation; the text says which rule was broken.
    Validation(String),
}

impl AppError {
    /// The underlying cause text.
    pub fn message(&self) -> (m: &String)
        ensures
            m@ == self.message_view(),
    {
        match self {
            AppError::Validation(m) => m,
        }
    }

    /// The cause text carried by any variant.
    pub open spec fn message_view(&self) -> Seq<char> {
        match self {
            AppError::Validation(m) => m@,
        }
    }
}

} // verus!
