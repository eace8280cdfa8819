//! The kinds of failure that end a run.

use vstd::prelude::*;

verus! {

/// Why a run was abandoned. Every failure is final: nothing is retried.
#[derive(Clone, Copy, Debug, PartialEq, Eq, Structural)]
pub enum UploadError {
    /// The source file could not be read.
    Io,
    /// A call to the storage or compute service failed, or its reply lacked
    /// what was asked for.
    Service,
    /// The region string names no region.
    RegionParse,
    /// A required setting is missing.
    Config,
}

} // verus!
