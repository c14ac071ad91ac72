//! The error taxonomy of the pipeline.  Every error is fatal to a run; the
//! caller reports it and exits, and a later re-run re-derives its decision
//! from durable state.

use vstd::prelude::*;

verus! {

#[derive(Clone, Copy, Debug, PartialEq, Eq, Structural)]
pub enum PromoteError {
    /// Another invocation holds the working-directory lock.
    LockContention,
    /// Syncing or resolving the source repository failed.
    VcsError,
    /// The current public manifest was unreadable or malformed.
    ManifestFetchError,
    /// Nothing is staged for the candidate revision.
    NoArtifacts,
    /// The staged set lacks a required component archive.
    IncompleteComponentSet,
    /// The candidate's embedded channel label contradicts the published one.
    ChannelMismatch,
    /// The signing subprocess exited with a failure.
    BuildToolError,
    /// Copying or syncing to the distribution target failed.
    StorageError,
    /// The cache-invalidation request failed.
    InvalidationError,
}

pub open spec fn spec_error_message(e: PromoteError) -> Seq<char> {
    match e {
        PromoteError::LockContention => "another promotion already holds the lock"@,
        PromoteError::VcsError => "failed to sync or resolve the source repository"@,
        PromoteError::ManifestFetchError => "current release manifest unreadable or malformed"@,
        PromoteError::NoArtifacts => "no artifacts staged for this revision, is this a stable/beta branch awaiting a PR?"@,
        PromoteError::IncompleteComponentSet => "staged artifacts are missing a required component"@,
        PromoteError::ChannelMismatch => "looks like channels are being switched -- was this branch just created and has a pending PR to change the release channel?"@,
        PromoteError::BuildToolError => "the build or signing subprocess failed"@,
        PromoteError::StorageError => "copying artifacts to the distribution target failed"@,
        PromoteError::InvalidationError => "the cache invalidation request failed"@,
    }
}

impl PromoteError {
    /// A diagnostic line naming the failed operation.
    pub fn message(&self) -> (r: &'static str)
        ensures
            r@ == spec_error_message(*self),
    {
        match self {
            PromoteError::LockContention => "another promotion already holds the lock",
            PromoteError::VcsError => "failed to sync or resolve the source repository",
            PromoteError::ManifestFetchError => "current release manifest unreadable or malformed",
            PromoteError::NoArtifacts => "no artifacts staged for this revision, is this a stable/beta branch awaiting a PR?",
            PromoteError::IncompleteComponentSet => "staged artifacts are missing a required component",
            PromoteError::ChannelMismatch => "looks like channels are being switched -- was this branch just created and has a pending PR to change the release channel?",
            PromoteError::BuildToolError => "the build or signing subprocess failed",
            PromoteError::StorageError => "copying artifacts to the distribution target failed",
            PromoteError::InvalidationError => "the cache invalidation request failed",
        }
    }
}

} // verus!
