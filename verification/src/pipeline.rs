//! The pipeline as an explicit state machine with single-direction
//! transitions.  Each stage performs its external work outside the library
//! and reports the outcome as an event; the machine decides what runs next.
//! No stage is ever revisited: a crashed run is simply restarted from the
//! beginning, and the decision engine makes the restart converge.

use vstd::prelude::*;

use crate::errors::PromoteError;
use crate::decide::Decision;
use crate::decide::spec_decide_revision;
use crate::decide::revision_unchanged;

verus! {

#[derive(Clone, Copy, Debug, PartialEq, Eq, Structural)]
pub enum State {
    /// Acquiring the working-directory lock.
    Locking,
    /// Syncing the source mirror and resolving the channel's branch.
    Syncing,
    /// Fetching the public manifest and comparing revisions.
    Deciding,
    /// Staging, normalizing and validating candidate artifacts, and
    /// comparing the extracted version.
    Staging,
    /// Running the external manifest-and-signing tool.
    Signing,
    /// Uploading the archive copy, the documentation and the current
    /// release pointer, in that order.
    Publishing,
    /// Requesting cache invalidation.
    Invalidating,
    /// The run is over; either a release went out or there was nothing to
    /// do.
    Done,
    /// The run aborted; re-running after the cause clears is always safe.
    Failed(PromoteError),
}

#[derive(Clone, Copy, Debug, PartialEq, Eq, Structural)]
pub enum Event {
    Locked,
    LockBusy,
    Synced,
    SyncFailed,
    ManifestUnreadable,
    RevisionUnchanged,
    RevisionChanged,
    NoArtifacts,
    VersionUnchanged,
    ChannelsSwitched,
    ComponentMissing,
    Staged,
    Signed,
    SignFailed,
    Published,
    PublishFailed,
    Invalidated,
    InvalidationFailed,
}

/// The events a stage can report.
pub open spec fn expected_event(s: State, e: Event) -> bool {
    match s {
        State::Locking => e == Event::Locked || e == Event::LockBusy,
        State::Syncing => e == Event::Synced || e == Event::SyncFailed,
        State::Deciding => e == Event::ManifestUnreadable || e == Event::RevisionUnchanged || e
            == Event::RevisionChanged,
        State::Staging => e == Event::NoArtifacts || e == Event::VersionUnchanged || e
            == Event::ChannelsSwitched || e == Event::ComponentMissing || e == Event::Staged,
        State::Signing => e == Event::Signed || e == Event::SignFailed,
        State::Publishing => e == Event::Published || e == Event::PublishFailed,
        State::Invalidating => e == Event::Invalidated || e == Event::InvalidationFailed,
        State::Done => false,
        State::Failed(_) => false,
    }
}

/// The transition table.  An event a state does not expect leaves it in
/// place.
pub open spec fn spec_step(s: State, e: Event) -> State {
    if !expected_event(s, e) {
        s
    } else {
        match e {
            Event::Locked => State::Syncing,
            Event::LockBusy => State::Failed(PromoteError::LockContention),
            Event::Synced => State::Deciding,
            Event::SyncFailed => State::Failed(PromoteError::VcsError),
            Event::ManifestUnreadable => State::Failed(PromoteError::ManifestFetchError),
            Event::RevisionUnchanged => State::Done,
            Event::RevisionChanged => State::Staging,
            Event::NoArtifacts => State::Failed(PromoteError::NoArtifacts),
            Event::VersionUnchanged => State::Done,
            Event::ChannelsSwitched => State::Failed(PromoteError::ChannelMismatch),
            Event::ComponentMissing => State::Failed(PromoteError::IncompleteComponentSet),
            Event::Staged => State::Signing,
            Event::Signed => State::Publishing,
            Event::SignFailed => State::Failed(PromoteError::BuildToolError),
            Event::Published => State::Invalidating,
            Event::PublishFailed => State::Failed(PromoteError::StorageError),
            Event::Invalidated => State::Done,
            Event::InvalidationFailed => State::Failed(PromoteError::InvalidationError),
        }
    }
}

/// Advance the machine by one reported outcome.
pub fn step(s: State, e: Event) -> (r: State)
    ensures
        r == spec_step(s, e),
{
    match s {
        State::Locking => match e {
            Event::Locked => State::Syncing,
            Event::LockBusy => State::Failed(PromoteError::LockContention),
            _ => s,
        },
        State::Syncing => match e {
            Event::Synced => State::Deciding,
            Event::SyncFailed => State::Failed(PromoteError::VcsError),
            _ => s,
        },
        State::Deciding => match e {
            Event::ManifestUnreadable => State::Failed(PromoteError::ManifestFetchError),
            Event::RevisionUnchanged => State::Done,
            Event::RevisionChanged => State::Staging,
            _ => s,
        },
        State::Staging => match e {
            Event::NoArtifacts => State::Failed(PromoteError::NoArtifacts),
            Event::VersionUnchanged => State::Done,
            Event::ChannelsSwitched => State::Failed(PromoteError::ChannelMismatch),
            Event::ComponentMissing => State::Failed(PromoteError::IncompleteComponentSet),
            Event::Staged => State::Signing,
            _ => s,
        },
        State::Signing => match e {
            Event::Signed => State::Publishing,
            Event::SignFailed => State::Failed(PromoteError::BuildToolError),
            _ => s,
        },
        State::Publishing => match e {
            Event::Published => State::Invalidating,
            Event::PublishFailed => State::Failed(PromoteError::StorageError),
            _ => s,
        },
        State::Invalidating => match e {
            Event::Invalidated => State::Done,
            Event::InvalidationFailed => State::Failed(PromoteError::InvalidationError),
            _ => s,
        },
        State::Done => s,
        State::Failed(_) => s,
    }
}

/// Where a state sits along the single direction of travel.
pub open spec fn stage_index(s: State) -> int {
    match s {
        State::Locking => 0,
        State::Syncing => 1,
        State::Deciding => 2,
        State::Staging => 3,
        State::Signing => 4,
        State::Publishing => 5,
        State::Invalidating => 6,
        State::Done => 7,
        State::Failed(_) => 7,
    }
}

pub open spec fn is_terminal(s: State) -> bool {
    s == State::Done || s matches State::Failed(_)
}

/// Law: transitions go in a single direction — every expected event moves
/// the machine strictly forward, so no stage is ever revisited within a run.
pub proof fn lemma_single_direction(s: State, e: Event)
    requires
        expected_event(s, e),
    ensures
        stage_index(spec_step(s, e)) > stage_index(s),
{
}

/// Law: a finished or failed run stays finished; only a fresh invocation,
/// restarting from the beginning, can do further work.
pub proof fn lemma_terminal_stays(s: State, e: Event)
    requires
        is_terminal(s),
    ensures
        spec_step(s, e) == s,
{
}

/// Law: when the published version already embeds the candidate revision's
/// short prefix — as it does after a completed promotion of that revision —
/// the decision is Skip and the machine moves from Deciding straight to
/// Done.  The staging, signing, publishing and invalidating stages are never
/// entered, so a re-run against an unchanged upstream mutates no publish
/// target: re-running the whole pipeline is idempotent.
pub proof fn lemma_rerun_converges(prev: Seq<char>, rev: Seq<char>)
    requires
        revision_unchanged(prev, rev),
    ensures
        spec_decide_revision(prev, rev) == Decision::Skip,
        spec_step(State::Deciding, Event::RevisionUnchanged) == State::Done,
        is_terminal(spec_step(State::Deciding, Event::RevisionUnchanged)),
{
}

} // verus!
