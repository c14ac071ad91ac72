//! The release decision engine: the idempotency core that decides whether a
//! candidate revision warrants a new release.
//!
//! The decision has two phases.  The first compares the previously published
//! version string against the candidate revision's short prefix and needs no
//! artifacts at all.  Only when that proceeds are artifacts staged, and the
//! second phase compares the version string extracted from them against the
//! published one.

use vstd::prelude::*;

use crate::channel::Channel;
use crate::errors::PromoteError;
use crate::strutil::has_substring;
use crate::strutil::contains_substring;
use crate::strutil::str_eq;
use crate::strutil::version_number;
use crate::strutil::version_number_of;

verus! {

#[derive(Clone, Copy, Debug, PartialEq, Eq, Structural)]
pub enum Decision {
    /// Nothing to do: the public channel is already at this state.
    Skip,
    /// A release is warranted.
    Proceed,
}

/// The short form of a revision: its first seven characters.
pub open spec fn short_rev(rev: Seq<char>) -> Seq<char> {
    rev.subrange(0, 7)
}

/// The published version string already embeds the candidate revision's short
/// prefix, so nothing changed upstream.
pub open spec fn revision_unchanged(prev: Seq<char>, rev: Seq<char>) -> bool {
    has_substring(prev, short_rev(rev))
}

pub open spec fn spec_decide_revision(prev: Seq<char>, rev: Seq<char>) -> Decision {
    if revision_unchanged(prev, rev) {
        Decision::Skip
    } else {
        Decision::Proceed
    }
}

/// First phase: skip when the published version already names the candidate
/// revision.  Needs no staged artifacts.
pub fn decide_revision(previous_version: &str, rev: &str) -> (r: Decision)
    requires
        rev@.len() >= 7,
    ensures
        r == spec_decide_revision(previous_version@, rev@),
{
    if contains_substring(previous_version, rev.substring_char(0, 7)) {
        Decision::Skip
    } else {
        Decision::Proceed
    }
}

/// The channel label baked into the candidate version contradicts the one in
/// the published version: the candidate reads as nightly (or beta) while the
/// published release does not.
pub open spec fn embedded_label_mismatch(prev: Seq<char>, current: Seq<char>) -> bool {
    (has_substring(current, "nightly"@) && !has_substring(prev, "nightly"@)) || (has_substring(
        current,
        "beta"@,
    ) && !has_substring(prev, "beta"@))
}

/// Second phase of the decision, over the version string extracted from the
/// staged artifacts.  Channels other than nightly skip when the version
/// number has not moved; a contradictory embedded channel label is fatal.
pub open spec fn spec_decide_version(channel: Channel, prev: Seq<char>, current: Seq<char>) -> Result<
    Decision,
    PromoteError,
> {
    if channel != Channel::Nightly && version_number(current) == version_number(prev) {
        Ok(Decision::Skip)
    } else if embedded_label_mismatch(prev, current) {
        Err(PromoteError::ChannelMismatch)
    } else {
        Ok(Decision::Proceed)
    }
}

/// Second phase: compare the candidate's extracted version string against the
/// published one.
pub fn decide_version(channel: Channel, previous_version: &str, current_version: &str) -> (r:
    Result<Decision, PromoteError>)
    ensures
        r == spec_decide_version(channel, previous_version@, current_version@),
{
    if channel != Channel::Nightly {
        let prev_num = version_number_of(previous_version);
        let cur_num = version_number_of(current_version);
        if str_eq(cur_num.as_str(), prev_num.as_str()) {
            return Ok(Decision::Skip);
        }
    }
    let mismatch = (contains_substring(current_version, "nightly") && !contains_substring(
        previous_version,
        "nightly",
    )) || (contains_substring(current_version, "beta") && !contains_substring(
        previous_version,
        "beta",
    ));
    if mismatch {
        Err(PromoteError::ChannelMismatch)
    } else {
        Ok(Decision::Proceed)
    }
}

/// Law: whenever the published version embeds the candidate revision's short
/// prefix, the first phase skips — and therefore no artifact is ever staged,
/// since staging happens only after it proceeds.
pub proof fn lemma_skip_on_unchanged_revision(prev: Seq<char>, rev: Seq<char>)
    requires
        revision_unchanged(prev, rev),
    ensures
        spec_decide_revision(prev, rev) == Decision::Skip,
{
}

/// Law: on the nightly channel the second phase never skips — version
/// equality is ignored there; only the first phase's revision comparison can
/// skip a nightly release.
pub proof fn lemma_nightly_never_version_skips(prev: Seq<char>, current: Seq<char>)
    ensures
        spec_decide_version(Channel::Nightly, prev, current) != Ok::<
            Decision,
            PromoteError,
        >(Decision::Skip),
{
}

/// Law: on the beta and stable channels, a candidate whose version number
/// equals the published one is skipped even though the revision moved.
pub proof fn lemma_version_unchanged_skips(channel: Channel, prev: Seq<char>, current: Seq<char>)
    requires
        channel != Channel::Nightly,
        version_number(current) == version_number(prev),
    ensures
        spec_decide_version(channel, prev, current) == Ok::<
            Decision,
            PromoteError,
        >(Decision::Skip),
{
}

/// Law: a contradictory embedded channel label aborts the run instead of
/// skipping or proceeding.  On non-nightly channels the version-equality skip
/// is checked first, so the law holds on the inputs that reach the label
/// check.
pub proof fn lemma_label_mismatch_is_fatal(channel: Channel, prev: Seq<char>, current: Seq<char>)
    requires
        embedded_label_mismatch(prev, current),
        channel == Channel::Nightly || version_number(prev) != version_number(current),
    ensures
        spec_decide_version(channel, prev, current) == Err::<
            Decision,
            PromoteError,
        >(PromoteError::ChannelMismatch),
{
}

} // verus!
