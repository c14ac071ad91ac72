//! Release channels and their mapping to source branches.

use vstd::prelude::*;

use crate::strutil::str_eq;

verus! {

#[derive(Clone, Copy, Debug, PartialEq, Eq, Structural)]
pub enum Channel {
    Nightly,
    Beta,
    Stable,
}

impl Channel {
    /// The channel's name as it appears in manifests and publish paths.
    pub open spec fn spec_name(self) -> Seq<char> {
        match self {
            Channel::Nightly => "nightly"@,
            Channel::Beta => "beta"@,
            Channel::Stable => "stable"@,
        }
    }

    pub fn name(self) -> (r: &'static str)
        ensures
            r@ == self.spec_name(),
    {
        match self {
            Channel::Nightly => "nightly",
            Channel::Beta => "beta",
            Channel::Stable => "stable",
        }
    }

    /// The source branch tracked for this channel.
    pub open spec fn spec_branch(self) -> Seq<char> {
        match self {
            Channel::Nightly => "master"@,
            Channel::Beta => "beta"@,
            Channel::Stable => "stable"@,
        }
    }

    pub fn branch(self) -> (r: &'static str)
        ensures
            r@ == self.spec_branch(),
    {
        match self {
            Channel::Nightly => "master",
            Channel::Beta => "beta",
            Channel::Stable => "stable",
        }
    }

    pub open spec fn spec_parse(s: Seq<char>) -> Option<Channel> {
        if s == "nightly"@ {
            Some(Channel::Nightly)
        } else if s == "beta"@ {
            Some(Channel::Beta)
        } else if s == "stable"@ {
            Some(Channel::Stable)
        } else {
            None
        }
    }

    /// Parse a channel name; any other name is rejected.
    pub fn parse(s: &str) -> (r: Option<Channel>)
        ensures
            r == Self::spec_parse(s@),
    {
        if str_eq(s, "nightly") {
            Some(Channel::Nightly)
        } else if str_eq(s, "beta") {
            Some(Channel::Beta)
        } else if str_eq(s, "stable") {
            Some(Channel::Stable)
        } else {
            None
        }
    }
}

/// The branch a run tracks: an explicit override substitutes for every
/// channel, otherwise the channel's own branch is used.
pub fn resolve_branch(channel: Channel, override_branch: Option<&str>) -> (r: String)
    ensures
        match override_branch {
            Some(b) => r@ == b@,
            None => r@ == channel.spec_branch(),
        },
{
    match override_branch {
        Some(b) => String::from_str(b),
        None => String::from_str(channel.branch()),
    }
}

} // verus!
