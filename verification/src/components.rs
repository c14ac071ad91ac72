//! The minimum-component check: a nightly release must stage at least one
//! compiler, standard-library and package-manager archive for the reference
//! platform before signing is attempted.

use vstd::prelude::*;

use crate::channel::Channel;
use crate::errors::PromoteError;
use crate::strutil::has_prefix;
use crate::strutil::has_substring;
use crate::strutil::starts_with;
use crate::strutil::contains_substring;

verus! {

/// The canonical reference platform whose archives are required.
pub open spec fn spec_reference_target() -> Seq<char> {
    "x86_64-unknown-linux-gnu"@
}

pub fn reference_target() -> (r: &'static str)
    ensures
        r@ == spec_reference_target(),
{
    "x86_64-unknown-linux-gnu"
}

/// Some staged name is an archive of the component `prefix` for the reference
/// platform.
pub open spec fn component_present(names: Seq<Seq<char>>, prefix: Seq<char>) -> bool {
    exists|i: int|
        0 <= i < names.len() && has_substring(names[i], spec_reference_target()) && has_prefix(
            names[i],
            prefix,
        )
}

/// The check's outcome: only the nightly channel enforces the minimum set,
/// since upstream merge policy guarantees the core components build together
/// there.
pub open spec fn spec_check_components(channel: Channel, names: Seq<Seq<char>>) -> Result<
    (),
    PromoteError,
> {
    if channel != Channel::Nightly {
        Ok(())
    } else if component_present(names, "rustc-"@) && component_present(names, "rust-std-"@)
        && component_present(names, "cargo-"@) {
        Ok(())
    } else {
        Err(PromoteError::IncompleteComponentSet)
    }
}

fn scan_component(names: &Vec<String>, prefix: &str) -> (r: bool)
    ensures
        r == component_present(names.deep_view(), prefix@),
{
    let n = names.len();
    let mut i: usize = 0;
    while i < n
        invariant
            n == names@.len(),
            i <= n,
            forall|k: int|
                0 <= k < i ==> !(has_substring(#[trigger] names.deep_view()[k],
                    spec_reference_target(),
                ) && has_prefix(names.deep_view()[k], prefix@)),
        decreases n - i,
    {
        let name = &names[i];
        if contains_substring(name.as_str(), "x86_64-unknown-linux-gnu") && starts_with(
            name.as_str(),
            prefix,
        ) {
            proof {
                assert(names.deep_view()[i as int] == names@[i as int]@);
            }
            return true;
        }
        proof {
            assert(names.deep_view()[i as int] == names@[i as int]@);
        }
        i += 1;
    }
    false
}

/// Check the staged names against the channel's minimum component set.
pub fn check_components(channel: Channel, names: &Vec<String>) -> (r: Result<(), PromoteError>)
    ensures
        r == spec_check_components(channel, names.deep_view()),
{
    if channel != Channel::Nightly {
        return Ok(());
    }
    if scan_component(names, "rustc-") && scan_component(names, "rust-std-") && scan_component(
        names,
        "cargo-",
    ) {
        Ok(())
    } else {
        Err(PromoteError::IncompleteComponentSet)
    }
}

} // verus!
