//! The cache-invalidation request body submitted after a publish: a fixed set
//! of distribution index paths plus a fresh caller reference, rendered as the
//! exact JSON document the CDN control API expects.

use vstd::prelude::*;

use crate::strutil::dec_str;
use crate::strutil::u64_to_dec;

verus! {

/// The invalidation request for the release index paths, with the given
/// caller-reference nonce.
pub open spec fn spec_invalidation_payload(nonce: nat) -> Seq<char> {
    "{\"CallerReference\":\"rct-"@ + dec_str(nonce)
        + "\",\"Paths\":{\"Items\":[\"/dist/channel*\",\"/dist/rust*\",\"/dist/index*\",\"/dist/\"],\"Quantity\":4}}"@
}

/// Render the invalidation request for a given caller-reference nonce.
pub fn invalidation_payload(nonce: u64) -> (r: String)
    ensures
        r@ == spec_invalidation_payload(nonce as nat),
{
    let mut r = String::from_str("{\"CallerReference\":\"rct-");
    r.append(u64_to_dec(nonce).as_str());
    r.append(
        "\",\"Paths\":{\"Items\":[\"/dist/channel*\",\"/dist/rust*\",\"/dist/index*\",\"/dist/\"],\"Quantity\":4}}",
    );
    r
}

/// Relies on rand::random: draws a nonce for the caller reference.  Nothing
/// is promised of the value.
#[verifier::external_body]
fn random_nonce() -> u64 {
    rand::random()
}

/// The invalidation request with a freshly drawn caller reference.
pub fn fresh_invalidation_payload() -> (r: String)
    ensures
        exists|n: nat| r@ == spec_invalidation_payload(n),
{
    let nonce = random_nonce();
    let r = invalidation_payload(nonce);
    proof {
        assert(r@ == spec_invalidation_payload(nonce as nat));
    }
    r
}

} // verus!
