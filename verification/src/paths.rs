//! Every remote destination the pipeline reads from or publishes to, computed
//! as exact strings from the channel configuration.

use vstd::prelude::*;

use crate::strutil::str_eq;

verus! {

/// Where the channel's current manifest is fetched from.
pub open spec fn spec_manifest_url(addr: Seq<char>, dir: Seq<char>, channel: Seq<char>) -> Seq<
    char,
> {
    addr + "/"@ + dir + "/channel-rust-"@ + channel + ".toml"@
}

pub fn manifest_url(addr: &str, dir: &str, channel: &str) -> (r: String)
    ensures
        r@ == spec_manifest_url(addr@, dir@, channel@),
{
    let mut r = String::from_str(addr);
    r.append("/");
    r.append(dir);
    r.append("/channel-rust-");
    r.append(channel);
    r.append(".toml");
    r
}

/// The continuous-integration storage prefix holding a revision's artifacts.
pub open spec fn spec_ci_builds_prefix(rev: Seq<char>) -> Seq<char> {
    "s3://rust-lang-ci2/rustc-builds/"@ + rev + "/"@
}

pub fn ci_builds_prefix(rev: &str) -> (r: String)
    ensures
        r@ == spec_ci_builds_prefix(rev@),
{
    let mut r = String::from_str("s3://rust-lang-ci2/rustc-builds/");
    r.append(rev);
    r.append("/");
    r
}

/// The dated archival destination: every successful promotion leaves a
/// permanent, timestamped copy here.
pub open spec fn spec_archive_dst(bucket: Seq<char>, dir: Seq<char>, date: Seq<char>) -> Seq<
    char,
> {
    "s3://"@ + bucket + "/"@ + dir + "/"@ + date + "/"@
}

pub fn archive_dst(bucket: &str, dir: &str, date: &str) -> (r: String)
    ensures
        r@ == spec_archive_dst(bucket@, dir@, date@),
{
    let mut r = String::from_str("s3://");
    r.append(bucket);
    r.append("/");
    r.append(dir);
    r.append("/");
    r.append(date);
    r.append("/");
    r
}

/// The channel's "current release" destination, overwritten on each
/// promotion; this is the path end users poll.
pub open spec fn spec_release_dst(bucket: Seq<char>, dir: Seq<char>) -> Seq<char> {
    "s3://"@ + bucket + "/"@ + dir + "/"@
}

pub fn release_dst(bucket: &str, dir: &str) -> (r: String)
    ensures
        r@ == spec_release_dst(bucket@, dir@),
{
    let mut r = String::from_str("s3://");
    r.append(bucket);
    r.append("/");
    r.append(dir);
    r.append("/");
    r
}

/// A documentation destination, keyed by channel name or by exact version.
pub open spec fn spec_doc_dst(bucket: Seq<char>, dir: Seq<char>) -> Seq<char> {
    "s3://"@ + bucket + "/doc/"@ + dir + "/"@
}

pub fn doc_dst(bucket: &str, dir: &str) -> (r: String)
    ensures
        r@ == spec_doc_dst(bucket@, dir@),
{
    let mut r = String::from_str("s3://");
    r.append(bucket);
    r.append("/doc/");
    r.append(dir);
    r.append("/");
    r
}

/// The documentation cache paths to invalidate: everything for the stable
/// tree, whose documentation moves, and only the named subtree otherwise.
pub open spec fn spec_doc_invalidation_path(dir: Seq<char>) -> Seq<char> {
    if dir == "stable"@ {
        "/*"@
    } else {
        "/"@ + dir + "/*"@
    }
}

pub fn doc_invalidation_path(dir: &str) -> (r: String)
    ensures
        r@ == spec_doc_invalidation_path(dir@),
{
    if str_eq(dir, "stable") {
        String::from_str("/*")
    } else {
        let mut r = String::from_str("/");
        r.append(dir);
        r.append("/*");
        r
    }
}

} // verus!
