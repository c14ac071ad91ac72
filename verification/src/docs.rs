//! The documentation publish plan: which staged archive the HTML
//! documentation is pulled from, how deep the embedded directory structure
//! sits, and which destinations it is mirrored to.  The stable channel also
//! gets a permanent, version-keyed documentation path.

use vstd::prelude::*;

use crate::channel::Channel;
use crate::components::spec_reference_target;
use crate::components::reference_target;
use crate::paths::spec_doc_dst;
use crate::paths::doc_dst;
use crate::paths::spec_doc_invalidation_path;
use crate::paths::doc_invalidation_path;

verus! {

/// The label used in documentation tarball names: the exact version number
/// for stable, the channel name otherwise.
pub open spec fn spec_doc_label(channel: Channel, version_number: Option<&str>) -> Seq<char> {
    match channel {
        Channel::Stable => version_number->Some_0@,
        Channel::Beta => "beta"@,
        Channel::Nightly => "nightly"@,
    }
}

pub struct DocPlan {
    /// The label in tarball names: version number for stable, channel name
    /// otherwise.
    pub doc_label: String,
    /// The staged documentation tarball to unpack.
    pub docs_tarball: String,
    /// The directory inside that tarball holding the HTML tree.
    pub docs_inner_dir: String,
    /// Path components to strip when unpacking the HTML tree.
    pub docs_strip_components: u64,
    /// The compiler-internals documentation tarball, unpacked only if staged.
    pub rustc_tarball: String,
    /// The internals HTML tree inside that tarball.
    pub rustc_inner_dir: String,
    /// The restructured internals tree, one level deeper.
    pub rustc_inner_dir_rustc: String,
    /// Components to strip for the restructured tree.
    pub rustc_strip_components_rustc: u64,
    /// Components to strip for the plain tree.
    pub rustc_strip_components: u64,
    /// The channel-keyed documentation destination, synced with mirror
    /// semantics.
    pub channel_doc_dst: String,
    /// The documentation cache paths invalidated afterwards.
    pub channel_invalidation_path: String,
    /// For stable only: the permanent version-keyed destination.
    pub version_doc_dst: Option<String>,
    /// For stable only: the matching invalidation path.
    pub version_invalidation_path: Option<String>,
}

/// Compute the whole documentation publish plan for a channel.  The stable
/// channel must know the exact version number extracted from the staged
/// artifacts.
pub fn doc_plan(channel: Channel, version_number: Option<&str>, bucket: &str) -> (r: DocPlan)
    requires
        channel == Channel::Stable ==> version_number is Some,
    ensures
        r.doc_label@ == spec_doc_label(channel, version_number),
        r.docs_tarball@ == "rust-docs-"@ + r.doc_label@ + "-"@ + spec_reference_target()
            + ".tar.gz"@,
        r.docs_inner_dir@ == "rust-docs-"@ + r.doc_label@ + "-"@ + spec_reference_target()
            + "/rust-docs/share/doc/rust/html"@,
        r.docs_strip_components == 6,
        r.rustc_tarball@ == "rustc-docs-"@ + r.doc_label@ + "-"@ + spec_reference_target()
            + ".tar.gz"@,
        r.rustc_inner_dir@ == "rustc-docs-"@ + r.doc_label@ + "-"@ + spec_reference_target()
            + "/rustc-docs/share/doc/rust/html"@,
        r.rustc_inner_dir_rustc@ == r.rustc_inner_dir@ + "/rustc"@,
        r.rustc_strip_components_rustc == 7,
        r.rustc_strip_components == 6,
        r.channel_doc_dst@ == spec_doc_dst(bucket@, channel.spec_name()),
        r.channel_invalidation_path@ == spec_doc_invalidation_path(channel.spec_name()),
        channel == Channel::Stable ==> (r.version_doc_dst matches Some(d) && d@ == spec_doc_dst(
            bucket@,
            version_number->Some_0@,
        )),
        channel == Channel::Stable ==> (r.version_invalidation_path matches Some(p) && p@
            == spec_doc_invalidation_path(version_number->Some_0@)),
        channel != Channel::Stable ==> r.version_doc_dst is None
            && r.version_invalidation_path is None,
{
    let doc_label: String = match channel {
        Channel::Stable => String::from_str(version_number.unwrap()),
        Channel::Beta => String::from_str("beta"),
        Channel::Nightly => String::from_str("nightly"),
    };
    let target = reference_target();

    let mut docs_tarball = String::from_str("rust-docs-");
    docs_tarball.append(doc_label.as_str());
    docs_tarball.append("-");
    docs_tarball.append(target);
    let mut docs_inner_dir = docs_tarball.clone();
    docs_tarball.append(".tar.gz");
    docs_inner_dir.append("/rust-docs/share/doc/rust/html");

    let mut rustc_tarball = String::from_str("rustc-docs-");
    rustc_tarball.append(doc_label.as_str());
    rustc_tarball.append("-");
    rustc_tarball.append(target);
    let mut rustc_inner_dir = rustc_tarball.clone();
    rustc_tarball.append(".tar.gz");
    rustc_inner_dir.append("/rustc-docs/share/doc/rust/html");
    let mut rustc_inner_dir_rustc = rustc_inner_dir.clone();
    rustc_inner_dir_rustc.append("/rustc");

    let channel_doc_dst = doc_dst(bucket, channel.name());
    let channel_invalidation_path = doc_invalidation_path(channel.name());
    let (version_doc_dst, version_invalidation_path) = match channel {
        Channel::Stable => {
            let v = version_number.unwrap();
            (Some(doc_dst(bucket, v)), Some(doc_invalidation_path(v)))
        },
        _ => (None, None),
    };

    DocPlan {
        doc_label,
        docs_tarball,
        docs_inner_dir,
        docs_strip_components: 6,
        rustc_tarball,
        rustc_inner_dir,
        rustc_inner_dir_rustc,
        rustc_strip_components_rustc: 7,
        rustc_strip_components: 6,
        channel_doc_dst,
        channel_invalidation_path,
        version_doc_dst,
        version_invalidation_path,
    }
}

} // verus!
