//! Extracting the candidate version from a staged artifact archive.  Version
//! ground truth lives inside the artifacts, not in any manifest: one
//! representative compiler archive carries a `version` marker file one level
//! below its root.

use vstd::prelude::*;

use crate::strutil::has_prefix;
use crate::strutil::has_suffix;
use crate::strutil::starts_with;
use crate::strutil::ends_with;

verus! {

/// The contents of the `version` entry one level below the root of the
/// gzipped tar archive `bytes`, if the archive decodes and has such an entry.
pub uninterp spec fn targz_version_file(bytes: Seq<u8>) -> Option<Seq<char>>;

/// Relies on flate2::read::GzDecoder and tar::Archive: decodes the gzipped
/// tar stream and reads the entry whose path is `<root>/version`.
#[verifier::external_body]
fn read_version_entry(bytes: &Vec<u8>) -> (r: Option<String>)
    ensures
        r is Some <==> targz_version_file(bytes@) is Some,
        r matches Some(v) ==> targz_version_file(bytes@) == Some(v@),
{
    let gz = flate2::read::GzDecoder::new(bytes.as_slice());
    let mut archive = tar::Archive::new(gz);
    for entry in archive.entries().ok()? {
        let mut entry = entry.ok()?;
        let found = entry.path().map_or(false, |p| p.iter().count() == 2
            && p.iter().nth(1).and_then(|c| c.to_str()) == Some("version"));
        if found {
            let mut contents = String::new();
            return std::io::Read::read_to_string(&mut entry, &mut contents).ok().map(|_| contents);
        }
    }
    None
}

/// The candidate version baked into one staged archive, if the archive holds
/// a `version` marker file.
pub fn version_from_archive(bytes: &Vec<u8>) -> (r: Option<String>)
    ensures
        r is Some <==> targz_version_file(bytes@) is Some,
        r matches Some(v) ==> targz_version_file(bytes@) == Some(v@),
{
    read_version_entry(bytes)
}

/// The archives worth opening for a version marker: the compiler archives in
/// the gzip codec.
pub open spec fn spec_is_version_source(name: Seq<char>) -> bool {
    has_prefix(name, "rustc-"@) && has_suffix(name, ".tar.gz"@)
}

pub fn is_version_source(name: &str) -> (r: bool)
    ensures
        r == spec_is_version_source(name@),
{
    starts_with(name, "rustc-") && ends_with(name, ".tar.gz")
}

} // verus!
