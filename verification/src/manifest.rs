//! Reading the previously published version out of a channel's manifest
//! document.  The document is a TOML tree; the pipeline needs exactly one
//! string from it, at `pkg.rust.version`.

use vstd::prelude::*;

use crate::errors::PromoteError;

verus! {

/// The `pkg.rust.version` string of the TOML document `text`, if `text`
/// parses and holds one.
pub uninterp spec fn toml_rust_version(text: Seq<char>) -> Option<Seq<char>>;

/// Relies on toml::Value: `str::parse::<toml::Value>` parses the document,
/// and `Value::get` / `Value::as_str` read the `pkg.rust.version` string.
#[verifier::external_body]
fn parse_rust_version(text: &str) -> (r: Option<String>)
    ensures
        r is Some <==> toml_rust_version(text@) is Some,
        r matches Some(v) ==> toml_rust_version(text@) == Some(v@),
{
    let value: toml::Value = match text.parse() {
        Ok(v) => v,
        Err(_) => return None,
    };
    let version = value.get("pkg")?.get("rust")?.get("version")?.as_str()?;
    Some(version.to_owned())
}

/// The version string of the previously published release, from the fetched
/// manifest text.  A document without a readable `pkg.rust.version` is
/// malformed: no decision can be made from it.
pub fn previous_version(manifest_text: &str) -> (r: Result<String, PromoteError>)
    ensures
        r matches Ok(v) ==> toml_rust_version(manifest_text@) == Some(v@),
        r matches Err(e) ==> e == PromoteError::ManifestFetchError && toml_rust_version(
            manifest_text@,
        ) is None,
{
    match parse_rust_version(manifest_text) {
        Some(v) => Ok(v),
        None => Err(PromoteError::ManifestFetchError),
    }
}

} // verus!
