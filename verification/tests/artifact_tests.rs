use promote_release::channel::Channel;
use promote_release::components::check_components;
use promote_release::components::reference_target;
use promote_release::errors::PromoteError;
use promote_release::manifest::previous_version;
use promote_release::version::is_version_source;
use promote_release::version::version_from_archive;

fn names(v: &[&str]) -> Vec<String> {
    v.iter().map(|s| s.to_string()).collect()
}

#[test]
fn nightly_missing_package_manager_is_fatal() {
    let staged = names(&[
        "rustc-1.52.0-nightly-x86_64-unknown-linux-gnu.tar.gz",
        "rust-std-1.52.0-nightly-x86_64-unknown-linux-gnu.tar.gz",
        "rust-docs-1.52.0-nightly-x86_64-unknown-linux-gnu.tar.gz",
    ]);
    let r = check_components(Channel::Nightly, &staged);
    assert_eq!(r, Err(PromoteError::IncompleteComponentSet));
}

#[test]
fn nightly_with_all_components_passes() {
    let staged = names(&[
        "rustc-1.52.0-nightly-x86_64-unknown-linux-gnu.tar.gz",
        "rust-std-1.52.0-nightly-x86_64-unknown-linux-gnu.tar.gz",
        "cargo-0.53.0-nightly-x86_64-unknown-linux-gnu.tar.gz",
    ]);
    assert_eq!(check_components(Channel::Nightly, &staged), Ok(()));
}

#[test]
fn other_platforms_do_not_satisfy_the_check() {
    let staged = names(&[
        "rustc-1.52.0-nightly-aarch64-apple-darwin.tar.gz",
        "rust-std-1.52.0-nightly-x86_64-unknown-linux-gnu.tar.gz",
        "cargo-0.53.0-nightly-x86_64-unknown-linux-gnu.tar.gz",
    ]);
    assert_eq!(check_components(Channel::Nightly, &staged), Err(PromoteError::IncompleteComponentSet));
}

#[test]
fn only_nightly_enforces_the_minimum_set() {
    let staged: Vec<String> = Vec::new();
    assert_eq!(check_components(Channel::Beta, &staged), Ok(()));
    assert_eq!(check_components(Channel::Stable, &staged), Ok(()));
    assert_eq!(reference_target(), "x86_64-unknown-linux-gnu");
}

#[test]
fn manifest_version_is_extracted() {
    let text = "[pkg.rust]\nversion = \"1.50.0 (abcdef1 2021-01-01)\"\n";
    assert_eq!(previous_version(text), Ok("1.50.0 (abcdef1 2021-01-01)".to_string()));
}

#[test]
fn malformed_manifest_is_an_error() {
    assert_eq!(previous_version("not toml ["), Err(PromoteError::ManifestFetchError));
    assert_eq!(
        previous_version("[pkg.cargo]\nversion = \"0.51.0\"\n"),
        Err(PromoteError::ManifestFetchError)
    );
    assert_eq!(
        previous_version("[pkg.rust]\nversion = 5\n"),
        Err(PromoteError::ManifestFetchError)
    );
}

#[test]
fn version_source_archives_are_the_gzip_compiler_tarballs() {
    assert!(is_version_source("rustc-1.50.0-x86_64-unknown-linux-gnu.tar.gz"));
    assert!(!is_version_source("rustc-1.50.0-x86_64-unknown-linux-gnu.tar.xz"));
    assert!(!is_version_source("cargo-0.51.0-x86_64-unknown-linux-gnu.tar.gz"));
}

fn build_targz(entries: &[(&str, &str)]) -> Vec<u8> {
    let gz = flate2::write::GzEncoder::new(Vec::new(), flate2::Compression::default());
    let mut builder = tar::Builder::new(gz);
    for (path, contents) in entries {
        let mut header = tar::Header::new_gnu();
        header.set_size(contents.len() as u64);
        header.set_mode(0o644);
        header.set_cksum();
        builder
            .append_data(&mut header, path, contents.as_bytes())
            .unwrap();
    }
    let gz = builder.into_inner().unwrap();
    gz.finish().unwrap()
}

#[test]
fn version_marker_is_read_from_the_archive() {
    let bytes = build_targz(&[
        ("rustc-1.50.0/README.md", "hello"),
        ("rustc-1.50.0/version", "1.50.0 (abcdef1 2021-01-01)"),
    ]);
    assert_eq!(
        version_from_archive(&bytes),
        Some("1.50.0 (abcdef1 2021-01-01)".to_string())
    );
}

#[test]
fn archive_without_version_marker_yields_nothing() {
    let bytes = build_targz(&[("rustc-1.50.0/README.md", "hello")]);
    assert_eq!(version_from_archive(&bytes), None);
}
