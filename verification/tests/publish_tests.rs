use promote_release::channel::Channel;
use promote_release::config::rewrite_config;
use promote_release::docs::doc_plan;
use promote_release::errors::PromoteError;
use promote_release::paths::archive_dst;
use promote_release::paths::ci_builds_prefix;
use promote_release::paths::doc_dst;
use promote_release::paths::doc_invalidation_path;
use promote_release::paths::manifest_url;
use promote_release::paths::release_dst;
use promote_release::payload::fresh_invalidation_payload;
use promote_release::payload::invalidation_payload;
use promote_release::pipeline::Event;
use promote_release::pipeline::State;
use promote_release::pipeline::step;
use promote_release::strutil::u64_to_dec;
use promote_release::strutil::version_number_of;

#[test]
fn destinations_are_exact() {
    assert_eq!(
        manifest_url("https://static.example", "dist", "stable"),
        "https://static.example/dist/channel-rust-stable.toml"
    );
    assert_eq!(
        ci_builds_prefix("0123456789abcdef"),
        "s3://rust-lang-ci2/rustc-builds/0123456789abcdef/"
    );
    assert_eq!(archive_dst("bucket", "dist", "2021-01-01"), "s3://bucket/dist/2021-01-01/");
    assert_eq!(release_dst("bucket", "dist"), "s3://bucket/dist/");
    assert_eq!(doc_dst("bucket", "nightly"), "s3://bucket/doc/nightly/");
}

#[test]
fn doc_invalidation_is_broad_only_for_stable() {
    assert_eq!(doc_invalidation_path("stable"), "/*");
    assert_eq!(doc_invalidation_path("nightly"), "/nightly/*");
    assert_eq!(doc_invalidation_path("1.50.0"), "/1.50.0/*");
}

#[test]
fn stable_doc_plan_has_a_versioned_mirror() {
    let plan = doc_plan(Channel::Stable, Some("1.50.0"), "bucket");
    assert_eq!(plan.doc_label, "1.50.0");
    assert_eq!(plan.docs_tarball, "rust-docs-1.50.0-x86_64-unknown-linux-gnu.tar.gz");
    assert_eq!(
        plan.docs_inner_dir,
        "rust-docs-1.50.0-x86_64-unknown-linux-gnu/rust-docs/share/doc/rust/html"
    );
    assert_eq!(plan.docs_strip_components, 6);
    assert_eq!(plan.rustc_tarball, "rustc-docs-1.50.0-x86_64-unknown-linux-gnu.tar.gz");
    assert_eq!(
        plan.rustc_inner_dir,
        "rustc-docs-1.50.0-x86_64-unknown-linux-gnu/rustc-docs/share/doc/rust/html"
    );
    assert_eq!(
        plan.rustc_inner_dir_rustc,
        "rustc-docs-1.50.0-x86_64-unknown-linux-gnu/rustc-docs/share/doc/rust/html/rustc"
    );
    assert_eq!(plan.rustc_strip_components_rustc, 7);
    assert_eq!(plan.rustc_strip_components, 6);
    assert_eq!(plan.channel_doc_dst, "s3://bucket/doc/stable/");
    assert_eq!(plan.channel_invalidation_path, "/*");
    assert_eq!(plan.version_doc_dst, Some("s3://bucket/doc/1.50.0/".to_string()));
    assert_eq!(plan.version_invalidation_path, Some("/1.50.0/*".to_string()));
}

#[test]
fn nightly_doc_plan_has_no_versioned_mirror() {
    let plan = doc_plan(Channel::Nightly, None, "bucket");
    assert_eq!(plan.doc_label, "nightly");
    assert_eq!(plan.docs_tarball, "rust-docs-nightly-x86_64-unknown-linux-gnu.tar.gz");
    assert_eq!(plan.channel_doc_dst, "s3://bucket/doc/nightly/");
    assert_eq!(plan.channel_invalidation_path, "/nightly/*");
    assert_eq!(plan.version_doc_dst, None);
    assert_eq!(plan.version_invalidation_path, None);
}

#[test]
fn config_rewrite_drops_stale_dist_header_and_appends_fresh_section() {
    let config = "[build]\nverbose = true\n[dist]\nold-key = 1\n";
    let rewritten = rewrite_config(config, "/work/dl", "/secrets/gpg.txt", "https://static.example", "dist");
    let expected = "[build]\nverbose = true\nold-key = 1\n\n[dist]\nsign-folder = \"/work/dl\"\ngpg-password-file = \"/secrets/gpg.txt\"\nupload-addr = \"https://static.example/dist\"\n";
    assert_eq!(rewritten, expected);
}

#[test]
fn config_rewrite_of_empty_input_is_just_the_section() {
    let rewritten = rewrite_config("", "a", "b", "c", "d");
    assert_eq!(
        rewritten,
        "\n[dist]\nsign-folder = \"a\"\ngpg-password-file = \"b\"\nupload-addr = \"c/d\"\n"
    );
}

#[test]
fn decimal_rendering_is_exact() {
    assert_eq!(u64_to_dec(0), "0");
    assert_eq!(u64_to_dec(7), "7");
    assert_eq!(u64_to_dec(10), "10");
    assert_eq!(u64_to_dec(1234567890), "1234567890");
    assert_eq!(u64_to_dec(u64::MAX), "18446744073709551615");
}

#[test]
fn version_number_is_the_leading_component() {
    assert_eq!(version_number_of("1.50.0 (abcdef1 2021-01-01)"), "1.50.0");
    assert_eq!(version_number_of("1.52.0-nightly"), "1.52.0-nightly");
}

#[test]
fn invalidation_payload_is_the_exact_document() {
    let payload = invalidation_payload(42);
    assert_eq!(
        payload,
        "{\"CallerReference\":\"rct-42\",\"Paths\":{\"Items\":[\"/dist/channel*\",\"/dist/rust*\",\"/dist/index*\",\"/dist/\"],\"Quantity\":4}}"
    );
}

#[test]
fn invalidation_payload_is_valid_compact_json() {
    let payload = invalidation_payload(42);
    let value: serde_json::Value = serde_json::from_str(&payload).unwrap();
    assert_eq!(value["CallerReference"], serde_json::Value::String("rct-42".to_string()));
    assert_eq!(value["Paths"]["Quantity"], serde_json::Value::from(4));
    let items = value["Paths"]["Items"].as_array().unwrap();
    let expected = ["/dist/channel*", "/dist/rust*", "/dist/index*", "/dist/"];
    assert_eq!(items.len(), expected.len());
    for (item, want) in items.iter().zip(expected.iter()) {
        assert_eq!(item.as_str().unwrap(), *want);
    }
    assert_eq!(serde_json::to_string(&value).unwrap(), payload);
}

#[test]
fn fresh_payload_carries_a_nonce() {
    let payload = fresh_invalidation_payload();
    let value: serde_json::Value = serde_json::from_str(&payload).unwrap();
    let reference = value["CallerReference"].as_str().unwrap();
    assert!(reference.starts_with("rct-"));
    assert!(reference["rct-".len()..].chars().all(|c| c.is_ascii_digit()));
}

#[test]
fn second_concurrent_invocation_fails_at_locking() {
    assert_eq!(step(State::Locking, Event::LockBusy), State::Failed(PromoteError::LockContention));
    assert_eq!(step(State::Locking, Event::Locked), State::Syncing);
}

#[test]
fn unchanged_upstream_goes_straight_to_done() {
    let s = step(State::Deciding, Event::RevisionUnchanged);
    assert_eq!(s, State::Done);
    assert_eq!(step(s, Event::Staged), State::Done);
}

#[test]
fn happy_path_traverses_every_stage_once() {
    let mut s = State::Locking;
    for e in [
        Event::Locked,
        Event::Synced,
        Event::RevisionChanged,
        Event::Staged,
        Event::Signed,
        Event::Published,
        Event::Invalidated,
    ] {
        s = step(s, e);
    }
    assert_eq!(s, State::Done);
}

#[test]
fn failures_are_terminal() {
    let s = step(State::Signing, Event::SignFailed);
    assert_eq!(s, State::Failed(PromoteError::BuildToolError));
    assert_eq!(step(s, Event::Signed), s);
    assert_eq!(step(State::Publishing, Event::PublishFailed), State::Failed(PromoteError::StorageError));
    assert_eq!(
        step(State::Invalidating, Event::InvalidationFailed),
        State::Failed(PromoteError::InvalidationError)
    );
    assert_eq!(step(State::Syncing, Event::SyncFailed), State::Failed(PromoteError::VcsError));
    assert_eq!(step(State::Staging, Event::NoArtifacts), State::Failed(PromoteError::NoArtifacts));
    assert_eq!(
        step(State::Staging, Event::ComponentMissing),
        State::Failed(PromoteError::IncompleteComponentSet)
    );
    assert_eq!(
        step(State::Staging, Event::ChannelsSwitched),
        State::Failed(PromoteError::ChannelMismatch)
    );
    assert_eq!(
        step(State::Deciding, Event::ManifestUnreadable),
        State::Failed(PromoteError::ManifestFetchError)
    );
}
