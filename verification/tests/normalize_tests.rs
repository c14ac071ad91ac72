use std::io::Read;
use std::io::Write;

use promote_release::normalize::NormalizePlan;
use promote_release::normalize::gz_counterpart;
use promote_release::normalize::is_residue_name;
use promote_release::normalize::normalize_plan;
use promote_release::normalize::recompress_xz_to_gz;

fn names(v: &[&str]) -> Vec<String> {
    v.iter().map(|s| s.to_string()).collect()
}

#[test]
fn residue_names_are_recognized() {
    assert!(is_residue_name("rust-1.50.0-x86_64-unknown-linux-gnu.tar.gz.asc"));
    assert!(is_residue_name("rust-1.50.0-x86_64-unknown-linux-gnu.tar.gz.sha256"));
    assert!(!is_residue_name("rust-1.50.0-x86_64-unknown-linux-gnu.tar.gz"));
}

#[test]
fn gz_counterpart_replaces_the_codec_suffix() {
    assert_eq!(gz_counterpart("cargo-0.51.0-x86_64.tar.xz"), "cargo-0.51.0-x86_64.tar.gz");
}

#[test]
fn plan_deletes_residue_and_fills_missing_codec() {
    let staged = names(&[
        "rust-1.50.0-a.tar.xz",
        "rust-1.50.0-a.tar.gz",
        "cargo-0.51.0-a.tar.xz",
        "rust-1.50.0-a.tar.gz.asc",
        "rust-1.50.0-a.tar.gz.sha256",
    ]);
    let plan: NormalizePlan = normalize_plan(&staged);
    assert_eq!(
        plan.delete,
        vec![
            "rust-1.50.0-a.tar.gz.asc".to_string(),
            "rust-1.50.0-a.tar.gz.sha256".to_string(),
        ]
    );
    assert_eq!(
        plan.recompress,
        vec![("cargo-0.51.0-a.tar.xz".to_string(), "cargo-0.51.0-a.tar.gz".to_string())]
    );
}

#[test]
fn plan_on_only_xz_archives_yields_both_codecs_and_no_residue() {
    let staged = names(&["a.tar.xz", "b.tar.xz", "c.asc"]);
    let plan = normalize_plan(&staged);
    assert_eq!(plan.delete, vec!["c.asc".to_string()]);
    let mut resulting: Vec<String> = staged
        .iter()
        .filter(|n| !plan.delete.contains(n))
        .cloned()
        .collect();
    for (_, to) in &plan.recompress {
        resulting.push(to.clone());
    }
    for n in &resulting {
        assert!(!n.ends_with(".asc") && !n.ends_with(".sha256"));
        if n.ends_with(".xz") {
            let gz = gz_counterpart(n);
            assert!(resulting.contains(&gz));
        }
    }
}

#[test]
fn empty_staging_set_needs_no_normalization() {
    let plan = normalize_plan(&Vec::new());
    assert!(plan.delete.is_empty());
    assert!(plan.recompress.is_empty());
}

#[test]
fn recompression_round_trips_the_bytes() {
    let original: Vec<u8> = (0..4096u32).map(|i| (i % 251) as u8).collect();
    let mut xz_enc = xz2::write::XzEncoder::new(Vec::new(), 6);
    xz_enc.write_all(&original).unwrap();
    let xz_bytes = xz_enc.finish().unwrap();

    let gz_bytes = recompress_xz_to_gz(&xz_bytes).expect("recompression failed");

    let mut gz_dec = flate2::read::GzDecoder::new(gz_bytes.as_slice());
    let mut round_tripped = Vec::new();
    gz_dec.read_to_end(&mut round_tripped).unwrap();
    assert_eq!(round_tripped, original);
}

#[test]
fn recompression_rejects_garbage() {
    let garbage = vec![1u8, 2, 3, 4, 5, 6, 7, 8];
    assert!(recompress_xz_to_gz(&garbage).is_none());
}
