//! Normalizing a freshly staged artifact set: residue signature and checksum
//! files are deleted, and for every archive present only in the xz codec the
//! gzip counterpart is synthesized by decompressing and re-encoding the byte
//! stream.

use vstd::prelude::*;

use crate::strutil::has_suffix;
use crate::strutil::ends_with;
use crate::strutil::str_eq;

verus! {

/// A residue file from an earlier, dead or superseded signing run.
pub open spec fn is_residue(name: Seq<char>) -> bool {
    has_suffix(name, ".asc"@) || has_suffix(name, ".sha256"@)
}

pub open spec fn is_xz(name: Seq<char>) -> bool {
    has_suffix(name, ".xz"@)
}

/// The gzip counterpart's name: the final `xz` replaced by `gz`.
pub open spec fn gz_name(name: Seq<char>) -> Seq<char> {
    name.subrange(0, name.len() - 2) + "gz"@
}

/// Some staged name reads exactly `n`.
pub open spec fn in_names(names: Seq<String>, n: Seq<char>) -> bool {
    exists|i: int| 0 <= i < names.len() && names[i]@ == n
}

pub fn is_residue_name(name: &str) -> (r: bool)
    ensures
        r == is_residue(name@),
{
    ends_with(name, ".asc") || ends_with(name, ".sha256")
}

/// The gzip counterpart's name of an xz archive.
pub fn gz_counterpart(name: &str) -> (r: String)
    requires
        is_xz(name@),
    ensures
        r@ == gz_name(name@),
{
    proof {
        reveal_strlit(".xz");
    }
    let len = name.unicode_len();
    let mut r = String::from_str(name.substring_char(0, len - 2));
    r.append("gz");
    r
}

fn names_contain(names: &Vec<String>, target: &str) -> (r: bool)
    ensures
        r == in_names(names@, target@),
{
    let n = names.len();
    let mut i: usize = 0;
    while i < n
        invariant
            n == names@.len(),
            i <= n,
            forall|k: int| 0 <= k < i ==> (#[trigger] names@[k])@ != target@,
        decreases n - i,
    {
        if str_eq(names[i].as_str(), target) {
            return true;
        }
        i += 1;
    }
    false
}

/// The plan synthesizes a gzip counterpart from the archive named `n`.
pub open spec fn planned_recompress(pairs: Seq<(String, String)>, n: Seq<char>) -> bool {
    exists|j: int| 0 <= j < pairs.len() && (#[trigger] pairs[j]).0@ == n
}

/// What normalization will do to a staged set, decided from its names alone.
pub struct NormalizePlan {
    /// Residue files to delete.
    pub delete: Vec<String>,
    /// Pairs of an xz archive and its missing gzip counterpart to synthesize.
    pub recompress: Vec<(String, String)>,
}

/// Decide the normalization of a staged set: delete exactly the residue
/// files, and synthesize a gzip counterpart for exactly the xz archives that
/// lack one.
pub fn normalize_plan(names: &Vec<String>) -> (r: NormalizePlan)
    ensures
        forall|j: int|
            0 <= j < r.delete@.len() ==> is_residue((#[trigger] r.delete@[j])@) && in_names(
                names@,
                r.delete@[j]@,
            ),
        forall|i: int|
            0 <= i < names@.len() && is_residue((#[trigger] names@[i])@) ==> in_names(
                r.delete@,
                names@[i]@,
            ),
        forall|j: int|
            0 <= j < r.recompress@.len() ==> is_xz((#[trigger] r.recompress@[j]).0@) && in_names(
                names@,
                r.recompress@[j].0@,
            ) && r.recompress@[j].1@ == gz_name(r.recompress@[j].0@) && !in_names(
                names@,
                r.recompress@[j].1@,
            ),
        forall|i: int|
            0 <= i < names@.len() && is_xz((#[trigger] names@[i])@) && !in_names(
                names@,
                gz_name(names@[i]@),
            ) ==> planned_recompress(r.recompress@, names@[i]@),
{
    let mut delete: Vec<String> = Vec::new();
    let mut recompress: Vec<(String, String)> = Vec::new();
    let n = names.len();
    let mut i: usize = 0;
    while i < n
        invariant
            n == names@.len(),
            i <= n,
            forall|j: int|
                0 <= j < delete@.len() ==> is_residue((#[trigger] delete@[j])@) && in_names(
                    names@,
                    delete@[j]@,
                ),
            forall|k: int|
                0 <= k < i && is_residue((#[trigger] names@[k])@) ==> in_names(
                    delete@,
                    names@[k]@,
                ),
            forall|j: int|
                0 <= j < recompress@.len() ==> is_xz((#[trigger] recompress@[j]).0@) && in_names(
                    names@,
                    recompress@[j].0@,
                ) && recompress@[j].1@ == gz_name(recompress@[j].0@) && !in_names(
                    names@,
                    recompress@[j].1@,
                ),
            forall|k: int|
                0 <= k < i && is_xz((#[trigger] names@[k])@) && !in_names(
                    names@,
                    gz_name(names@[k]@),
                ) ==> planned_recompress(recompress@, names@[k]@),
        decreases n - i,
    {
        let name = &names[i];
        if is_residue_name(name.as_str()) {
            let ghost pre = delete@;
            delete.push(name.clone());
            proof {
                lemma_residue_not_xz(names@[i as int]@);
                assert forall|k: int|
                    0 <= k < i + 1 && is_residue((#[trigger] names@[k])@) implies in_names(
                    delete@,
                    names@[k]@,
                ) by {
                    if k == i as int {
                        assert(delete@[pre.len() as int]@ == names@[k]@);
                    } else {
                        let j0 = choose|j: int| 0 <= j < pre.len() && (pre[j])@ == names@[k]@;
                        assert(delete@[j0]@ == names@[k]@);
                    }
                }
            }
        } else if ends_with(name.as_str(), ".xz") {
            let gz = gz_counterpart(name.as_str());
            if !names_contain(names, gz.as_str()) {
                let ghost pre = recompress@;
                recompress.push((name.clone(), gz));
                proof {
                    assert forall|k: int|
                        0 <= k < i + 1 && is_xz((#[trigger] names@[k])@) && !in_names(
                            names@,
                            gz_name(names@[k]@),
                        ) implies planned_recompress(recompress@, names@[k]@) by {
                        if k == i as int {
                            assert((recompress@[pre.len() as int]).0@ == names@[k]@);
                        } else {
                            let j0 = choose|j: int|
                                0 <= j < pre.len() && (#[trigger] pre[j]).0@ == names@[k]@;
                            assert((recompress@[j0]).0@ == names@[k]@);
                        }
                    }
                }
            }
        }
        i += 1;
    }
    NormalizePlan { delete, recompress }
}

/// The names present after the plan is applied: every staged non-residue name
/// stays, and the gzip counterpart of every xz archive is present, whether it
/// was staged or synthesized.
pub open spec fn normalized_names(names: Seq<String>) -> Set<Seq<char>> {
    Set::new(|n: Seq<char>| in_names(names, n) && !is_residue(n)).union(
        Set::new(
            |n: Seq<char>|
                exists|m: Seq<char>| in_names(names, m) && is_xz(m) && gz_name(m) == n,
        ),
    )
}

proof fn lemma_residue_not_xz(n: Seq<char>)
    requires
        is_residue(n),
    ensures
        !is_xz(n),
{
    reveal_strlit(".asc");
    reveal_strlit(".sha256");
    reveal_strlit(".xz");
    if has_suffix(n, ".asc"@) {
        lemma_suffix_chars(n, ".asc"@);
        assert(n[n.len() - ".asc"@.len() + 3] == ".asc"@[3]);
    } else {
        lemma_suffix_chars(n, ".sha256"@);
        assert(n[n.len() - ".sha256"@.len() + 6] == ".sha256"@[6]);
    }
    if has_suffix(n, ".xz"@) {
        lemma_suffix_chars(n, ".xz"@);
        assert(n[n.len() - ".xz"@.len() + 2] == ".xz"@[2]);
    }
}

proof fn lemma_gz_name_shape(m: Seq<char>)
    requires
        is_xz(m),
    ensures
        gz_name(m).len() == m.len(),
        m.len() >= 3,
        gz_name(m)[m.len() - 1] == 'z',
        gz_name(m)[m.len() - 2] == 'g',
{
    reveal_strlit(".xz");
    reveal_strlit("gz");
    assert(".xz"@.len() == 3);
    assert("gz"@.len() == 2);
    assert(gz_name(m)[m.len() - 1] == "gz"@[1]);
    assert(gz_name(m)[m.len() - 2] == "gz"@[0]);
}

proof fn lemma_suffix_chars(n: Seq<char>, s: Seq<char>)
    requires
        has_suffix(n, s),
    ensures
        forall|k: int| 0 <= k < s.len() ==> n[n.len() - s.len() + k] == s[k],
{
    assert forall|k: int| 0 <= k < s.len() implies n[n.len() - s.len() + k] == s[k] by {
        assert(n.subrange(n.len() - s.len(), n.len() as int)[k] == n[n.len() - s.len() + k]);
    }
}

proof fn lemma_gz_not_residue_not_xz(m: Seq<char>)
    requires
        is_xz(m),
    ensures
        !is_residue(gz_name(m)),
        !is_xz(gz_name(m)),
{
    reveal_strlit(".asc");
    reveal_strlit(".sha256");
    reveal_strlit(".xz");
    lemma_gz_name_shape(m);
    let g = gz_name(m);
    if has_suffix(g, ".asc"@) {
        lemma_suffix_chars(g, ".asc"@);
        assert(g[g.len() - ".asc"@.len() + 3] == ".asc"@[3]);
        assert(g[g.len() - 1] == 'c');
    }
    if has_suffix(g, ".sha256"@) {
        lemma_suffix_chars(g, ".sha256"@);
        assert(g[g.len() - ".sha256"@.len() + 6] == ".sha256"@[6]);
        assert(g[g.len() - 1] == '6');
    }
    if has_suffix(g, ".xz"@) {
        lemma_suffix_chars(g, ".xz"@);
        assert(g[g.len() - ".xz"@.len() + 1] == ".xz"@[1]);
        assert(g[g.len() - 2] == 'x');
    }
}

/// Law: after normalization no residue file remains; every xz archive staged
/// has its gzip counterpart in the normalized set; and the normalized set
/// itself is closed — each of its xz archives has its gzip counterpart there
/// too.
pub proof fn lemma_normalization(names: Seq<String>)
    ensures
        forall|n: Seq<char>| normalized_names(names).contains(n) ==> !is_residue(n),
        forall|m: Seq<char>|
            in_names(names, m) && is_xz(m) ==> normalized_names(names).contains(gz_name(m)),
        forall|n: Seq<char>|
            normalized_names(names).contains(n) && is_xz(n) ==> normalized_names(names).contains(
                gz_name(n),
            ),
{
    assert forall|n: Seq<char>| normalized_names(names).contains(n) implies !is_residue(n) by {
        if !(in_names(names, n) && !is_residue(n)) {
            let m = choose|m: Seq<char>| in_names(names, m) && is_xz(m) && gz_name(m) == n;
            lemma_gz_not_residue_not_xz(m);
        }
    }
    assert forall|m: Seq<char>| in_names(names, m) && is_xz(m) implies normalized_names(
        names,
    ).contains(gz_name(m)) by {
        assert(exists|x: Seq<char>| in_names(names, x) && is_xz(x) && gz_name(x) == gz_name(m));
    }
    assert forall|n: Seq<char>|
        normalized_names(names).contains(n) && is_xz(n) implies normalized_names(names).contains(
        gz_name(n),
    ) by {
        if !(in_names(names, n) && !is_residue(n)) {
            let m = choose|m: Seq<char>| in_names(names, m) && is_xz(m) && gz_name(m) == n;
            lemma_gz_not_residue_not_xz(m);
            assert(false);
        }
        assert(exists|x: Seq<char>| in_names(names, x) && is_xz(x) && gz_name(x) == gz_name(n));
    }
}

/// The names present once a plan is applied: the staged names that were not
/// deleted, plus every synthesized counterpart.
pub open spec fn applied_names(
    names: Seq<String>,
    delete: Seq<String>,
    recompress: Seq<(String, String)>,
) -> Set<Seq<char>> {
    Set::new(|n: Seq<char>| in_names(names, n) && !in_names(delete, n)).union(
        Set::new(
            |n: Seq<char>|
                exists|j: int| 0 <= j < recompress.len() && (#[trigger] recompress[j]).1@ == n,
        ),
    )
}

/// Law: applying what `normalize_plan` decides — deleting its `delete` list
/// and writing its `recompress` counterparts — leaves exactly the normalized
/// set of names: no residue file, and both codec variants of every archive.
pub proof fn lemma_plan_applies(
    names: Seq<String>,
    delete: Seq<String>,
    recompress: Seq<(String, String)>,
)
    requires
        forall|j: int|
            0 <= j < delete.len() ==> is_residue((#[trigger] delete[j])@) && in_names(
                names,
                delete[j]@,
            ),
        forall|i: int|
            0 <= i < names.len() && is_residue((#[trigger] names[i])@) ==> in_names(
                delete,
                names[i]@,
            ),
        forall|j: int|
            0 <= j < recompress.len() ==> is_xz((#[trigger] recompress[j]).0@) && in_names(
                names,
                recompress[j].0@,
            ) && recompress[j].1@ == gz_name(recompress[j].0@) && !in_names(
                names,
                recompress[j].1@,
            ),
        forall|i: int|
            0 <= i < names.len() && is_xz((#[trigger] names[i])@) && !in_names(
                names,
                gz_name(names[i]@),
            ) ==> planned_recompress(recompress, names[i]@),
    ensures
        applied_names(names, delete, recompress) == normalized_names(names),
{
    let applied = applied_names(names, delete, recompress);
    let normalized = normalized_names(names);
    assert forall|n: Seq<char>| applied.contains(n) implies normalized.contains(n) by {
        if in_names(names, n) && !in_names(delete, n) {
            if is_residue(n) {
                let i = choose|i: int| 0 <= i < names.len() && (#[trigger] names[i])@ == n;
                assert(in_names(delete, names[i]@));
            }
        } else {
            let j = choose|j: int|
                0 <= j < recompress.len() && (#[trigger] recompress[j]).1@ == n;
            let m = recompress[j].0@;
            assert(in_names(names, m) && is_xz(m) && gz_name(m) == n);
        }
    }
    assert forall|n: Seq<char>| normalized.contains(n) implies applied.contains(n) by {
        if in_names(names, n) && !is_residue(n) {
            if in_names(delete, n) {
                let j = choose|j: int| 0 <= j < delete.len() && (#[trigger] delete[j])@ == n;
                assert(is_residue(delete[j]@));
            }
        } else {
            let m = choose|m: Seq<char>| in_names(names, m) && is_xz(m) && gz_name(m) == n;
            lemma_gz_not_residue_not_xz(m);
            if in_names(names, n) {
                if in_names(delete, n) {
                    let j = choose|j: int| 0 <= j < delete.len() && (#[trigger] delete[j])@ == n;
                    assert(is_residue(delete[j]@));
                }
                assert(in_names(names, n) && !in_names(delete, n));
            } else {
                let i = choose|i: int| 0 <= i < names.len() && (#[trigger] names[i])@ == m;
                assert(is_xz(names[i]@) && !in_names(names, gz_name(names[i]@)));
                assert(planned_recompress(recompress, m));
                let j = choose|j: int|
                    0 <= j < recompress.len() && (#[trigger] recompress[j]).0@ == m;
                assert(recompress[j].1@ == gz_name(m));
            }
        }
    }
    assert(applied =~= normalized);
}

/// The decompressed form of an xz stream, if it decodes.
pub uninterp spec fn xz_plain(bytes: Seq<u8>) -> Option<Seq<u8>>;

/// The gzip encoding of a byte stream at best compression.
pub uninterp spec fn gz_best(bytes: Seq<u8>) -> Seq<u8>;

/// Relies on xz2::read::XzDecoder: decompresses an xz stream; the result is a
/// function of the bytes alone.
#[verifier::external_body]
fn xz_decode(bytes: &Vec<u8>) -> (r: Option<Vec<u8>>)
    ensures
        r is Some <==> xz_plain(bytes@) is Some,
        r matches Some(v) ==> xz_plain(bytes@) == Some(v@),
{
    let mut xz = xz2::read::XzDecoder::new(bytes.as_slice());
    let mut plain = Vec::new();
    match std::io::Read::read_to_end(&mut xz, &mut plain) {
        Ok(_) => Some(plain),
        Err(_) => None,
    }
}

/// Relies on flate2::write::GzEncoder at best compression: the gzip encoding
/// of the bytes, a function of the bytes alone.  Encoding into a `Vec` sink
/// has no failure path — the sink never errors and the compressor does not
/// fail on valid input — so the call always succeeds.
#[verifier::external_body]
fn gz_encode(bytes: &Vec<u8>) -> (r: Option<Vec<u8>>)
    ensures
        r is Some,
        r matches Some(v) ==> v@ == gz_best(bytes@),
{
    let mut gz = flate2::write::GzEncoder::new(Vec::new(), flate2::Compression::best());
    match std::io::Write::write_all(&mut gz, bytes.as_slice()) {
        Ok(_) => {},
        Err(_) => return None,
    }
    gz.finish().ok()
}

/// Synthesize the gzip variant of an xz archive: decompress the xz stream and
/// re-encode the same bytes as gzip.  This succeeds exactly when the input is
/// a valid xz stream; `None` means the stream did not decode, which the
/// caller treats as fatal.
pub fn recompress_xz_to_gz(bytes: &Vec<u8>) -> (r: Option<Vec<u8>>)
    ensures
        r is Some <==> xz_plain(bytes@) is Some,
        r matches Some(v) ==> (xz_plain(bytes@) matches Some(p) && v@ == gz_best(p)),
{
    match xz_decode(bytes) {
        Some(plain) => gz_encode(&plain),
        None => None,
    }
}

} // verus!
