//! Rewriting the build tool's configuration for the sign-and-manifest step:
//! any stale `[dist]` section is dropped from the generated configuration and
//! a fresh one is appended, naming the staging directory, the passphrase file
//! and the public upload address.

use vstd::prelude::*;

use crate::strutil::has_prefix;
use crate::strutil::starts_with;

verus! {

/// Index of the first newline in `s`, or `s.len()` when there is none.
pub open spec fn first_newline(s: Seq<char>) -> int
    decreases s.len(),
{
    if s.len() == 0 {
        0
    } else if s[0] == '\n' {
        0
    } else {
        1 + first_newline(s.subrange(1, s.len() as int))
    }
}

pub proof fn lemma_first_newline(s: Seq<char>)
    ensures
        0 <= first_newline(s) <= s.len(),
        first_newline(s) < s.len() ==> s[first_newline(s)] == '\n',
        forall|j: int| 0 <= j < first_newline(s) ==> s[j] != '\n',
    decreases s.len(),
{
    if s.len() != 0 && s[0] != '\n' {
        let rest = s.subrange(1, s.len() as int);
        lemma_first_newline(rest);
        assert forall|j: int| 0 <= j < first_newline(s) implies s[j] != '\n' by {
            if j > 0 {
                assert(rest[j - 1] == s[j]);
            }
        }
    }
}

/// The configuration with every line that opens a `[dist]` section removed;
/// each kept line ends in a newline.
pub open spec fn without_dist_lines(s: Seq<char>) -> Seq<char>
    decreases s.len(),
{
    if s.len() == 0 {
        Seq::empty()
    } else {
        let nl = first_newline(s);
        if 0 <= nl < s.len() {
            let line = s.subrange(0, nl);
            let rest = s.subrange(nl + 1, s.len() as int);
            (if has_prefix(line, "[dist]"@) {
                Seq::<char>::empty()
            } else {
                line + "\n"@
            }) + without_dist_lines(rest)
        } else {
            if has_prefix(s, "[dist]"@) {
                Seq::<char>::empty()
            } else {
                s + "\n"@
            }
        }
    }
}

fn find_newline(s: &str, len: usize) -> (i: usize)
    requires
        len == s@.len(),
    ensures
        i == first_newline(s@),
        i <= len,
{
    let mut i: usize = 0;
    while i < len
        invariant
            len == s@.len(),
            i <= len,
            forall|j: int| 0 <= j < i ==> s@[j] != '\n',
        decreases len - i,
    {
        if s.get_char(i) == '\n' {
            proof {
                lemma_first_newline(s@);
                if first_newline(s@) < i {
                    assert(s@[first_newline(s@)] != '\n');
                }
            }
            return i;
        }
        i += 1;
    }
    proof {
        lemma_first_newline(s@);
        if first_newline(s@) < len {
            assert(s@[first_newline(s@)] != '\n');
        }
    }
    len
}

/// Drop every `[dist]` line from the configuration text.
pub fn drop_dist_lines(s: &str) -> (r: String)
    ensures
        r@ == without_dist_lines(s@),
    decreases s@.len(),
{
    let len = s.unicode_len();
    if len == 0 {
        return String::new();
    }
    let i = find_newline(s, len);
    proof {
        lemma_first_newline(s@);
    }
    if i == len {
        if starts_with(s, "[dist]") {
            String::new()
        } else {
            let mut r = String::from_str(s);
            r.append("\n");
            proof {
                assert(s@.subrange(0, len as int) =~= s@);
            }
            r
        }
    } else {
        let line = s.substring_char(0, i);
        let rest = s.substring_char(i + 1, len);
        let mut r = if starts_with(line, "[dist]") {
            String::new()
        } else {
            let mut r = String::from_str(line);
            r.append("\n");
            r
        };
        r.append(drop_dist_lines(rest).as_str());
        r
    }
}

/// The fresh `[dist]` section: the staging directory as the signing root, the
/// passphrase file, and the public upload address the manifest will embed.
pub open spec fn spec_dist_section(
    sign_folder: Seq<char>,
    gpg_password_file: Seq<char>,
    upload_addr: Seq<char>,
    upload_dir: Seq<char>,
) -> Seq<char> {
    "\n[dist]\nsign-folder = \""@ + sign_folder + "\"\ngpg-password-file = \""@
        + gpg_password_file + "\"\nupload-addr = \""@ + upload_addr + "/"@ + upload_dir
        + "\"\n"@
}

/// The full rewritten configuration: everything but stale `[dist]` lines,
/// with the fresh section appended.
pub open spec fn spec_rewrite_config(
    config: Seq<char>,
    sign_folder: Seq<char>,
    gpg_password_file: Seq<char>,
    upload_addr: Seq<char>,
    upload_dir: Seq<char>,
) -> Seq<char> {
    without_dist_lines(config) + spec_dist_section(
        sign_folder,
        gpg_password_file,
        upload_addr,
        upload_dir,
    )
}

pub fn rewrite_config(
    config: &str,
    sign_folder: &str,
    gpg_password_file: &str,
    upload_addr: &str,
    upload_dir: &str,
) -> (r: String)
    ensures
        r@ == spec_rewrite_config(
            config@,
            sign_folder@,
            gpg_password_file@,
            upload_addr@,
            upload_dir@,
        ),
{
    let mut r = drop_dist_lines(config);
    r.append("\n[dist]\nsign-folder = \"");
    r.append(sign_folder);
    r.append("\"\ngpg-password-file = \"");
    r.append(gpg_password_file);
    r.append("\"\nupload-addr = \"");
    r.append(upload_addr);
    r.append("/");
    r.append(upload_dir);
    r.append("\"\n");
    r
}

} // verus!
