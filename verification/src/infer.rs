use vstd::prelude::*;
use vstd::string::StrSliceExecFns;

use crate::formats::PkgFmt;

verus! {

/// The position of the last `'.'` strictly before `end` in `s`, if any.
pub open spec fn spec_rfind_dot(s: Seq<char>, end: int) -> Option<int>
    decreases end,
{
    if end <= 0 {
        None
    } else if s[end - 1] == '.' {
        Some(end - 1)
    } else {
        spec_rfind_dot(s, end - 1)
    }
}

/// The fixed token table: what a rightmost dot-separated segment means,
/// matched case-sensitively. Any other token means no match.
pub open spec fn spec_token_format(seg: Seq<char>) -> Option<PkgFmt> {
    if seg == "tar"@ {
        Some(PkgFmt::Tar)
    } else if seg == "tbz2"@ {
        Some(PkgFmt::Tbz2)
    } else if seg == "bz2"@ {
        Some(PkgFmt::Bz2)
    } else if seg == "tgz"@ {
        Some(PkgFmt::Tgz)
    } else if seg == "gz"@ {
        Some(PkgFmt::Gz)
    } else if seg == "txz"@ {
        Some(PkgFmt::Txz)
    } else if seg == "xz"@ {
        Some(PkgFmt::Xz)
    } else if seg == "tzstd"@ || seg == "tzst"@ {
        Some(PkgFmt::Tzstd)
    } else if seg == "zst"@ {
        Some(PkgFmt::Zst)
    } else if seg == "exe"@ || seg == "bin"@ {
        Some(PkgFmt::Bin)
    } else if seg == "zip"@ {
        Some(PkgFmt::Zip)
    } else {
        None
    }
}

/// The tar upgrade: a bare compressor format seen after a `tar` segment is
/// promoted to its tar-combined form; formats with no tar-combined
/// counterpart pass through unchanged.
pub open spec fn spec_tar_upgrade(fmt: PkgFmt) -> PkgFmt {
    match fmt {
        PkgFmt::Bz2 => PkgFmt::Tbz2,
        PkgFmt::Gz => PkgFmt::Tgz,
        PkgFmt::Xz => PkgFmt::Txz,
        PkgFmt::Zst => PkgFmt::Tzstd,
        _ => fmt,
    }
}

/// Best-effort inference of a format from the trailing dot-separated
/// segments of a URL-like string:
/// the rightmost segment is matched against the token table; on a match,
/// a preceding `tar` segment upgrades the guess to its tar-combined form
/// when a further segment stands before the `tar`, and makes the string
/// malformed (no match) when nothing stands before the `tar`.
pub open spec fn spec_guess(s: Seq<char>) -> Option<PkgFmt> {
    let n = s.len() as int;
    match spec_rfind_dot(s, n) {
        None => spec_token_format(s),
        Some(i) => match spec_token_format(s.subrange(i + 1, n)) {
            None => None,
            Some(g) => {
                let prev = spec_rfind_dot(s, i);
                let start = match prev {
                    None => 0,
                    Some(j) => j + 1,
                };
                if s.subrange(start, i) == "tar"@ {
                    if prev is Some {
                        Some(spec_tar_upgrade(g))
                    } else {
                        None
                    }
                } else {
                    Some(g)
                }
            },
        },
    }
}

/// A found dot position lies within the scanned range and holds a `'.'`.
proof fn lemma_rfind_dot_bounds(s: Seq<char>, end: int)
    requires
        spec_rfind_dot(s, end) is Some,
    ensures
        0 <= spec_rfind_dot(s, end)->0 < end,
        s[spec_rfind_dot(s, end)->0] == '.',
    decreases end,
{
    if end <= 0 {
    } else if s[end - 1] == '.' {
    } else {
        lemma_rfind_dot_bounds(s, end - 1);
    }
}

/// Inference is a pure function of the string's characters: two strings
/// with the same characters infer the same format.
pub proof fn lemma_guess_depends_on_chars_alone(a: Seq<char>, b: Seq<char>)
    requires
        a == b,
    ensures
        spec_guess(a) == spec_guess(b),
{
}

impl PkgFmt {
    /// Given the pkg-url template, guess the possible pkg-fmt.
    pub fn guess_pkg_format(pkg_url: &str) -> (r: Option<Self>)
        ensures
            r == spec_guess(pkg_url@),
    {
        let n = pkg_url.unicode_len();
        match rfind_dot(pkg_url, n) {
            None => token_format(pkg_url),
            Some(i) => {
                proof {
                    lemma_rfind_dot_bounds(pkg_url@, n as int);
                }
                let seg = pkg_url.substring_char(i + 1, n);
                match token_format(seg) {
                    None => None,
                    Some(g) => {
                        let prev = rfind_dot(pkg_url, i);
                        proof {
                            if spec_rfind_dot(pkg_url@, i as int) is Some {
                                lemma_rfind_dot_bounds(pkg_url@, i as int);
                            }
                        }
                        let start: usize = match prev {
                            None => 0,
                            Some(j) => j + 1,
                        };
                        let mid = pkg_url.substring_char(start, i);
                        if str_eq(mid, "tar") {
                            if prev.is_some() {
                                Some(tar_upgrade(g))
                            } else {
                                None
                            }
                        } else {
                            Some(g)
                        }
                    },
                }
            },
        }
    }
}

/// The executable form of the tar upgrade.
fn tar_upgrade(fmt: PkgFmt) -> (r: PkgFmt)
    ensures
        r == spec_tar_upgrade(fmt),
{
    match fmt {
        PkgFmt::Bz2 => PkgFmt::Tbz2,
        PkgFmt::Gz => PkgFmt::Tgz,
        PkgFmt::Xz => PkgFmt::Txz,
        PkgFmt::Zst => PkgFmt::Tzstd,
        _ => fmt,
    }
}

/// The executable form of the token table.
fn token_format(seg: &str) -> (r: Option<PkgFmt>)
    ensures
        r == spec_token_format(seg@),
{
    if str_eq(seg, "tar") {
        Some(PkgFmt::Tar)
    } else if str_eq(seg, "tbz2") {
        Some(PkgFmt::Tbz2)
    } else if str_eq(seg, "bz2") {
        Some(PkgFmt::Bz2)
    } else if str_eq(seg, "tgz") {
        Some(PkgFmt::Tgz)
    } else if str_eq(seg, "gz") {
        Some(PkgFmt::Gz)
    } else if str_eq(seg, "txz") {
        Some(PkgFmt::Txz)
    } else if str_eq(seg, "xz") {
        Some(PkgFmt::Xz)
    } else if str_eq(seg, "tzstd") || str_eq(seg, "tzst") {
        Some(PkgFmt::Tzstd)
    } else if str_eq(seg, "zst") {
        Some(PkgFmt::Zst)
    } else if str_eq(seg, "exe") || str_eq(seg, "bin") {
        Some(PkgFmt::Bin)
    } else if str_eq(seg, "zip") {
        Some(PkgFmt::Zip)
    } else {
        None
    }
}

/// The position of the last `'.'` strictly before `end`, scanning from the
/// right.
fn rfind_dot(s: &str, end: usize) -> (r: Option<usize>)
    requires
        end <= s@.len(),
    ensures
        match r {
            None => spec_rfind_dot(s@, end as int) is None,
            Some(i) => spec_rfind_dot(s@, end as int) == Some(i as int),
        },
{
    let mut i: usize = end;
    while i > 0
        invariant
            i <= end <= s@.len(),
            spec_rfind_dot(s@, end as int) == spec_rfind_dot(s@, i as int),
        decreases i,
    {
        if s.get_char(i - 1) == '.' {
            return Some(i - 1);
        }
        i = i - 1;
    }
    None
}

/// Character-by-character string equality.
fn str_eq(a: &str, b: &str) -> (r: bool)
    ensures
        r == (a@ == b@),
{
    let na = a.unicode_len();
    let nb = b.unicode_len();
    if na != nb {
        proof {
            assert(a@ != b@) by {
                if a@ == b@ {
                    assert(a@.len() == b@.len());
                }
            }
        }
        return false;
    }
    let mut i: usize = 0;
    while i < na
        invariant
            i <= na,
            na == a@.len(),
            na == b@.len(),
            forall|j: int| 0 <= j < i ==> a@[j] == b@[j],
        decreases na - i,
    {
        if a.get_char(i) != b.get_char(i) {
            return false;
        }
        i = i + 1;
    }
    proof {
        assert(a@ =~= b@);
    }
    true
}

} // verus!
