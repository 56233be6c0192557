//! Deterministic path computation: the install directory is the parent
//! of the host application's executable path, and the binary always
//! lives at `<install-dir><separator><platform-specific filename>`.

use crate::platform::{spec_filename, Platform};
use vstd::prelude::*;

verus! {

/// A path-component separator on any supported platform.
pub open spec fn is_sep(c: char) -> bool {
    c == '/' || c == '\\'
}

/// The index of the last separator in `s`, or -1 if there is none.
pub open spec fn last_sep(s: Seq<char>) -> int
    decreases s.len(),
{
    if s.len() == 0 {
        -1
    } else if is_sep(s[s.len() - 1]) {
        s.len() - 1
    } else {
        last_sep(s.drop_last())
    }
}

/// Whether the path has a parent directory to place the binary in.
pub open spec fn has_parent(s: Seq<char>) -> bool {
    last_sep(s) >= 0
}

/// The parent directory of a path: everything before its last separator.
pub open spec fn dir_of(s: Seq<char>) -> Seq<char> {
    s.subrange(0, last_sep(s))
}

/// The separator the platform's joined paths use.
pub open spec fn sep_of(p: Platform) -> Seq<char> {
    if p == Platform::Windows {
        "\\"@
    } else {
        "/"@
    }
}

/// Where the binary lives for a platform, given the executable path of
/// the running host application. Acquisition writes here and location
/// looks here, so the two always agree.
pub open spec fn spec_install_path(p: Platform, exe: Seq<char>) -> Seq<char> {
    dir_of(exe) + sep_of(p) + spec_filename(p)
}

/// The parent directory of `path`, or `None` when `path` holds no
/// separator and so has no parent.
pub fn parent_dir<'a>(path: &'a str) -> (r: Option<&'a str>)
    ensures
        (r is Some) <==> has_parent(path@),
        r matches Some(d) ==> d@ == dir_of(path@),
{
    let n = path.unicode_len();
    proof {
        assert(path@.subrange(0, n as int) =~= path@);
    }
    let mut i: usize = n;
    while i > 0
        invariant
            i <= n,
            n == path@.len(),
            last_sep(path@) == last_sep(path@.subrange(0, i as int)),
        decreases i,
    {
        let c = path.get_char(i - 1);
        if c == '/' || c == '\\' {
            proof {
                let pre = path@.subrange(0, i as int);
                assert(pre[pre.len() - 1] == path@[i - 1]);
                assert(last_sep(pre) == i - 1);
            }
            let d = path.substring_char(0, i - 1);
            proof {
                assert(d@ =~= dir_of(path@));
            }
            return Some(d);
        }
        proof {
            let pre = path@.subrange(0, i as int);
            assert(!is_sep(pre[pre.len() - 1]));
            assert(pre.drop_last() =~= path@.subrange(0, i as int - 1));
        }
        i = i - 1;
    }
    proof {
        assert(path@.subrange(0, 0) =~= Seq::<char>::empty());
    }
    None
}

/// Joins a directory and a filename with the platform's separator.
pub fn join_path(dir: &str, p: Platform, filename: &str) -> (r: String)
    ensures
        r@ == dir@ + sep_of(p) + filename@,
{
    let mut s = String::from_str(dir);
    if p == Platform::Windows {
        s.append("\\");
    } else {
        s.append("/");
    }
    s.append(filename);
    s
}

} // verus!
