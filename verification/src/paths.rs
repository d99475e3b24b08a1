//! Filesystem location handling.
//!
//! The cache repository lives at one location, given as a path. A relative
//! path is resolved against the process's working directory at startup; the
//! resolved location is always absolute, which the store's URL conversion
//! requires.

use vstd::prelude::*;
use vstd::string::*;

verus! {

/// A path is absolute when it starts with the separator.
pub open spec fn spec_is_absolute(p: Seq<char>) -> bool {
    p.len() > 0 && p[0] == '/'
}

/// Joining a relative path onto a base directory: a separator is inserted
/// unless the base already ends with one.
pub open spec fn spec_joined(cwd: Seq<char>, path: Seq<char>) -> Seq<char> {
    if cwd.len() > 0 && cwd[cwd.len() - 1] == '/' {
        cwd + path
    } else {
        cwd + seq!['/'] + path
    }
}

/// What `abs_path` resolves a path to: an absolute path is kept as it is, a
/// relative one is joined onto the working directory.
pub open spec fn spec_abs_path(path: Seq<char>, cwd: Seq<char>) -> Seq<char> {
    if spec_is_absolute(path) {
        path
    } else {
        spec_joined(cwd, path)
    }
}

/// Whether `path` is absolute.
pub fn is_absolute(path: &str) -> (r: bool)
    ensures
        r == spec_is_absolute(path@),
{
    let n = path.unicode_len();
    if n == 0 {
        false
    } else {
        path.get_char(0) == '/'
    }
}

/// Resolves `path` against the working directory `cwd`: an absolute path is
/// returned unchanged, a relative one is joined onto `cwd`. The result is
/// always absolute.
pub fn abs_path(path: &str, cwd: &str) -> (r: String)
    requires
        spec_is_absolute(cwd@),
    ensures
        r@ == spec_abs_path(path@, cwd@),
        spec_is_absolute(r@),
{
    if is_absolute(path) {
        path.to_owned()
    } else {
        let n = cwd.unicode_len();
        let mut out = cwd.to_owned();
        if cwd.get_char(n - 1) != '/' {
            out.append("/");
            proof {
                reveal_strlit("/");
                assert("/"@ =~= seq!['/']);
            }
        }
        out.append(path);
        proof {
            assert(out@[0] == cwd@[0]);
        }
        out
    }
}

} // verus!
