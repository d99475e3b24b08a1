//! Resource addresses: the (owner, tail) identifiers the serving layer
//! names cached resources by.
//!
//! An inbound request path addresses a resource when it matches
//! `/~<owner>/<tail...>`: the owner is the longest non-separator segment
//! immediately after the `/~` marker and must be non-empty, the tail is
//! everything after the next separator, taken verbatim, separators
//! included, possibly empty. Any path that does not match the pattern —
//! the root path among them — is the address-less index case, not an
//! error; a malformed path is reserved for paths that begin with the
//! marker but have an empty owner segment.

use vstd::prelude::*;
use vstd::string::*;

use crate::error::Error;

verus! {

/// A parsed resource address: the owner, and the path tail naming the
/// resource within that owner's space.
pub struct ResourceAddress {
    pub owner: String,
    pub tail: String,
}

/// What a request path parses to: the address-less index case, or a
/// resource address.
pub enum ParsedPath {
    Index,
    Resource(ResourceAddress),
}

/// The mathematical model of a parse result, a malformed path included.
pub enum ParsedModel {
    Index,
    Resource { owner: Seq<char>, tail: Seq<char> },
    Malformed,
}

/// The model of an executable parse result: an error is always a malformed
/// path.
pub open spec fn parse_result_model(r: Result<ParsedPath, Error>) -> ParsedModel {
    match r {
        Ok(ParsedPath::Index) => ParsedModel::Index,
        Ok(ParsedPath::Resource(a)) => ParsedModel::Resource { owner: a.owner@, tail: a.tail@ },
        Err(_) => ParsedModel::Malformed,
    }
}

/// The index of the first separator in `s`, or `s.len()` when `s` holds
/// none.
pub open spec fn first_sep(s: Seq<char>) -> int
    decreases s.len(),
{
    if s.len() == 0 {
        0
    } else if s[0] == '/' {
        0
    } else {
        1 + first_sep(s.skip(1))
    }
}

/// `first_sep` is pinned by its characterization: a position with only
/// non-separators before it, holding a separator unless it is the length.
proof fn lemma_first_sep_at(s: Seq<char>, k: int)
    requires
        0 <= k <= s.len(),
        forall|j: int| 0 <= j < k ==> s[j] != '/',
        k < s.len() ==> s[k] == '/',
    ensures
        first_sep(s) == k,
    decreases k,
{
    if k == 0 {
    } else {
        assert(s[0] != '/');
        assert(forall|j: int| 0 <= j < k - 1 ==> s.skip(1)[j] == s[j + 1]);
        assert(k - 1 < s.skip(1).len() ==> s.skip(1)[k - 1] == s[k]);
        lemma_first_sep_at(s.skip(1), k - 1);
    }
}

/// Whether the path begins with the owner marker `/~`.
pub open spec fn spec_has_marker(p: Seq<char>) -> bool {
    p.len() >= 2 && p[0] == '/' && p[1] == '~'
}

/// What a request path parses to.
///
/// A path without the `/~` marker is the index case. After the marker, the
/// owner runs to the first separator: an empty owner is malformed, an owner
/// that is never followed by a separator leaves the pattern unmatched — the
/// index case — and otherwise everything after that separator is the tail,
/// verbatim.
pub open spec fn spec_parse(p: Seq<char>) -> ParsedModel {
    if !spec_has_marker(p) {
        ParsedModel::Index
    } else {
        let rest = p.skip(2);
        let k = first_sep(rest);
        if k == 0 {
            ParsedModel::Malformed
        } else if k == rest.len() {
            ParsedModel::Index
        } else {
            ParsedModel::Resource { owner: rest.take(k), tail: rest.skip(k + 1) }
        }
    }
}

/// Parses a request path into a resource address.
///
/// Returns the index case for any path that does not match the
/// `/~<owner>/<tail...>` pattern, and [`Error::MalformedPath`] exactly for
/// paths that begin with the owner marker but have an empty owner segment.
pub fn parse(request_path: &str) -> (r: Result<ParsedPath, Error>)
    ensures
        parse_result_model(r) == spec_parse(request_path@),
        r matches Err(e) ==> e is MalformedPath,
{
    let n = request_path.unicode_len();
    if n < 2 || request_path.get_char(0) != '/' || request_path.get_char(1) != '~' {
        return Ok(ParsedPath::Index);
    }
    let ghost rest = request_path@.skip(2);
    let mut i: usize = 2;
    while i < n && request_path.get_char(i) != '/'
        invariant
            2 <= i <= n,
            n == request_path@.len(),
            forall|j: int| 2 <= j < i ==> request_path@[j] != '/',
        decreases n - i,
    {
        i += 1;
    }
    proof {
        assert(forall|j: int| 0 <= j < i - 2 ==> rest[j] == request_path@[j + 2]);
        assert((i - 2) < rest.len() ==> rest[i - 2] == request_path@[i as int]);
        lemma_first_sep_at(rest, i - 2);
    }
    if i == 2 {
        return Err(Error::MalformedPath);
    }
    if i == n {
        return Ok(ParsedPath::Index);
    }
    let owner = request_path.substring_char(2, i).to_owned();
    let tail = request_path.substring_char(i + 1, n).to_owned();
    proof {
        assert(owner@ =~= rest.take(i - 2));
        assert(tail@ =~= rest.skip(i - 2 + 1));
    }
    Ok(ParsedPath::Resource(ResourceAddress { owner, tail }))
}

} // verus!
