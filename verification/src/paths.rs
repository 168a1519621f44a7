//! Request-path handling: mapping a URL path to a file under the content
//! root, refusing paths that could climb out of it, and picking the content
//! root itself from an ordered list of candidates.

use vstd::prelude::*;
use vstd::string::StringExecFns;
use crate::strutil::str_equal;

verus! {

/// A `..` path segment starts at index `i` of `s`.
pub open spec fn dotdot_at(s: Seq<char>, i: int) -> bool {
    &&& 0 <= i
    &&& i + 2 <= s.len()
    &&& s[i] == '.'
    &&& s[i + 1] == '.'
    &&& (i == 0 || s[i - 1] == '/')
    &&& (i + 2 == s.len() || s[i + 2] == '/')
}

/// The path holds a `..` segment somewhere: joining it to the content root
/// could escape the root, so such a request is refused outright.
pub open spec fn has_dotdot_segment(s: Seq<char>) -> bool {
    exists|i: int| dotdot_at(s, i)
}

pub fn path_has_dotdot(s: &str) -> (r: bool)
    ensures
        r == has_dotdot_segment(s@),
{
    let n = s.unicode_len();
    let mut i: usize = 0;
    while n >= 2 && i <= n - 2
        invariant
            n == s@.len(),
            i <= n,
            forall|j: int| 0 <= j < i ==> !dotdot_at(s@, j),
        decreases n - i,
    {
        if s.get_char(i) == '.' && s.get_char(i + 1) == '.' {
            let before_ok = i == 0 || s.get_char(i - 1) == '/';
            let after_ok = i + 2 == n || s.get_char(i + 2) == '/';
            if before_ok && after_ok {
                proof {
                    assert(dotdot_at(s@, i as int));
                }
                return true;
            }
        }
        i += 1;
    }
    proof {
        assert forall|j: int| !dotdot_at(s@, j) by {
            if 0 <= j < i {
            }
        }
    }
    false
}

/// The first index at or after `i` whose character is not `/` (or the end).
pub open spec fn first_non_slash(s: Seq<char>, i: int) -> int
    decreases s.len() - i,
{
    if i < s.len() && s[i] == '/' {
        first_non_slash(s, i + 1)
    } else {
        i
    }
}

/// The file looked for under the content root: `/` asks for the entry
/// document, a path with a `..` segment is refused, and any other path is
/// taken relative to the root with its leading slashes removed.
pub open spec fn spec_resolved_target(p: Seq<char>) -> Option<Seq<char>> {
    if has_dotdot_segment(p) {
        None
    } else if p == "/"@ {
        Some("index.html"@)
    } else {
        Some(p.subrange(first_non_slash(p, 0), p.len() as int))
    }
}

pub fn resolve_target(path: &str) -> (r: Option<String>)
    ensures
        (match r {
            Some(t) => spec_resolved_target(path@) == Some(t@),
            None => spec_resolved_target(path@) is None,
        }),
{
    if path_has_dotdot(path) {
        return None;
    }
    if str_equal(path, "/") {
        return Some(String::from_str("index.html"));
    }
    let n = path.unicode_len();
    let mut i: usize = 0;
    while i < n && path.get_char(i) == '/'
        invariant
            n == path@.len(),
            i <= n,
            first_non_slash(path@, 0) == first_non_slash(path@, i as int),
        decreases n - i,
    {
        i += 1;
    }
    let tail = path.substring_char(i, n);
    Some(String::from_str(tail))
}

proof fn lemma_first_non_slash_bounds(s: Seq<char>, i: int)
    requires
        0 <= i <= s.len(),
    ensures
        i <= first_non_slash(s, i) <= s.len(),
        forall|k: int| i <= k < first_non_slash(s, i) ==> s[k] == '/',
    decreases s.len() - i,
{
    if i < s.len() && s[i] == '/' {
        lemma_first_non_slash_bounds(s, i + 1);
    }
}

/// The hardening guarantee: whatever file a request is mapped to, the
/// relative target never holds a `..` segment, so joining it to the content
/// root cannot climb out of the root; a request that asked for one is
/// refused outright.
pub proof fn lemma_resolved_target_stays_inside(p: Seq<char>)
    ensures
        (match spec_resolved_target(p) {
            Some(t) => !has_dotdot_segment(t),
            None => has_dotdot_segment(p),
        }),
{
    if !has_dotdot_segment(p) {
        if p == "/"@ {
            let t = "index.html"@;
            reveal_strlit("index.html");
            if has_dotdot_segment(t) {
                let i = choose|i: int| dotdot_at(t, i);
                assert(0 <= i && i + 2 <= 10);
                assert(t[i] == '.' && t[i + 1] == '.');
                assert(false);
            }
        } else {
            let a = first_non_slash(p, 0);
            lemma_first_non_slash_bounds(p, 0);
            let t = p.subrange(a, p.len() as int);
            if has_dotdot_segment(t) {
                let j = choose|j: int| dotdot_at(t, j);
                assert(p[a + j] == '.' && p[a + j + 1] == '.');
                if j == 0 && a > 0 {
                    assert(p[a - 1] == '/');
                }
                assert(dotdot_at(p, a + j));
                assert(false);
            }
        }
    }
}

/// The content root chosen from the ordered candidates: the first one that
/// was found to exist as a directory, or the first candidate when none was.
pub open spec fn spec_dist_root(found0: bool, found1: bool, found2: bool) -> Seq<char> {
    if found0 {
        "dist"@
    } else if found1 {
        "../dist"@
    } else if found2 {
        "../../dist"@
    } else {
        "dist"@
    }
}

/// The ordered candidate list that the caller probes on disk.
pub fn dist_candidate(index: usize) -> (r: String)
    requires
        index < 3,
    ensures
        index == 0 ==> r@ == "dist"@,
        index == 1 ==> r@ == "../dist"@,
        index == 2 ==> r@ == "../../dist"@,
{
    if index == 0 {
        String::from_str("dist")
    } else if index == 1 {
        String::from_str("../dist")
    } else {
        String::from_str("../../dist")
    }
}

pub fn select_dist_root(found0: bool, found1: bool, found2: bool) -> (r: String)
    ensures
        r@ == spec_dist_root(found0, found1, found2),
{
    if found0 {
        String::from_str("dist")
    } else if found1 {
        String::from_str("../dist")
    } else if found2 {
        String::from_str("../../dist")
    } else {
        String::from_str("dist")
    }
}

} // verus!
