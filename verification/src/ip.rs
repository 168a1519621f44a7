//! Choosing the address reported to the caller: the interface query wins if
//! it produced something non-blank, then the socket probe, then loopback.

use vstd::prelude::*;
use vstd::string::StringExecFns;

verus! {

pub open spec fn is_space_char(c: char) -> bool {
    c == ' ' || c == '\t' || c == '\r' || c == '\n'
}

/// The first index at or after `i` holding a non-blank character (or the end).
pub open spec fn skip_spaces_from(s: Seq<char>, i: int) -> int
    decreases s.len() - i,
{
    if i < s.len() && is_space_char(s[i]) {
        skip_spaces_from(s, i + 1)
    } else {
        i
    }
}

/// The index just past the last non-blank character at or before `i` (or 0).
pub open spec fn rskip_spaces_from(s: Seq<char>, i: int) -> int
    decreases i,
{
    if 0 < i <= s.len() && is_space_char(s[i - 1]) {
        rskip_spaces_from(s, i - 1)
    } else {
        i
    }
}

/// `s` with blank characters removed from both ends.
pub open spec fn trimmed(s: Seq<char>) -> Seq<char> {
    let a = skip_spaces_from(s, 0);
    let b = rskip_spaces_from(s, s.len() as int);
    if a <= b {
        s.subrange(a, b)
    } else {
        Seq::empty()
    }
}

pub fn trim_str(s: &str) -> (r: String)
    ensures
        r@ == trimmed(s@),
{
    let n = s.unicode_len();
    let mut a: usize = 0;
    while a < n && (s.get_char(a) == ' ' || s.get_char(a) == '\t' || s.get_char(a) == '\r'
        || s.get_char(a) == '\n')
        invariant
            n == s@.len(),
            a <= n,
            skip_spaces_from(s@, 0) == skip_spaces_from(s@, a as int),
            forall|j: int| 0 <= j < a ==> is_space_char(s@[j]),
        decreases n - a,
    {
        a += 1;
    }
    let mut b: usize = n;
    while b > a && (s.get_char(b - 1) == ' ' || s.get_char(b - 1) == '\t' || s.get_char(b - 1)
        == '\r' || s.get_char(b - 1) == '\n')
        invariant
            n == s@.len(),
            a <= b <= n,
            rskip_spaces_from(s@, n as int) == rskip_spaces_from(s@, b as int),
            forall|j: int| b <= j < n ==> is_space_char(s@[j]),
        decreases b,
    {
        b -= 1;
    }
    proof {
        lemma_rskip_spaces_bounds(s@, b as int);
        assert(s@.subrange(a as int, b as int) =~= trimmed(s@));
    }
    let t = s.substring_char(a, b);
    String::from_str(t)
}

proof fn lemma_rskip_spaces_bounds(s: Seq<char>, i: int)
    requires
        0 <= i <= s.len(),
    ensures
        0 <= rskip_spaces_from(s, i) <= i,
    decreases i,
{
    if 0 < i <= s.len() && is_space_char(s[i - 1]) {
        lemma_rskip_spaces_bounds(s, i - 1);
    }
}

/// The address the service reports: the trimmed interface answer when it is
/// non-blank, otherwise the socket probe's answer, otherwise loopback.
pub open spec fn spec_chosen_ip(
    interface_out: Option<Seq<char>>,
    socket_out: Option<Seq<char>>,
) -> Seq<char> {
    if interface_out is Some && trimmed(interface_out->0).len() > 0 {
        trimmed(interface_out->0)
    } else {
        match socket_out {
            Some(addr) => addr,
            None => "127.0.0.1"@,
        }
    }
}

pub open spec fn option_string_view(o: Option<String>) -> Option<Seq<char>> {
    match o {
        Some(s) => Some(s@),
        None => None,
    }
}

pub fn choose_ip(interface_out: Option<String>, socket_out: Option<String>) -> (r: String)
    ensures
        r@ == spec_chosen_ip(option_string_view(interface_out), option_string_view(socket_out)),
{
    match interface_out {
        Some(raw) => {
            let t = trim_str(raw.as_str());
            if t.as_str().unicode_len() > 0 {
                return t;
            }
            match socket_out {
                Some(addr) => addr,
                None => String::from_str("127.0.0.1"),
            }
        },
        None => match socket_out {
            Some(addr) => addr,
            None => String::from_str("127.0.0.1"),
        },
    }
}

} // verus!
