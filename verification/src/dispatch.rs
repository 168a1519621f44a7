//! Single-shot classification of a freshly accepted connection from the
//! initial bytes read off the socket: a WebSocket upgrade, a plain GET with
//! its request path, or something to be dropped without a response.

use vstd::prelude::*;
use vstd::slice::slice_to_vec;
use vstd::string::StringSliceAdditionalSpecFns;

verus! {

/// `needle` occurs somewhere inside `hay`.
pub open spec fn bytes_contain(hay: Seq<u8>, needle: Seq<u8>) -> bool {
    exists|i: int|
        0 <= i && i + needle.len() <= hay.len() && #[trigger] hay.subrange(
            i,
            i + needle.len(),
        ) == needle
}

/// `prefix` starts `s`.
pub open spec fn bytes_have_prefix(s: Seq<u8>, prefix: Seq<u8>) -> bool {
    prefix.len() <= s.len() && s.subrange(0, prefix.len() as int) == prefix
}

pub fn starts_with_bytes(s: &[u8], prefix: &[u8]) -> (r: bool)
    ensures
        r == bytes_have_prefix(s@, prefix@),
{
    let m = prefix.len();
    if m > s.len() {
        return false;
    }
    let mut j: usize = 0;
    while j < m
        invariant
            m <= s@.len(),
            m == prefix@.len(),
            j <= m,
            forall|t: int| 0 <= t < j ==> s@[t] == prefix@[t],
        decreases m - j,
    {
        if s[j] != prefix[j] {
            proof {
                if bytes_have_prefix(s@, prefix@) {
                    assert(s@.subrange(0, prefix@.len() as int)[j as int] == prefix@[j as int]);
                }
            }
            return false;
        }
        j += 1;
    }
    proof {
        assert(s@.subrange(0, prefix@.len() as int) =~= prefix@);
    }
    true
}

pub fn contains_bytes(hay: &[u8], needle: &[u8]) -> (r: bool)
    ensures
        r == bytes_contain(hay@, needle@),
{
    let n = hay.len();
    let m = needle.len();
    if m == 0 {
        proof {
            assert(hay@.subrange(0, 0 + needle@.len() as int) =~= needle@);
        }
        return true;
    }
    if m > n {
        return false;
    }
    let mut i: usize = 0;
    while i <= n - m
        invariant
            1 <= m <= n,
            n == hay@.len(),
            m == needle@.len(),
            i <= n - m + 1,
            forall|k: int|
                0 <= k < i ==> #[trigger] hay@.subrange(k, k + needle@.len()) != needle@,
        decreases n - m + 1 - i,
    {
        let window: &[u8] = &hay[i..n];
        if starts_with_bytes(window, needle) {
            proof {
                assert(hay@.subrange(i as int, i + needle@.len()) =~= window@.subrange(
                    0,
                    needle@.len() as int,
                ));
            }
            return true;
        }
        proof {
            assert(hay@.subrange(i as int, i + needle@.len()) =~= window@.subrange(
                0,
                needle@.len() as int,
            ));
        }
        i += 1;
    }
    proof {
        assert forall|k: int|
            !(0 <= k && k + needle@.len() <= hay@.len() && #[trigger] hay@.subrange(
                k,
                k + needle@.len(),
            ) == needle@) by {
            if 0 <= k < i {
            }
        }
    }
    false
}

/// A byte that separates tokens of the request line.
pub open spec fn is_ws_byte(b: u8) -> bool {
    b == 32 || b == 9 || b == 13 || b == 10
}

/// The first index at or after `i` holding a line feed (or the end).
pub open spec fn line_feed_at(s: Seq<u8>, i: int) -> int
    decreases s.len() - i,
{
    if i < s.len() && s[i] != 10 {
        line_feed_at(s, i + 1)
    } else {
        i
    }
}

/// The request line: everything before the first line feed, with a trailing
/// carriage return removed.
pub open spec fn first_line_of(s: Seq<u8>) -> Seq<u8> {
    let e = line_feed_at(s, 0);
    if e > 0 && s[e - 1] == 13 {
        s.subrange(0, e - 1)
    } else {
        s.subrange(0, e)
    }
}

/// The first index at or after `i` holding a non-separator byte (or the end).
pub open spec fn skip_ws_from(s: Seq<u8>, i: int) -> int
    decreases s.len() - i,
{
    if i < s.len() && is_ws_byte(s[i]) {
        skip_ws_from(s, i + 1)
    } else {
        i
    }
}

/// The first index at or after `i` holding a separator byte (or the end).
pub open spec fn skip_token_from(s: Seq<u8>, i: int) -> int
    decreases s.len() - i,
{
    if i < s.len() && !is_ws_byte(s[i]) {
        skip_token_from(s, i + 1)
    } else {
        i
    }
}

/// The second whitespace-delimited token of `line`, if the line has one.
pub open spec fn second_token_of(line: Seq<u8>) -> Option<Seq<u8>> {
    let first_start = skip_ws_from(line, 0);
    let first_end = skip_token_from(line, first_start);
    let second_start = skip_ws_from(line, first_end);
    if second_start < line.len() {
        Some(line.subrange(second_start, skip_token_from(line, second_start)))
    } else {
        None
    }
}

/// Both upgrade tokens occur in the buffered bytes: the connection asks to
/// become a WebSocket.
pub open spec fn is_upgrade_request(req: Seq<u8>) -> bool {
    bytes_contain(req, "Upgrade: websocket".spec_bytes()) && bytes_contain(
        req,
        "Connection: Upgrade".spec_bytes(),
    )
}

/// The request line opens with the GET verb.
pub open spec fn is_get_request(req: Seq<u8>) -> bool {
    bytes_have_prefix(first_line_of(req), "GET".spec_bytes())
}

/// The path a GET asks for: the second token of the request line, or the
/// root path when the line has no second token.
pub open spec fn requested_path(req: Seq<u8>) -> Seq<u8> {
    match second_token_of(first_line_of(req)) {
        Some(p) => p,
        None => "/".spec_bytes(),
    }
}

pub enum RequestClass {
    WebSocketUpgrade,
    HttpGet { path: Vec<u8> },
    Ignore,
}

fn find_line_feed(req: &[u8]) -> (e: usize)
    ensures
        e == line_feed_at(req@, 0),
        e <= req@.len(),
{
    let n = req.len();
    let mut i: usize = 0;
    while i < n && req[i] != 10
        invariant
            n == req@.len(),
            i <= n,
            line_feed_at(req@, 0) == line_feed_at(req@, i as int),
        decreases n - i,
    {
        i += 1;
    }
    i
}

fn skip_ws_exec(line: &[u8], from: usize) -> (e: usize)
    requires
        from <= line@.len(),
    ensures
        e == skip_ws_from(line@, from as int),
        from <= e <= line@.len(),
{
    let n = line.len();
    let mut i: usize = from;
    while i < n && (line[i] == 32 || line[i] == 9 || line[i] == 13 || line[i] == 10)
        invariant
            n == line@.len(),
            from <= i <= n,
            skip_ws_from(line@, from as int) == skip_ws_from(line@, i as int),
        decreases n - i,
    {
        i += 1;
    }
    i
}

fn skip_token_exec(line: &[u8], from: usize) -> (e: usize)
    requires
        from <= line@.len(),
    ensures
        e == skip_token_from(line@, from as int),
        from <= e <= line@.len(),
{
    let n = line.len();
    let mut i: usize = from;
    while i < n && !(line[i] == 32 || line[i] == 9 || line[i] == 13 || line[i] == 10)
        invariant
            n == line@.len(),
            from <= i <= n,
            skip_token_from(line@, from as int) == skip_token_from(line@, i as int),
        decreases n - i,
    {
        i += 1;
    }
    i
}

/// Decide what to do with a connection from the bytes of its first read:
/// hand it to the WebSocket handshake, serve the GET path, or drop it.
pub fn classify_request(req: &[u8]) -> (r: RequestClass)
    ensures
        is_upgrade_request(req@) ==> r is WebSocketUpgrade,
        !is_upgrade_request(req@) && is_get_request(req@) ==> (r matches RequestClass::HttpGet {
            path,
        } && path@ == requested_path(req@)),
        !is_upgrade_request(req@) && !is_get_request(req@) ==> r is Ignore,
{
    if contains_bytes(req, "Upgrade: websocket".as_bytes()) && contains_bytes(
        req,
        "Connection: Upgrade".as_bytes(),
    ) {
        return RequestClass::WebSocketUpgrade;
    }
    let lf = find_line_feed(req);
    let end = if lf > 0 && req[lf - 1] == 13 {
        lf - 1
    } else {
        lf
    };
    let line: &[u8] = &req[0..end];
    proof {
        assert(line@ == first_line_of(req@));
    }
    if !starts_with_bytes(line, "GET".as_bytes()) {
        return RequestClass::Ignore;
    }
    let first_start = skip_ws_exec(line, 0);
    let first_end = skip_token_exec(line, first_start);
    let second_start = skip_ws_exec(line, first_end);
    if second_start < line.len() {
        let second_end = skip_token_exec(line, second_start);
        let token: &[u8] = &line[second_start..second_end];
        RequestClass::HttpGet { path: slice_to_vec(token) }
    } else {
        RequestClass::HttpGet { path: slice_to_vec("/".as_bytes()) }
    }
}

} // verus!
