//! HTTP/1.1 response assembly: the 200 page, the 404 and 500 bodies, and the
//! miss cascade that falls back to the single-page entry document. Responses
//! are byte strings: a served file's bytes pass through untouched, and the
//! `Content-Length` header always equals the length of the body that follows.

use vstd::prelude::*;
use vstd::slice::slice_to_vec;
use vstd::string::StringSliceAdditionalSpecFns;
use vstd::utf8::encode_utf8;
use crate::mime::{mime_for_path, get_mime_type};
use crate::paths::{dotdot_at, has_dotdot_segment, resolve_target, spec_resolved_target};
use crate::strutil::{str_has_prefix, str_has_suffix, str_starts_with};

verus! {

pub open spec fn decimal_byte(d: nat) -> u8 {
    (48 + d) as u8
}

/// The usual decimal rendering of `n`, most significant digit first,
/// without leading zeros (except for `n == 0` itself).
pub open spec fn decimal_bytes(n: nat) -> Seq<u8>
    decreases n,
{
    if n < 10 {
        seq![decimal_byte(n)]
    } else {
        decimal_bytes(n / 10).push(decimal_byte(n % 10))
    }
}

pub fn usize_to_decimal(n: usize) -> (v: Vec<u8>)
    ensures
        v@ == decimal_bytes(n as nat),
    decreases n,
{
    if n < 10 {
        let mut v: Vec<u8> = Vec::new();
        v.push(48 + (n as u8));
        proof {
            assert(v@ =~= decimal_bytes(n as nat));
        }
        v
    } else {
        let mut v = usize_to_decimal(n / 10);
        v.push(48 + ((n % 10) as u8));
        proof {
            assert(v@ =~= decimal_bytes(n as nat));
        }
        v
    }
}

fn push_bytes(v: &mut Vec<u8>, s: &[u8])
    ensures
        final (v)@ == old(v)@ + s@,
{
    let mut i: usize = 0;
    while i < s.len()
        invariant
            i <= s@.len(),
            v@ == old(v)@ + s@.subrange(0, i as int),
        decreases s@.len() - i,
    {
        let b = s[i];
        v.push(b);
        proof {
            assert(v@ =~= old(v)@ + s@.subrange(0, i + 1));
        }
        i += 1;
    }
    proof {
        assert(v@ =~= old(v)@ + s@);
    }
}

/// A success response: status 200, the given content type, a
/// `Content-Length` equal to the body's byte length, the body's bytes
/// verbatim, connection closed after the body.
pub open spec fn ok_response(mime: Seq<u8>, body: Seq<u8>) -> Seq<u8> {
    "HTTP/1.1 200 OK\r\nContent-Type: ".spec_bytes() + mime + "\r\nContent-Length: ".spec_bytes()
        + decimal_bytes(body.len()) + "\r\nConnection: close\r\n\r\n".spec_bytes() + body
}

pub open spec fn not_found_response() -> Seq<u8> {
    "HTTP/1.1 404 Not Found\r\nContent-Type: text/plain\r\nContent-Length: 9\r\nConnection: close\r\n\r\nNot Found".spec_bytes()
}

pub open spec fn server_error_response() -> Seq<u8> {
    "HTTP/1.1 500 Internal Server Error\r\nContent-Type: text/plain\r\nContent-Length: 21\r\nConnection: close\r\n\r\nInternal Server Error".spec_bytes()
}

pub fn build_ok_response(mime: &str, body: &Vec<u8>) -> (r: Vec<u8>)
    ensures
        r@ == ok_response(mime.spec_bytes(), body@),
{
    let mut v = slice_to_vec("HTTP/1.1 200 OK\r\nContent-Type: ".as_bytes());
    push_bytes(&mut v, mime.as_bytes());
    push_bytes(&mut v, "\r\nContent-Length: ".as_bytes());
    let num = usize_to_decimal(body.len());
    push_bytes(&mut v, num.as_slice());
    push_bytes(&mut v, "\r\nConnection: close\r\n\r\n".as_bytes());
    push_bytes(&mut v, body.as_slice());
    proof {
        assert(v@ =~= ok_response(mime.spec_bytes(), body@));
    }
    v
}

pub fn build_not_found_response() -> (r: Vec<u8>)
    ensures
        r@ == not_found_response(),
{
    slice_to_vec(
        "HTTP/1.1 404 Not Found\r\nContent-Type: text/plain\r\nContent-Length: 9\r\nConnection: close\r\n\r\nNot Found".as_bytes(),
    )
}

pub fn build_server_error_response() -> (r: Vec<u8>)
    ensures
        r@ == server_error_response(),
{
    slice_to_vec(
        "HTTP/1.1 500 Internal Server Error\r\nContent-Type: text/plain\r\nContent-Length: 21\r\nConnection: close\r\n\r\nInternal Server Error".as_bytes(),
    )
}

/// Requests under these prefixes are real resources: a miss is a plain 404,
/// never the single-page fallback.
pub open spec fn is_reserved_path(path: Seq<char>) -> bool {
    str_has_prefix(path, "/assets/"@) || str_has_prefix(path, "/api/"@)
}

pub fn reserved_path(path: &str) -> (r: bool)
    ensures
        r == is_reserved_path(path@),
{
    str_starts_with(path, "/assets/") || str_starts_with(path, "/api/")
}

/// The path whose extension names the content type: the file actually
/// served, so the root path is typed as the entry document it resolves to.
/// (A refused path never has a file to serve, so its typing is moot.)
pub open spec fn spec_mime_path(path: Seq<char>) -> Seq<char> {
    match spec_resolved_target(path) {
        Some(target) => target,
        None => path,
    }
}

pub open spec fn opt_bytes_view(o: Option<Vec<u8>>) -> Option<Seq<u8>> {
    match o {
        Some(v) => Some(v@),
        None => None,
    }
}

/// The response for `path` once the file reads are in: a hit is served with
/// the MIME type of the resolved file; a miss under a reserved prefix is
/// 404; any other miss is answered with the entry document as `text/html`,
/// or 500 if that is unreadable too.
pub open spec fn spec_serve_response(
    path: Seq<char>,
    file: Option<Seq<u8>>,
    fallback: Option<Seq<u8>>,
) -> Seq<u8> {
    match file {
        Some(body) => ok_response(encode_utf8(mime_for_path(spec_mime_path(path))), body),
        None => if is_reserved_path(path) {
            not_found_response()
        } else {
            match fallback {
                Some(body) => ok_response("text/html".spec_bytes(), body),
                None => server_error_response(),
            }
        },
    }
}

pub fn serve_file_response(path: &str, file: Option<Vec<u8>>, fallback: Option<Vec<u8>>) -> (r:
    Vec<u8>)
    ensures
        r@ == spec_serve_response(path@, opt_bytes_view(file), opt_bytes_view(fallback)),
{
    match file {
        Some(body) => {
            let mime = match resolve_target(path) {
                Some(target) => get_mime_type(target.as_str()),
                None => get_mime_type(path),
            };
            build_ok_response(mime, &body)
        },
        None => {
            if reserved_path(path) {
                build_not_found_response()
            } else {
                match fallback {
                    Some(body) => build_ok_response("text/html", &body),
                    None => build_server_error_response(),
                }
            }
        },
    }
}

/// A miss under a reserved prefix is answered with the exact 404 response,
/// whatever the fallback read produced: reserved resources never fall back
/// to the entry document.
pub proof fn lemma_reserved_miss_is_plain_not_found(path: Seq<char>, fallback: Option<Seq<u8>>)
    requires
        is_reserved_path(path),
    ensures
        spec_serve_response(path, None, fallback) == not_found_response(),
{
}

/// A miss anywhere else falls back to the entry document: when that read
/// succeeded, the answer is the 200 response with `text/html` and exactly
/// the entry document's bytes; when it failed too, the exact 500 response.
pub proof fn lemma_miss_falls_back_to_entry_document(path: Seq<char>, fallback: Option<Seq<u8>>)
    requires
        !is_reserved_path(path),
    ensures
        (match fallback {
            Some(body) => spec_serve_response(path, None, fallback) == ok_response(
                "text/html".spec_bytes(),
                body,
            ),
            None => spec_serve_response(path, None, fallback) == server_error_response(),
        }),
{
}

/// A request for the root path always asks for the entry document, and
/// whenever that read succeeds the answer is the 200 response typed
/// `text/html; charset=utf-8` and carrying exactly its bytes, whatever the
/// fallback read did.
pub proof fn lemma_root_request_serves_entry_document(body: Seq<u8>, fallback: Option<Seq<u8>>)
    ensures
        spec_resolved_target("/"@) == Some("index.html"@),
        spec_serve_response("/"@, Some(body), fallback) == ok_response(
            "text/html; charset=utf-8".spec_bytes(),
            body,
        ),
{
    reveal_strlit("/");
    assert forall|i: int| !dotdot_at("/"@, i) by {}
    assert(!has_dotdot_segment("/"@));
    reveal_strlit("index.html");
    reveal_strlit(".html");
    assert(str_has_suffix("index.html"@, ".html"@)) by {
        assert("index.html"@.subrange(5, 10) =~= ".html"@);
    }
}

} // verus!
