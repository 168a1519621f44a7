use deskcast::dispatch::{classify_request, contains_bytes, starts_with_bytes, RequestClass};
use deskcast::ip::{choose_ip, trim_str};
use deskcast::paths::{dist_candidate, path_has_dotdot, resolve_target, select_dist_root};

fn classified_path(req: &[u8]) -> Option<Vec<u8>> {
    match classify_request(req) {
        RequestClass::HttpGet { path } => Some(path),
        _ => None,
    }
}

#[test]
fn get_request_yields_its_path() {
    let req = b"GET /index.html HTTP/1.1\r\nHost: example\r\n\r\n";
    assert_eq!(classified_path(req), Some(b"/index.html".to_vec()));
}

#[test]
fn get_without_path_defaults_to_root() {
    let req = b"GET\r\nHost: example\r\n\r\n";
    assert_eq!(classified_path(req), Some(b"/".to_vec()));
}

#[test]
fn upgrade_request_wins_over_get() {
    let req = b"GET /ws HTTP/1.1\r\nUpgrade: websocket\r\nConnection: Upgrade\r\n\r\n";
    assert!(matches!(classify_request(req), RequestClass::WebSocketUpgrade));
}

#[test]
fn upgrade_needs_both_tokens() {
    let req = b"GET /ws HTTP/1.1\r\nUpgrade: websocket\r\n\r\n";
    assert_eq!(classified_path(req), Some(b"/ws".to_vec()));
}

#[test]
fn non_get_request_is_ignored() {
    let req = b"POST /submit HTTP/1.1\r\n\r\n";
    assert!(matches!(classify_request(req), RequestClass::Ignore));
}

#[test]
fn empty_read_is_ignored() {
    assert!(matches!(classify_request(b""), RequestClass::Ignore));
}

#[test]
fn path_comes_from_first_line_only() {
    let req = b"GET\r\nX: a b c\r\n\r\n";
    assert_eq!(classified_path(req), Some(b"/".to_vec()));
}

#[test]
fn byte_search_finds_inner_needle() {
    assert!(contains_bytes(b"abcdef", b"cde"));
    assert!(!contains_bytes(b"abcdef", b"ce"));
    assert!(contains_bytes(b"abc", b""));
    assert!(!contains_bytes(b"ab", b"abc"));
    assert!(starts_with_bytes(b"GET /", b"GET"));
    assert!(!starts_with_bytes(b"PUT /", b"GET"));
}

#[test]
fn root_path_resolves_to_entry_document() {
    assert_eq!(resolve_target("/"), Some("index.html".to_string()));
}

#[test]
fn leading_slashes_are_stripped() {
    assert_eq!(resolve_target("/assets/app.js"), Some("assets/app.js".to_string()));
    assert_eq!(resolve_target("//double"), Some("double".to_string()));
    assert_eq!(resolve_target("plain"), Some("plain".to_string()));
}

#[test]
fn dotdot_segments_are_refused() {
    assert_eq!(resolve_target("/../secret"), None);
    assert_eq!(resolve_target("/a/../b"), None);
    assert_eq!(resolve_target(".."), None);
    assert_eq!(resolve_target("/up/.."), None);
}

#[test]
fn dots_inside_names_are_not_segments() {
    assert!(!path_has_dotdot("a..b"));
    assert!(!path_has_dotdot("/x.y../z"));
    assert_eq!(resolve_target("/a..b"), Some("a..b".to_string()));
    assert!(path_has_dotdot("/a/../b"));
}

#[test]
fn dist_root_takes_first_existing_candidate() {
    assert_eq!(select_dist_root(true, true, true), "dist");
    assert_eq!(select_dist_root(false, true, true), "../dist");
    assert_eq!(select_dist_root(false, false, true), "../../dist");
    assert_eq!(select_dist_root(false, false, false), "dist");
}

#[test]
fn dist_candidates_in_probe_order() {
    assert_eq!(dist_candidate(0), "dist");
    assert_eq!(dist_candidate(1), "../dist");
    assert_eq!(dist_candidate(2), "../../dist");
}

#[test]
fn interface_answer_wins_when_non_blank() {
    let r = choose_ip(Some("  10.0.0.5\n".to_string()), Some("192.168.1.7".to_string()));
    assert_eq!(r, "10.0.0.5");
}

#[test]
fn blank_interface_answer_falls_back_to_socket() {
    let r = choose_ip(Some(" \n".to_string()), Some("192.168.1.7".to_string()));
    assert_eq!(r, "192.168.1.7");
    let r2 = choose_ip(None, Some("192.168.1.7".to_string()));
    assert_eq!(r2, "192.168.1.7");
}

#[test]
fn loopback_is_the_last_resort() {
    assert_eq!(choose_ip(None, None), "127.0.0.1");
    assert_eq!(choose_ip(Some("".to_string()), None), "127.0.0.1");
}

#[test]
fn trim_removes_blank_edges_only() {
    assert_eq!(trim_str(" \t10.0.0.5\r\n"), "10.0.0.5");
    assert_eq!(trim_str("a b"), "a b");
    assert_eq!(trim_str("   "), "");
    assert_eq!(trim_str(""), "");
}
