use deskcast::http::{
    build_not_found_response, build_ok_response, build_server_error_response, serve_file_response,
    usize_to_decimal,
};
use deskcast::mime::get_mime_type;

#[test]
fn mime_table_exact() {
    assert_eq!(get_mime_type("index.html"), "text/html; charset=utf-8");
    assert_eq!(get_mime_type("style.css"), "text/css");
    assert_eq!(get_mime_type("app.js"), "application/javascript");
    assert_eq!(get_mime_type("data.json"), "application/json");
    assert_eq!(get_mime_type("logo.png"), "image/png");
    assert_eq!(get_mime_type("photo.jpg"), "image/jpeg");
    assert_eq!(get_mime_type("photo.jpeg"), "image/jpeg");
    assert_eq!(get_mime_type("anim.gif"), "image/gif");
    assert_eq!(get_mime_type("icon.svg"), "image/svg+xml");
    assert_eq!(get_mime_type("font.woff"), "font/woff");
    assert_eq!(get_mime_type("font.woff2"), "font/woff2");
    assert_eq!(get_mime_type("favicon.ico"), "image/x-icon");
}

#[test]
fn mime_unknown_is_octet_stream() {
    assert_eq!(get_mime_type("archive.tar.gz"), "application/octet-stream");
    assert_eq!(get_mime_type(""), "application/octet-stream");
    assert_eq!(get_mime_type("html"), "application/octet-stream");
    assert_eq!(get_mime_type("page.htm"), "application/octet-stream");
}

#[test]
fn mime_uses_full_path_suffix() {
    assert_eq!(get_mime_type("/assets/deep/dir/a.css"), "text/css");
    assert_eq!(get_mime_type("weird.css.js"), "application/javascript");
}

#[test]
fn decimal_rendering_exact() {
    assert_eq!(usize_to_decimal(0), b"0".to_vec());
    assert_eq!(usize_to_decimal(7), b"7".to_vec());
    assert_eq!(usize_to_decimal(10), b"10".to_vec());
    assert_eq!(usize_to_decimal(109), b"109".to_vec());
    assert_eq!(usize_to_decimal(65535), b"65535".to_vec());
    assert_eq!(usize_to_decimal(1000000), b"1000000".to_vec());
}

#[test]
fn ok_response_layout() {
    let r = build_ok_response("text/css", &b"a{}\n".to_vec());
    assert_eq!(
        r,
        b"HTTP/1.1 200 OK\r\nContent-Type: text/css\r\nContent-Length: 4\r\nConnection: close\r\n\r\na{}\n".to_vec()
    );
}

#[test]
fn not_found_response_exact() {
    assert_eq!(
        build_not_found_response(),
        b"HTTP/1.1 404 Not Found\r\nContent-Type: text/plain\r\nContent-Length: 9\r\nConnection: close\r\n\r\nNot Found".to_vec()
    );
}

#[test]
fn server_error_response_exact() {
    assert_eq!(
        build_server_error_response(),
        b"HTTP/1.1 500 Internal Server Error\r\nContent-Type: text/plain\r\nContent-Length: 21\r\nConnection: close\r\n\r\nInternal Server Error".to_vec()
    );
}

#[test]
fn root_request_serves_entry_document() {
    let body = b"<html>home</html>".to_vec();
    let r = serve_file_response("/", Some(body.clone()), None);
    let mut expected =
        b"HTTP/1.1 200 OK\r\nContent-Type: text/html; charset=utf-8\r\nContent-Length: 17\r\nConnection: close\r\n\r\n".to_vec();
    expected.extend_from_slice(&body);
    assert_eq!(r, expected);
}

#[test]
fn hit_is_served_with_its_mime_type() {
    let body = b"body { color: red }".to_vec();
    let r = serve_file_response("/assets/site.css", Some(body.clone()), None);
    assert!(r.starts_with(b"HTTP/1.1 200 OK\r\nContent-Type: text/css\r\n"));
    assert!(r.ends_with(&body));
}

#[test]
fn missing_asset_is_plain_404() {
    let r = serve_file_response("/assets/missing.png", None, None);
    assert_eq!(
        r,
        b"HTTP/1.1 404 Not Found\r\nContent-Type: text/plain\r\nContent-Length: 9\r\nConnection: close\r\n\r\nNot Found".to_vec()
    );
}

#[test]
fn missing_api_resource_is_plain_404() {
    let r = serve_file_response("/api/items", None, Some(b"hi".to_vec()));
    assert!(r.starts_with(b"HTTP/1.1 404 Not Found\r\n"));
}

#[test]
fn spa_route_falls_back_to_entry_document() {
    let index = b"<html>app</html>".to_vec();
    let r = serve_file_response("/some/spa/route", None, Some(index.clone()));
    let mut expected =
        b"HTTP/1.1 200 OK\r\nContent-Type: text/html\r\nContent-Length: 16\r\nConnection: close\r\n\r\n".to_vec();
    expected.extend_from_slice(&index);
    assert_eq!(r, expected);
}

#[test]
fn spa_route_without_entry_document_is_500() {
    let r = serve_file_response("/some/spa/route", None, None);
    assert_eq!(
        r,
        b"HTTP/1.1 500 Internal Server Error\r\nContent-Type: text/plain\r\nContent-Length: 21\r\nConnection: close\r\n\r\nInternal Server Error".to_vec()
    );
}

#[test]
fn body_bytes_pass_through_untouched() {
    // Not valid UTF-8: the served body is the file's bytes verbatim and the
    // header counts exactly those bytes.
    let body = vec![0xffu8, 0xfe, 0x00, 0x01];
    let r = serve_file_response("/blob.bin", Some(body.clone()), None);
    let mut expected =
        b"HTTP/1.1 200 OK\r\nContent-Type: application/octet-stream\r\nContent-Length: 4\r\nConnection: close\r\n\r\n".to_vec();
    expected.extend_from_slice(&body);
    assert_eq!(r, expected);
}
