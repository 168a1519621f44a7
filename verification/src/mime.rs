//! The MIME table: a content type for each recognised file extension.

use vstd::prelude::*;
use crate::strutil::{str_has_suffix, str_ends_with};

verus! {

/// The content type served for `path`, decided by its extension alone;
/// anything unrecognised is `application/octet-stream`.
pub open spec fn mime_for_path(path: Seq<char>) -> Seq<char> {
    if str_has_suffix(path, ".html"@) {
        "text/html; charset=utf-8"@
    } else if str_has_suffix(path, ".css"@) {
        "text/css"@
    } else if str_has_suffix(path, ".js"@) {
        "application/javascript"@
    } else if str_has_suffix(path, ".json"@) {
        "application/json"@
    } else if str_has_suffix(path, ".png"@) {
        "image/png"@
    } else if str_has_suffix(path, ".jpg"@) || str_has_suffix(path, ".jpeg"@) {
        "image/jpeg"@
    } else if str_has_suffix(path, ".gif"@) {
        "image/gif"@
    } else if str_has_suffix(path, ".svg"@) {
        "image/svg+xml"@
    } else if str_has_suffix(path, ".woff"@) {
        "font/woff"@
    } else if str_has_suffix(path, ".woff2"@) {
        "font/woff2"@
    } else if str_has_suffix(path, ".ico"@) {
        "image/x-icon"@
    } else {
        "application/octet-stream"@
    }
}

pub fn get_mime_type(path: &str) -> (r: &'static str)
    ensures
        r@ == mime_for_path(path@),
{
    if str_ends_with(path, ".html") {
        "text/html; charset=utf-8"
    } else if str_ends_with(path, ".css") {
        "text/css"
    } else if str_ends_with(path, ".js") {
        "application/javascript"
    } else if str_ends_with(path, ".json") {
        "application/json"
    } else if str_ends_with(path, ".png") {
        "image/png"
    } else if str_ends_with(path, ".jpg") || str_ends_with(path, ".jpeg") {
        "image/jpeg"
    } else if str_ends_with(path, ".gif") {
        "image/gif"
    } else if str_ends_with(path, ".svg") {
        "image/svg+xml"
    } else if str_ends_with(path, ".woff") {
        "font/woff"
    } else if str_ends_with(path, ".woff2") {
        "font/woff2"
    } else if str_ends_with(path, ".ico") {
        "image/x-icon"
    } else {
        "application/octet-stream"
    }
}

} // verus!
