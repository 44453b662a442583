//! The page scraper, without the fetch: from the body of an interception
//! page to the target that the page embeds.

use crate::entity::{decode_entities, decoded_entities};
use crate::matcher::{has_http_scheme, is_http_url};
use crate::parts::{text_of, text_of_str};
use crate::trusted::{capture_first, first_capture};
use vstd::prelude::*;

verus! {

/// The regular expression for the field that holds the target: the name
/// `desc` in double quotes, a colon with optional white space on both sides,
/// and a non-empty value in double quotes, which is the first group.
pub const DESC_PATTERN: &'static str = "\"desc\"\\s*:\\s*\"([^\"]+)\"";

/// The target that a field value stands for: the value with its entities
/// decoded, where that carries an http scheme.
pub open spec fn target_of_field(field: Seq<char>) -> Option<Seq<char>> {
    if has_http_scheme(decoded_entities(field)) {
        Some(decoded_entities(field))
    } else {
        None
    }
}

/// The target for the value found on a page, if one was found.
pub open spec fn target_of_capture(capture: Option<Seq<char>>) -> Option<Seq<char>> {
    match capture {
        Some(field) => target_of_field(field),
        None => None,
    }
}

/// The target that the page with the given body embeds: that of the first
/// `desc` field in it.
pub open spec fn target_on_page(body: Seq<char>) -> Option<Seq<char>> {
    target_of_capture(first_capture(DESC_PATTERN@, body))
}

/// The target of a response: that of its body, and none where there was no
/// response.
pub open spec fn target_of_response(body: Option<Seq<char>>) -> Option<Seq<char>> {
    match body {
        Some(text) => target_on_page(text),
        None => None,
    }
}

/// Decodes a field value and returns it where it is an http URL.
pub fn target_from_field(field: &str) -> (target: Option<String>)
    ensures
        text_of(target) == target_of_field(field@),
        target matches Some(url) ==> has_http_scheme(url@),
{
    let decoded = decode_entities(field);
    if is_http_url(decoded.as_str()) {
        Some(decoded)
    } else {
        None
    }
}

/// The target for what the search of a page gave.
pub fn target_from_capture(capture: Option<String>) -> (target: Option<String>)
    ensures
        text_of(target) == target_of_capture(text_of(capture)),
        target matches Some(url) ==> has_http_scheme(url@),
{
    match capture {
        Some(field) => target_from_field(field.as_str()),
        None => None,
    }
}

/// Extracts the target from the body of an interception page.
pub fn extract_from_page(body: &str) -> (target: Option<String>)
    ensures
        text_of(target) == target_on_page(body@),
        target matches Some(url) ==> has_http_scheme(url@),
{
    target_from_capture(capture_first(DESC_PATTERN, body))
}

/// Extracts the target from what a fetch brought back: `None` stands for a
/// fetch that failed, and gives no target.
pub fn extract_from_response(body: Option<&str>) -> (target: Option<String>)
    ensures
        text_of(target) == target_of_response(text_of_str(body)),
        target matches Some(url) ==> has_http_scheme(url@),
{
    match body {
        Some(text) => extract_from_page(text),
        None => None,
    }
}

} // verus!
