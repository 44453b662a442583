//! The synchronous unwrapper: from the URL as it was handed over to the URL
//! to show, using nothing but the URL itself.

use crate::matcher::{
    classified, classify, has_http_scheme, law_no_match_without_wrapping,
    law_resolved_has_http_scheme, no_known_wrapping, ExtractionOutcome, Outcome, MESSAGING_HOST,
};
use crate::parts::{host_text, parts_of, text_of, UrlParts, UrlPartsView};
use crate::text::occurs_in;
use crate::trusted::{parse_url, parsed_url, percent_decode, percent_decoded};
use vstd::prelude::*;

verus! {

/// What remains of a decoding attempt: the decoded text, or the text as it
/// was where it could not be decoded.
pub open spec fn decoded_or(raw: Seq<char>, decoded: Option<Seq<char>>) -> Seq<char> {
    match decoded {
        Some(text) => text,
        None => raw,
    }
}

/// A parameter value with its percent escapes decoded, or as it stood where
/// the escapes do not give valid text.
pub open spec fn decoded_value(raw: Seq<char>) -> Seq<char> {
    decoded_or(raw, percent_decoded(raw))
}

/// The query with every value decoded.
pub open spec fn decoded_query(query: Seq<(Seq<char>, Seq<char>)>) -> Seq<(Seq<char>, Seq<char>)> {
    Seq::new(query.len(), |i: int| (query[i].0, decoded_value(query[i].1)))
}

/// The parts with every query value decoded.
pub open spec fn decoded_parts(parts: UrlPartsView) -> UrlPartsView {
    UrlPartsView { host: parts.host, query: decoded_query(parts.query), fragment: parts.fragment }
}

/// The URL to show and whether the page must be fetched, for a given outcome
/// of the rules on `input`.
pub open spec fn resolution_of(input: Seq<char>, outcome: Outcome) -> (Seq<char>, bool) {
    match outcome {
        Outcome::Resolved(url) => (url, false),
        Outcome::NeedsFetch => (input, true),
        Outcome::NoMatch => (input, false),
    }
}

/// The resolution of `input`, given the decoded parts of it where it parsed.
pub open spec fn resolution(input: Seq<char>, parts: Option<UrlPartsView>) -> (Seq<char>, bool) {
    match parts {
        Some(p) => resolution_of(input, classified(p)),
        None => (input, false),
    }
}

/// The parts that the rules read of `input`: its parsed parts with the query
/// values decoded; nothing where `input` is no URL.
pub open spec fn readable_parts(input: Seq<char>) -> Option<UrlPartsView> {
    match parsed_url(input) {
        Some(p) => Some(decoded_parts(p)),
        None => None,
    }
}

/// Chooses between a decoded value and the raw one.
pub fn decoded_or_raw(raw: &str, decoded: Option<String>) -> (out: String)
    ensures
        out@ == decoded_or(raw@, text_of(decoded)),
{
    match decoded {
        Some(text) => text,
        None => raw.to_owned(),
    }
}

/// Decodes the percent escapes of one parameter value.
pub fn decode_value(raw: &str) -> (out: String)
    ensures
        out@ == decoded_value(raw@),
{
    decoded_or_raw(raw, percent_decode(raw))
}

/// Decodes the percent escapes of every query value.
pub fn decode_values(parts: UrlParts) -> (out: UrlParts)
    ensures
        out@ == decoded_parts(parts@),
{
    let mut query: Vec<(String, String)> = Vec::new();
    let mut i: usize = 0;
    while i < parts.query.len()
        invariant
            i <= parts.query.len(),
            query.len() == i,
            forall|k: int|
                0 <= k < i ==> (#[trigger] query@[k]).0@ == parts.query@[k].0@ && query@[k].1@
                    == decoded_value(parts.query@[k].1@),
        decreases parts.query.len() - i,
    {
        let key = parts.query[i].0.clone();
        let value = decode_value(parts.query[i].1.as_str());
        query.push((key, value));
        i += 1;
    }
    let out = UrlParts { host: parts.host, query, fragment: parts.fragment };
    assert(out@.query =~= decoded_query(parts@.query));
    out
}

/// The URL to show and whether the page must be fetched, for the outcome of
/// the rules on `input`.
pub fn resolve_outcome(input: &str, outcome: ExtractionOutcome) -> (result: (String, bool))
    ensures
        (result.0@, result.1) == resolution_of(input@, outcome@),
{
    match outcome {
        ExtractionOutcome::Resolved(url) => (url, false),
        ExtractionOutcome::NeedsFetch => (input.to_owned(), true),
        ExtractionOutcome::NoMatch => (input.to_owned(), false),
    }
}

/// Resolves `input` from its decoded parts: `parts` is `None` where `input`
/// is no URL.
pub fn resolve_parts(input: &str, parts: Option<&UrlParts>) -> (result: (String, bool))
    ensures
        (result.0@, result.1) == resolution(input@, parts_of(parts)),
{
    match parts {
        Some(p) => resolve_outcome(input, classify(p)),
        None => (input.to_owned(), false),
    }
}

/// Finds the URL that `input` stands for, as far as `input` itself tells.
///
/// Returns the target where a rule finds one; `input` itself and `true`
/// where the target is only on the page that `input` points at; and `input`
/// itself and `false` where no rule applies or `input` is no URL.
pub fn extract_real_url_sync(input: &str) -> (result: (String, bool))
    ensures
        (result.0@, result.1) == resolution(input@, readable_parts(input@)),
        readable_parts(input@) is None ==> result.0@ == input@ && !result.1,
        readable_parts(input@) matches Some(parts) && no_known_wrapping(parts) ==> result.0@
            == input@ && !result.1,
        readable_parts(input@) matches Some(parts) && occurs_in(host_text(parts), MESSAGING_HOST@)
            ==> result.0@ == input@ && result.1,
        result.1 ==> result.0@ == input@,
        !result.1 ==> result.0@ == input@ || has_http_scheme(result.0@),
{
    proof {
        law_resolution_keeps_or_resolves(input@, readable_parts(input@));
        match readable_parts(input@) {
            Some(parts) => law_no_match_without_wrapping(parts),
            None => {},
        }
    }
    match parse_url(input) {
        Some(parts) => {
            let decoded = decode_values(parts);
            resolve_parts(input, Some(&decoded))
        },
        None => resolve_parts(input, None),
    }
}

/// An input that is no URL is its own resolution.
pub proof fn law_malformed_input_is_kept(input: Seq<char>)
    ensures
        resolution(input, None) == (input, false),
{
}

/// A URL that shows no known wrapping is its own resolution.
pub proof fn law_unwrapped_url_is_kept(input: Seq<char>, parts: UrlPartsView)
    requires
        no_known_wrapping(parts),
    ensures
        resolution(input, Some(parts)) == (input, false),
{
    law_no_match_without_wrapping(parts);
}

/// A URL of the messaging host resolves to itself, to be fetched as it is.
pub proof fn law_messaging_url_is_fetched_as_given(input: Seq<char>, parts: UrlPartsView)
    requires
        occurs_in(host_text(parts), MESSAGING_HOST@),
    ensures
        resolution(input, Some(parts)) == (input, true),
{
}

/// Where a fetch is asked for, the URL to fetch is the input itself; where
/// none is, the result is the input or an http URL.
pub proof fn law_resolution_keeps_or_resolves(input: Seq<char>, parts: Option<UrlPartsView>)
    ensures
        resolution(input, parts).1 ==> resolution(input, parts).0 == input,
        !resolution(input, parts).1 ==> resolution(input, parts).0 == input || has_http_scheme(
            resolution(input, parts).0,
        ),
{
    match parts {
        Some(p) => law_resolved_has_http_scheme(p),
        None => {},
    }
}

} // verus!
