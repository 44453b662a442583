//! The calls that leave this crate. Verus takes the contracts in this file on
//! trust: each says what the called code is documented to do and no more.

use crate::parts::{text_of, UrlParts, UrlPartsView};
use vstd::prelude::*;

verus! {

/// What `url::Url::parse` makes of `input`: `None` where it rejects the
/// input, else the host, the form-decoded query pairs and the fragment of the
/// URL it built.
pub uninterp spec fn parsed_url(input: Seq<char>) -> Option<UrlPartsView>;

/// What `urlencoding::decode` makes of `s`: the text with every `%XX` escape
/// turned into its byte, read as UTF-8; `None` where those bytes are not
/// UTF-8.
pub uninterp spec fn percent_decoded(s: Seq<char>) -> Option<Seq<char>>;

/// What the first capture group of the regular expression `pattern` holds
/// in the leftmost match in `text`, as the `regex` crate finds it: `None`
/// where the pattern is not accepted, where nothing matches, or where the
/// group took no part in the match.
pub uninterp spec fn first_capture(pattern: Seq<char>, text: Seq<char>) -> Option<Seq<char>>;

/// `String::push` puts one character at the end of a string.
pub assume_specification[ String::push ](s: &mut String, c: char)
    ensures
        final(s)@ == old(s)@.push(c),
;

/// Whether `c` is white space to `char::is_whitespace`: whether it has the
/// Unicode property `White_Space`.
pub uninterp spec fn is_white_space(c: char) -> bool;

/// `char::is_whitespace` tells whether a character has the property
/// `White_Space`.
///
/// Trusted: that the answer depends on the character alone.
pub assume_specification[ char::is_whitespace ](c: char) -> (yes: bool)
    ensures
        yes == is_white_space(c),
;

/// Parses `input` with `url::Url::parse` and copies out what `Url::host_str`,
/// `Url::query_pairs` and `Url::fragment` return.
///
/// Trusted: that the parser is a function of its input alone, so that the
/// result is `parsed_url` of the input. Nothing is claimed about which
/// inputs it accepts or what the parts hold.
#[verifier::external_body]
pub(crate) fn parse_url(input: &str) -> (parts: Option<UrlParts>)
    ensures
        match parts {
            Some(p) => parsed_url(input@) == Some(p@),
            None => parsed_url(input@) is None,
        },
{
    let url = url::Url::parse(input).ok()?;
    Some(
        UrlParts {
            host: url.host_str().map(String::from),
            query: url.query_pairs().map(|(k, v)| (k.into_owned(), v.into_owned())).collect(),
            fragment: url.fragment().map(String::from),
        },
    )
}

/// Calls `urlencoding::decode`.
///
/// Trusted: that the decoder is a function of its input alone, so that the
/// result is `percent_decoded` of the input; `None` stands for its error.
#[verifier::external_body]
pub(crate) fn percent_decode(s: &str) -> (out: Option<String>)
    ensures
        text_of(out) == percent_decoded(s@),
{
    urlencoding::decode(s).ok().map(|d| d.into_owned())
}

/// Compiles `pattern` with `regex::Regex::new`, searches `text` with
/// `Regex::captures` and copies out group 1 of the match.
///
/// Trusted: that compiling and searching are functions of the pattern and
/// the text alone, so that the result is `first_capture` of the two.
#[verifier::external_body]
pub(crate) fn capture_first(pattern: &str, text: &str) -> (out: Option<String>)
    ensures
        text_of(out) == first_capture(pattern@, text@),
{
    let regex = regex::Regex::new(pattern).ok()?;
    let captures = regex.captures(text)?;
    captures.get(1).map(|m| m.as_str().to_string())
}

} // verus!
