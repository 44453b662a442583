//! The entity decoder: undoes the five HTML entities that the scraped field
//! is known to hold. It is no general decoder of HTML entities.

use crate::text::{
    chars_of, lemma_replaced_without_occurrence, occurs_in, replace_all, replaced, string_of,
};
use vstd::prelude::*;

verus! {

/// `s` after the five substitutions, each made once over the whole text, in
/// this order: slash, colon, ampersand, less-than, greater-than.
pub open spec fn decoded_entities(s: Seq<char>) -> Seq<char> {
    let slashes = replaced(s, "&#x2f;"@, "/"@);
    let colons = replaced(slashes, "&#x3a;"@, ":"@);
    let ampersands = replaced(colons, "&amp;"@, "&"@);
    let less = replaced(ampersands, "&lt;"@, "<"@);
    replaced(less, "&gt;"@, ">"@)
}

/// One of the five entities stands somewhere in `s`.
pub open spec fn has_entity(s: Seq<char>) -> bool {
    ||| occurs_in(s, "&#x2f;"@)
    ||| occurs_in(s, "&#x3a;"@)
    ||| occurs_in(s, "&amp;"@)
    ||| occurs_in(s, "&lt;"@)
    ||| occurs_in(s, "&gt;"@)
}

/// Replaces every `pattern` in `text` by `to`.
fn substitute(text: &Vec<char>, pattern: &str, to: &str) -> (out: Vec<char>)
    requires
        pattern@.len() > 0,
    ensures
        out@ == replaced(text@, pattern@, to@),
{
    let pattern_chars = chars_of(pattern);
    let to_chars = chars_of(to);
    replace_all(text, &pattern_chars, &to_chars)
}

/// Decodes the entities `&#x2f;`, `&#x3a;`, `&amp;`, `&lt;` and `&gt;`.
pub fn decode_entities(s: &str) -> (out: String)
    ensures
        out@ == decoded_entities(s@),
        !has_entity(s@) ==> out@ == s@,
{
    proof {
        if !has_entity(s@) {
            law_decoded_text_is_fixed(s@);
        }
        reveal_strlit("&#x2f;");
        reveal_strlit("&#x3a;");
        reveal_strlit("&amp;");
        reveal_strlit("&lt;");
        reveal_strlit("&gt;");
    }
    let text = chars_of(s);
    let slashes = substitute(&text, "&#x2f;", "/");
    let colons = substitute(&slashes, "&#x3a;", ":");
    let ampersands = substitute(&colons, "&amp;", "&");
    let less = substitute(&ampersands, "&lt;", "<");
    let greater = substitute(&less, "&gt;", ">");
    string_of(&greater)
}

/// Decoding leaves a text that holds no entity as it is, so on such a text
/// decoding twice gives what decoding once gives.
pub proof fn law_decoded_text_is_fixed(s: Seq<char>)
    requires
        !has_entity(s),
    ensures
        decoded_entities(s) == s,
        decoded_entities(decoded_entities(s)) == decoded_entities(s),
{
    lemma_replaced_without_occurrence(s, "&#x2f;"@, "/"@);
    lemma_replaced_without_occurrence(s, "&#x3a;"@, ":"@);
    lemma_replaced_without_occurrence(s, "&amp;"@, "&"@);
    lemma_replaced_without_occurrence(s, "&lt;"@, "<"@);
    lemma_replaced_without_occurrence(s, "&gt;"@, ">"@);
}

} // verus!
