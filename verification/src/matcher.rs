//! The scheme matchers: one rule per redirector family, each reading the
//! parts of the wrapping URL and yielding the target it finds there, a demand
//! to fetch the page, or nothing; and their composition in priority order.
//!
//! The rules take the query values as the parts hold them. The unwrapper
//! decodes the percent escapes of the values before it asks the rules.

use crate::parts::{host_text, param_value, UrlParts, UrlPartsView};
use crate::text::{occurs_at, occurs_in, str_contains, str_starts_with};
use vstd::prelude::*;
use vstd::string::StringExecFns;

verus! {

/// Host of the messaging client's interception page. The target is not in
/// such a URL: the page has to be fetched.
pub const MESSAGING_HOST: &'static str = "weixin110.qq.com";

/// Host of the enterprise chat client's interception page.
pub const ENTERPRISE_HOST: &'static str = "open.work.weixin.qq.com";

/// Host of the desktop chat client's interception page.
pub const DESKTOP_HOST: &'static str = "c.pc.qq.com";

/// What a rule makes of a URL.
pub enum ExtractionOutcome {
    /// The target, which starts with `http://` or `https://`.
    Resolved(String),
    /// The target is only on the page that the URL points at.
    NeedsFetch,
    /// The rule does not apply.
    NoMatch,
}

/// The mathematical value of an [`ExtractionOutcome`].
pub enum Outcome {
    Resolved(Seq<char>),
    NeedsFetch,
    NoMatch,
}

impl View for ExtractionOutcome {
    type V = Outcome;

    open spec fn view(&self) -> Outcome {
        match self {
            ExtractionOutcome::Resolved(url) => Outcome::Resolved(url@),
            ExtractionOutcome::NeedsFetch => Outcome::NeedsFetch,
            ExtractionOutcome::NoMatch => Outcome::NoMatch,
        }
    }
}

/// `s` starts with `http://` or with `https://`.
pub open spec fn has_http_scheme(s: Seq<char>) -> bool {
    occurs_at(s, "http://"@, 0) || occurs_at(s, "https://"@, 0)
}

/// `s` itself where it carries an http scheme, else `s` behind `https://`.
pub open spec fn with_scheme(s: Seq<char>) -> Seq<char> {
    if has_http_scheme(s) {
        s
    } else {
        "https://"@ + s
    }
}

/// A candidate is a target only where it carries an http scheme.
pub open spec fn accepted(candidate: Seq<char>) -> Outcome {
    if has_http_scheme(candidate) {
        Outcome::Resolved(candidate)
    } else {
        Outcome::NoMatch
    }
}

/// The first of two outcomes that is a match.
pub open spec fn or_else(first: Outcome, second: Outcome) -> Outcome {
    if first is NoMatch {
        second
    } else {
        first
    }
}

/// The messaging rule: the host alone decides.
pub open spec fn rule_messaging(parts: UrlPartsView) -> Outcome {
    if occurs_in(host_text(parts), MESSAGING_HOST@) {
        Outcome::NeedsFetch
    } else {
        Outcome::NoMatch
    }
}

/// The enterprise chat rule: the parameter `uri`, given a scheme where it has
/// none.
pub open spec fn rule_enterprise(parts: UrlPartsView) -> Outcome {
    if occurs_in(host_text(parts), ENTERPRISE_HOST@) {
        match param_value(parts.query, "uri"@) {
            Some(value) => Outcome::Resolved(with_scheme(value)),
            None => Outcome::NoMatch,
        }
    } else {
        Outcome::NoMatch
    }
}

/// The rule for one parameter: its value, where it carries an http scheme.
pub open spec fn rule_param(parts: UrlPartsView, name: Seq<char>) -> Outcome {
    match param_value(parts.query, name) {
        Some(value) => accepted(value),
        None => Outcome::NoMatch,
    }
}

/// The desktop chat rule: the parameter `url`, taken only as it stands.
pub open spec fn rule_desktop(parts: UrlPartsView) -> Outcome {
    if occurs_in(host_text(parts), DESKTOP_HOST@) {
        rule_param(parts, "url"@)
    } else {
        Outcome::NoMatch
    }
}

/// The parameter names that the generic rule tries, in this order.
pub open spec fn generic_names() -> Seq<Seq<char>> {
    seq!["url"@, "link"@, "target"@, "redirect"@, "goto"@, "u"@, "q"@]
}

/// The outcome for the first of `names`, from index `from` on, whose value is
/// accepted.
pub open spec fn first_param(parts: UrlPartsView, names: Seq<Seq<char>>, from: int) -> Outcome
    decreases names.len() - from,
{
    if from < 0 || from >= names.len() {
        Outcome::NoMatch
    } else {
        or_else(rule_param(parts, names[from]), first_param(parts, names, from + 1))
    }
}

/// The generic rule: the first common redirect parameter that holds a target.
pub open spec fn rule_generic(parts: UrlPartsView) -> Outcome {
    first_param(parts, generic_names(), 0)
}

/// The fragment rule: the fragment, where it carries an http scheme.
pub open spec fn rule_fragment(parts: UrlPartsView) -> Outcome {
    match parts.fragment {
        Some(fragment) => accepted(fragment),
        None => Outcome::NoMatch,
    }
}

/// All rules in priority order: the first that matches decides.
pub open spec fn classified(parts: UrlPartsView) -> Outcome {
    or_else(
        rule_messaging(parts),
        or_else(
            rule_enterprise(parts),
            or_else(rule_desktop(parts), or_else(rule_generic(parts), rule_fragment(parts))),
        ),
    )
}

/// Whether `s` starts with `http://` or with `https://`.
pub fn is_http_url(s: &str) -> (yes: bool)
    ensures
        yes == has_http_scheme(s@),
{
    str_starts_with(s, "http://") || str_starts_with(s, "https://")
}

/// Gives `candidate` the scheme `https` where it has neither `http` nor
/// `https`.
pub fn ensure_scheme(candidate: &str) -> (url: String)
    ensures
        url@ == with_scheme(candidate@),
        has_http_scheme(url@),
{
    if is_http_url(candidate) {
        candidate.to_owned()
    } else {
        let mut url = "https://".to_owned();
        url.append(candidate);
        proof {
            assert(url@.subrange(0, "https://"@.len() as int) =~= "https://"@);
        }
        url
    }
}

/// Takes `candidate` as the target where it carries an http scheme.
pub fn accept(candidate: &str) -> (outcome: ExtractionOutcome)
    ensures
        outcome@ == accepted(candidate@),
{
    if is_http_url(candidate) {
        ExtractionOutcome::Resolved(candidate.to_owned())
    } else {
        ExtractionOutcome::NoMatch
    }
}

/// The messaging rule.
pub fn match_messaging(parts: &UrlParts) -> (outcome: ExtractionOutcome)
    ensures
        outcome@ == rule_messaging(parts@),
{
    if str_contains(parts.host_str(), MESSAGING_HOST) {
        ExtractionOutcome::NeedsFetch
    } else {
        ExtractionOutcome::NoMatch
    }
}

/// The enterprise chat rule.
pub fn match_enterprise(parts: &UrlParts) -> (outcome: ExtractionOutcome)
    ensures
        outcome@ == rule_enterprise(parts@),
{
    if str_contains(parts.host_str(), ENTERPRISE_HOST) {
        match parts.param("uri") {
            Some(value) => ExtractionOutcome::Resolved(ensure_scheme(value.as_str())),
            None => ExtractionOutcome::NoMatch,
        }
    } else {
        ExtractionOutcome::NoMatch
    }
}

/// The rule for the parameter `name`.
pub fn match_param(parts: &UrlParts, name: &str) -> (outcome: ExtractionOutcome)
    ensures
        outcome@ == rule_param(parts@, name@),
{
    match parts.param(name) {
        Some(value) => accept(value.as_str()),
        None => ExtractionOutcome::NoMatch,
    }
}

/// The desktop chat rule.
pub fn match_desktop(parts: &UrlParts) -> (outcome: ExtractionOutcome)
    ensures
        outcome@ == rule_desktop(parts@),
{
    if str_contains(parts.host_str(), DESKTOP_HOST) {
        match_param(parts, "url")
    } else {
        ExtractionOutcome::NoMatch
    }
}

/// The generic rule.
pub fn match_generic(parts: &UrlParts) -> (outcome: ExtractionOutcome)
    ensures
        outcome@ == rule_generic(parts@),
{
    let names: [&str; 7] = ["url", "link", "target", "redirect", "goto", "u", "q"];
    let mut i: usize = 0;
    while i < 7
        invariant
            i <= 7,
            names@.len() == 7,
            forall|k: int| 0 <= k < 7 ==> (#[trigger] names@[k])@ == generic_names()[k],
            rule_generic(parts@) == first_param(parts@, generic_names(), i as int),
        decreases 7 - i,
    {
        let found = match_param(parts, names[i]);
        match found {
            ExtractionOutcome::NoMatch => {},
            _ => {
                return found;
            },
        }
        i += 1;
    }
    ExtractionOutcome::NoMatch
}

/// The fragment rule.
pub fn match_fragment(parts: &UrlParts) -> (outcome: ExtractionOutcome)
    ensures
        outcome@ == rule_fragment(parts@),
{
    match &parts.fragment {
        Some(fragment) => accept(fragment.as_str()),
        None => ExtractionOutcome::NoMatch,
    }
}

/// Runs the rules in priority order and returns what the first match yields.
pub fn classify(parts: &UrlParts) -> (outcome: ExtractionOutcome)
    ensures
        outcome@ == classified(parts@),
        outcome@ matches Outcome::Resolved(url) ==> has_http_scheme(url),
{
    let by_messaging = match_messaging(parts);
    match by_messaging {
        ExtractionOutcome::NoMatch => {},
        _ => {
            return by_messaging;
        },
    }
    let by_enterprise = match_enterprise(parts);
    match by_enterprise {
        ExtractionOutcome::NoMatch => {},
        _ => {
            proof {
                lemma_enterprise_resolves_http(parts@);
            }
            return by_enterprise;
        },
    }
    let by_desktop = match_desktop(parts);
    match by_desktop {
        ExtractionOutcome::NoMatch => {},
        _ => {
            return by_desktop;
        },
    }
    let by_generic = match_generic(parts);
    match by_generic {
        ExtractionOutcome::NoMatch => {},
        _ => {
            proof {
                lemma_first_param_accepted(parts@, generic_names(), 0);
            }
            return by_generic;
        },
    }
    match_fragment(parts)
}

/// A text given a scheme carries one.
pub proof fn lemma_with_scheme_has_scheme(s: Seq<char>)
    ensures
        has_http_scheme(with_scheme(s)),
{
    if !has_http_scheme(s) {
        assert(("https://"@ + s).subrange(0, "https://"@.len() as int) =~= "https://"@);
    }
}

/// What the enterprise chat rule resolves to carries an http scheme.
pub proof fn lemma_enterprise_resolves_http(parts: UrlPartsView)
    ensures
        rule_enterprise(parts) matches Outcome::Resolved(url) ==> has_http_scheme(url),
{
    match param_value(parts.query, "uri"@) {
        Some(value) => lemma_with_scheme_has_scheme(value),
        None => {},
    }
}

/// What the generic rule resolves to carries an http scheme.
pub proof fn lemma_first_param_accepted(parts: UrlPartsView, names: Seq<Seq<char>>, from: int)
    ensures
        first_param(parts, names, from) matches Outcome::Resolved(url) ==> has_http_scheme(url),
        !(first_param(parts, names, from) is NeedsFetch),
    decreases names.len() - from,
{
    if 0 <= from < names.len() {
        lemma_first_param_accepted(parts, names, from + 1);
    }
}

/// No rule finds anything in `parts`: the host names no messaging page, an
/// enterprise chat host comes without the parameter `uri`, none of the common
/// redirect parameters holds an http URL, and the fragment is none.
pub open spec fn no_known_wrapping(parts: UrlPartsView) -> bool {
    &&& !occurs_in(host_text(parts), MESSAGING_HOST@)
    &&& occurs_in(host_text(parts), ENTERPRISE_HOST@) ==> param_value(parts.query, "uri"@) is None
    &&& forall|k: int|
        0 <= k < generic_names().len() ==> rule_param(parts, #[trigger] generic_names()[k])
            is NoMatch
    &&& rule_fragment(parts) is NoMatch
}

/// A run of parameter rules finds nothing exactly where each of them finds
/// nothing.
pub proof fn lemma_first_param_no_match(parts: UrlPartsView, names: Seq<Seq<char>>, from: int)
    requires
        0 <= from,
    ensures
        first_param(parts, names, from) is NoMatch <==> forall|k: int|
            from <= k < names.len() ==> rule_param(parts, #[trigger] names[k]) is NoMatch,
    decreases names.len() - from,
{
    if from < names.len() {
        lemma_first_param_no_match(parts, names, from + 1);
        if first_param(parts, names, from) is NoMatch {
            assert forall|k: int| from <= k < names.len() implies rule_param(
                parts,
                #[trigger] names[k],
            ) is NoMatch by {
                if k > from {
                    assert(from + 1 <= k);
                }
            }
        }
    }
}

/// The rules find nothing in a URL exactly where it shows no known wrapping.
pub proof fn law_no_match_without_wrapping(parts: UrlPartsView)
    ensures
        classified(parts) is NoMatch <==> no_known_wrapping(parts),
{
    lemma_first_param_no_match(parts, generic_names(), 0);
    if no_known_wrapping(parts) {
        assert(generic_names()[0] == "url"@);
        assert(rule_param(parts, generic_names()[0]) is NoMatch);
    }
    if classified(parts) is NoMatch {
        assert(rule_generic(parts) is NoMatch);
    }
}

/// A URL of the messaging host always has to be fetched, whatever else it
/// holds.
pub proof fn law_messaging_host_needs_fetch(parts: UrlPartsView)
    requires
        occurs_in(host_text(parts), MESSAGING_HOST@),
    ensures
        classified(parts) == Outcome::NeedsFetch,
{
}

/// Only the messaging rule asks for a fetch.
pub proof fn law_fetch_only_for_messaging_host(parts: UrlPartsView)
    requires
        classified(parts) is NeedsFetch,
    ensures
        occurs_in(host_text(parts), MESSAGING_HOST@),
{
    lemma_first_param_accepted(parts, generic_names(), 0);
}

/// Every target that the rules yield starts with `http://` or `https://`.
pub proof fn law_resolved_has_http_scheme(parts: UrlPartsView)
    ensures
        classified(parts) matches Outcome::Resolved(url) ==> has_http_scheme(url),
{
    lemma_enterprise_resolves_http(parts);
    lemma_first_param_accepted(parts, generic_names(), 0);
}

/// On an enterprise chat host the parameter `uri` is the target, behind
/// `https://` where it names no http scheme of its own.
pub proof fn law_enterprise_supplies_scheme(parts: UrlPartsView, value: Seq<char>)
    requires
        !occurs_in(host_text(parts), MESSAGING_HOST@),
        occurs_in(host_text(parts), ENTERPRISE_HOST@),
        param_value(parts.query, "uri"@) == Some(value),
    ensures
        has_http_scheme(value) ==> classified(parts) == Outcome::Resolved(value),
        !has_http_scheme(value) ==> classified(parts) == Outcome::Resolved("https://"@ + value),
{
}

/// On a desktop chat host a parameter `url` without an http scheme is no
/// target: the rule does not apply, no scheme is made up for the value, and
/// the outcome is that of the other rules.
pub proof fn law_desktop_invents_no_scheme(parts: UrlPartsView, value: Seq<char>)
    requires
        occurs_in(host_text(parts), DESKTOP_HOST@),
        param_value(parts.query, "url"@) == Some(value),
        !has_http_scheme(value),
    ensures
        rule_desktop(parts) is NoMatch,
        classified(parts) == or_else(
            rule_messaging(parts),
            or_else(rule_enterprise(parts), or_else(rule_generic(parts), rule_fragment(parts))),
        ),
        !occurs_in(host_text(parts), MESSAGING_HOST@) && !occurs_in(
            host_text(parts),
            ENTERPRISE_HOST@,
        ) ==> classified(parts) == or_else(
            first_param(parts, generic_names(), 1),
            rule_fragment(parts),
        ),
{
    assert(generic_names()[0] == "url"@);
    assert(rule_param(parts, generic_names()[0]) is NoMatch);
}

} // verus!
