use link_resolver::matcher::{
    classify, match_desktop, match_enterprise, match_fragment, match_generic, match_messaging,
    match_param, ExtractionOutcome,
};
use link_resolver::parts::UrlParts;
use link_resolver::resolve::{
    decode_value, decode_values, decoded_or_raw, extract_real_url_sync, resolve_outcome,
    resolve_parts,
};

fn parts(host: &str, query: &[(&str, &str)], fragment: Option<&str>) -> UrlParts {
    UrlParts {
        host: if host.is_empty() { None } else { Some(host.to_string()) },
        query: query.iter().map(|(k, v)| (k.to_string(), v.to_string())).collect(),
        fragment: fragment.map(|f| f.to_string()),
    }
}

fn resolved(outcome: ExtractionOutcome) -> Option<String> {
    match outcome {
        ExtractionOutcome::Resolved(url) => Some(url),
        _ => None,
    }
}

#[test]
fn plain_url_is_returned_unchanged() {
    let input = "https://example.com/some/page?x=1&y=2#section";
    assert_eq!(extract_real_url_sync(input), (input.to_string(), false));
}

#[test]
fn url_without_query_is_returned_unchanged() {
    let input = "http://example.org/";
    assert_eq!(extract_real_url_sync(input), (input.to_string(), false));
}

#[test]
fn malformed_input_is_returned_unchanged() {
    assert_eq!(extract_real_url_sync("not a url"), ("not a url".to_string(), false));
    assert_eq!(extract_real_url_sync(""), (String::new(), false));
    assert_eq!(
        extract_real_url_sync("//weixin110.qq.com/x"),
        ("//weixin110.qq.com/x".to_string(), false)
    );
}

#[test]
fn enterprise_value_without_scheme_gets_https() {
    let (url, needs_fetch) =
        extract_real_url_sync("https://open.work.weixin.qq.com/wwopen/uriconfirm?uri=example.com%2Ffoo");
    assert_eq!(url, "https://example.com/foo");
    assert!(!needs_fetch);
}

#[test]
fn enterprise_value_with_scheme_is_kept() {
    let (url, needs_fetch) = extract_real_url_sync(
        "https://open.work.weixin.qq.com/wwopen/uriconfirm?uri=http%3A%2F%2Fexample.com%2Ffoo",
    );
    assert_eq!(url, "http://example.com/foo");
    assert!(!needs_fetch);
}

#[test]
fn enterprise_without_uri_falls_through() {
    let (url, needs_fetch) = extract_real_url_sync(
        "https://open.work.weixin.qq.com/wwopen/uriconfirm?link=https%3A%2F%2Freal.example%2F",
    );
    assert_eq!(url, "https://real.example/");
    assert!(!needs_fetch);
    let input = "https://open.work.weixin.qq.com/wwopen/uriconfirm?other=1";
    assert_eq!(extract_real_url_sync(input), (input.to_string(), false));
}

#[test]
fn desktop_value_with_scheme_is_taken() {
    let (url, needs_fetch) = extract_real_url_sync(
        "https://c.pc.qq.com/middlem.html?pfurl=https%3A%2F%2Freal.example%2Fa&url=https%3A%2F%2Freal.example%2Fb",
    );
    assert_eq!(url, "https://real.example/b");
    assert!(!needs_fetch);
}

#[test]
fn desktop_value_without_scheme_gets_none() {
    let input = "https://c.pc.qq.com/middlem.html?url=example.com%2Ffoo";
    assert_eq!(extract_real_url_sync(input), (input.to_string(), false));
}

#[test]
fn desktop_value_without_scheme_falls_through_to_generic() {
    let (url, needs_fetch) = extract_real_url_sync(
        "https://c.pc.qq.com/middlem.html?url=example.com%2Ffoo&target=https%3A%2F%2Freal.example%2Ft",
    );
    assert_eq!(url, "https://real.example/t");
    assert!(!needs_fetch);
}

#[test]
fn generic_parameter_is_unwrapped() {
    let (url, needs_fetch) =
        extract_real_url_sync("https://redirector.example/go?url=https%3A%2F%2Freal.example%2Fpath");
    assert_eq!(url, "https://real.example/path");
    assert!(!needs_fetch);
}

#[test]
fn generic_names_are_tried_in_order() {
    let (url, _) = extract_real_url_sync(
        "https://redirector.example/go?q=http%3A%2F%2Fq.example%2F&link=http%3A%2F%2Flink.example%2F&u=http%3A%2F%2Fu.example%2F",
    );
    assert_eq!(url, "http://link.example/");
    let (url, _) = extract_real_url_sync(
        "https://redirector.example/go?q=http%3A%2F%2Fq.example%2F&goto=http%3A%2F%2Fgoto.example%2F&redirect=nothing&url=ftp%3A%2F%2Fx",
    );
    assert_eq!(url, "http://goto.example/");
    let (url, _) = extract_real_url_sync("https://redirector.example/go?q=http%3A%2F%2Fq.example%2F");
    assert_eq!(url, "http://q.example/");
}

#[test]
fn repeated_parameter_counts_with_its_last_value() {
    let (url, _) = extract_real_url_sync(
        "https://redirector.example/go?url=https%3A%2F%2Ffirst.example%2F&url=https%3A%2F%2Fsecond.example%2F",
    );
    assert_eq!(url, "https://second.example/");
    let input = "https://redirector.example/go?url=https%3A%2F%2Ffirst.example%2F&url=none";
    assert_eq!(extract_real_url_sync(input), (input.to_string(), false));
}

#[test]
fn fragment_is_unwrapped() {
    let (url, needs_fetch) =
        extract_real_url_sync("https://redirector.example/go#https://real.example/path2");
    assert_eq!(url, "https://real.example/path2");
    assert!(!needs_fetch);
}

#[test]
fn query_wins_over_fragment() {
    let (url, _) = extract_real_url_sync(
        "https://redirector.example/go?u=http%3A%2F%2Fquery.example%2F#https://fragment.example/",
    );
    assert_eq!(url, "http://query.example/");
}

#[test]
fn messaging_host_needs_fetch_of_the_input() {
    let input = "https://weixin110.qq.com/cgi-bin/mmspamsupport-bin/newredirectconfirmcgi?main_type=2&evil_type=0&source=2";
    assert_eq!(extract_real_url_sync(input), (input.to_string(), true));
}

#[test]
fn messaging_host_wins_over_every_parameter() {
    let input = "https://weixin110.qq.com/go?url=https%3A%2F%2Freal.example%2F&uri=x#https://frag.example/";
    assert_eq!(extract_real_url_sync(input), (input.to_string(), true));
    let input = "https://sub.weixin110.qq.com.example/go?url=https%3A%2F%2Freal.example%2F";
    assert_eq!(extract_real_url_sync(input), (input.to_string(), true));
}

#[test]
fn values_are_percent_decoded_once_more() {
    let (url, _) = extract_real_url_sync(
        "https://redirector.example/go?url=https%3A%2F%2Freal.example%2Fa%2520b",
    );
    assert_eq!(url, "https://real.example/a b");
    let (url, _) = extract_real_url_sync(
        "https://redirector.example/go?url=https%253A%252F%252Freal.example%252Fpath",
    );
    assert_eq!(url, "https://real.example/path");
}

#[test]
fn value_that_does_not_decode_is_taken_as_it_stands() {
    let (url, _) =
        extract_real_url_sync("https://redirector.example/go?url=https%3A%2F%2Freal.example%2F%25FF");
    assert_eq!(url, "https://real.example/%FF");
}

#[test]
fn decode_value_decodes_escapes() {
    assert_eq!(decode_value("a%2Fb%3Ac"), "a/b:c");
    assert_eq!(decode_value("plain+text"), "plain+text");
    assert_eq!(decode_value("%E4%BD%A0"), "\u{4f60}");
    assert_eq!(decode_value("%FF"), "%FF");
    assert_eq!(decode_value("100%"), "100%");
}

#[test]
fn decoded_or_raw_prefers_the_decoded_text() {
    assert_eq!(decoded_or_raw("raw", Some("decoded".to_string())), "decoded");
    assert_eq!(decoded_or_raw("raw", None), "raw");
}

#[test]
fn decode_values_decodes_every_value_and_no_key() {
    let decoded = decode_values(parts(
        "h.example",
        &[("a%2F", "x%2Fy"), ("b", "%FF"), ("c", "")],
        Some("f%2F"),
    ));
    assert_eq!(decoded.host.as_deref(), Some("h.example"));
    assert_eq!(
        decoded.query,
        vec![
            ("a%2F".to_string(), "x/y".to_string()),
            ("b".to_string(), "%FF".to_string()),
            ("c".to_string(), String::new()),
        ]
    );
    assert_eq!(decoded.fragment.as_deref(), Some("f%2F"));
}

#[test]
fn resolve_outcome_maps_each_outcome() {
    assert_eq!(
        resolve_outcome("in", ExtractionOutcome::Resolved("http://out/".to_string())),
        ("http://out/".to_string(), false)
    );
    assert_eq!(resolve_outcome("in", ExtractionOutcome::NeedsFetch), ("in".to_string(), true));
    assert_eq!(resolve_outcome("in", ExtractionOutcome::NoMatch), ("in".to_string(), false));
}

#[test]
fn resolve_parts_without_parts_keeps_the_input() {
    assert_eq!(resolve_parts("anything", None), ("anything".to_string(), false));
    let p = parts("redirector.example", &[("u", "https://t.example/")], None);
    assert_eq!(resolve_parts("in", Some(&p)), ("https://t.example/".to_string(), false));
    let p = parts("weixin110.qq.com", &[("u", "https://t.example/")], None);
    assert_eq!(resolve_parts("in", Some(&p)), ("in".to_string(), true));
}

#[test]
fn each_rule_alone() {
    let p = parts("weixin110.qq.com", &[], None);
    assert!(matches!(match_messaging(&p), ExtractionOutcome::NeedsFetch));
    assert!(matches!(match_messaging(&parts("qq.com", &[], None)), ExtractionOutcome::NoMatch));
    assert!(matches!(match_messaging(&parts("", &[], None)), ExtractionOutcome::NoMatch));

    let p = parts("open.work.weixin.qq.com", &[("uri", "example.com/foo")], None);
    assert_eq!(resolved(match_enterprise(&p)).as_deref(), Some("https://example.com/foo"));
    let p = parts("open.work.weixin.qq.com", &[("uri", "https://example.com/foo")], None);
    assert_eq!(resolved(match_enterprise(&p)).as_deref(), Some("https://example.com/foo"));
    let p = parts("open.work.weixin.qq.com", &[("uri", "")], None);
    assert_eq!(resolved(match_enterprise(&p)).as_deref(), Some("https://"));
    let p = parts("open.work.weixin.qq.com", &[("url", "https://example.com/")], None);
    assert!(matches!(match_enterprise(&p), ExtractionOutcome::NoMatch));
    let p = parts("work.weixin.qq.com", &[("uri", "example.com")], None);
    assert!(matches!(match_enterprise(&p), ExtractionOutcome::NoMatch));

    let p = parts("c.pc.qq.com", &[("url", "http://example.com/")], None);
    assert_eq!(resolved(match_desktop(&p)).as_deref(), Some("http://example.com/"));
    let p = parts("c.pc.qq.com", &[("url", "example.com")], None);
    assert!(matches!(match_desktop(&p), ExtractionOutcome::NoMatch));
    let p = parts("pc.qq.com", &[("url", "http://example.com/")], None);
    assert!(matches!(match_desktop(&p), ExtractionOutcome::NoMatch));

    let p = parts("x.example", &[("target", "https://t.example/")], None);
    assert_eq!(resolved(match_generic(&p)).as_deref(), Some("https://t.example/"));
    assert_eq!(resolved(match_param(&p, "target")).as_deref(), Some("https://t.example/"));
    assert!(matches!(match_param(&p, "url"), ExtractionOutcome::NoMatch));
    let p = parts("x.example", &[("to", "https://t.example/")], None);
    assert!(matches!(match_generic(&p), ExtractionOutcome::NoMatch));

    let p = parts("x.example", &[], Some("http://f.example/"));
    assert_eq!(resolved(match_fragment(&p)).as_deref(), Some("http://f.example/"));
    let p = parts("x.example", &[], Some("section-2"));
    assert!(matches!(match_fragment(&p), ExtractionOutcome::NoMatch));
    let p = parts("x.example", &[], None);
    assert!(matches!(match_fragment(&p), ExtractionOutcome::NoMatch));
}

#[test]
fn classify_follows_the_priority_order() {
    let p = parts(
        "open.work.weixin.qq.com",
        &[("url", "https://generic.example/"), ("uri", "enterprise.example")],
        Some("https://fragment.example/"),
    );
    assert_eq!(resolved(classify(&p)).as_deref(), Some("https://enterprise.example"));
    let p = parts(
        "c.pc.qq.com",
        &[("link", "https://generic.example/"), ("url", "desktop.example")],
        Some("https://fragment.example/"),
    );
    assert_eq!(resolved(classify(&p)).as_deref(), Some("https://generic.example/"));
    let p = parts("c.pc.qq.com", &[("url", "desktop.example")], Some("https://fragment.example/"));
    assert_eq!(resolved(classify(&p)).as_deref(), Some("https://fragment.example/"));
    let p = parts("c.pc.qq.com", &[("url", "desktop.example")], None);
    assert!(matches!(classify(&p), ExtractionOutcome::NoMatch));
    let p = parts("weixin110.qq.com.open.work.weixin.qq.com", &[("uri", "x")], None);
    assert!(matches!(classify(&p), ExtractionOutcome::NeedsFetch));
}

#[test]
fn scheme_test_is_exact() {
    let p = parts("x.example", &[("url", "HTTP://upper.example/")], None);
    assert!(matches!(classify(&p), ExtractionOutcome::NoMatch));
    let p = parts("x.example", &[("url", "https:/one-slash.example/")], None);
    assert!(matches!(classify(&p), ExtractionOutcome::NoMatch));
    let p = parts("x.example", &[("url", "http://")], None);
    assert_eq!(resolved(classify(&p)).as_deref(), Some("http://"));
    let p = parts("x.example", &[("url", " https://space.example/")], None);
    assert!(matches!(classify(&p), ExtractionOutcome::NoMatch));
}

#[test]
fn param_gives_the_last_value_of_a_name() {
    let p = parts("x.example", &[("a", "1"), ("b", "2"), ("a", "3")], None);
    assert_eq!(p.param("a").map(|s| s.as_str()), Some("3"));
    assert_eq!(p.param("b").map(|s| s.as_str()), Some("2"));
    assert_eq!(p.param("c"), None);
    assert_eq!(p.param(""), None);
    assert_eq!(p.host_str(), "x.example");
    assert_eq!(parts("", &[], None).host_str(), "");
}
