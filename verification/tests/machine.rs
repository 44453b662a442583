use link_resolver::scraper::{extract_from_page, extract_from_response};
use link_resolver::state::{
    PollAction, Resolution, UrlExtractionState, WorkerStatus, EXTRACTION_FAILED, RECHECK_DELAY_MS,
    REQUEST_FAILED,
};

const WRAPPED: &str = "https://weixin110.qq.com/cgi-bin/mmspamsupport-bin/newredirectconfirmcgi?id=1";

fn is_start(action: &PollAction, url: &str) -> bool {
    matches!(action, PollAction::StartWorker(u) if u == url)
}

#[test]
fn constants_are_as_documented() {
    assert_eq!(RECHECK_DELAY_MS, 100);
    assert_eq!(EXTRACTION_FAILED, "extraction failed");
    assert_eq!(REQUEST_FAILED, "request failed");
}

#[test]
fn plain_url_is_a_success_at_once() {
    let mut r = Resolution::new("https://example.com/page");
    assert!(matches!(r.state(), UrlExtractionState::Success(u) if u == "https://example.com/page"));
    assert_eq!(r.original_url(), "https://example.com/page");
    assert_eq!(r.url_to_open(), "https://example.com/page");
    assert!(matches!(r.poll(WorkerStatus::Running), PollAction::Idle));
    assert!(matches!(r.state(), UrlExtractionState::Success(u) if u == "https://example.com/page"));
}

#[test]
fn unwrapped_url_is_a_success_at_once_and_keeps_the_input() {
    let input = "https://redirector.example/go?url=https%3A%2F%2Freal.example%2Fpath";
    let r = Resolution::new(input);
    assert!(matches!(r.state(), UrlExtractionState::Success(u) if u == "https://real.example/path"));
    assert_eq!(r.original_url(), input);
    assert_eq!(r.url_to_open(), "https://real.example/path");
}

#[test]
fn malformed_input_is_a_success_with_itself() {
    let r = Resolution::new("::not a url::");
    assert!(matches!(r.state(), UrlExtractionState::Success(u) if u == "::not a url::"));
    assert_eq!(r.url_to_open(), "::not a url::");
}

#[test]
fn first_poll_starts_the_worker_once() {
    let mut r = Resolution::new(WRAPPED);
    assert!(matches!(r.state(), UrlExtractionState::Pending));
    assert_eq!(r.url_to_open(), WRAPPED);
    let first = r.poll(WorkerStatus::Running);
    assert!(is_start(&first, WRAPPED));
    assert!(matches!(r.state(), UrlExtractionState::Loading));
    for _ in 0..5 {
        let next = r.poll(WorkerStatus::Running);
        assert!(matches!(next, PollAction::RepaintAfter(100)));
        assert!(matches!(r.state(), UrlExtractionState::Loading));
    }
}

#[test]
fn first_poll_ignores_what_is_said_of_the_worker() {
    let mut r = Resolution::new(WRAPPED);
    let first = r.poll(WorkerStatus::Finished(Some("https://early.example/".to_string())));
    assert!(is_start(&first, WRAPPED));
    assert!(matches!(r.state(), UrlExtractionState::Loading));
    assert_eq!(r.url_to_open(), WRAPPED);
    let mut r = Resolution::new(WRAPPED);
    assert!(is_start(&r.poll(WorkerStatus::Crashed), WRAPPED));
    assert!(matches!(r.state(), UrlExtractionState::Loading));
}

#[test]
fn found_target_is_a_success() {
    let mut r = Resolution::new(WRAPPED);
    r.poll(WorkerStatus::Running);
    let action = r.poll(WorkerStatus::Finished(Some("https://real.example/".to_string())));
    assert!(matches!(action, PollAction::Repaint));
    assert!(matches!(r.state(), UrlExtractionState::Success(u) if u == "https://real.example/"));
    assert_eq!(r.url_to_open(), "https://real.example/");
    assert_eq!(r.original_url(), WRAPPED);
    assert!(matches!(r.poll(WorkerStatus::Crashed), PollAction::Idle));
    assert!(matches!(r.poll(WorkerStatus::Finished(None)), PollAction::Idle));
    assert!(matches!(r.state(), UrlExtractionState::Success(u) if u == "https://real.example/"));
}

#[test]
fn crashed_worker_is_a_failed_request() {
    let mut r = Resolution::new(WRAPPED);
    r.poll(WorkerStatus::Running);
    let action = r.poll(WorkerStatus::Crashed);
    assert!(matches!(action, PollAction::Repaint));
    assert!(matches!(r.state(), UrlExtractionState::Failed(reason) if reason == "request failed"));
    assert_eq!(r.url_to_open(), WRAPPED);
    assert_eq!(r.original_url(), WRAPPED);
    let later = r.poll(WorkerStatus::Finished(Some("https://late.example/".to_string())));
    assert!(matches!(later, PollAction::Idle));
    assert!(matches!(r.state(), UrlExtractionState::Failed(reason) if reason == "request failed"));
    assert_eq!(r.url_to_open(), WRAPPED);
}

#[test]
fn page_without_the_field_is_a_failed_extraction() {
    let mut r = Resolution::new(WRAPPED);
    r.poll(WorkerStatus::Running);
    let found = extract_from_page("<html><body>blocked</body></html>");
    let action = r.poll(WorkerStatus::Finished(found));
    assert!(matches!(action, PollAction::Repaint));
    assert!(matches!(r.state(), UrlExtractionState::Failed(reason) if reason == "extraction failed"));
    assert_eq!(r.url_to_open(), WRAPPED);
    assert!(matches!(r.poll(WorkerStatus::Running), PollAction::Idle));
}

#[test]
fn failed_fetch_is_never_a_success() {
    let mut r = Resolution::new(WRAPPED);
    r.poll(WorkerStatus::Running);
    r.poll(WorkerStatus::Finished(extract_from_response(None)));
    assert!(matches!(r.state(), UrlExtractionState::Failed(reason) if reason == "extraction failed"));
    assert_eq!(r.url_to_open(), WRAPPED);
}

#[test]
fn scraped_page_is_a_success() {
    let mut r = Resolution::new(WRAPPED);
    r.poll(WorkerStatus::Running);
    let body = r#"var cgiData = {"desc":"https&#x3a;&#x2f;&#x2f;real.example&#x2f;x"};"#;
    r.poll(WorkerStatus::Finished(extract_from_page(body)));
    assert!(matches!(r.state(), UrlExtractionState::Success(u) if u == "https://real.example/x"));
    assert_eq!(r.url_to_open(), "https://real.example/x");
}

#[test]
fn from_unwrapped_takes_what_it_is_given() {
    let r = Resolution::from_unwrapped("in", "out".to_string(), false);
    assert!(matches!(r.state(), UrlExtractionState::Success(u) if u == "out"));
    assert_eq!(r.original_url(), "in");
    assert_eq!(r.url_to_open(), "out");
    let r = Resolution::from_unwrapped("in", "in".to_string(), true);
    assert!(matches!(r.state(), UrlExtractionState::Pending));
    assert_eq!(r.original_url(), "in");
    assert_eq!(r.url_to_open(), "in");
}

#[test]
fn field_without_http_url_is_a_failed_extraction() {
    let mut r = Resolution::new(WRAPPED);
    r.poll(WorkerStatus::Running);
    r.poll(WorkerStatus::Finished(extract_from_page(r#"{"desc":"javascript:alert(1)"}"#)));
    assert!(matches!(r.state(), UrlExtractionState::Failed(reason) if reason == EXTRACTION_FAILED));
    assert_eq!(r.url_to_open(), WRAPPED);
}

#[test]
fn pending_resolution_shows_the_input_whatever_the_candidate() {
    let mut r = Resolution::from_unwrapped("in", "other".to_string(), true);
    assert!(matches!(r.state(), UrlExtractionState::Pending));
    assert_eq!(r.url_to_open(), "in");
    assert!(is_start(&r.poll(WorkerStatus::Running), "in"));
}

#[test]
fn worker_is_started_at_most_once_over_any_run_of_polls() {
    let runs: Vec<Vec<WorkerStatus>> = vec![
        vec![WorkerStatus::Running, WorkerStatus::Running, WorkerStatus::Finished(None), WorkerStatus::Running],
        vec![WorkerStatus::Crashed, WorkerStatus::Crashed, WorkerStatus::Crashed],
        vec![
            WorkerStatus::Finished(Some("https://a.example/".to_string())),
            WorkerStatus::Finished(Some("https://b.example/".to_string())),
            WorkerStatus::Running,
            WorkerStatus::Finished(Some("https://c.example/".to_string())),
        ],
    ];
    for run in runs {
        let mut r = Resolution::new(WRAPPED);
        let mut starts = 0;
        for (i, status) in run.into_iter().enumerate() {
            if let PollAction::StartWorker(url) = r.poll(status) {
                assert_eq!(i, 0);
                assert_eq!(url, WRAPPED);
                starts += 1;
            }
            assert!(!matches!(r.state(), UrlExtractionState::Pending));
            assert_eq!(r.original_url(), WRAPPED);
        }
        assert_eq!(starts, 1);
    }
    let mut done = Resolution::new("https://example.com/");
    for status in [WorkerStatus::Running, WorkerStatus::Crashed, WorkerStatus::Finished(None)] {
        assert!(matches!(done.poll(status), PollAction::Idle));
    }
}
