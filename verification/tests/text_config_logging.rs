//! The text helpers, configuration resolution, error constructors, the
//! provider request builders without a response model, and the logging
//! initialization decision.

use golem_durability::logging::{BaseLoggingState, LoggingState};
use golem_durability::vector::error::classify_transport_error;
use golem_durability::vector::types::VectorError;
use golem_durability::text::{join_prefixed, parse_u64, str_eq, u64_to_string};
use golem_durability::websearch::config::with_config_key;
use golem_durability::websearch::error::{from_transport_error, unsupported};
use golem_durability::websearch::serper;
use golem_durability::websearch::tavily;
use golem_durability::websearch::types::{SearchError, SearchParams, TimeRange};

#[test]
fn decimal_rendering() {
    assert_eq!(u64_to_string(0), "0");
    assert_eq!(u64_to_string(7), "7");
    assert_eq!(u64_to_string(10), "10");
    assert_eq!(u64_to_string(90210), "90210");
    assert_eq!(u64_to_string(u64::MAX), "18446744073709551615");
}

#[test]
fn decimal_parsing() {
    assert_eq!(parse_u64("0"), Some(0));
    assert_eq!(parse_u64("1000"), Some(1000));
    assert_eq!(parse_u64("18446744073709551615"), Some(u64::MAX));
    assert_eq!(parse_u64("18446744073709551616"), None);
    assert_eq!(parse_u64(""), None);
    assert_eq!(parse_u64("not_a_number"), None);
    assert_eq!(parse_u64("12a"), None);
    assert_eq!(parse_u64("+12"), None);
}

#[test]
fn prefixed_joins() {
    let items = vec!["example.com".to_string(), "test.org".to_string()];
    assert_eq!(join_prefixed(&items, "site:", " OR "), "site:example.com OR site:test.org");
    assert_eq!(join_prefixed(&items, "-site:", " "), "-site:example.com -site:test.org");
    let one = vec!["only.net".to_string()];
    assert_eq!(join_prefixed(&one, "site:", " OR "), "site:only.net");
    let none: Vec<String> = vec![];
    assert_eq!(join_prefixed(&none, "site:", " OR "), "");
}

#[test]
fn string_equality_helper() {
    assert!(str_eq("abc", "abc"));
    assert!(!str_eq("abc", "abd"));
    assert!(str_eq("", ""));
}

#[test]
fn config_resolution_reports_first_missing_key() {
    let found = with_config_key(vec![
        ("API_KEY".to_string(), Some("k".to_string())),
        ("ENGINE".to_string(), Some("e".to_string())),
    ]);
    assert_eq!(
        found,
        Ok(vec![
            ("API_KEY".to_string(), "k".to_string()),
            ("ENGINE".to_string(), "e".to_string()),
        ])
    );
    let missing = with_config_key(vec![
        ("API_KEY".to_string(), Some("k".to_string())),
        ("ENGINE".to_string(), None),
        ("REGION".to_string(), None),
    ]);
    assert_eq!(
        missing,
        Err(SearchError::BackendError("Missing config key: ENGINE".to_string()))
    );
}

#[test]
fn error_constructors() {
    assert_eq!(
        unsupported("advanced answers"),
        SearchError::UnsupportedFeature("Unsupported: advanced answers".to_string())
    );
    assert_eq!(
        from_transport_error("Request failed", "connection reset"),
        SearchError::BackendError("Request failed: connection reset".to_string())
    );
}

fn base_params() -> SearchParams {
    SearchParams {
        query: "test".to_string(),
        safe_search: None,
        language: Some("en".to_string()),
        region: Some("us".to_string()),
        max_results: Some(500),
        time_range: Some(TimeRange::Week),
        include_domains: Some(vec!["a.com".to_string()]),
        exclude_domains: None,
        include_images: None,
        include_html: None,
        advanced_answer: Some(true),
    }
}

#[test]
fn serper_request_caps_results_and_names_windows() {
    let r = serper::convert_params_to_request(&base_params(), Some(2));
    assert_eq!(r.q, "test");
    assert_eq!(r.num, Some(100));
    assert_eq!(r.gl, Some("us".to_string()));
    assert_eq!(r.hl, Some("en".to_string()));
    assert_eq!(r.autocorrect, Some(true));
    assert_eq!(r.tbs, Some("w".to_string()));
    assert_eq!(r.page, Some(2));
}

#[test]
fn tavily_request_follows_advanced_answer_and_windows() {
    let r = tavily::convert_params_to_request(&base_params());
    assert_eq!(r.query, "test");
    assert_eq!(r.search_depth, Some("advanced".to_string()));
    assert_eq!(r.topic, Some("news".to_string()));
    assert_eq!(r.max_results, Some(20));
    assert_eq!(r.include_answer, Some(true));
    assert_eq!(r.include_raw_content, Some(false));
    assert_eq!(r.include_images, Some(true));
    assert_eq!(r.include_domains, Some(vec!["a.com".to_string()]));
    assert_eq!(r.exclude_domains, None);
    assert_eq!(r.time_range, Some("week".to_string()));
    assert_eq!(r.days, Some(7));
    assert_eq!(r.country, Some("us".to_string()));
}

#[test]
fn transport_errors_classify_by_their_flags() {
    assert_eq!(
        classify_transport_error(true, false, false, false, "refused"),
        VectorError::ConnectionError("The connection could not be established: refused".to_string())
    );
    assert_eq!(
        classify_transport_error(false, true, false, false, "timed out"),
        VectorError::ConnectionError(
            "The connection could not be established: timed out".to_string()
        )
    );
    assert_eq!(
        classify_transport_error(false, false, false, true, "bad json"),
        VectorError::ProviderError(
            "The provider returned an invalid response: bad json".to_string()
        )
    );
    assert_eq!(
        classify_transport_error(false, false, false, false, "odd"),
        VectorError::ProviderError("An unknown error occurred: odd".to_string())
    );
}

#[test]
fn logging_initializes_once() {
    let mut base = BaseLoggingState::new();
    assert!(base.init());
    assert!(!base.init());
    let mut state = LoggingState::new();
    assert!(state.init());
    assert!(!state.init());
}
