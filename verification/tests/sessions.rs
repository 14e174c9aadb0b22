//! The paginated session state machines: cursor advance, exhaustion, and
//! metadata bookkeeping.

use golem_durability::websearch::brave::{
    BraveQuery, BraveSearchResponse, BraveSearchSession, BraveWebResult, BraveWebResults,
};
use golem_durability::websearch::google::{
    GoogleQueries, GoogleQueryInfo, GoogleSearchItem, GoogleSearchResponse, GoogleSearchSession,
};
use golem_durability::websearch::serper::{SerperSearchResponse, SerperSearchSession};
use golem_durability::websearch::tavily::{
    TavilySearchResponse, TavilySearchResult, TavilySearchSession,
};
use golem_durability::websearch::types::{SearchError, SearchParams};

fn params() -> SearchParams {
    SearchParams {
        query: "pages".to_string(),
        safe_search: None,
        language: None,
        region: None,
        max_results: Some(5),
        time_range: None,
        include_domains: None,
        exclude_domains: None,
        include_images: None,
        include_html: None,
        advanced_answer: None,
    }
}

fn brave_hit(title: &str) -> BraveWebResult {
    BraveWebResult {
        title: title.to_string(),
        url: "https://example.com".to_string(),
        is_source_local: None,
        is_source_both: None,
        description: "snippet".to_string(),
        page_age: None,
        profile: None,
        language: None,
        family_friendly: None,
        result_type: None,
        subtype: None,
        meta_url: None,
        thumbnail: None,
        age: None,
        extra_snippets: None,
    }
}

fn brave_page(more: bool, hits: Vec<BraveWebResult>) -> BraveSearchResponse {
    BraveSearchResponse {
        query: Some(BraveQuery {
            original: "pages".to_string(),
            show_strict_warning: None,
            is_navigational: None,
            is_news_breaking: None,
            spellcheck_off: None,
            country: None,
            bad_results: None,
            should_fallback: None,
            postal_code: None,
            city: None,
            header_country: None,
            more_results_available: Some(more),
            state: None,
        }),
        web: Some(BraveWebResults { result_type: None, results: Some(hits), family_friendly: None }),
        discussions: None,
        infobox: None,
        videos: None,
        mixed: None,
        response_type: None,
    }
}

#[test]
fn brave_session_pages_until_exhausted() {
    let mut session = BraveSearchSession::new(params());
    assert!(session.get_metadata().is_none());

    let request = session.next_page_request().unwrap();
    assert_eq!(request.offset, Some(5));
    let first = session
        .accept_response(brave_page(true, vec![brave_hit("one"), brave_hit("two")]))
        .unwrap();
    assert_eq!(first.title, "one");
    assert!(session.has_more_results);
    assert!(session.get_metadata().is_some());

    let request = session.next_page_request().unwrap();
    assert_eq!(request.offset, Some(10));
    let first = session
        .accept_response(brave_page(false, vec![brave_hit("three")]))
        .unwrap();
    assert_eq!(first.title, "three");
    assert!(!session.has_more_results);

    assert_eq!(
        session.next_page_request(),
        Err(SearchError::BackendError("No more results available".to_string()))
    );
}

#[test]
fn brave_session_empty_page_exhausts() {
    let mut session = BraveSearchSession::new(params());
    let _ = session.next_page_request().unwrap();
    let r = session.accept_response(brave_page(true, vec![]));
    assert_eq!(r, Err(SearchError::BackendError("No more results".to_string())));
    assert!(!session.has_more_results);
}

fn google_page(next: Option<u32>, titles: Vec<&str>) -> GoogleSearchResponse {
    GoogleSearchResponse {
        items: Some(
            titles
                .into_iter()
                .map(|t| GoogleSearchItem {
                    title: t.to_string(),
                    link: "https://example.com".to_string(),
                    snippet: "snippet".to_string(),
                    display_link: None,
                    html_snippet: None,
                    pagemap: None,
                })
                .collect(),
        ),
        search_information: None,
        queries: next.map(|idx| GoogleQueries {
            request: None,
            next_page: Some(vec![GoogleQueryInfo {
                title: "Next Page".to_string(),
                total_results: None,
                search_terms: "pages".to_string(),
                count: Some(5),
                start_index: Some(idx),
            }]),
        }),
        error: None,
    }
}

#[test]
fn google_session_advances_one_index_per_page() {
    let mut session = GoogleSearchSession::new(params());
    let request = session.next_page_request().unwrap();
    assert_eq!(request.start, Some(1));
    let first = session.accept_response(google_page(Some(6), vec!["one", "two"])).unwrap();
    assert_eq!(first.title, "one");
    assert!(session.has_more_results);

    let request = session.next_page_request().unwrap();
    assert_eq!(request.start, Some(2));
    let first = session.accept_response(google_page(None, vec!["three"])).unwrap();
    assert_eq!(first.title, "three");
    assert!(!session.has_more_results);
    assert_eq!(
        session.next_page_request(),
        Err(SearchError::BackendError("No more results available".to_string()))
    );
}

fn serper_page(titles: Vec<&str>) -> SerperSearchResponse {
    SerperSearchResponse {
        search_parameters: None,
        organic: Some(
            titles
                .into_iter()
                .enumerate()
                .map(|(i, t)| golem_durability::websearch::serper::SerperOrganicResult {
                    title: t.to_string(),
                    link: "https://example.com".to_string(),
                    snippet: "snippet".to_string(),
                    position: Some(i as u32),
                    date: None,
                    sitelinks: None,
                })
                .collect(),
        ),
        answer_box: None,
        knowledge_graph: None,
        people_also_ask: None,
        related_searches: None,
        images: None,
        videos: None,
        news: None,
        search_information: None,
    }
}

#[test]
fn serper_session_pages_by_number() {
    let mut session = SerperSearchSession::new(params());
    assert_eq!(session.current_page, 1);
    let request = session.next_page_request().unwrap();
    assert_eq!(request.page, Some(2));
    let first = session.accept_response(serper_page(vec!["one", "two"])).unwrap();
    assert_eq!(first.title, "one");
    assert!(session.has_more_results);

    // an empty page exhausts the session
    let r = session.accept_response(serper_page(vec![]));
    assert_eq!(r, Err(SearchError::BackendError("No more results".to_string())));
    assert!(!session.has_more_results);
    assert_eq!(
        session.next_page_request(),
        Err(SearchError::BackendError("No more results available".to_string()))
    );
}

#[test]
fn serper_session_stops_after_the_tenth_page() {
    let mut session = SerperSearchSession::new(params());
    session.current_page = 9;
    let request = session.next_page_request().unwrap();
    assert_eq!(request.page, Some(10));
    let _ = session.accept_response(serper_page(vec!["late"])).unwrap();
    assert!(!session.has_more_results);
}

#[test]
fn tavily_session_serves_a_single_page() {
    let mut session = TavilySearchSession::new(params());
    let request = session.next_page_request().unwrap();
    assert_eq!(request.query, "pages");
    assert_eq!(session.current_offset, 5);
    let response = TavilySearchResponse {
        query: "pages".to_string(),
        answer: None,
        results: vec![TavilySearchResult {
            title: "only".to_string(),
            url: "https://example.com".to_string(),
            content: "content".to_string(),
            raw_content: None,
            published_date: None,
            score_thousandths: Some(700),
        }],
        images: None,
        response_time_ms: None,
    };
    let first = session.accept_response(response).unwrap();
    assert_eq!(first.title, "only");
    assert!(!session.has_more_results);
    assert_eq!(
        session.next_page_request(),
        Err(SearchError::BackendError("No more results available".to_string()))
    );
}
