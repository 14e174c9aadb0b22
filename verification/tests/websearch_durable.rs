//! The durable web-search wrapper: live execution records, replay skips the
//! provider, session opening records only a marker, and a disabled context
//! is a pure passthrough.

use std::cell::Cell;

use golem_durability::codec::Codec;
use golem_durability::durability::{DurabilityContext, DurableFunctionType, LogEntry};
use golem_durability::value::Value;
use golem_durability::websearch::durable::{DurableWebSearch, WebSearchProvider};
use golem_durability::websearch::types::{
    SearchError, SearchMetadata, SearchParams, SearchResult,
};

struct FakeProvider {
    start_calls: Cell<u32>,
    once_calls: Cell<u32>,
    fail: bool,
}

impl FakeProvider {
    fn new(fail: bool) -> Self {
        FakeProvider { start_calls: Cell::new(0), once_calls: Cell::new(0), fail }
    }
}

fn params() -> SearchParams {
    SearchParams {
        query: "durable".to_string(),
        safe_search: None,
        language: None,
        region: None,
        max_results: Some(3),
        time_range: None,
        include_domains: None,
        exclude_domains: None,
        include_images: None,
        include_html: None,
        advanced_answer: None,
    }
}

fn hit(title: &str) -> SearchResult {
    SearchResult {
        title: title.to_string(),
        url: "https://example.com".to_string(),
        snippet: "snippet".to_string(),
        display_url: None,
        source: Some("Fake".to_string()),
        score: None,
        html_snippet: None,
        date_published: None,
        images: None,
        content_chunks: None,
    }
}

fn meta(query: &str) -> SearchMetadata {
    SearchMetadata {
        query: query.to_string(),
        total_results: Some(1),
        search_time_ms: Some(12),
        safe_search: None,
        language: None,
        region: None,
        next_page_token: None,
        rate_limits: None,
    }
}

impl WebSearchProvider for &FakeProvider {
    type Session = u32;

    fn start_search(&self, _params: SearchParams) -> Result<u32, SearchError> {
        self.start_calls.set(self.start_calls.get() + 1);
        if self.fail {
            Err(SearchError::InvalidQuery)
        } else {
            Ok(self.start_calls.get())
        }
    }

    fn search_once(
        &self,
        params: SearchParams,
    ) -> Result<(Vec<SearchResult>, Option<SearchMetadata>), SearchError> {
        self.once_calls.set(self.once_calls.get() + 1);
        if self.fail {
            Err(SearchError::RateLimited(60))
        } else {
            Ok((vec![hit("one")], Some(meta(&params.query))))
        }
    }
}

#[test]
fn search_once_records_then_replays() {
    let provider = FakeProvider::new(false);
    let wrapper = DurableWebSearch::new(&provider, DurabilityContext::new(true));
    let (wrapper, r1) = wrapper.search_once(params());
    let expected = (vec![hit("one")], Some(meta("durable")));
    assert_eq!(r1, Ok(expected.clone()));
    assert_eq!(provider.once_calls.get(), 1);
    assert_eq!(wrapper.ctx.recorded_count(), 1);

    // the same logical execution replayed: the provider is not consulted
    let ctx2 = wrapper.ctx.restarted();
    let wrapper2 = DurableWebSearch::new(&provider, ctx2);
    let (wrapper2, r2) = wrapper2.search_once(params());
    assert_eq!(r2, Ok(expected));
    assert_eq!(provider.once_calls.get(), 1);
    assert_eq!(wrapper2.ctx.cursor, 1);
}

#[test]
fn search_once_error_is_persisted_and_replayed() {
    let failing = FakeProvider::new(true);
    let wrapper = DurableWebSearch::new(&failing, DurabilityContext::new(true));
    let (wrapper, r) = wrapper.search_once(params());
    assert_eq!(r, Err(SearchError::RateLimited(60)));
    assert_eq!(failing.once_calls.get(), 1);
    assert_eq!(wrapper.ctx.recorded_count(), 1);
    assert_eq!(wrapper.ctx.cursor, 1);

    // replay returns the same error without touching the provider
    let healthy = FakeProvider::new(false);
    let wrapper2 = DurableWebSearch::new(&healthy, wrapper.ctx.restarted());
    let (wrapper2, r2) = wrapper2.search_once(params());
    assert_eq!(r2, Err(SearchError::RateLimited(60)));
    assert_eq!(healthy.once_calls.get(), 0);
    assert_eq!(wrapper2.ctx.cursor, 1);
}

#[test]
fn start_search_records_marker_and_rederives_handle_on_replay() {
    let provider = FakeProvider::new(false);
    let wrapper = DurableWebSearch::new(&provider, DurabilityContext::new(true));
    let (wrapper, s1) = wrapper.start_search(params());
    assert_eq!(s1, Ok(1));
    assert_eq!(provider.start_calls.get(), 1);
    assert_eq!(wrapper.ctx.recorded_count(), 1);

    // replay consumes the marker and asks the provider for a fresh handle
    let ctx2 = wrapper.ctx.restarted();
    let wrapper2 = DurableWebSearch::new(&provider, ctx2);
    let (wrapper2, s2) = wrapper2.start_search(params());
    assert_eq!(s2, Ok(2));
    assert_eq!(provider.start_calls.get(), 2);
    assert_eq!(wrapper2.ctx.recorded_count(), 1);
    assert_eq!(wrapper2.ctx.cursor, 1);
}

#[test]
fn start_search_replay_rejects_a_corrupt_marker() {
    let mut ctx = DurabilityContext::new(true);
    ctx.store.push(Some(LogEntry {
        interface_name: "golem_web_search".to_string(),
        operation: "start_search".to_string(),
        function_type: DurableFunctionType::WriteRemote,
        params: params().to_structured_value(),
        result: Value::U64(7),
        next: 1,
    }));
    let provider = FakeProvider::new(false);
    let wrapper = DurableWebSearch::new(&provider, ctx);
    let (wrapper, r) = wrapper.start_search(params());
    assert_eq!(
        r,
        Err(SearchError::BackendError(
            "durability log does not match this call".to_string()
        ))
    );
    assert_eq!(provider.start_calls.get(), 0);
    assert_eq!(wrapper.ctx.cursor, 0);
}

#[test]
fn start_search_failure_records_nothing() {
    let provider = FakeProvider::new(true);
    let wrapper = DurableWebSearch::new(&provider, DurabilityContext::new(true));
    let (wrapper, s) = wrapper.start_search(params());
    assert_eq!(s, Err(SearchError::InvalidQuery));
    assert_eq!(wrapper.ctx.recorded_count(), 0);
}

#[test]
fn corrupt_search_record_is_a_backend_error() {
    let mut ctx = DurabilityContext::new(true);
    ctx.store.push(Some(LogEntry {
        interface_name: "golem_web_search".to_string(),
        operation: "search_once".to_string(),
        function_type: DurableFunctionType::WriteRemote,
        params: params().to_structured_value(),
        result: Value::Bool(true),
        next: 1,
    }));
    let provider = FakeProvider::new(false);
    let wrapper = DurableWebSearch::new(&provider, ctx);
    let (_, r) = wrapper.search_once(params());
    assert_eq!(
        r,
        Err(SearchError::BackendError(
            "durability log does not match this call".to_string()
        ))
    );
    assert_eq!(provider.once_calls.get(), 0);
}

#[test]
fn disabled_context_is_passthrough() {
    let provider = FakeProvider::new(false);
    let direct = (&provider).search_once(params());
    let wrapper = DurableWebSearch::new(&provider, DurabilityContext::new(false));
    let (wrapper, wrapped) = wrapper.search_once(params());
    assert_eq!(wrapped, direct);
    assert_eq!(wrapper.ctx.recorded_count(), 0);
    assert_eq!(wrapper.ctx.cursor, 0);
}
