//! The Google Custom Search provider's wire model and the pure translations
//! between it and the capability types, with the paginated session's cursor
//! logic. The HTTP transport around these lives outside the library.

use vstd::prelude::*;

use crate::text::{join_prefixed, parse_u64, spec_decimal, spec_join_prefixed, spec_parse_u64,
    string_views, u64_to_string};
use crate::value::Value;
use crate::websearch::types::{clone_opt_string, SafeSearchLevel, SearchError, SearchMetadata,
    SearchParams, SearchResult, TimeRange};

verus! {

/// The query-string form of one Google Custom Search request. The engine
/// identifier and API key are filled in at the transport edge.
#[derive(Debug, Clone, PartialEq, Eq)]
pub struct GoogleSearchRequest {
    pub q: String,
    pub cx: String,
    pub key: String,
    pub num: Option<u32>,
    pub start: Option<u32>,
    pub safe: Option<String>,
    pub lr: Option<String>,
    pub gl: Option<String>,
    pub date_restrict: Option<String>,
    pub site_search: Option<String>,
    pub site_search_filter: Option<String>,
}

/// The top of a Google search response.
#[derive(Debug, PartialEq, Eq)]
pub struct GoogleSearchResponse {
    pub items: Option<Vec<GoogleSearchItem>>,
    pub search_information: Option<GoogleSearchInformation>,
    pub queries: Option<GoogleQueries>,
    pub error: Option<GoogleError>,
}

/// One hit as Google reports it. The page map, when present, is carried as a
/// structured value tree.
#[derive(Debug, PartialEq, Eq)]
pub struct GoogleSearchItem {
    pub title: String,
    pub link: String,
    pub snippet: String,
    pub display_link: Option<String>,
    pub html_snippet: Option<String>,
    pub pagemap: Option<Value>,
}

/// Totals Google reports about a search. The search time, when present, is
/// carried in milliseconds.
#[derive(Debug, Clone, PartialEq, Eq)]
pub struct GoogleSearchInformation {
    pub total_results: Option<String>,
    pub search_time_ms: Option<u64>,
}

/// The request/next-page query descriptions of a response.
#[derive(Debug, Clone, PartialEq, Eq)]
pub struct GoogleQueries {
    pub request: Option<Vec<GoogleQueryInfo>>,
    pub next_page: Option<Vec<GoogleQueryInfo>>,
}

/// One query description.
#[derive(Debug, Clone, PartialEq, Eq)]
pub struct GoogleQueryInfo {
    pub title: String,
    pub total_results: Option<String>,
    pub search_terms: String,
    pub count: Option<u32>,
    pub start_index: Option<u32>,
}

/// An error object in a Google response.
#[derive(Debug, Clone, PartialEq, Eq)]
pub struct GoogleError {
    pub code: u32,
    pub message: String,
    pub status: String,
}

/// Google's name for a safe-search level.
pub open spec fn spec_safe_name(level: SafeSearchLevel) -> Seq<char> {
    match level {
        SafeSearchLevel::Off => "off"@,
        SafeSearchLevel::Medium => "medium"@,
        SafeSearchLevel::High => "high"@,
    }
}

/// Google's name for a date restriction window.
pub open spec fn spec_date_restrict_name(range: TimeRange) -> Seq<char> {
    match range {
        TimeRange::Day => "d1"@,
        TimeRange::Week => "w1"@,
        TimeRange::Month => "m1"@,
        TimeRange::Year => "y1"@,
    }
}

/// The site-restriction expression and its filter mode, when domain
/// restrictions are given: inclusions win over exclusions, and both use the
/// same site-joined expression with modes `i` and `e`.
pub open spec fn spec_site_search(params: SearchParams) -> Option<(Seq<char>, Seq<char>)> {
    match params.include_domains {
        Some(ds) => if ds@.len() > 0 {
            Some((spec_join_prefixed(string_views(ds@), "site:"@, " OR "@), "i"@))
        } else {
            None
        },
        None => match params.exclude_domains {
            Some(ds) => if ds@.len() > 0 {
                Some((spec_join_prefixed(string_views(ds@), "site:"@, " OR "@), "e"@))
            } else {
                None
            },
            None => None,
        },
    }
}

/// Translate caller-side search parameters into a Google request starting at
/// the given index.
pub fn convert_params_to_request(params: &SearchParams, start_index: Option<u32>) -> (r:
    GoogleSearchRequest)
    ensures
        r.q == params.query,
        r.cx@.len() == 0,
        r.key@.len() == 0,
        r.num == params.max_results,
        r.start == start_index,
        (params.safe_search matches Some(l) ==> r.safe matches Some(s) && s@ == spec_safe_name(l)),
        (params.safe_search is None ==> r.safe is None),
        (params.language matches Some(lang) ==> r.lr matches Some(s) && s@ == "lang_"@ + lang@),
        (params.language is None ==> r.lr is None),
        r.gl == params.region,
        (params.time_range matches Some(t) ==> r.date_restrict matches Some(s) && s@
            == spec_date_restrict_name(t)),
        (params.time_range is None ==> r.date_restrict is None),
        (spec_site_search(*params) matches Some(site) ==> (r.site_search matches Some(s) && s@
            == site.0) && (r.site_search_filter matches Some(f) && f@ == site.1)),
        (spec_site_search(*params) is None ==> r.site_search is None && r.site_search_filter
            is None),
{
    let safe = match &params.safe_search {
        Some(SafeSearchLevel::Off) => Some(String::from_str("off")),
        Some(SafeSearchLevel::Medium) => Some(String::from_str("medium")),
        Some(SafeSearchLevel::High) => Some(String::from_str("high")),
        None => None,
    };
    let lr = match &params.language {
        Some(lang) => {
            let mut s = String::from_str("lang_");
            s.append(lang.as_str());
            Some(s)
        },
        None => None,
    };
    let date_restrict = match &params.time_range {
        Some(TimeRange::Day) => Some(String::from_str("d1")),
        Some(TimeRange::Week) => Some(String::from_str("w1")),
        Some(TimeRange::Month) => Some(String::from_str("m1")),
        Some(TimeRange::Year) => Some(String::from_str("y1")),
        None => None,
    };
    let mut site_search: Option<String> = None;
    let mut site_search_filter: Option<String> = None;
    match &params.include_domains {
        Some(include_domains) => {
            if include_domains.len() > 0 {
                site_search = Some(join_prefixed(include_domains, "site:", " OR "));
                site_search_filter = Some(String::from_str("i"));
            }
        },
        None => {
            if let Some(exclude_domains) = &params.exclude_domains {
                if exclude_domains.len() > 0 {
                    site_search = Some(join_prefixed(exclude_domains, "site:", " OR "));
                    site_search_filter = Some(String::from_str("e"));
                }
            }
        },
    }
    GoogleSearchRequest {
        q: params.query.clone(),
        cx: String::new(),
        key: String::new(),
        num: params.max_results,
        start: start_index,
        safe,
        lr,
        gl: clone_opt_string(&params.region),
        date_restrict,
        site_search,
        site_search_filter,
    }
}

/// How one capability-level hit reflects one Google hit.
pub open spec fn result_matches_item(r: SearchResult, item: GoogleSearchItem, html: bool) -> bool {
    &&& r.title == item.title
    &&& r.url == item.link
    &&& r.snippet == item.snippet
    &&& r.display_url == item.display_link
    &&& r.source matches Some(s) && s@ == "Google"@
    &&& r.score is None
    &&& (if html {
        r.html_snippet == item.html_snippet
    } else {
        r.html_snippet is None
    })
    &&& r.date_published is None
    &&& r.images is None
    &&& r.content_chunks is None
}

/// The items of a response, if any.
pub open spec fn spec_items(response: GoogleSearchResponse) -> Seq<GoogleSearchItem> {
    match response.items {
        Some(items) => items@,
        None => Seq::empty(),
    }
}

/// How the metadata reflects the response: the reported total is parsed from
/// its decimal spelling, the search time passes through, and the next page
/// token is the start index of the first next-page query description.
pub open spec fn metadata_matches(
    m: SearchMetadata,
    response: GoogleSearchResponse,
    params: SearchParams,
) -> bool {
    &&& m.query == params.query
    &&& (match response.search_information {
        Some(info) => match info.total_results {
            Some(s) => m.total_results == spec_parse_u64(s@),
            None => m.total_results is None,
        },
        None => m.total_results is None,
    })
    &&& (match response.search_information {
        Some(info) => m.search_time_ms == info.search_time_ms,
        None => m.search_time_ms is None,
    })
    &&& m.safe_search == params.safe_search
    &&& m.language == params.language
    &&& m.region == params.region
    &&& (match response.queries {
        Some(q) => match q.next_page {
            Some(np) => if np@.len() > 0 {
                match np@[0].start_index {
                    Some(idx) => m.next_page_token matches Some(t) && t@ == spec_decimal(
                        idx as nat,
                    ),
                    None => m.next_page_token is None,
                }
            } else {
                m.next_page_token is None
            },
            None => m.next_page_token is None,
        },
        None => m.next_page_token is None,
    })
    &&& m.rate_limits is None
}

/// Fold a Google response into capability-level results and metadata.
pub fn convert_response_to_results(response: GoogleSearchResponse, params: &SearchParams) -> (r: (
    Vec<SearchResult>,
    Option<SearchMetadata>,
))
    ensures
        r.0@.len() == spec_items(response).len(),
        forall|i: int|
            0 <= i < r.0@.len() ==> result_matches_item(
                #[trigger] r.0@[i],
                spec_items(response)[i],
                params.include_html == Some(true),
            ),
        r.1 matches Some(m) && metadata_matches(m, response, *params),
{
    let include_html = match &params.include_html {
        Some(b) => *b,
        None => false,
    };
    let mut results: Vec<SearchResult> = Vec::new();
    let GoogleSearchResponse { items, search_information, queries, error } = response;
    let ghost items0 = spec_items(
        GoogleSearchResponse {
            items,
            search_information: search_information,
            queries: queries,
            error: error,
        },
    );
    match items {
        Some(mut items) => {
            proof {
                assert(items0 =~= items@);
            }
            let ghost all = items@;
            let total = items.len();
            proof {
                assert(all.len() == total);
            }
            let mut k: usize = 0;
            while items.len() > 0
                invariant
                    all.len() <= usize::MAX,
                    k + items@.len() == all.len(),
                    items@ =~= all.subrange(k as int, all.len() as int),
                    results@.len() == k,
                    forall|j: int|
                        0 <= j < k ==> result_matches_item(
                            #[trigger] results@[j],
                            all[j],
                            include_html,
                        ),
                decreases items@.len(),
            {
                let item = items.remove(0);
                proof {
                    assert(item == all[k as int]);
                }
                let html_snippet = if include_html {
                    clone_opt_string(&item.html_snippet)
                } else {
                    None
                };
                results.push(
                    SearchResult {
                        title: item.title,
                        url: item.link,
                        snippet: item.snippet,
                        display_url: item.display_link,
                        source: Some(String::from_str("Google")),
                        score: None,
                        html_snippet,
                        date_published: None,
                        images: None,
                        content_chunks: None,
                    },
                );
                k += 1;
                proof {
                    assert(items@ =~= all.subrange(k as int, all.len() as int));
                }
            }
        },
        None => {},
    }
    let total_results: Option<u64> = match &search_information {
        Some(info) => match &info.total_results {
            Some(s) => parse_u64(s.as_str()),
            None => None,
        },
        None => None,
    };
    let search_time_ms: Option<u64> = match &search_information {
        Some(info) => info.search_time_ms,
        None => None,
    };
    let next_page_token: Option<String> = match &queries {
        Some(q) => match &q.next_page {
            Some(np) => {
                if np.len() > 0 {
                    match np[0].start_index {
                        Some(idx) => Some(u64_to_string(idx as u64)),
                        None => None,
                    }
                } else {
                    None
                }
            },
            None => None,
        },
        None => None,
    };
    let metadata = SearchMetadata {
        query: params.query.clone(),
        total_results,
        search_time_ms,
        safe_search: params.safe_search,
        language: clone_opt_string(&params.language),
        region: clone_opt_string(&params.region),
        next_page_token,
        rate_limits: None,
    };
    (results, Some(metadata))
}

/// The cursor state of one paginated Google search: the page index advances
/// one position per request. The HTTP calls between the two steps happen
/// outside the library.
#[derive(Debug, Clone, PartialEq, Eq)]
pub struct GoogleSearchSession {
    pub params: SearchParams,
    pub current_start_index: u32,
    pub last_metadata: Option<SearchMetadata>,
    pub has_more_results: bool,
}

impl GoogleSearchSession {
    /// Open a session: the cursor starts before the first page.
    pub fn new(params: SearchParams) -> (r: Self)
        ensures
            r.params == params,
            r.current_start_index == 0,
            r.last_metadata is None,
            r.has_more_results,
    {
        GoogleSearchSession {
            params,
            current_start_index: 0,
            last_metadata: None,
            has_more_results: true,
        }
    }

    /// The metadata of the page last received, if any.
    pub fn get_metadata(&self) -> (r: Option<SearchMetadata>)
        ensures
            r == self.last_metadata,
    {
        match &self.last_metadata {
            Some(m) => Some(m.duplicate()),
            None => None,
        }
    }

    /// Advance the cursor one index and build the request for it. Fails
    /// without moving when the previous page reported no further results.
    pub fn next_page_request(&mut self) -> (r: Result<GoogleSearchRequest, SearchError>)
        requires
            old(self).current_start_index < u32::MAX,
        ensures
            final(self).params == old(self).params,
            final(self).last_metadata == old(self).last_metadata,
            final(self).has_more_results == old(self).has_more_results,
            !old(self).has_more_results ==> ((r matches Err(e) && (e
                matches SearchError::BackendError(m) && m@ == "No more results available"@))
                && final(self).current_start_index == old(self).current_start_index),
            old(self).has_more_results ==> (final(self).current_start_index == old(
                self,
            ).current_start_index + 1 && (r matches Ok(req) && req.start == Some(
                final(self).current_start_index,
            ) && req.q == old(self).params.query)),
    {
        if !self.has_more_results {
            return Err(SearchError::BackendError(String::from_str("No more results available")));
        }
        self.current_start_index = self.current_start_index + 1;
        Ok(convert_params_to_request(&self.params, Some(self.current_start_index)))
    }

    /// Fold the provider's response to the last-built request into the
    /// session: remember the page metadata, decide whether more pages are
    /// expected, and hand out the first hit. An empty page exhausts the
    /// session and fails.
    pub fn accept_response(&mut self, response: GoogleSearchResponse) -> (r: Result<
        SearchResult,
        SearchError,
    >)
        ensures
            final(self).params == old(self).params,
            final(self).current_start_index == old(self).current_start_index,
            final(self).last_metadata matches Some(m) && metadata_matches(
                m,
                response,
                old(self).params,
            ),
            spec_items(response).len() == 0 ==> (!final(self).has_more_results && (r
                matches Err(e) && (e matches SearchError::BackendError(msg) && msg@
                == "No more results"@))),
            spec_items(response).len() > 0 ==> {
                &&& final(self).has_more_results == (((final(self).last_metadata)->0).next_page_token
                    is Some)
                &&& r matches Ok(first) && result_matches_item(
                    first,
                    spec_items(response)[0],
                    old(self).params.include_html == Some(true),
                )
            },
    {
        let (mut results, metadata) = convert_response_to_results(response, &self.params);
        self.last_metadata = metadata;
        if results.len() == 0 {
            self.has_more_results = false;
            return Err(SearchError::BackendError(String::from_str("No more results")));
        }
        let has_more = match &self.last_metadata {
            Some(m) => m.next_page_token.is_some(),
            None => false,
        };
        self.has_more_results = has_more;
        let first = results.remove(0);
        Ok(first)
    }
}

} // verus!
