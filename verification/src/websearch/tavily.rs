//! The Tavily search provider's wire model and the pure translations between
//! it and the capability types. Fractional quantities are carried scaled:
//! relevance scores in thousandths and the reported response time in whole
//! milliseconds.

use vstd::prelude::*;

use crate::value::Value;
use crate::websearch::types::{clone_opt_string, ImageResult, SearchError, SearchMetadata,
    SearchParams, SearchResult, TimeRange};

verus! {

/// The body of one Tavily search request.
#[derive(Debug, Clone, PartialEq, Eq)]
pub struct TavilySearchRequest {
    pub query: String,
    pub search_depth: Option<String>,
    pub topic: Option<String>,
    pub max_results: Option<u32>,
    pub include_answer: Option<bool>,
    pub include_raw_content: Option<bool>,
    pub include_images: Option<bool>,
    pub include_domains: Option<Vec<String>>,
    pub exclude_domains: Option<Vec<String>>,
    pub time_range: Option<String>,
    pub country: Option<String>,
    pub days: Option<u16>,
}

/// An image in a Tavily response: a bare URL, or one with a description.
#[derive(Debug, Clone, PartialEq, Eq)]
pub enum TavilyImage {
    Url(String),
    Object { url: String, description: Option<String> },
}

/// Tavily's name for a time window.
pub open spec fn spec_time_range_name(range: TimeRange) -> Seq<char> {
    match range {
        TimeRange::Day => "day"@,
        TimeRange::Week => "week"@,
        TimeRange::Month => "month"@,
        TimeRange::Year => "year"@,
    }
}

/// The day count of a time window.
pub open spec fn spec_time_range_days(range: TimeRange) -> u16 {
    match range {
        TimeRange::Day => 1u16,
        TimeRange::Week => 7u16,
        TimeRange::Month => 30u16,
        TimeRange::Year => 365u16,
    }
}

/// The result count sent to Tavily: the requested maximum, or ten, capped at
/// Tavily's limit of twenty.
pub open spec fn spec_tavily_max(params: SearchParams) -> u32 {
    let n = match params.max_results {
        Some(n) => n,
        None => 10u32,
    };
    if n > 20 {
        20u32
    } else {
        n
    }
}

/// A copy of an optional string vector, with the same strings in the same
/// order.
pub fn clone_opt_string_vec(o: &Option<Vec<String>>) -> (r: Option<Vec<String>>)
    ensures
        (*o matches Some(v) ==> r matches Some(rv) && rv@ == v@),
        (*o is None ==> r is None),
{
    match o {
        Some(v) => {
            let mut rv: Vec<String> = Vec::new();
            let mut i: usize = 0;
            while i < v.len()
                invariant
                    i <= v@.len(),
                    rv@.len() == i,
                    forall|j: int| 0 <= j < i ==> rv@[j] == v@[j],
                decreases v@.len() - i,
            {
                rv.push(v[i].clone());
                i += 1;
            }
            proof {
                assert(rv@ =~= v@);
            }
            Some(rv)
        },
        None => None,
    }
}

/// Translate caller-side search parameters into a Tavily request. The search
/// depth follows the advanced-answer flag, and the news topic is used for
/// fresh results.
pub fn convert_params_to_request(params: &SearchParams) -> (r: TavilySearchRequest)
    ensures
        r.query == params.query,
        r.search_depth matches Some(d) && d@ == (if params.advanced_answer == Some(true) {
            "advanced"@
        } else {
            "basic"@
        }),
        r.topic matches Some(t) && t@ == "news"@,
        r.max_results == Some(spec_tavily_max(*params)),
        r.include_answer == params.advanced_answer,
        r.include_raw_content == Some(false),
        r.include_images == Some(true),
        (params.include_domains matches Some(v) ==> r.include_domains matches Some(rv) && rv@
            == v@),
        (params.include_domains is None ==> r.include_domains is None),
        (params.exclude_domains matches Some(v) ==> r.exclude_domains matches Some(rv) && rv@
            == v@),
        (params.exclude_domains is None ==> r.exclude_domains is None),
        (params.time_range matches Some(t) ==> (r.time_range matches Some(s) && s@
            == spec_time_range_name(t)) && r.days == Some(spec_time_range_days(t))),
        (params.time_range is None ==> r.time_range is None && r.days is None),
        r.country == params.region,
{
    let n = match params.max_results {
        Some(n) => n,
        None => 10,
    };
    let max_results = if n > 20 {
        20
    } else {
        n
    };
    let advanced = params.advanced_answer == Some(true);
    let search_depth = if advanced {
        String::from_str("advanced")
    } else {
        String::from_str("basic")
    };
    let time_range = match &params.time_range {
        Some(TimeRange::Day) => Some(String::from_str("day")),
        Some(TimeRange::Week) => Some(String::from_str("week")),
        Some(TimeRange::Month) => Some(String::from_str("month")),
        Some(TimeRange::Year) => Some(String::from_str("year")),
        None => None,
    };
    let days: Option<u16> = match &params.time_range {
        Some(TimeRange::Day) => Some(1),
        Some(TimeRange::Week) => Some(7),
        Some(TimeRange::Month) => Some(30),
        Some(TimeRange::Year) => Some(365),
        None => None,
    };
    TavilySearchRequest {
        query: params.query.clone(),
        search_depth: Some(search_depth),
        topic: Some(String::from_str("news")),
        max_results: Some(max_results),
        include_answer: params.advanced_answer,
        include_raw_content: Some(false),
        include_images: Some(true),
        include_domains: clone_opt_string_vec(&params.include_domains),
        exclude_domains: clone_opt_string_vec(&params.exclude_domains),
        time_range,
        country: clone_opt_string(&params.region),
        days,
    }
}

/// The top of a Tavily search response.
#[derive(Debug, PartialEq, Eq)]
pub struct TavilySearchResponse {
    pub query: String,
    pub answer: Option<String>,
    pub results: Vec<TavilySearchResult>,
    pub images: Option<Vec<TavilyImage>>,
    pub response_time_ms: Option<u64>,
}

/// One Tavily hit. The relevance score, when present, is carried in
/// thousandths.
#[derive(Debug, Clone, PartialEq, Eq)]
pub struct TavilySearchResult {
    pub title: String,
    pub url: String,
    pub content: String,
    pub raw_content: Option<String>,
    pub published_date: Option<String>,
    pub score_thousandths: Option<u64>,
}

/// The error body Tavily returns on failure.
#[derive(Debug, PartialEq, Eq)]
pub struct TavilyErrorResponse {
    pub error_type: String,
    pub error: TavilyError,
    pub time: Option<i64>,
}

/// The error details inside a failure body. Provider-specific extras are
/// carried as a structured value tree.
#[derive(Debug, PartialEq, Eq)]
pub struct TavilyError {
    pub id: Option<String>,
    pub status: u16,
    pub code: String,
    pub detail: String,
    pub meta: Option<Value>,
}

/// How the image list attached to every hit reflects the response's images:
/// all of them, in order, bare URLs without a description.
pub open spec fn images_match(r: SearchResult, images: Option<Vec<TavilyImage>>) -> bool {
    match images {
        Some(imgs) => if imgs@.len() > 0 {
            r.images matches Some(v) && v@.len() == imgs@.len() && (forall|j: int|
                0 <= j < v@.len() ==> match imgs@[j] {
                    TavilyImage::Url(url) => (#[trigger] v@[j]).url == url && v@[j].description
                        is None,
                    TavilyImage::Object { url, description } => v@[j].url == url && v@[j]
                        .description == description,
                })
        } else {
            r.images is None
        },
        None => r.images is None,
    }
}

/// How one capability-level hit reflects one Tavily hit.
pub open spec fn result_matches_item(
    r: SearchResult,
    item: TavilySearchResult,
    images: Option<Vec<TavilyImage>>,
) -> bool {
    &&& r.title == item.title
    &&& r.url == item.url
    &&& r.snippet == item.content
    &&& r.display_url is None
    &&& r.source matches Some(s) && s@ == "Tavily"@
    &&& r.score == item.score_thousandths
    &&& r.html_snippet is None
    &&& r.date_published == item.published_date
    &&& images_match(r, images)
    &&& r.content_chunks is None
}

/// How the metadata reflects the response: Tavily echoes the query and
/// reports only a response time.
pub open spec fn metadata_matches(
    m: SearchMetadata,
    query: String,
    response_time_ms: Option<u64>,
    params: SearchParams,
) -> bool {
    &&& m.query == query
    &&& m.total_results is None
    &&& m.search_time_ms == response_time_ms
    &&& m.safe_search is None
    &&& m.language == params.language
    &&& m.region == params.region
    &&& m.next_page_token is None
    &&& m.rate_limits is None
}

/// The images each hit carries, converted once per hit.
fn hit_images(images: &Option<Vec<TavilyImage>>) -> (r: Option<Vec<ImageResult>>)
    ensures
        (match *images {
            Some(imgs) => if imgs@.len() > 0 {
                r matches Some(v) && v@.len() == imgs@.len() && (forall|j: int|
                    0 <= j < v@.len() ==> match imgs@[j] {
                        TavilyImage::Url(url) => (#[trigger] v@[j]).url == url && v@[j].description
                            is None,
                        TavilyImage::Object { url, description } => v@[j].url == url && v@[j]
                            .description == description,
                    })
            } else {
                r is None
            },
            None => r is None,
        }),
{
    match images {
        Some(imgs) => {
            if imgs.len() == 0 {
                return None;
            }
            let mut v: Vec<ImageResult> = Vec::new();
            let mut j: usize = 0;
            while j < imgs.len()
                invariant
                    j <= imgs@.len(),
                    v@.len() == j,
                    forall|i: int|
                        0 <= i < j ==> match imgs@[i] {
                            TavilyImage::Url(url) => (#[trigger] v@[i]).url == url && v@[i]
                                .description is None,
                            TavilyImage::Object { url, description } => v@[i].url == url && v@[i]
                                .description == description,
                        },
                decreases imgs@.len() - j,
            {
                match &imgs[j] {
                    TavilyImage::Url(url) => {
                        v.push(ImageResult { url: url.clone(), description: None });
                    },
                    TavilyImage::Object { url, description } => {
                        v.push(
                            ImageResult {
                                url: url.clone(),
                                description: clone_opt_string(description),
                            },
                        );
                    },
                }
                j += 1;
            }
            Some(v)
        },
        None => None,
    }
}

/// Fold a Tavily response into capability-level results and metadata.
pub fn convert_response_to_results(response: TavilySearchResponse, params: &SearchParams) -> (r: (
    Vec<SearchResult>,
    Option<SearchMetadata>,
))
    ensures
        r.0@.len() == response.results@.len(),
        forall|i: int|
            0 <= i < r.0@.len() ==> result_matches_item(
                #[trigger] r.0@[i],
                response.results@[i],
                response.images,
            ),
        r.1 matches Some(m) && metadata_matches(
            m,
            response.query,
            response.response_time_ms,
            *params,
        ),
{
    let TavilySearchResponse { query, answer: _, results, images, response_time_ms } = response;
    let mut search_results: Vec<SearchResult> = Vec::new();
    let ghost all = results@;
    let mut rest = results;
    let total = rest.len();
    let mut k: usize = 0;
    while rest.len() > 0
        invariant
            all.len() == total,
            k + rest@.len() == all.len(),
            rest@ =~= all.subrange(k as int, all.len() as int),
            search_results@.len() == k,
            forall|j: int|
                0 <= j < k ==> result_matches_item(#[trigger] search_results@[j], all[j], images),
        decreases rest@.len(),
    {
        let item = rest.remove(0);
        proof {
            assert(item == all[k as int]);
        }
        search_results.push(
            SearchResult {
                title: item.title,
                url: item.url,
                snippet: item.content,
                display_url: None,
                source: Some(String::from_str("Tavily")),
                score: item.score_thousandths,
                html_snippet: None,
                date_published: item.published_date,
                images: hit_images(&images),
                content_chunks: None,
            },
        );
        k += 1;
        proof {
            assert(rest@ =~= all.subrange(k as int, all.len() as int));
        }
    }
    let metadata = SearchMetadata {
        query,
        total_results: None,
        search_time_ms: response_time_ms,
        safe_search: None,
        language: clone_opt_string(&params.language),
        region: clone_opt_string(&params.region),
        next_page_token: None,
        rate_limits: None,
    };
    (search_results, Some(metadata))
}

/// The page size a session advances by: the requested maximum, or ten.
pub open spec fn spec_page_size(params: SearchParams) -> u32 {
    match params.max_results {
        Some(n) => n,
        None => 10,
    }
}

/// The cursor state of one Tavily search session. Tavily does not page the
/// way the other providers do: the session hands out one page and is then
/// exhausted. The HTTP call between the two steps happens outside the
/// library.
#[derive(Debug, Clone, PartialEq, Eq)]
pub struct TavilySearchSession {
    pub params: SearchParams,
    pub current_offset: u32,
    pub last_metadata: Option<SearchMetadata>,
    pub has_more_results: bool,
}

impl TavilySearchSession {
    /// Open a session: the cursor starts before the first page.
    pub fn new(params: SearchParams) -> (r: Self)
        ensures
            r.params == params,
            r.current_offset == 0,
            r.last_metadata is None,
            r.has_more_results,
    {
        TavilySearchSession {
            params,
            current_offset: 0,
            last_metadata: None,
            has_more_results: true,
        }
    }

    /// The metadata of the page last received, if any.
    pub fn get_metadata(&self) -> (r: Option<SearchMetadata>)
        ensures
            r == self.last_metadata,
    {
        match &self.last_metadata {
            Some(m) => Some(m.duplicate()),
            None => None,
        }
    }

    /// Advance the cursor one page and build the request for it. Fails
    /// without moving when the session is already exhausted.
    pub fn next_page_request(&mut self) -> (r: Result<TavilySearchRequest, SearchError>)
        requires
            old(self).current_offset + spec_page_size(old(self).params) <= u32::MAX,
        ensures
            final(self).params == old(self).params,
            final(self).last_metadata == old(self).last_metadata,
            final(self).has_more_results == old(self).has_more_results,
            !old(self).has_more_results ==> ((r matches Err(e) && (e
                matches SearchError::BackendError(m) && m@ == "No more results available"@))
                && final(self).current_offset == old(self).current_offset),
            old(self).has_more_results ==> (final(self).current_offset == old(self).current_offset
                + spec_page_size(old(self).params) && (r matches Ok(req) && req.query == old(
                self,
            ).params.query)),
    {
        if !self.has_more_results {
            return Err(SearchError::BackendError(String::from_str("No more results available")));
        }
        let page_size: u32 = match self.params.max_results {
            Some(n) => n,
            None => 10,
        };
        self.current_offset = self.current_offset + page_size;
        Ok(convert_params_to_request(&self.params))
    }

    /// Fold the provider's response into the session: remember the page
    /// metadata, hand out the first hit, and exhaust the session — the
    /// provider serves no further pages. An empty page fails.
    pub fn accept_response(&mut self, response: TavilySearchResponse) -> (r: Result<
        SearchResult,
        SearchError,
    >)
        ensures
            final(self).params == old(self).params,
            final(self).current_offset == old(self).current_offset,
            !final(self).has_more_results,
            final(self).last_metadata matches Some(m) && metadata_matches(
                m,
                response.query,
                response.response_time_ms,
                old(self).params,
            ),
            response.results@.len() == 0 ==> (r matches Err(e) && (e
                matches SearchError::BackendError(msg) && msg@ == "No more results"@)),
            response.results@.len() > 0 ==> (r matches Ok(first) && result_matches_item(
                first,
                response.results@[0],
                response.images,
            )),
    {
        let (mut results, metadata) = convert_response_to_results(response, &self.params);
        self.last_metadata = metadata;
        if results.len() == 0 {
            self.has_more_results = false;
            return Err(SearchError::BackendError(String::from_str("No more results")));
        }
        self.has_more_results = false;
        let first = results.remove(0);
        Ok(first)
    }
}

} // verus!
