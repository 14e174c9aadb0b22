//! The Brave search provider's wire model and the pure translations between
//! it and the capability types: building a request from search parameters,
//! folding a response into results and metadata, and the paginated session's
//! cursor logic. The HTTP transport around these lives outside the library.

use vstd::prelude::*;

use crate::text::{join_prefixed, spec_decimal, spec_join_prefixed, string_views, u64_to_string};
use crate::websearch::types::{clone_opt_string, ImageResult, SafeSearchLevel, SearchError,
    SearchMetadata, SearchParams, SearchResult, TimeRange};

verus! {

/// The query-string form of one Brave search request.
#[derive(Debug, Clone, PartialEq, Eq)]
pub struct BraveSearchRequest {
    pub q: String,
    pub country: Option<String>,
    pub search_lang: Option<String>,
    pub ui_lang: Option<String>,
    pub count: Option<u32>,
    pub offset: Option<u32>,
    pub safesearch: Option<String>,
    pub freshness: Option<String>,
    pub text_decorations: Option<bool>,
    pub spellcheck: Option<bool>,
    pub result_filter: Option<String>,
    pub goggles_id: Option<String>,
    pub units: Option<String>,
}

/// The top of a Brave search response.
#[derive(Debug, Clone, PartialEq, Eq)]
pub struct BraveSearchResponse {
    pub query: Option<BraveQuery>,
    pub web: Option<BraveWebResults>,
    pub discussions: Option<BraveDiscussions>,
    pub infobox: Option<BraveInfobox>,
    pub videos: Option<BraveVideos>,
    pub mixed: Option<BraveMixed>,
    pub response_type: Option<String>,
}

/// What Brave reports about the query itself.
#[derive(Debug, Clone, PartialEq, Eq)]
pub struct BraveQuery {
    pub original: String,
    pub show_strict_warning: Option<bool>,
    pub is_navigational: Option<bool>,
    pub is_news_breaking: Option<bool>,
    pub spellcheck_off: Option<bool>,
    pub country: Option<String>,
    pub bad_results: Option<bool>,
    pub should_fallback: Option<bool>,
    pub postal_code: Option<String>,
    pub city: Option<String>,
    pub header_country: Option<String>,
    pub more_results_available: Option<bool>,
    pub state: Option<String>,
}

/// The web-results section of a response.
#[derive(Debug, Clone, PartialEq, Eq)]
pub struct BraveWebResults {
    pub result_type: Option<String>,
    pub results: Option<Vec<BraveWebResult>>,
    pub family_friendly: Option<bool>,
}

/// One web hit as Brave reports it.
#[derive(Debug, Clone, PartialEq, Eq)]
pub struct BraveWebResult {
    pub title: String,
    pub url: String,
    pub is_source_local: Option<bool>,
    pub is_source_both: Option<bool>,
    pub description: String,
    pub page_age: Option<String>,
    pub profile: Option<BraveProfile>,
    pub language: Option<String>,
    pub family_friendly: Option<bool>,
    pub result_type: Option<String>,
    pub subtype: Option<String>,
    pub meta_url: Option<BraveMetaUrl>,
    pub thumbnail: Option<BraveThumbnail>,
    pub age: Option<String>,
    pub extra_snippets: Option<Vec<String>>,
}

/// The site profile attached to a hit.
#[derive(Debug, Clone, PartialEq, Eq)]
pub struct BraveProfile {
    pub name: String,
    pub url: String,
    pub long_name: Option<String>,
    pub img: Option<String>,
}

/// The split-out pieces of a hit's URL.
#[derive(Debug, Clone, PartialEq, Eq)]
pub struct BraveMetaUrl {
    pub scheme: Option<String>,
    pub netloc: Option<String>,
    pub hostname: Option<String>,
    pub favicon: Option<String>,
    pub path: Option<String>,
}

/// A thumbnail attached to a hit.
#[derive(Debug, Clone, PartialEq, Eq)]
pub struct BraveThumbnail {
    pub src: String,
    pub original: Option<String>,
    pub logo: Option<bool>,
}

/// The discussions section of a response.
#[derive(Debug, Clone, PartialEq, Eq)]
pub struct BraveDiscussions {
    pub result_type: Option<String>,
    pub results: Option<Vec<BraveDiscussionResult>>,
    pub mutated_by_goggles: Option<bool>,
}

/// One discussion hit.
#[derive(Debug, Clone, PartialEq, Eq)]
pub struct BraveDiscussionResult {
    pub title: String,
    pub url: String,
    pub is_source_local: Option<bool>,
    pub is_source_both: Option<bool>,
    pub description: String,
    pub language: Option<String>,
    pub family_friendly: Option<bool>,
    pub result_type: Option<String>,
    pub subtype: Option<String>,
    pub meta_url: Option<BraveMetaUrl>,
    pub age: Option<String>,
    pub data: Option<BraveDiscussionData>,
}

/// Forum details of a discussion hit.
#[derive(Debug, Clone, PartialEq, Eq)]
pub struct BraveDiscussionData {
    pub forum_name: Option<String>,
    pub num_answers: Option<u32>,
    pub score: Option<String>,
    pub title: Option<String>,
    pub question: Option<String>,
    pub top_comment: Option<String>,
}

/// The infobox section of a response.
#[derive(Debug, Clone, PartialEq, Eq)]
pub struct BraveInfobox {
    pub result_type: Option<String>,
    pub results: Option<Vec<BraveInfoboxResult>>,
}

/// One infobox entry.
#[derive(Debug, Clone, PartialEq, Eq)]
pub struct BraveInfoboxResult {
    pub title: String,
    pub url: String,
    pub description: String,
    pub long_desc: Option<String>,
    pub category: Option<String>,
    pub position: Option<u32>,
    pub label: Option<String>,
    pub website_url: Option<String>,
    pub attributes: Option<Vec<Vec<String>>>,
    pub profiles: Option<Vec<BraveProfile>>,
    pub images: Option<Vec<BraveImage>>,
    pub providers: Option<Vec<BraveProvider>>,
}

/// An image in an infobox.
#[derive(Debug, Clone, PartialEq, Eq)]
pub struct BraveImage {
    pub src: String,
    pub alt: Option<String>,
    pub original: Option<String>,
    pub logo: Option<bool>,
}

/// A provider credited in an infobox.
#[derive(Debug, Clone, PartialEq, Eq)]
pub struct BraveProvider {
    pub provider_type: Option<String>,
    pub name: String,
    pub url: String,
    pub img: Option<String>,
}

/// The videos section of a response.
#[derive(Debug, Clone, PartialEq, Eq)]
pub struct BraveVideos {
    pub result_type: Option<String>,
    pub results: Option<Vec<BraveVideoResult>>,
    pub mutated_by_goggles: Option<bool>,
}

/// One video hit.
#[derive(Debug, Clone, PartialEq, Eq)]
pub struct BraveVideoResult {
    pub result_type: Option<String>,
    pub url: String,
    pub title: String,
    pub description: String,
    pub age: Option<String>,
    pub page_age: Option<String>,
    pub video: Option<BraveVideoInfo>,
    pub meta_url: Option<BraveMetaUrl>,
    pub thumbnail: Option<BraveThumbnail>,
}

/// Details of a video hit.
#[derive(Debug, Clone, PartialEq, Eq)]
pub struct BraveVideoInfo {
    pub duration: Option<String>,
    pub views: Option<u64>,
    pub creator: Option<String>,
    pub publisher: Option<String>,
}

/// The mixed-ranking section of a response.
#[derive(Debug, Clone, PartialEq, Eq)]
pub struct BraveMixed {
    pub result_type: Option<String>,
    pub main: Option<Vec<BraveMixedItem>>,
    pub top: Option<Vec<BraveMixedItem>>,
    pub side: Option<Vec<BraveMixedItem>>,
}

/// One mixed-ranking slot.
#[derive(Debug, Clone, PartialEq, Eq)]
pub struct BraveMixedItem {
    pub item_type: String,
    pub index: Option<u32>,
    pub all: Option<bool>,
}

/// Brave's name for a safe-search level.
pub open spec fn spec_safesearch_name(level: SafeSearchLevel) -> Seq<char> {
    match level {
        SafeSearchLevel::Off => "off"@,
        SafeSearchLevel::Medium => "moderate"@,
        SafeSearchLevel::High => "strict"@,
    }
}

/// Brave's name for a freshness window.
pub open spec fn spec_freshness_name(range: TimeRange) -> Seq<char> {
    match range {
        TimeRange::Day => "pd"@,
        TimeRange::Week => "pw"@,
        TimeRange::Month => "pm"@,
        TimeRange::Year => "py"@,
    }
}

/// The query string sent to Brave: the caller's query, extended with a
/// site-inclusion group or site-exclusion terms when domain restrictions are
/// given.
pub open spec fn spec_brave_query(params: SearchParams) -> Seq<char> {
    match params.include_domains {
        Some(ds) => if ds@.len() > 0 {
            params.query@ + " ("@ + spec_join_prefixed(string_views(ds@), "site:"@, " OR "@)
                + ")"@
        } else {
            params.query@
        },
        None => match params.exclude_domains {
            Some(ds) => if ds@.len() > 0 {
                params.query@ + " "@ + spec_join_prefixed(string_views(ds@), "-site:"@, " "@)
            } else {
                params.query@
            },
            None => params.query@,
        },
    }
}

/// Translate caller-side search parameters into a Brave request at the given
/// result offset.
pub fn convert_params_to_request(params: &SearchParams, offset: Option<u32>) -> (r:
    BraveSearchRequest)
    ensures
        r.q@ == spec_brave_query(*params),
        r.country == params.region,
        r.search_lang == params.language,
        r.ui_lang == params.language,
        r.count == params.max_results,
        r.offset == offset,
        (params.safe_search matches Some(l) ==> r.safesearch matches Some(s) && s@
            == spec_safesearch_name(l)),
        (params.safe_search is None ==> r.safesearch is None),
        (params.time_range matches Some(t) ==> r.freshness matches Some(s) && s@
            == spec_freshness_name(t)),
        (params.time_range is None ==> r.freshness is None),
        r.text_decorations == Some(false),
        r.spellcheck == Some(true),
        r.result_filter is None,
        r.goggles_id is None,
        r.units matches Some(u) && u@ == "metric"@,
{
    let mut q = params.query.clone();
    let mut domain_handled = false;
    if let Some(include_domains) = &params.include_domains {
        if include_domains.len() > 0 {
            q.append(" (");
            let joined = join_prefixed(include_domains, "site:", " OR ");
            q.append(joined.as_str());
            q.append(")");
            domain_handled = true;
        }
    }
    if !domain_handled {
        if params.include_domains.is_none() {
            if let Some(exclude_domains) = &params.exclude_domains {
                if exclude_domains.len() > 0 {
                    q.append(" ");
                    let joined = join_prefixed(exclude_domains, "-site:", " ");
                    q.append(joined.as_str());
                }
            }
        }
    }
    let safesearch = match &params.safe_search {
        Some(SafeSearchLevel::Off) => Some(String::from_str("off")),
        Some(SafeSearchLevel::Medium) => Some(String::from_str("moderate")),
        Some(SafeSearchLevel::High) => Some(String::from_str("strict")),
        None => None,
    };
    let freshness = match &params.time_range {
        Some(TimeRange::Day) => Some(String::from_str("pd")),
        Some(TimeRange::Week) => Some(String::from_str("pw")),
        Some(TimeRange::Month) => Some(String::from_str("pm")),
        Some(TimeRange::Year) => Some(String::from_str("py")),
        None => None,
    };
    BraveSearchRequest {
        q,
        country: clone_opt_string(&params.region),
        search_lang: clone_opt_string(&params.language),
        ui_lang: clone_opt_string(&params.language),
        count: params.max_results,
        offset,
        safesearch,
        freshness,
        text_decorations: Some(false),
        spellcheck: Some(true),
        result_filter: None,
        goggles_id: None,
        units: Some(String::from_str("metric")),
    }
}

/// How one capability-level hit reflects one Brave web hit: every field is
/// pinned to the hit's data, with the host name falling back to the profile's
/// long or short name and then to the hit's URL.
pub open spec fn result_matches_item(r: SearchResult, item: BraveWebResult, html: bool) -> bool {
    &&& r.title == item.title
    &&& r.url == item.url
    &&& r.snippet == item.description
    &&& (match item.meta_url {
        Some(meta) => match meta.hostname {
            Some(h) => r.display_url == Some(h),
            None => match item.profile {
                Some(p) => match p.long_name {
                    Some(ln) => r.display_url == Some(ln),
                    None => r.display_url == Some(p.name),
                },
                None => r.display_url == Some(item.url),
            },
        },
        None => r.display_url is None,
    })
    &&& r.source matches Some(s) && s@ == "Brave"@
    &&& r.score is None
    &&& (if html {
        r.html_snippet == Some(item.description)
    } else {
        r.html_snippet is None
    })
    &&& (match item.age {
        Some(a) => r.date_published == Some(a),
        None => r.date_published == item.page_age,
    })
    &&& (match item.thumbnail {
        Some(t) => r.images matches Some(imgs) && imgs@.len() == 1 && imgs@[0].url == t.src
            && imgs@[0].description == t.original,
        None => r.images is None,
    })
    &&& (match item.extra_snippets {
        Some(cs) => r.content_chunks matches Some(c) && c@ == cs@,
        None => r.content_chunks is None,
    })
}

/// The items of a response's web section, if any.
pub open spec fn spec_web_items(response: BraveSearchResponse) -> Seq<BraveWebResult> {
    match response.web {
        Some(w) => match w.results {
            Some(items) => items@,
            None => Seq::empty(),
        },
        None => Seq::empty(),
    }
}

/// How the metadata reflects the response: Brave reports no exact total, so
/// more-results-available stands for one thousand, and the next page token is
/// the offset one page past the current one.
pub open spec fn metadata_matches(
    m: SearchMetadata,
    response: BraveSearchResponse,
    params: SearchParams,
    n_results: int,
) -> bool {
    &&& m.query == params.query
    &&& (match response.query {
        Some(q) => match q.more_results_available {
            Some(more) => m.total_results == Some(
                if more {
                    1000u64
                } else {
                    n_results as u64
                },
            ),
            None => m.total_results is None,
        },
        None => m.total_results is None,
    })
    &&& m.search_time_ms is None
    &&& m.safe_search == params.safe_search
    &&& m.language == params.language
    &&& m.region == params.region
    &&& (if (response.query matches Some(q) && q.more_results_available == Some(true)) {
        m.next_page_token matches Some(t) && t@ == spec_decimal(
            2 * (spec_page_size(params) as nat),
        )
    } else {
        m.next_page_token is None
    })
    &&& m.rate_limits is None
}

/// The page size a session advances by: the requested maximum, or ten.
pub open spec fn spec_page_size(params: SearchParams) -> u32 {
    match params.max_results {
        Some(n) => n,
        None => 10,
    }
}

/// Fold a Brave response into capability-level results and metadata.
pub fn convert_response_to_results(response: BraveSearchResponse, params: &SearchParams) -> (r: (
    Vec<SearchResult>,
    Option<SearchMetadata>,
))
    requires
        spec_web_items(response).len() <= usize::MAX,
    ensures
        r.0@.len() == spec_web_items(response).len(),
        forall|i: int|
            0 <= i < r.0@.len() ==> result_matches_item(
                #[trigger] r.0@[i],
                spec_web_items(response)[i],
                params.include_html == Some(true),
            ),
        r.1 matches Some(m) && metadata_matches(m, response, *params, r.0@.len() as int),
{
    let include_html = match &params.include_html {
        Some(b) => *b,
        None => false,
    };
    let mut results: Vec<SearchResult> = Vec::new();
    if let Some(web) = &response.web {
        if let Some(web_results) = &web.results {
            let mut i: usize = 0;
            while i < web_results.len()
                invariant
                    i <= web_results@.len(),
                    results@.len() == i,
                    forall|j: int|
                        0 <= j < i ==> result_matches_item(
                            #[trigger] results@[j],
                            web_results@[j],
                            include_html,
                        ),
                decreases web_results@.len() - i,
            {
                let item = &web_results[i];
                let display_url = match &item.meta_url {
                    Some(meta) => match &meta.hostname {
                        Some(h) => Some(h.clone()),
                        None => match &item.profile {
                            Some(p) => match &p.long_name {
                                Some(ln) => Some(ln.clone()),
                                None => Some(p.name.clone()),
                            },
                            None => Some(item.url.clone()),
                        },
                    },
                    None => None,
                };
                let date_published = match &item.age {
                    Some(a) => Some(a.clone()),
                    None => clone_opt_string(&item.page_age),
                };
                let images = match &item.thumbnail {
                    Some(t) => {
                        let mut imgs: Vec<ImageResult> = Vec::new();
                        imgs.push(
                            ImageResult {
                                url: t.src.clone(),
                                description: clone_opt_string(&t.original),
                            },
                        );
                        Some(imgs)
                    },
                    None => None,
                };
                let content_chunks = match &item.extra_snippets {
                    Some(cs) => Some(cs.clone()),
                    None => None,
                };
                results.push(
                    SearchResult {
                        title: item.title.clone(),
                        url: item.url.clone(),
                        snippet: item.description.clone(),
                        display_url,
                        source: Some(String::from_str("Brave")),
                        score: None,
                        html_snippet: if include_html {
                            Some(item.description.clone())
                        } else {
                            None
                        },
                        date_published,
                        images,
                        content_chunks,
                    },
                );
                i += 1;
            }
        }
    }
    let total_results: Option<u64> = match &response.query {
        Some(q) => match q.more_results_available {
            Some(more) => Some(
                if more {
                    1000u64
                } else {
                    results.len() as u64
                },
            ),
            None => None,
        },
        None => None,
    };
    let more_available = match &response.query {
        Some(q) => q.more_results_available == Some(true),
        None => false,
    };
    let next_page_token: Option<String> = if more_available {
        let page: u32 = match params.max_results {
            Some(n) => n,
            None => 10,
        };
        Some(u64_to_string(page as u64 + page as u64))
    } else {
        None
    };
    let metadata = SearchMetadata {
        query: params.query.clone(),
        total_results,
        search_time_ms: None,
        safe_search: params.safe_search,
        language: clone_opt_string(&params.language),
        region: clone_opt_string(&params.region),
        next_page_token,
        rate_limits: None,
    };
    (results, Some(metadata))
}

/// The cursor state of one paginated Brave search: the parameters it was
/// opened with, the offset of the page last asked for, the metadata of the
/// page last received, and whether more pages are expected. The HTTP calls
/// between the two steps happen outside the library.
#[derive(Debug, Clone, PartialEq, Eq)]
pub struct BraveSearchSession {
    pub params: SearchParams,
    pub current_offset: u32,
    pub last_metadata: Option<SearchMetadata>,
    pub has_more_results: bool,
}

impl BraveSearchSession {
    /// Open a session: the cursor starts before the first page.
    pub fn new(params: SearchParams) -> (r: Self)
        ensures
            r.params == params,
            r.current_offset == 0,
            r.last_metadata is None,
            r.has_more_results,
    {
        BraveSearchSession { params, current_offset: 0, last_metadata: None, has_more_results: true }
    }

    /// The metadata of the page last received, if any.
    pub fn get_metadata(&self) -> (r: Option<SearchMetadata>)
        ensures
            r == self.last_metadata,
    {
        match &self.last_metadata {
            Some(m) => Some(m.duplicate()),
            None => None,
        }
    }

    /// Advance the cursor one page and build the request for it. Fails
    /// without moving when the previous page reported no further results.
    pub fn next_page_request(&mut self) -> (r: Result<BraveSearchRequest, SearchError>)
        requires
            old(self).current_offset + spec_page_size(old(self).params) <= u32::MAX,
        ensures
            final(self).params == old(self).params,
            final(self).last_metadata == old(self).last_metadata,
            final(self).has_more_results == old(self).has_more_results,
            !old(self).has_more_results ==> ((r matches Err(e) && (e
                matches SearchError::BackendError(m) && m@ == "No more results available"@))
                && final(self).current_offset == old(self).current_offset),
            old(self).has_more_results ==> (final(self).current_offset == old(self).current_offset
                + spec_page_size(old(self).params) && (r matches Ok(req) && req.offset == Some(
                final(self).current_offset,
            ) && req.q@ == spec_brave_query(old(self).params))),
    {
        if !self.has_more_results {
            return Err(SearchError::BackendError(String::from_str("No more results available")));
        }
        let page_size: u32 = match self.params.max_results {
            Some(n) => n,
            None => 10,
        };
        let new_offset = self.current_offset + page_size;
        self.current_offset = new_offset;
        Ok(convert_params_to_request(&self.params, Some(new_offset)))
    }

    /// Fold the provider's response to the last-built request into the
    /// session: remember the page metadata, decide whether more pages are
    /// expected, and hand out the first hit. An empty page exhausts the
    /// session and fails.
    pub fn accept_response(&mut self, response: BraveSearchResponse) -> (r: Result<
        SearchResult,
        SearchError,
    >)
        requires
            spec_web_items(response).len() <= usize::MAX,
        ensures
            final(self).params == old(self).params,
            final(self).current_offset == old(self).current_offset,
            final(self).last_metadata matches Some(m) && metadata_matches(
                m,
                response,
                old(self).params,
                spec_web_items(response).len() as int,
            ),
            spec_web_items(response).len() == 0 ==> (!final(self).has_more_results && (r
                matches Err(e) && (e matches SearchError::BackendError(msg) && msg@
                == "No more results"@))),
            spec_web_items(response).len() > 0 ==> {
                &&& final(self).has_more_results == ((final(self).last_metadata->0).next_page_token
                    is Some)
                &&& r matches Ok(first) && result_matches_item(
                    first,
                    spec_web_items(response)[0],
                    old(self).params.include_html == Some(true),
                )
            },
    {
        let (mut results, metadata) = convert_response_to_results(response, &self.params);
        self.last_metadata = metadata;
        if results.len() == 0 {
            self.has_more_results = false;
            return Err(SearchError::BackendError(String::from_str("No more results")));
        }
        let has_more = match &self.last_metadata {
            Some(m) => m.next_page_token.is_some(),
            None => false,
        };
        self.has_more_results = has_more;
        let first = results.remove(0);
        Ok(first)
    }
}

} // verus!
