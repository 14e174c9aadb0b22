//! The Serper search provider's wire model and the pure translations between
//! it and the capability types. Fractional quantities are carried scaled:
//! relevance scores in thousandths and the reported search time in whole
//! milliseconds.

use vstd::prelude::*;

use crate::text::{parse_u64, spec_parse_u64};
use crate::websearch::types::{clone_opt_string, ImageResult, SearchError, SearchMetadata,
    SearchParams, SearchResult, TimeRange};

verus! {

/// The body of one Serper search request.
#[derive(Debug, Clone, PartialEq, Eq)]
pub struct SerperSearchRequest {
    pub q: String,
    pub location: Option<String>,
    pub gl: Option<String>,
    pub hl: Option<String>,
    pub num: Option<u32>,
    pub autocorrect: Option<bool>,
    pub tbs: Option<String>,
    pub page: Option<u32>,
}

/// Serper's name for a time-based search filter.
pub open spec fn spec_tbs_name(range: TimeRange) -> Seq<char> {
    match range {
        TimeRange::Day => "d"@,
        TimeRange::Week => "w"@,
        TimeRange::Month => "m"@,
        TimeRange::Year => "y"@,
    }
}

/// The result count sent to Serper: the requested maximum, or ten, capped at
/// Serper's limit of one hundred.
pub open spec fn spec_serper_num(params: SearchParams) -> u32 {
    let n = match params.max_results {
        Some(n) => n,
        None => 10u32,
    };
    if n > 100 {
        100u32
    } else {
        n
    }
}

/// Translate caller-side search parameters into a Serper request for the
/// given page.
pub fn convert_params_to_request(params: &SearchParams, page: Option<u32>) -> (r:
    SerperSearchRequest)
    ensures
        r.q == params.query,
        r.location == params.region,
        r.gl == params.region,
        r.hl == params.language,
        r.num == Some(spec_serper_num(*params)),
        r.autocorrect == Some(true),
        (params.time_range matches Some(t) ==> r.tbs matches Some(s) && s@ == spec_tbs_name(t)),
        (params.time_range is None ==> r.tbs is None),
        r.page == page,
{
    let n = match params.max_results {
        Some(n) => n,
        None => 10,
    };
    let num = if n > 100 {
        100
    } else {
        n
    };
    let tbs = match &params.time_range {
        Some(TimeRange::Day) => Some(String::from_str("d")),
        Some(TimeRange::Week) => Some(String::from_str("w")),
        Some(TimeRange::Month) => Some(String::from_str("m")),
        Some(TimeRange::Year) => Some(String::from_str("y")),
        None => None,
    };
    SerperSearchRequest {
        q: params.query.clone(),
        location: clone_opt_string(&params.region),
        gl: clone_opt_string(&params.region),
        hl: clone_opt_string(&params.language),
        num: Some(num),
        autocorrect: Some(true),
        tbs,
        page,
    }
}

/// The top of a Serper search response.
#[derive(Debug, Clone, PartialEq, Eq)]
pub struct SerperSearchResponse {
    pub search_parameters: Option<SerperSearchParameters>,
    pub organic: Option<Vec<SerperOrganicResult>>,
    pub answer_box: Option<SerperAnswerBox>,
    pub knowledge_graph: Option<SerperKnowledgeGraph>,
    pub people_also_ask: Option<Vec<SerperPeopleAlsoAsk>>,
    pub related_searches: Option<Vec<SerperRelatedSearch>>,
    pub images: Option<Vec<SerperImage>>,
    pub videos: Option<Vec<SerperVideo>>,
    pub news: Option<Vec<SerperNews>>,
    pub search_information: Option<SerperSearchInformation>,
}

/// The request parameters Serper echoes back.
#[derive(Debug, Clone, PartialEq, Eq)]
pub struct SerperSearchParameters {
    pub q: String,
    pub gl: Option<String>,
    pub hl: Option<String>,
    pub num: Option<u32>,
    pub autocorrect: Option<bool>,
    pub page: Option<u32>,
    pub search_type: Option<String>,
}

/// One organic hit.
#[derive(Debug, Clone, PartialEq, Eq)]
pub struct SerperOrganicResult {
    pub title: String,
    pub link: String,
    pub snippet: String,
    pub position: Option<u32>,
    pub date: Option<String>,
    pub sitelinks: Option<Vec<SerperSitelink>>,
}

/// A site link attached to an organic hit.
#[derive(Debug, Clone, PartialEq, Eq)]
pub struct SerperSitelink {
    pub title: String,
    pub link: String,
}

/// A direct answer box.
#[derive(Debug, Clone, PartialEq, Eq)]
pub struct SerperAnswerBox {
    pub title: String,
    pub answer: Option<String>,
    pub link: Option<String>,
    pub snippet: Option<String>,
}

/// A knowledge-graph panel. Attribute pairs are carried in order.
#[derive(Debug, Clone, PartialEq, Eq)]
pub struct SerperKnowledgeGraph {
    pub title: String,
    pub kg_type: Option<String>,
    pub website: Option<String>,
    pub image_url: Option<String>,
    pub description: Option<String>,
    pub description_source: Option<String>,
    pub description_link: Option<String>,
    pub attributes: Option<Vec<(String, String)>>,
}

/// One related question.
#[derive(Debug, Clone, PartialEq, Eq)]
pub struct SerperPeopleAlsoAsk {
    pub question: String,
    pub snippet: String,
    pub title: String,
    pub link: String,
}

/// One related search.
#[derive(Debug, Clone, PartialEq, Eq)]
pub struct SerperRelatedSearch {
    pub query: String,
}

/// One image hit.
#[derive(Debug, Clone, PartialEq, Eq)]
pub struct SerperImage {
    pub title: String,
    pub image_url: String,
    pub image_width: Option<u32>,
    pub image_height: Option<u32>,
    pub thumbnail_url: Option<String>,
    pub thumbnail_width: Option<u32>,
    pub thumbnail_height: Option<u32>,
    pub source: Option<String>,
    pub domain: Option<String>,
    pub link: Option<String>,
    pub position: Option<u32>,
}

/// One video hit.
#[derive(Debug, Clone, PartialEq, Eq)]
pub struct SerperVideo {
    pub title: String,
    pub link: String,
    pub snippet: Option<String>,
    pub image_url: Option<String>,
    pub duration: Option<String>,
    pub source: Option<String>,
    pub channel: Option<String>,
    pub date: Option<String>,
    pub position: Option<u32>,
}

/// One news hit.
#[derive(Debug, Clone, PartialEq, Eq)]
pub struct SerperNews {
    pub title: String,
    pub link: String,
    pub snippet: String,
    pub date: Option<String>,
    pub source: Option<String>,
    pub image_url: Option<String>,
    pub position: Option<u32>,
}

/// Totals Serper reports. The time taken, when present, is carried in whole
/// milliseconds.
#[derive(Debug, Clone, PartialEq, Eq)]
pub struct SerperSearchInformation {
    pub total_results: Option<String>,
    pub time_taken_ms: Option<u64>,
    pub original_query: Option<String>,
}

/// The relevance score, in thousandths, derived from an organic position:
/// the first position scores highest and later positions fall off.
pub open spec fn spec_position_score(position: u32) -> u64 {
    (1000int / (position + 1)) as u64
}

/// How many of the response's images each hit carries: up to three.
pub open spec fn spec_image_take(response: SerperSearchResponse) -> int {
    match response.images {
        Some(imgs) => if imgs@.len() > 3 {
            3
        } else {
            imgs@.len() as int
        },
        None => 0,
    }
}

/// How the image list attached to a hit reflects the response's images.
pub open spec fn images_match(r: SearchResult, response: SerperSearchResponse) -> bool {
    match response.images {
        Some(imgs) => if imgs@.len() > 0 {
            r.images matches Some(v) && v@.len() == spec_image_take(response) && (forall|j: int|
                0 <= j < v@.len() ==> (#[trigger] v@[j]).url == imgs@[j].image_url && v@[j]
                    .description == Some(imgs@[j].title))
        } else {
            r.images is None
        },
        None => r.images is None,
    }
}

/// How one capability-level hit reflects one organic Serper hit.
pub open spec fn organic_matches(
    r: SearchResult,
    item: SerperOrganicResult,
    response: SerperSearchResponse,
) -> bool {
    &&& r.title == item.title
    &&& r.url == item.link
    &&& r.snippet == item.snippet
    &&& r.display_url is None
    &&& r.source matches Some(s) && s@ == "Serper"@
    &&& (match item.position {
        Some(p) => r.score == Some(spec_position_score(p)),
        None => r.score is None,
    })
    &&& r.html_snippet is None
    &&& r.date_published == item.date
    &&& images_match(r, response)
    &&& r.content_chunks is None
}

/// How the special answer-box hit reflects the response.
pub open spec fn answer_box_matches(r: SearchResult, ab: SerperAnswerBox) -> bool {
    &&& r.title == ab.title
    &&& (match ab.link {
        Some(l) => r.url == l,
        None => r.url@.len() == 0,
    })
    &&& (match ab.answer {
        Some(a) => r.snippet == a,
        None => match ab.snippet {
            Some(sn) => r.snippet == sn,
            None => r.snippet@.len() == 0,
        },
    })
    &&& r.display_url is None
    &&& r.source matches Some(s) && s@ == "Serper Answer Box"@
    &&& r.score == Some(1000u64)
    &&& r.html_snippet is None
    &&& r.date_published is None
    &&& r.images is None
    &&& r.content_chunks is None
}

/// How the special knowledge-graph hit reflects the response.
pub open spec fn knowledge_graph_matches(r: SearchResult, kg: SerperKnowledgeGraph) -> bool {
    &&& r.title == kg.title
    &&& (match kg.website {
        Some(w) => r.url == w,
        None => r.url@.len() == 0,
    })
    &&& (match kg.description {
        Some(d) => r.snippet == d,
        None => r.snippet@.len() == 0,
    })
    &&& r.display_url is None
    &&& r.source matches Some(s) && s@ == "Serper Knowledge Graph"@
    &&& r.score == Some(1000u64)
    &&& r.html_snippet is None
    &&& r.date_published is None
    &&& (match kg.image_url {
        Some(u) => r.images matches Some(v) && v@.len() == 1 && v@[0].url == u && v@[0].description
            == Some(kg.title),
        None => r.images is None,
    })
    &&& r.content_chunks is None
}

/// The organic hits of a response, if any.
pub open spec fn spec_organic(response: SerperSearchResponse) -> Seq<SerperOrganicResult> {
    match response.organic {
        Some(os) => os@,
        None => Seq::empty(),
    }
}

/// How many special hits lead the result list: the knowledge graph first,
/// then the answer box, when present.
pub open spec fn spec_special_count(response: SerperSearchResponse) -> int {
    (if response.knowledge_graph is Some {
        1int
    } else {
        0int
    }) + (if response.answer_box is Some {
        1int
    } else {
        0int
    })
}

/// How the metadata reflects the response: the echoed query wins over the
/// requested one, the reported total is parsed from its decimal spelling,
/// and Serper pages by number, so there is no next-page token.
pub open spec fn metadata_matches(
    m: SearchMetadata,
    response: SerperSearchResponse,
    params: SearchParams,
) -> bool {
    &&& (match response.search_parameters {
        Some(sp) => m.query == sp.q,
        None => m.query == params.query,
    })
    &&& (match response.search_information {
        Some(info) => match info.total_results {
            Some(s) => m.total_results == spec_parse_u64(s@),
            None => m.total_results is None,
        },
        None => m.total_results is None,
    })
    &&& (match response.search_information {
        Some(info) => m.search_time_ms == info.time_taken_ms,
        None => m.search_time_ms is None,
    })
    &&& m.safe_search is None
    &&& m.language == params.language
    &&& m.region == params.region
    &&& m.next_page_token is None
    &&& m.rate_limits is None
}

/// The images each organic hit carries: the first three of the response's
/// image hits, or nothing.
fn organic_images(response: &SerperSearchResponse) -> (r: Option<Vec<ImageResult>>)
    ensures
        (match response.images {
            Some(imgs) => if imgs@.len() > 0 {
                r matches Some(v) && v@.len() == spec_image_take(*response) && (forall|j: int|
                    0 <= j < v@.len() ==> (#[trigger] v@[j]).url == imgs@[j].image_url && v@[j]
                        .description == Some(imgs@[j].title))
            } else {
                r is None
            },
            None => r is None,
        }),
{
    match &response.images {
        Some(imgs) => {
            if imgs.len() == 0 {
                return None;
            }
            let take: usize = if imgs.len() > 3 {
                3
            } else {
                imgs.len()
            };
            let mut v: Vec<ImageResult> = Vec::new();
            let mut j: usize = 0;
            while j < take
                invariant
                    take <= imgs@.len(),
                    j <= take,
                    v@.len() == j,
                    forall|i: int|
                        0 <= i < j ==> (#[trigger] v@[i]).url == imgs@[i].image_url && v@[i]
                            .description == Some(imgs@[i].title),
                decreases take - j,
            {
                v.push(
                    ImageResult {
                        url: imgs[j].image_url.clone(),
                        description: Some(imgs[j].title.clone()),
                    },
                );
                j += 1;
            }
            Some(v)
        },
        None => None,
    }
}

/// Fold a Serper response into capability-level results and metadata: the
/// knowledge graph and answer box lead the list as special hits, followed by
/// the organic hits in order.
pub fn convert_response_to_results(response: SerperSearchResponse, params: &SearchParams) -> (r: (
    Vec<SearchResult>,
    Option<SearchMetadata>,
))
    requires
        spec_organic(response).len() + 2 <= usize::MAX,
    ensures
        r.0@.len() == spec_special_count(response) + spec_organic(response).len(),
        (response.knowledge_graph matches Some(kg) ==> knowledge_graph_matches(r.0@[0], kg)),
        (response.answer_box matches Some(ab) ==> answer_box_matches(
            r.0@[if response.knowledge_graph is Some {
                1int
            } else {
                0int
            }],
            ab,
        )),
        forall|i: int|
            0 <= i < spec_organic(response).len() ==> organic_matches(
                #[trigger] r.0@[spec_special_count(response) + i],
                spec_organic(response)[i],
                response,
            ),
        r.1 matches Some(m) && metadata_matches(m, response, *params),
{
    let mut search_results: Vec<SearchResult> = Vec::new();
    match &response.organic {
        Some(organic_results) => {
            let mut i: usize = 0;
            while i < organic_results.len()
                invariant
                    i <= organic_results@.len(),
                    search_results@.len() == i,
                    response.organic matches Some(os) && os == *organic_results,
                    forall|j: int|
                        0 <= j < i ==> organic_matches(
                            #[trigger] search_results@[j],
                            organic_results@[j],
                            response,
                        ),
                decreases organic_results@.len() - i,
            {
                let item = &organic_results[i];
                let score: Option<u64> = match item.position {
                    Some(p) => Some((1000u64 / (p as u64 + 1)) as u64),
                    None => None,
                };
                search_results.push(
                    SearchResult {
                        title: item.title.clone(),
                        url: item.link.clone(),
                        snippet: item.snippet.clone(),
                        display_url: None,
                        source: Some(String::from_str("Serper")),
                        score,
                        html_snippet: None,
                        date_published: clone_opt_string(&item.date),
                        images: organic_images(&response),
                        content_chunks: None,
                    },
                );
                i += 1;
            }
        },
        None => {},
    }
    let ghost organics_only = search_results@;
    match &response.answer_box {
        Some(answer_box) => {
            let url = match &answer_box.link {
                Some(l) => l.clone(),
                None => String::new(),
            };
            let snippet = match &answer_box.answer {
                Some(a) => a.clone(),
                None => match &answer_box.snippet {
                    Some(sn) => sn.clone(),
                    None => String::new(),
                },
            };
            search_results.insert(
                0,
                SearchResult {
                    title: answer_box.title.clone(),
                    url,
                    snippet,
                    display_url: None,
                    source: Some(String::from_str("Serper Answer Box")),
                    score: Some(1000),
                    html_snippet: None,
                    date_published: None,
                    images: None,
                    content_chunks: None,
                },
            );
        },
        None => {},
    }
    match &response.knowledge_graph {
        Some(kg) => {
            let kg_images: Option<Vec<ImageResult>> = match &kg.image_url {
                Some(u) => {
                    let mut v: Vec<ImageResult> = Vec::new();
                    v.push(ImageResult { url: u.clone(), description: Some(kg.title.clone()) });
                    Some(v)
                },
                None => None,
            };
            let url = match &kg.website {
                Some(w) => w.clone(),
                None => String::new(),
            };
            let snippet = match &kg.description {
                Some(d) => d.clone(),
                None => String::new(),
            };
            search_results.insert(
                0,
                SearchResult {
                    title: kg.title.clone(),
                    url,
                    snippet,
                    display_url: None,
                    source: Some(String::from_str("Serper Knowledge Graph")),
                    score: Some(1000),
                    html_snippet: None,
                    date_published: None,
                    images: kg_images,
                    content_chunks: None,
                },
            );
        },
        None => {},
    }
    proof {
        assert(search_results@.len() == spec_special_count(response) + organics_only.len());
        assert forall|i: int| 0 <= i < spec_organic(response).len() implies organic_matches(
            #[trigger] search_results@[spec_special_count(response) + i],
            spec_organic(response)[i],
            response,
        ) by {
            assert(search_results@[spec_special_count(response) + i] == organics_only[i]);
        }
    }
    let total_results: Option<u64> = match &response.search_information {
        Some(info) => match &info.total_results {
            Some(s) => parse_u64(s.as_str()),
            None => None,
        },
        None => None,
    };
    let search_time_ms: Option<u64> = match &response.search_information {
        Some(info) => info.time_taken_ms,
        None => None,
    };
    let query = match &response.search_parameters {
        Some(sp) => sp.q.clone(),
        None => params.query.clone(),
    };
    let metadata = SearchMetadata {
        query,
        total_results,
        search_time_ms,
        safe_search: None,
        language: clone_opt_string(&params.language),
        region: clone_opt_string(&params.region),
        next_page_token: None,
        rate_limits: None,
    };
    (search_results, Some(metadata))
}

/// What leads the converted result list: the first hit is the knowledge
/// graph when present, then the answer box, then the first organic hit.
pub open spec fn first_result_matches(r: SearchResult, response: SerperSearchResponse) -> bool {
    match response.knowledge_graph {
        Some(kg) => knowledge_graph_matches(r, kg),
        None => match response.answer_box {
            Some(ab) => answer_box_matches(r, ab),
            None => if spec_organic(response).len() > 0 {
                organic_matches(r, spec_organic(response)[0], response)
            } else {
                true
            },
        },
    }
}

/// The cursor state of one paginated Serper search: pages are numbered, the
/// first follow-up request asks for the page after the opening one, and
/// paging stops after the tenth page. The HTTP calls between the two steps
/// happen outside the library.
#[derive(Debug, Clone, PartialEq, Eq)]
pub struct SerperSearchSession {
    pub params: SearchParams,
    pub current_page: u32,
    pub last_metadata: Option<SearchMetadata>,
    pub has_more_results: bool,
}

impl SerperSearchSession {
    /// Open a session: the cursor starts at the opening page.
    pub fn new(params: SearchParams) -> (r: Self)
        ensures
            r.params == params,
            r.current_page == 1,
            r.last_metadata is None,
            r.has_more_results,
    {
        SerperSearchSession {
            params,
            current_page: 1,
            last_metadata: None,
            has_more_results: true,
        }
    }

    /// The metadata of the page last received, if any.
    pub fn get_metadata(&self) -> (r: Option<SearchMetadata>)
        ensures
            r == self.last_metadata,
    {
        match &self.last_metadata {
            Some(m) => Some(m.duplicate()),
            None => None,
        }
    }

    /// Advance the cursor one page and build the request for it. Fails
    /// without moving when the previous page reported no further results.
    pub fn next_page_request(&mut self) -> (r: Result<SerperSearchRequest, SearchError>)
        requires
            old(self).current_page < u32::MAX,
        ensures
            final(self).params == old(self).params,
            final(self).last_metadata == old(self).last_metadata,
            final(self).has_more_results == old(self).has_more_results,
            !old(self).has_more_results ==> ((r matches Err(e) && (e
                matches SearchError::BackendError(m) && m@ == "No more results available"@))
                && final(self).current_page == old(self).current_page),
            old(self).has_more_results ==> (final(self).current_page == old(self).current_page + 1
                && (r matches Ok(req) && req.page == Some(final(self).current_page) && req.q == old(
                self,
            ).params.query)),
    {
        if !self.has_more_results {
            return Err(SearchError::BackendError(String::from_str("No more results available")));
        }
        self.current_page = self.current_page + 1;
        Ok(convert_params_to_request(&self.params, Some(self.current_page)))
    }

    /// Fold the provider's response to the last-built request into the
    /// session: remember the page metadata, stop after the tenth page, and
    /// hand out the first hit. An empty page exhausts the session and fails.
    pub fn accept_response(&mut self, response: SerperSearchResponse) -> (r: Result<
        SearchResult,
        SearchError,
    >)
        requires
            spec_organic(response).len() + 2 <= usize::MAX,
        ensures
            final(self).params == old(self).params,
            final(self).current_page == old(self).current_page,
            final(self).last_metadata matches Some(m) && metadata_matches(
                m,
                response,
                old(self).params,
            ),
            (spec_special_count(response) + spec_organic(response).len() == 0)
                ==> (!final(self).has_more_results && (r matches Err(e) && (e
                matches SearchError::BackendError(msg) && msg@ == "No more results"@))),
            (spec_special_count(response) + spec_organic(response).len() > 0) ==> {
                &&& final(self).has_more_results == (old(self).has_more_results
                    && old(self).current_page < 10)
                &&& r matches Ok(first) && first_result_matches(first, response)
            },
    {
        let (mut results, metadata) = convert_response_to_results(response, &self.params);
        self.last_metadata = metadata;
        if results.len() == 0 {
            self.has_more_results = false;
            return Err(SearchError::BackendError(String::from_str("No more results")));
        }
        if self.current_page >= 10 {
            self.has_more_results = false;
        }
        let first = results.remove(0);
        Ok(first)
    }
}

} // verus!
