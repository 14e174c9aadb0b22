//! The Serper and Tavily response foldings, checked on concrete responses.

use golem_durability::websearch::serper::{
    SerperAnswerBox, SerperImage, SerperKnowledgeGraph, SerperOrganicResult,
    SerperSearchInformation, SerperSearchParameters, SerperSearchResponse,
};
use golem_durability::websearch::tavily::{
    TavilyImage, TavilySearchResponse, TavilySearchResult,
};
use golem_durability::websearch::types::{ImageResult, SearchParams};
use golem_durability::websearch::{serper, tavily};

fn params() -> SearchParams {
    SearchParams {
        query: "asked".to_string(),
        safe_search: None,
        language: Some("en".to_string()),
        region: Some("us".to_string()),
        max_results: None,
        time_range: None,
        include_domains: None,
        exclude_domains: None,
        include_images: None,
        include_html: None,
        advanced_answer: None,
    }
}

fn organic(title: &str, position: Option<u32>) -> SerperOrganicResult {
    SerperOrganicResult {
        title: title.to_string(),
        link: "https://example.com".to_string(),
        snippet: "snippet".to_string(),
        position,
        date: None,
        sitelinks: None,
    }
}

#[test]
fn serper_specials_lead_the_results() {
    let response = SerperSearchResponse {
        search_parameters: Some(SerperSearchParameters {
            q: "echoed".to_string(),
            gl: None,
            hl: None,
            num: None,
            autocorrect: None,
            page: None,
            search_type: None,
        }),
        organic: Some(vec![organic("one", Some(0)), organic("two", Some(1))]),
        answer_box: Some(SerperAnswerBox {
            title: "Answer".to_string(),
            answer: Some("42".to_string()),
            link: None,
            snippet: None,
        }),
        knowledge_graph: Some(SerperKnowledgeGraph {
            title: "Panel".to_string(),
            kg_type: None,
            website: Some("https://panel.example".to_string()),
            image_url: Some("https://panel.example/img".to_string()),
            description: Some("about".to_string()),
            description_source: None,
            description_link: None,
            attributes: None,
        }),
        people_also_ask: None,
        related_searches: None,
        images: Some(vec![SerperImage {
            title: "img".to_string(),
            image_url: "https://img.example".to_string(),
            image_width: None,
            image_height: None,
            thumbnail_url: None,
            thumbnail_width: None,
            thumbnail_height: None,
            source: None,
            domain: None,
            link: None,
            position: None,
        }]),
        videos: None,
        news: None,
        search_information: Some(SerperSearchInformation {
            total_results: Some("120".to_string()),
            time_taken_ms: Some(90),
            original_query: None,
        }),
    };

    let (results, metadata) = serper::convert_response_to_results(response, &params());

    assert_eq!(results.len(), 4);
    assert_eq!(results[0].title, "Panel");
    assert_eq!(results[0].source, Some("Serper Knowledge Graph".to_string()));
    assert_eq!(results[0].score, Some(1000));
    assert_eq!(
        results[0].images,
        Some(vec![ImageResult {
            url: "https://panel.example/img".to_string(),
            description: Some("Panel".to_string()),
        }])
    );
    assert_eq!(results[1].title, "Answer");
    assert_eq!(results[1].snippet, "42");
    assert_eq!(results[1].url, "");
    assert_eq!(results[1].score, Some(1000));
    assert_eq!(results[2].title, "one");
    assert_eq!(results[2].score, Some(1000));
    assert_eq!(
        results[2].images,
        Some(vec![ImageResult {
            url: "https://img.example".to_string(),
            description: Some("img".to_string()),
        }])
    );
    assert_eq!(results[3].title, "two");
    assert_eq!(results[3].score, Some(500));

    let meta = metadata.unwrap();
    assert_eq!(meta.query, "echoed");
    assert_eq!(meta.total_results, Some(120));
    assert_eq!(meta.search_time_ms, Some(90));
    assert_eq!(meta.next_page_token, None);
}

#[test]
fn serper_empty_response_yields_no_results() {
    let response = SerperSearchResponse {
        search_parameters: None,
        organic: None,
        answer_box: None,
        knowledge_graph: None,
        people_also_ask: None,
        related_searches: None,
        images: None,
        videos: None,
        news: None,
        search_information: None,
    };
    let (results, metadata) = serper::convert_response_to_results(response, &params());
    assert_eq!(results.len(), 0);
    let meta = metadata.unwrap();
    assert_eq!(meta.query, "asked");
    assert_eq!(meta.total_results, None);
}

#[test]
fn tavily_results_carry_all_images() {
    let response = TavilySearchResponse {
        query: "asked".to_string(),
        answer: Some("short answer".to_string()),
        results: vec![
            TavilySearchResult {
                title: "one".to_string(),
                url: "https://a.example".to_string(),
                content: "content one".to_string(),
                raw_content: None,
                published_date: Some("2024-01-01".to_string()),
                score_thousandths: Some(910),
            },
            TavilySearchResult {
                title: "two".to_string(),
                url: "https://b.example".to_string(),
                content: "content two".to_string(),
                raw_content: None,
                published_date: None,
                score_thousandths: None,
            },
        ],
        images: Some(vec![
            TavilyImage::Url("https://img.one".to_string()),
            TavilyImage::Object {
                url: "https://img.two".to_string(),
                description: Some("second".to_string()),
            },
        ]),
        response_time_ms: Some(40),
    };

    let (results, metadata) = tavily::convert_response_to_results(response, &params());

    assert_eq!(results.len(), 2);
    assert_eq!(results[0].title, "one");
    assert_eq!(results[0].score, Some(910));
    assert_eq!(results[0].date_published, Some("2024-01-01".to_string()));
    assert_eq!(
        results[0].images,
        Some(vec![
            ImageResult { url: "https://img.one".to_string(), description: None },
            ImageResult {
                url: "https://img.two".to_string(),
                description: Some("second".to_string()),
            },
        ])
    );
    assert_eq!(results[1].score, None);

    let meta = metadata.unwrap();
    assert_eq!(meta.query, "asked");
    assert_eq!(meta.search_time_ms, Some(40));
    assert_eq!(meta.total_results, None);
}
