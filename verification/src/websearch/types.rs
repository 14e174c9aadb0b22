//! The web-search capability surface: the parameters a caller hands in, the
//! results and metadata a provider hands back, and the error taxonomy. Every
//! type here implements the structured value codec, so a whole search
//! interaction can be recorded in and replayed from the durability log.

use vstd::prelude::*;

use crate::codec::Codec;
use crate::value::{lemma_model_seq, DecodeError, TypeDescriptor, Value, ValueModel};

verus! {

/// How strictly a provider should filter unsafe content.
#[derive(Debug, Clone, Copy, PartialEq, Eq, Structural)]
pub enum SafeSearchLevel {
    Off,
    Medium,
    High,
}

/// Restrict results to a trailing time window.
#[derive(Debug, Clone, Copy, PartialEq, Eq, Structural)]
pub enum TimeRange {
    Day,
    Week,
    Month,
    Year,
}

/// An image attached to a search result.
#[derive(Debug, Clone, PartialEq, Eq)]
pub struct ImageResult {
    pub url: String,
    pub description: Option<String>,
}

/// A provider's rate-limit snapshot.
#[derive(Debug, Clone, Copy, PartialEq, Eq, Structural)]
pub struct RateLimitInfo {
    pub limit: u32,
    pub remaining: u32,
    pub reset_timestamp: u64,
}

/// Why a search operation failed. Provider failures pass through the
/// durability engine unchanged, persisted like any successful result.
#[derive(Debug, Clone, PartialEq, Eq)]
pub enum SearchError {
    InvalidQuery,
    RateLimited(u32),
    UnsupportedFeature(String),
    BackendError(String),
}

/// One search hit, normalized across providers. The relevance score, where a
/// provider reports one, is carried in thousandths.
#[derive(Debug, Clone, PartialEq, Eq)]
pub struct SearchResult {
    pub title: String,
    pub url: String,
    pub snippet: String,
    pub display_url: Option<String>,
    pub source: Option<String>,
    pub score: Option<u64>,
    pub html_snippet: Option<String>,
    pub date_published: Option<String>,
    pub images: Option<Vec<ImageResult>>,
    pub content_chunks: Option<Vec<String>>,
}

/// What a provider reports about a whole search, beside the hits. The search
/// time, where known, is carried in milliseconds.
#[derive(Debug, Clone, PartialEq, Eq)]
pub struct SearchMetadata {
    pub query: String,
    pub total_results: Option<u64>,
    pub search_time_ms: Option<u64>,
    pub safe_search: Option<SafeSearchLevel>,
    pub language: Option<String>,
    pub region: Option<String>,
    pub next_page_token: Option<String>,
    pub rate_limits: Option<RateLimitInfo>,
}

/// A copy of an optional string, equal to the original.
pub fn clone_opt_string(o: &Option<String>) -> (r: Option<String>)
    ensures
        r == *o,
{
    match o {
        Some(s) => Some(s.clone()),
        None => None,
    }
}

impl SearchMetadata {
    /// An equal copy, made field by field.
    pub fn duplicate(&self) -> (r: Self)
        ensures
            r == *self,
    {
        SearchMetadata {
            query: self.query.clone(),
            total_results: self.total_results,
            search_time_ms: self.search_time_ms,
            safe_search: self.safe_search,
            language: clone_opt_string(&self.language),
            region: clone_opt_string(&self.region),
            next_page_token: clone_opt_string(&self.next_page_token),
            rate_limits: self.rate_limits,
        }
    }
}

/// A search request as the caller states it, before any provider-specific
/// translation.
#[derive(Debug, Clone, PartialEq, Eq)]
pub struct SearchParams {
    pub query: String,
    pub safe_search: Option<SafeSearchLevel>,
    pub language: Option<String>,
    pub region: Option<String>,
    pub max_results: Option<u32>,
    pub time_range: Option<TimeRange>,
    pub include_domains: Option<Vec<String>>,
    pub exclude_domains: Option<Vec<String>>,
    pub include_images: Option<bool>,
    pub include_html: Option<bool>,
    pub advanced_answer: Option<bool>,
}

impl Codec for SafeSearchLevel {
    open spec fn decode_failure(m: ValueModel) -> DecodeError {
        match m {
            ValueModel::Variant(tag, payload) => DecodeError::Shape,
            _ => DecodeError::Shape,
        }
    }

    open spec fn encoded(&self) -> ValueModel {
        match self {
            SafeSearchLevel::Off => ValueModel::Variant(0, Seq::empty()),
            SafeSearchLevel::Medium => ValueModel::Variant(1, Seq::empty()),
            SafeSearchLevel::High => ValueModel::Variant(2, Seq::empty()),
        }
    }

    open spec fn decodable(m: ValueModel) -> bool {
        m matches ValueModel::Variant(tag, payload) && ((tag == 0 && payload.len() == 0) || (tag == 1 && payload.len() == 0) || (tag == 2 && payload.len() == 0))
    }

    fn to_structured_value(&self) -> (v: Value) {
        match self {
            SafeSearchLevel::Off => Value::Variant(0, Vec::new()),
            SafeSearchLevel::Medium => Value::Variant(1, Vec::new()),
            SafeSearchLevel::High => Value::Variant(2, Vec::new()),
        }
    }

    fn from_structured_value(v: &Value) -> (r: Result<Self, DecodeError>) {
        match v {
            Value::Variant(tag, payload) => {
                proof {
                    lemma_model_seq(payload@);
                }
                if *tag == 0 && payload.len() == 0 {
                    proof {
                        assert(Value::model_seq(payload@) =~= Seq::<ValueModel>::empty());
                    }
                    return Ok(SafeSearchLevel::Off);
                }
                if *tag == 1 && payload.len() == 0 {
                    proof {
                        assert(Value::model_seq(payload@) =~= Seq::<ValueModel>::empty());
                    }
                    return Ok(SafeSearchLevel::Medium);
                }
                if *tag == 2 && payload.len() == 0 {
                    proof {
                        assert(Value::model_seq(payload@) =~= Seq::<ValueModel>::empty());
                    }
                    return Ok(SafeSearchLevel::High);
                }
                Err(DecodeError::Shape)
            },
            _ => Err(DecodeError::Shape),
        }
    }

    fn describe_shape() -> (t: TypeDescriptor) {
        let mut cases: Vec<Vec<TypeDescriptor>> = Vec::new();
        let case0: Vec<TypeDescriptor> = Vec::new();
        cases.push(case0);
        let case1: Vec<TypeDescriptor> = Vec::new();
        cases.push(case1);
        let case2: Vec<TypeDescriptor> = Vec::new();
        cases.push(case2);
        TypeDescriptor::Variant(cases)
    }

    proof fn encoded_decodable(&self) {
        match self {
            SafeSearchLevel::Off => {},
            SafeSearchLevel::Medium => {},
            SafeSearchLevel::High => {},
        }
    }
}

impl Codec for TimeRange {
    open spec fn decode_failure(m: ValueModel) -> DecodeError {
        match m {
            ValueModel::Variant(tag, payload) => DecodeError::Shape,
            _ => DecodeError::Shape,
        }
    }

    open spec fn encoded(&self) -> ValueModel {
        match self {
            TimeRange::Day => ValueModel::Variant(0, Seq::empty()),
            TimeRange::Week => ValueModel::Variant(1, Seq::empty()),
            TimeRange::Month => ValueModel::Variant(2, Seq::empty()),
            TimeRange::Year => ValueModel::Variant(3, Seq::empty()),
        }
    }

    open spec fn decodable(m: ValueModel) -> bool {
        m matches ValueModel::Variant(tag, payload) && ((tag == 0 && payload.len() == 0) || (tag == 1 && payload.len() == 0) || (tag == 2 && payload.len() == 0) || (tag == 3 && payload.len() == 0))
    }

    fn to_structured_value(&self) -> (v: Value) {
        match self {
            TimeRange::Day => Value::Variant(0, Vec::new()),
            TimeRange::Week => Value::Variant(1, Vec::new()),
            TimeRange::Month => Value::Variant(2, Vec::new()),
            TimeRange::Year => Value::Variant(3, Vec::new()),
        }
    }

    fn from_structured_value(v: &Value) -> (r: Result<Self, DecodeError>) {
        match v {
            Value::Variant(tag, payload) => {
                proof {
                    lemma_model_seq(payload@);
                }
                if *tag == 0 && payload.len() == 0 {
                    proof {
                        assert(Value::model_seq(payload@) =~= Seq::<ValueModel>::empty());
                    }
                    return Ok(TimeRange::Day);
                }
                if *tag == 1 && payload.len() == 0 {
                    proof {
                        assert(Value::model_seq(payload@) =~= Seq::<ValueModel>::empty());
                    }
                    return Ok(TimeRange::Week);
                }
                if *tag == 2 && payload.len() == 0 {
                    proof {
                        assert(Value::model_seq(payload@) =~= Seq::<ValueModel>::empty());
                    }
                    return Ok(TimeRange::Month);
                }
                if *tag == 3 && payload.len() == 0 {
                    proof {
                        assert(Value::model_seq(payload@) =~= Seq::<ValueModel>::empty());
                    }
                    return Ok(TimeRange::Year);
                }
                Err(DecodeError::Shape)
            },
            _ => Err(DecodeError::Shape),
        }
    }

    fn describe_shape() -> (t: TypeDescriptor) {
        let mut cases: Vec<Vec<TypeDescriptor>> = Vec::new();
        let case0: Vec<TypeDescriptor> = Vec::new();
        cases.push(case0);
        let case1: Vec<TypeDescriptor> = Vec::new();
        cases.push(case1);
        let case2: Vec<TypeDescriptor> = Vec::new();
        cases.push(case2);
        let case3: Vec<TypeDescriptor> = Vec::new();
        cases.push(case3);
        TypeDescriptor::Variant(cases)
    }

    proof fn encoded_decodable(&self) {
        match self {
            TimeRange::Day => {},
            TimeRange::Week => {},
            TimeRange::Month => {},
            TimeRange::Year => {},
        }
    }
}

impl Codec for ImageResult {
    open spec fn decode_failure(m: ValueModel) -> DecodeError {
        match m {
            ValueModel::Record(els) => if els.len() != 2 {
                DecodeError::Shape
            } else if !<String>::decodable(els[0]) {
                <String>::decode_failure(els[0])
            } else {
                <Option<String>>::decode_failure(els[1])
            },
            _ => DecodeError::Shape,
        }
    }

    open spec fn encoded(&self) -> ValueModel {
        ValueModel::Record(seq![self.url.encoded(), self.description.encoded()])
    }

    open spec fn decodable(m: ValueModel) -> bool {
        m matches ValueModel::Record(els) && els.len() == 2 && <String>::decodable(els[0]) && <Option<String>>::decodable(els[1])
    }

    fn to_structured_value(&self) -> (v: Value) {
        let mut els: Vec<Value> = Vec::new();
        els.push(self.url.to_structured_value());
        els.push(self.description.to_structured_value());
        proof {
            lemma_model_seq(els@);
            assert(Value::model_seq(els@)[0] == els@[0].model());
            assert(Value::model_seq(els@)[1] == els@[1].model());
            assert(Value::model_seq(els@) =~= seq![self.url.encoded(), self.description.encoded()]);
        }
        Value::Record(els)
    }

    fn from_structured_value(v: &Value) -> (r: Result<Self, DecodeError>) {
        match v {
            Value::Record(els) => {
                if els.len() == 2 {
                    let url = match <String>::from_structured_value(&els[0]) {
                        Ok(x) => x,
                        Err(e) => {
                            proof {
                                lemma_model_seq(els@);
                                assert(Value::model_seq(els@)[0] == els@[0].model());
                                assert(Value::model_seq(els@)[1] == els@[1].model());
                                assert(v.model()->Record_0 == Value::model_seq(els@));
                            }
                            return Err(e);
                        },
                    };
                    let description = match <Option<String>>::from_structured_value(&els[1]) {
                        Ok(x) => x,
                        Err(e) => {
                            proof {
                                lemma_model_seq(els@);
                                assert(Value::model_seq(els@)[0] == els@[0].model());
                                assert(Value::model_seq(els@)[1] == els@[1].model());
                                assert(v.model()->Record_0 == Value::model_seq(els@));
                            }
                            return Err(e);
                        },
                    };
                    proof {
                        lemma_model_seq(els@);
            assert(Value::model_seq(els@)[0] == els@[0].model());
            assert(Value::model_seq(els@)[1] == els@[1].model());
                        assert(v.model()->Record_0 == Value::model_seq(els@));
                        assert(Value::model_seq(els@) =~= seq![url.encoded(), description.encoded()]);
                    }
                    Ok(ImageResult { url: url, description: description })
                } else {
                    proof {
                        lemma_model_seq(els@);
                    }
                    Err(DecodeError::Shape)
                }
            },
            _ => Err(DecodeError::Shape),
        }
    }

    fn describe_shape() -> (t: TypeDescriptor) {
        let mut els: Vec<TypeDescriptor> = Vec::new();
        els.push(<String>::describe_shape());
        els.push(<Option<String>>::describe_shape());
        TypeDescriptor::Record(els)
    }

    proof fn encoded_decodable(&self) {
        <String>::encoded_decodable(&self.url);
        <Option<String>>::encoded_decodable(&self.description);
    }
}

impl Codec for RateLimitInfo {
    open spec fn decode_failure(m: ValueModel) -> DecodeError {
        match m {
            ValueModel::Record(els) => if els.len() != 3 {
                DecodeError::Shape
            } else if !<u32>::decodable(els[0]) {
                <u32>::decode_failure(els[0])
            } else if !<u32>::decodable(els[1]) {
                <u32>::decode_failure(els[1])
            } else {
                <u64>::decode_failure(els[2])
            },
            _ => DecodeError::Shape,
        }
    }

    open spec fn encoded(&self) -> ValueModel {
        ValueModel::Record(seq![self.limit.encoded(), self.remaining.encoded(), self.reset_timestamp.encoded()])
    }

    open spec fn decodable(m: ValueModel) -> bool {
        m matches ValueModel::Record(els) && els.len() == 3 && <u32>::decodable(els[0]) && <u32>::decodable(els[1]) && <u64>::decodable(els[2])
    }

    fn to_structured_value(&self) -> (v: Value) {
        let mut els: Vec<Value> = Vec::new();
        els.push(self.limit.to_structured_value());
        els.push(self.remaining.to_structured_value());
        els.push(self.reset_timestamp.to_structured_value());
        proof {
            lemma_model_seq(els@);
            assert(Value::model_seq(els@)[0] == els@[0].model());
            assert(Value::model_seq(els@)[1] == els@[1].model());
            assert(Value::model_seq(els@)[2] == els@[2].model());
            assert(Value::model_seq(els@) =~= seq![self.limit.encoded(), self.remaining.encoded(), self.reset_timestamp.encoded()]);
        }
        Value::Record(els)
    }

    fn from_structured_value(v: &Value) -> (r: Result<Self, DecodeError>) {
        match v {
            Value::Record(els) => {
                if els.len() == 3 {
                    let limit = match <u32>::from_structured_value(&els[0]) {
                        Ok(x) => x,
                        Err(e) => {
                            proof {
                                lemma_model_seq(els@);
                                assert(Value::model_seq(els@)[0] == els@[0].model());
                                assert(Value::model_seq(els@)[1] == els@[1].model());
                                assert(Value::model_seq(els@)[2] == els@[2].model());
                                assert(v.model()->Record_0 == Value::model_seq(els@));
                            }
                            return Err(e);
                        },
                    };
                    let remaining = match <u32>::from_structured_value(&els[1]) {
                        Ok(x) => x,
                        Err(e) => {
                            proof {
                                lemma_model_seq(els@);
                                assert(Value::model_seq(els@)[0] == els@[0].model());
                                assert(Value::model_seq(els@)[1] == els@[1].model());
                                assert(Value::model_seq(els@)[2] == els@[2].model());
                                assert(v.model()->Record_0 == Value::model_seq(els@));
                            }
                            return Err(e);
                        },
                    };
                    let reset_timestamp = match <u64>::from_structured_value(&els[2]) {
                        Ok(x) => x,
                        Err(e) => {
                            proof {
                                lemma_model_seq(els@);
                                assert(Value::model_seq(els@)[0] == els@[0].model());
                                assert(Value::model_seq(els@)[1] == els@[1].model());
                                assert(Value::model_seq(els@)[2] == els@[2].model());
                                assert(v.model()->Record_0 == Value::model_seq(els@));
                            }
                            return Err(e);
                        },
                    };
                    proof {
                        lemma_model_seq(els@);
            assert(Value::model_seq(els@)[0] == els@[0].model());
            assert(Value::model_seq(els@)[1] == els@[1].model());
            assert(Value::model_seq(els@)[2] == els@[2].model());
                        assert(v.model()->Record_0 == Value::model_seq(els@));
                        assert(Value::model_seq(els@) =~= seq![limit.encoded(), remaining.encoded(), reset_timestamp.encoded()]);
                    }
                    Ok(RateLimitInfo { limit: limit, remaining: remaining, reset_timestamp: reset_timestamp })
                } else {
                    proof {
                        lemma_model_seq(els@);
                    }
                    Err(DecodeError::Shape)
                }
            },
            _ => Err(DecodeError::Shape),
        }
    }

    fn describe_shape() -> (t: TypeDescriptor) {
        let mut els: Vec<TypeDescriptor> = Vec::new();
        els.push(<u32>::describe_shape());
        els.push(<u32>::describe_shape());
        els.push(<u64>::describe_shape());
        TypeDescriptor::Record(els)
    }

    proof fn encoded_decodable(&self) {
        <u32>::encoded_decodable(&self.limit);
        <u32>::encoded_decodable(&self.remaining);
        <u64>::encoded_decodable(&self.reset_timestamp);
    }
}

impl Codec for SearchError {
    open spec fn decode_failure(m: ValueModel) -> DecodeError {
        match m {
            ValueModel::Variant(tag, payload) => if tag == 1 && payload.len() == 1 {
                if !<u32>::decodable(payload[0]) {
                <u32>::decode_failure(payload[0])
            } else {
                DecodeError::Shape
            }
            } else if tag == 2 && payload.len() == 1 {
                if !<String>::decodable(payload[0]) {
                <String>::decode_failure(payload[0])
            } else {
                DecodeError::Shape
            }
            } else if tag == 3 && payload.len() == 1 {
                if !<String>::decodable(payload[0]) {
                <String>::decode_failure(payload[0])
            } else {
                DecodeError::Shape
            }
            } else {
                DecodeError::Shape
            },
            _ => DecodeError::Shape,
        }
    }

    open spec fn encoded(&self) -> ValueModel {
        match self {
            SearchError::InvalidQuery => ValueModel::Variant(0, Seq::empty()),
            SearchError::RateLimited(retry_after) => ValueModel::Variant(1, seq![retry_after.encoded()]),
            SearchError::UnsupportedFeature(feature) => ValueModel::Variant(2, seq![feature.encoded()]),
            SearchError::BackendError(message) => ValueModel::Variant(3, seq![message.encoded()]),
        }
    }

    open spec fn decodable(m: ValueModel) -> bool {
        m matches ValueModel::Variant(tag, payload) && ((tag == 0 && payload.len() == 0) || (tag == 1 && payload.len() == 1 && <u32>::decodable(payload[0])) || (tag == 2 && payload.len() == 1 && <String>::decodable(payload[0])) || (tag == 3 && payload.len() == 1 && <String>::decodable(payload[0])))
    }

    fn to_structured_value(&self) -> (v: Value) {
        match self {
            SearchError::InvalidQuery => Value::Variant(0, Vec::new()),
            SearchError::RateLimited(retry_after) => {
                let mut payload: Vec<Value> = Vec::new();
                payload.push(retry_after.to_structured_value());
                proof {
                    lemma_model_seq(payload@);
                    assert(Value::model_seq(payload@)[0] == payload@[0].model());
                    assert(Value::model_seq(payload@) =~= seq![retry_after.encoded()]);
                }
                Value::Variant(1, payload)
            },
            SearchError::UnsupportedFeature(feature) => {
                let mut payload: Vec<Value> = Vec::new();
                payload.push(feature.to_structured_value());
                proof {
                    lemma_model_seq(payload@);
                    assert(Value::model_seq(payload@)[0] == payload@[0].model());
                    assert(Value::model_seq(payload@) =~= seq![feature.encoded()]);
                }
                Value::Variant(2, payload)
            },
            SearchError::BackendError(message) => {
                let mut payload: Vec<Value> = Vec::new();
                payload.push(message.to_structured_value());
                proof {
                    lemma_model_seq(payload@);
                    assert(Value::model_seq(payload@)[0] == payload@[0].model());
                    assert(Value::model_seq(payload@) =~= seq![message.encoded()]);
                }
                Value::Variant(3, payload)
            },
        }
    }

    fn from_structured_value(v: &Value) -> (r: Result<Self, DecodeError>) {
        match v {
            Value::Variant(tag, payload) => {
                proof {
                    lemma_model_seq(payload@);
                }
                if *tag == 0 && payload.len() == 0 {
                    proof {
                        assert(Value::model_seq(payload@) =~= Seq::<ValueModel>::empty());
                    }
                    return Ok(SearchError::InvalidQuery);
                }
                if *tag == 1 && payload.len() == 1 {
                    let retry_after = match <u32>::from_structured_value(&payload[0]) {
                        Ok(x) => x,
                        Err(e) => {
                            proof {
                                assert(Value::model_seq(payload@)[0] == payload@[0].model());
                                assert(v.model()->Variant_1 == Value::model_seq(payload@));
                            }
                            return Err(e);
                        },
                    };
                    proof {
                        assert(Value::model_seq(payload@)[0] == payload@[0].model());
                        assert(v.model()->Variant_1 == Value::model_seq(payload@));
                        assert(Value::model_seq(payload@) =~= seq![retry_after.encoded()]);
                    }
                    return Ok(SearchError::RateLimited(retry_after));
                }
                if *tag == 2 && payload.len() == 1 {
                    let feature = match <String>::from_structured_value(&payload[0]) {
                        Ok(x) => x,
                        Err(e) => {
                            proof {
                                assert(Value::model_seq(payload@)[0] == payload@[0].model());
                                assert(v.model()->Variant_1 == Value::model_seq(payload@));
                            }
                            return Err(e);
                        },
                    };
                    proof {
                        assert(Value::model_seq(payload@)[0] == payload@[0].model());
                        assert(v.model()->Variant_1 == Value::model_seq(payload@));
                        assert(Value::model_seq(payload@) =~= seq![feature.encoded()]);
                    }
                    return Ok(SearchError::UnsupportedFeature(feature));
                }
                if *tag == 3 && payload.len() == 1 {
                    let message = match <String>::from_structured_value(&payload[0]) {
                        Ok(x) => x,
                        Err(e) => {
                            proof {
                                assert(Value::model_seq(payload@)[0] == payload@[0].model());
                                assert(v.model()->Variant_1 == Value::model_seq(payload@));
                            }
                            return Err(e);
                        },
                    };
                    proof {
                        assert(Value::model_seq(payload@)[0] == payload@[0].model());
                        assert(v.model()->Variant_1 == Value::model_seq(payload@));
                        assert(Value::model_seq(payload@) =~= seq![message.encoded()]);
                    }
                    return Ok(SearchError::BackendError(message));
                }
                Err(DecodeError::Shape)
            },
            _ => Err(DecodeError::Shape),
        }
    }

    fn describe_shape() -> (t: TypeDescriptor) {
        let mut cases: Vec<Vec<TypeDescriptor>> = Vec::new();
        let case0: Vec<TypeDescriptor> = Vec::new();
        cases.push(case0);
        let mut case1: Vec<TypeDescriptor> = Vec::new();
        case1.push(<u32>::describe_shape());
        cases.push(case1);
        let mut case2: Vec<TypeDescriptor> = Vec::new();
        case2.push(<String>::describe_shape());
        cases.push(case2);
        let mut case3: Vec<TypeDescriptor> = Vec::new();
        case3.push(<String>::describe_shape());
        cases.push(case3);
        TypeDescriptor::Variant(cases)
    }

    proof fn encoded_decodable(&self) {
        match self {
            SearchError::InvalidQuery => {},
            SearchError::RateLimited(retry_after) => {
                <u32>::encoded_decodable(retry_after);
            },
            SearchError::UnsupportedFeature(feature) => {
                <String>::encoded_decodable(feature);
            },
            SearchError::BackendError(message) => {
                <String>::encoded_decodable(message);
            },
        }
    }
}

impl Codec for SearchResult {
    open spec fn decode_failure(m: ValueModel) -> DecodeError {
        match m {
            ValueModel::Record(els) => if els.len() != 10 {
                DecodeError::Shape
            } else if !<String>::decodable(els[0]) {
                <String>::decode_failure(els[0])
            } else if !<String>::decodable(els[1]) {
                <String>::decode_failure(els[1])
            } else if !<String>::decodable(els[2]) {
                <String>::decode_failure(els[2])
            } else if !<Option<String>>::decodable(els[3]) {
                <Option<String>>::decode_failure(els[3])
            } else if !<Option<String>>::decodable(els[4]) {
                <Option<String>>::decode_failure(els[4])
            } else if !<Option<u64>>::decodable(els[5]) {
                <Option<u64>>::decode_failure(els[5])
            } else if !<Option<String>>::decodable(els[6]) {
                <Option<String>>::decode_failure(els[6])
            } else if !<Option<String>>::decodable(els[7]) {
                <Option<String>>::decode_failure(els[7])
            } else if !<Option<Vec<ImageResult>>>::decodable(els[8]) {
                <Option<Vec<ImageResult>>>::decode_failure(els[8])
            } else {
                <Option<Vec<String>>>::decode_failure(els[9])
            },
            _ => DecodeError::Shape,
        }
    }

    open spec fn encoded(&self) -> ValueModel {
        ValueModel::Record(seq![self.title.encoded(), self.url.encoded(), self.snippet.encoded(), self.display_url.encoded(), self.source.encoded(), self.score.encoded(), self.html_snippet.encoded(), self.date_published.encoded(), self.images.encoded(), self.content_chunks.encoded()])
    }

    open spec fn decodable(m: ValueModel) -> bool {
        m matches ValueModel::Record(els) && els.len() == 10 && <String>::decodable(els[0]) && <String>::decodable(els[1]) && <String>::decodable(els[2]) && <Option<String>>::decodable(els[3]) && <Option<String>>::decodable(els[4]) && <Option<u64>>::decodable(els[5]) && <Option<String>>::decodable(els[6]) && <Option<String>>::decodable(els[7]) && <Option<Vec<ImageResult>>>::decodable(els[8]) && <Option<Vec<String>>>::decodable(els[9])
    }

    fn to_structured_value(&self) -> (v: Value) {
        let mut els: Vec<Value> = Vec::new();
        els.push(self.title.to_structured_value());
        els.push(self.url.to_structured_value());
        els.push(self.snippet.to_structured_value());
        els.push(self.display_url.to_structured_value());
        els.push(self.source.to_structured_value());
        els.push(self.score.to_structured_value());
        els.push(self.html_snippet.to_structured_value());
        els.push(self.date_published.to_structured_value());
        els.push(self.images.to_structured_value());
        els.push(self.content_chunks.to_structured_value());
        proof {
            lemma_model_seq(els@);
            assert(Value::model_seq(els@)[0] == els@[0].model());
            assert(Value::model_seq(els@)[1] == els@[1].model());
            assert(Value::model_seq(els@)[2] == els@[2].model());
            assert(Value::model_seq(els@)[3] == els@[3].model());
            assert(Value::model_seq(els@)[4] == els@[4].model());
            assert(Value::model_seq(els@)[5] == els@[5].model());
            assert(Value::model_seq(els@)[6] == els@[6].model());
            assert(Value::model_seq(els@)[7] == els@[7].model());
            assert(Value::model_seq(els@)[8] == els@[8].model());
            assert(Value::model_seq(els@)[9] == els@[9].model());
            assert(Value::model_seq(els@) =~= seq![self.title.encoded(), self.url.encoded(), self.snippet.encoded(), self.display_url.encoded(), self.source.encoded(), self.score.encoded(), self.html_snippet.encoded(), self.date_published.encoded(), self.images.encoded(), self.content_chunks.encoded()]);
        }
        Value::Record(els)
    }

    fn from_structured_value(v: &Value) -> (r: Result<Self, DecodeError>) {
        match v {
            Value::Record(els) => {
                if els.len() == 10 {
                    let title = match <String>::from_structured_value(&els[0]) {
                        Ok(x) => x,
                        Err(e) => {
                            proof {
                                lemma_model_seq(els@);
                                assert(Value::model_seq(els@)[0] == els@[0].model());
                                assert(Value::model_seq(els@)[1] == els@[1].model());
                                assert(Value::model_seq(els@)[2] == els@[2].model());
                                assert(Value::model_seq(els@)[3] == els@[3].model());
                                assert(Value::model_seq(els@)[4] == els@[4].model());
                                assert(Value::model_seq(els@)[5] == els@[5].model());
                                assert(Value::model_seq(els@)[6] == els@[6].model());
                                assert(Value::model_seq(els@)[7] == els@[7].model());
                                assert(Value::model_seq(els@)[8] == els@[8].model());
                                assert(Value::model_seq(els@)[9] == els@[9].model());
                                assert(v.model()->Record_0 == Value::model_seq(els@));
                            }
                            return Err(e);
                        },
                    };
                    let url = match <String>::from_structured_value(&els[1]) {
                        Ok(x) => x,
                        Err(e) => {
                            proof {
                                lemma_model_seq(els@);
                                assert(Value::model_seq(els@)[0] == els@[0].model());
                                assert(Value::model_seq(els@)[1] == els@[1].model());
                                assert(Value::model_seq(els@)[2] == els@[2].model());
                                assert(Value::model_seq(els@)[3] == els@[3].model());
                                assert(Value::model_seq(els@)[4] == els@[4].model());
                                assert(Value::model_seq(els@)[5] == els@[5].model());
                                assert(Value::model_seq(els@)[6] == els@[6].model());
                                assert(Value::model_seq(els@)[7] == els@[7].model());
                                assert(Value::model_seq(els@)[8] == els@[8].model());
                                assert(Value::model_seq(els@)[9] == els@[9].model());
                                assert(v.model()->Record_0 == Value::model_seq(els@));
                            }
                            return Err(e);
                        },
                    };
                    let snippet = match <String>::from_structured_value(&els[2]) {
                        Ok(x) => x,
                        Err(e) => {
                            proof {
                                lemma_model_seq(els@);
                                assert(Value::model_seq(els@)[0] == els@[0].model());
                                assert(Value::model_seq(els@)[1] == els@[1].model());
                                assert(Value::model_seq(els@)[2] == els@[2].model());
                                assert(Value::model_seq(els@)[3] == els@[3].model());
                                assert(Value::model_seq(els@)[4] == els@[4].model());
                                assert(Value::model_seq(els@)[5] == els@[5].model());
                                assert(Value::model_seq(els@)[6] == els@[6].model());
                                assert(Value::model_seq(els@)[7] == els@[7].model());
                                assert(Value::model_seq(els@)[8] == els@[8].model());
                                assert(Value::model_seq(els@)[9] == els@[9].model());
                                assert(v.model()->Record_0 == Value::model_seq(els@));
                            }
                            return Err(e);
                        },
                    };
                    let display_url = match <Option<String>>::from_structured_value(&els[3]) {
                        Ok(x) => x,
                        Err(e) => {
                            proof {
                                lemma_model_seq(els@);
                                assert(Value::model_seq(els@)[0] == els@[0].model());
                                assert(Value::model_seq(els@)[1] == els@[1].model());
                                assert(Value::model_seq(els@)[2] == els@[2].model());
                                assert(Value::model_seq(els@)[3] == els@[3].model());
                                assert(Value::model_seq(els@)[4] == els@[4].model());
                                assert(Value::model_seq(els@)[5] == els@[5].model());
                                assert(Value::model_seq(els@)[6] == els@[6].model());
                                assert(Value::model_seq(els@)[7] == els@[7].model());
                                assert(Value::model_seq(els@)[8] == els@[8].model());
                                assert(Value::model_seq(els@)[9] == els@[9].model());
                                assert(v.model()->Record_0 == Value::model_seq(els@));
                            }
                            return Err(e);
                        },
                    };
                    let source = match <Option<String>>::from_structured_value(&els[4]) {
                        Ok(x) => x,
                        Err(e) => {
                            proof {
                                lemma_model_seq(els@);
                                assert(Value::model_seq(els@)[0] == els@[0].model());
                                assert(Value::model_seq(els@)[1] == els@[1].model());
                                assert(Value::model_seq(els@)[2] == els@[2].model());
                                assert(Value::model_seq(els@)[3] == els@[3].model());
                                assert(Value::model_seq(els@)[4] == els@[4].model());
                                assert(Value::model_seq(els@)[5] == els@[5].model());
                                assert(Value::model_seq(els@)[6] == els@[6].model());
                                assert(Value::model_seq(els@)[7] == els@[7].model());
                                assert(Value::model_seq(els@)[8] == els@[8].model());
                                assert(Value::model_seq(els@)[9] == els@[9].model());
                                assert(v.model()->Record_0 == Value::model_seq(els@));
                            }
                            return Err(e);
                        },
                    };
                    let score = match <Option<u64>>::from_structured_value(&els[5]) {
                        Ok(x) => x,
                        Err(e) => {
                            proof {
                                lemma_model_seq(els@);
                                assert(Value::model_seq(els@)[0] == els@[0].model());
                                assert(Value::model_seq(els@)[1] == els@[1].model());
                                assert(Value::model_seq(els@)[2] == els@[2].model());
                                assert(Value::model_seq(els@)[3] == els@[3].model());
                                assert(Value::model_seq(els@)[4] == els@[4].model());
                                assert(Value::model_seq(els@)[5] == els@[5].model());
                                assert(Value::model_seq(els@)[6] == els@[6].model());
                                assert(Value::model_seq(els@)[7] == els@[7].model());
                                assert(Value::model_seq(els@)[8] == els@[8].model());
                                assert(Value::model_seq(els@)[9] == els@[9].model());
                                assert(v.model()->Record_0 == Value::model_seq(els@));
                            }
                            return Err(e);
                        },
                    };
                    let html_snippet = match <Option<String>>::from_structured_value(&els[6]) {
                        Ok(x) => x,
                        Err(e) => {
                            proof {
                                lemma_model_seq(els@);
                                assert(Value::model_seq(els@)[0] == els@[0].model());
                                assert(Value::model_seq(els@)[1] == els@[1].model());
                                assert(Value::model_seq(els@)[2] == els@[2].model());
                                assert(Value::model_seq(els@)[3] == els@[3].model());
                                assert(Value::model_seq(els@)[4] == els@[4].model());
                                assert(Value::model_seq(els@)[5] == els@[5].model());
                                assert(Value::model_seq(els@)[6] == els@[6].model());
                                assert(Value::model_seq(els@)[7] == els@[7].model());
                                assert(Value::model_seq(els@)[8] == els@[8].model());
                                assert(Value::model_seq(els@)[9] == els@[9].model());
                                assert(v.model()->Record_0 == Value::model_seq(els@));
                            }
                            return Err(e);
                        },
                    };
                    let date_published = match <Option<String>>::from_structured_value(&els[7]) {
                        Ok(x) => x,
                        Err(e) => {
                            proof {
                                lemma_model_seq(els@);
                                assert(Value::model_seq(els@)[0] == els@[0].model());
                                assert(Value::model_seq(els@)[1] == els@[1].model());
                                assert(Value::model_seq(els@)[2] == els@[2].model());
                                assert(Value::model_seq(els@)[3] == els@[3].model());
                                assert(Value::model_seq(els@)[4] == els@[4].model());
                                assert(Value::model_seq(els@)[5] == els@[5].model());
                                assert(Value::model_seq(els@)[6] == els@[6].model());
                                assert(Value::model_seq(els@)[7] == els@[7].model());
                                assert(Value::model_seq(els@)[8] == els@[8].model());
                                assert(Value::model_seq(els@)[9] == els@[9].model());
                                assert(v.model()->Record_0 == Value::model_seq(els@));
                            }
                            return Err(e);
                        },
                    };
                    let images = match <Option<Vec<ImageResult>>>::from_structured_value(&els[8]) {
                        Ok(x) => x,
                        Err(e) => {
                            proof {
                                lemma_model_seq(els@);
                                assert(Value::model_seq(els@)[0] == els@[0].model());
                                assert(Value::model_seq(els@)[1] == els@[1].model());
                                assert(Value::model_seq(els@)[2] == els@[2].model());
                                assert(Value::model_seq(els@)[3] == els@[3].model());
                                assert(Value::model_seq(els@)[4] == els@[4].model());
                                assert(Value::model_seq(els@)[5] == els@[5].model());
                                assert(Value::model_seq(els@)[6] == els@[6].model());
                                assert(Value::model_seq(els@)[7] == els@[7].model());
                                assert(Value::model_seq(els@)[8] == els@[8].model());
                                assert(Value::model_seq(els@)[9] == els@[9].model());
                                assert(v.model()->Record_0 == Value::model_seq(els@));
                            }
                            return Err(e);
                        },
                    };
                    let content_chunks = match <Option<Vec<String>>>::from_structured_value(&els[9]) {
                        Ok(x) => x,
                        Err(e) => {
                            proof {
                                lemma_model_seq(els@);
                                assert(Value::model_seq(els@)[0] == els@[0].model());
                                assert(Value::model_seq(els@)[1] == els@[1].model());
                                assert(Value::model_seq(els@)[2] == els@[2].model());
                                assert(Value::model_seq(els@)[3] == els@[3].model());
                                assert(Value::model_seq(els@)[4] == els@[4].model());
                                assert(Value::model_seq(els@)[5] == els@[5].model());
                                assert(Value::model_seq(els@)[6] == els@[6].model());
                                assert(Value::model_seq(els@)[7] == els@[7].model());
                                assert(Value::model_seq(els@)[8] == els@[8].model());
                                assert(Value::model_seq(els@)[9] == els@[9].model());
                                assert(v.model()->Record_0 == Value::model_seq(els@));
                            }
                            return Err(e);
                        },
                    };
                    proof {
                        lemma_model_seq(els@);
            assert(Value::model_seq(els@)[0] == els@[0].model());
            assert(Value::model_seq(els@)[1] == els@[1].model());
            assert(Value::model_seq(els@)[2] == els@[2].model());
            assert(Value::model_seq(els@)[3] == els@[3].model());
            assert(Value::model_seq(els@)[4] == els@[4].model());
            assert(Value::model_seq(els@)[5] == els@[5].model());
            assert(Value::model_seq(els@)[6] == els@[6].model());
            assert(Value::model_seq(els@)[7] == els@[7].model());
            assert(Value::model_seq(els@)[8] == els@[8].model());
            assert(Value::model_seq(els@)[9] == els@[9].model());
                        assert(v.model()->Record_0 == Value::model_seq(els@));
                        assert(Value::model_seq(els@) =~= seq![title.encoded(), url.encoded(), snippet.encoded(), display_url.encoded(), source.encoded(), score.encoded(), html_snippet.encoded(), date_published.encoded(), images.encoded(), content_chunks.encoded()]);
                    }
                    Ok(SearchResult { title: title, url: url, snippet: snippet, display_url: display_url, source: source, score: score, html_snippet: html_snippet, date_published: date_published, images: images, content_chunks: content_chunks })
                } else {
                    proof {
                        lemma_model_seq(els@);
                    }
                    Err(DecodeError::Shape)
                }
            },
            _ => Err(DecodeError::Shape),
        }
    }

    fn describe_shape() -> (t: TypeDescriptor) {
        let mut els: Vec<TypeDescriptor> = Vec::new();
        els.push(<String>::describe_shape());
        els.push(<String>::describe_shape());
        els.push(<String>::describe_shape());
        els.push(<Option<String>>::describe_shape());
        els.push(<Option<String>>::describe_shape());
        els.push(<Option<u64>>::describe_shape());
        els.push(<Option<String>>::describe_shape());
        els.push(<Option<String>>::describe_shape());
        els.push(<Option<Vec<ImageResult>>>::describe_shape());
        els.push(<Option<Vec<String>>>::describe_shape());
        TypeDescriptor::Record(els)
    }

    proof fn encoded_decodable(&self) {
        <String>::encoded_decodable(&self.title);
        <String>::encoded_decodable(&self.url);
        <String>::encoded_decodable(&self.snippet);
        <Option<String>>::encoded_decodable(&self.display_url);
        <Option<String>>::encoded_decodable(&self.source);
        <Option<u64>>::encoded_decodable(&self.score);
        <Option<String>>::encoded_decodable(&self.html_snippet);
        <Option<String>>::encoded_decodable(&self.date_published);
        <Option<Vec<ImageResult>>>::encoded_decodable(&self.images);
        <Option<Vec<String>>>::encoded_decodable(&self.content_chunks);
    }
}

impl Codec for SearchMetadata {
    open spec fn decode_failure(m: ValueModel) -> DecodeError {
        match m {
            ValueModel::Record(els) => if els.len() != 8 {
                DecodeError::Shape
            } else if !<String>::decodable(els[0]) {
                <String>::decode_failure(els[0])
            } else if !<Option<u64>>::decodable(els[1]) {
                <Option<u64>>::decode_failure(els[1])
            } else if !<Option<u64>>::decodable(els[2]) {
                <Option<u64>>::decode_failure(els[2])
            } else if !<Option<SafeSearchLevel>>::decodable(els[3]) {
                <Option<SafeSearchLevel>>::decode_failure(els[3])
            } else if !<Option<String>>::decodable(els[4]) {
                <Option<String>>::decode_failure(els[4])
            } else if !<Option<String>>::decodable(els[5]) {
                <Option<String>>::decode_failure(els[5])
            } else if !<Option<String>>::decodable(els[6]) {
                <Option<String>>::decode_failure(els[6])
            } else {
                <Option<RateLimitInfo>>::decode_failure(els[7])
            },
            _ => DecodeError::Shape,
        }
    }

    open spec fn encoded(&self) -> ValueModel {
        ValueModel::Record(seq![self.query.encoded(), self.total_results.encoded(), self.search_time_ms.encoded(), self.safe_search.encoded(), self.language.encoded(), self.region.encoded(), self.next_page_token.encoded(), self.rate_limits.encoded()])
    }

    open spec fn decodable(m: ValueModel) -> bool {
        m matches ValueModel::Record(els) && els.len() == 8 && <String>::decodable(els[0]) && <Option<u64>>::decodable(els[1]) && <Option<u64>>::decodable(els[2]) && <Option<SafeSearchLevel>>::decodable(els[3]) && <Option<String>>::decodable(els[4]) && <Option<String>>::decodable(els[5]) && <Option<String>>::decodable(els[6]) && <Option<RateLimitInfo>>::decodable(els[7])
    }

    fn to_structured_value(&self) -> (v: Value) {
        let mut els: Vec<Value> = Vec::new();
        els.push(self.query.to_structured_value());
        els.push(self.total_results.to_structured_value());
        els.push(self.search_time_ms.to_structured_value());
        els.push(self.safe_search.to_structured_value());
        els.push(self.language.to_structured_value());
        els.push(self.region.to_structured_value());
        els.push(self.next_page_token.to_structured_value());
        els.push(self.rate_limits.to_structured_value());
        proof {
            lemma_model_seq(els@);
            assert(Value::model_seq(els@)[0] == els@[0].model());
            assert(Value::model_seq(els@)[1] == els@[1].model());
            assert(Value::model_seq(els@)[2] == els@[2].model());
            assert(Value::model_seq(els@)[3] == els@[3].model());
            assert(Value::model_seq(els@)[4] == els@[4].model());
            assert(Value::model_seq(els@)[5] == els@[5].model());
            assert(Value::model_seq(els@)[6] == els@[6].model());
            assert(Value::model_seq(els@)[7] == els@[7].model());
            assert(Value::model_seq(els@) =~= seq![self.query.encoded(), self.total_results.encoded(), self.search_time_ms.encoded(), self.safe_search.encoded(), self.language.encoded(), self.region.encoded(), self.next_page_token.encoded(), self.rate_limits.encoded()]);
        }
        Value::Record(els)
    }

    fn from_structured_value(v: &Value) -> (r: Result<Self, DecodeError>) {
        match v {
            Value::Record(els) => {
                if els.len() == 8 {
                    let query = match <String>::from_structured_value(&els[0]) {
                        Ok(x) => x,
                        Err(e) => {
                            proof {
                                lemma_model_seq(els@);
                                assert(Value::model_seq(els@)[0] == els@[0].model());
                                assert(Value::model_seq(els@)[1] == els@[1].model());
                                assert(Value::model_seq(els@)[2] == els@[2].model());
                                assert(Value::model_seq(els@)[3] == els@[3].model());
                                assert(Value::model_seq(els@)[4] == els@[4].model());
                                assert(Value::model_seq(els@)[5] == els@[5].model());
                                assert(Value::model_seq(els@)[6] == els@[6].model());
                                assert(Value::model_seq(els@)[7] == els@[7].model());
                                assert(v.model()->Record_0 == Value::model_seq(els@));
                            }
                            return Err(e);
                        },
                    };
                    let total_results = match <Option<u64>>::from_structured_value(&els[1]) {
                        Ok(x) => x,
                        Err(e) => {
                            proof {
                                lemma_model_seq(els@);
                                assert(Value::model_seq(els@)[0] == els@[0].model());
                                assert(Value::model_seq(els@)[1] == els@[1].model());
                                assert(Value::model_seq(els@)[2] == els@[2].model());
                                assert(Value::model_seq(els@)[3] == els@[3].model());
                                assert(Value::model_seq(els@)[4] == els@[4].model());
                                assert(Value::model_seq(els@)[5] == els@[5].model());
                                assert(Value::model_seq(els@)[6] == els@[6].model());
                                assert(Value::model_seq(els@)[7] == els@[7].model());
                                assert(v.model()->Record_0 == Value::model_seq(els@));
                            }
                            return Err(e);
                        },
                    };
                    let search_time_ms = match <Option<u64>>::from_structured_value(&els[2]) {
                        Ok(x) => x,
                        Err(e) => {
                            proof {
                                lemma_model_seq(els@);
                                assert(Value::model_seq(els@)[0] == els@[0].model());
                                assert(Value::model_seq(els@)[1] == els@[1].model());
                                assert(Value::model_seq(els@)[2] == els@[2].model());
                                assert(Value::model_seq(els@)[3] == els@[3].model());
                                assert(Value::model_seq(els@)[4] == els@[4].model());
                                assert(Value::model_seq(els@)[5] == els@[5].model());
                                assert(Value::model_seq(els@)[6] == els@[6].model());
                                assert(Value::model_seq(els@)[7] == els@[7].model());
                                assert(v.model()->Record_0 == Value::model_seq(els@));
                            }
                            return Err(e);
                        },
                    };
                    let safe_search = match <Option<SafeSearchLevel>>::from_structured_value(&els[3]) {
                        Ok(x) => x,
                        Err(e) => {
                            proof {
                                lemma_model_seq(els@);
                                assert(Value::model_seq(els@)[0] == els@[0].model());
                                assert(Value::model_seq(els@)[1] == els@[1].model());
                                assert(Value::model_seq(els@)[2] == els@[2].model());
                                assert(Value::model_seq(els@)[3] == els@[3].model());
                                assert(Value::model_seq(els@)[4] == els@[4].model());
                                assert(Value::model_seq(els@)[5] == els@[5].model());
                                assert(Value::model_seq(els@)[6] == els@[6].model());
                                assert(Value::model_seq(els@)[7] == els@[7].model());
                                assert(v.model()->Record_0 == Value::model_seq(els@));
                            }
                            return Err(e);
                        },
                    };
                    let language = match <Option<String>>::from_structured_value(&els[4]) {
                        Ok(x) => x,
                        Err(e) => {
                            proof {
                                lemma_model_seq(els@);
                                assert(Value::model_seq(els@)[0] == els@[0].model());
                                assert(Value::model_seq(els@)[1] == els@[1].model());
                                assert(Value::model_seq(els@)[2] == els@[2].model());
                                assert(Value::model_seq(els@)[3] == els@[3].model());
                                assert(Value::model_seq(els@)[4] == els@[4].model());
                                assert(Value::model_seq(els@)[5] == els@[5].model());
                                assert(Value::model_seq(els@)[6] == els@[6].model());
                                assert(Value::model_seq(els@)[7] == els@[7].model());
                                assert(v.model()->Record_0 == Value::model_seq(els@));
                            }
                            return Err(e);
                        },
                    };
                    let region = match <Option<String>>::from_structured_value(&els[5]) {
                        Ok(x) => x,
                        Err(e) => {
                            proof {
                                lemma_model_seq(els@);
                                assert(Value::model_seq(els@)[0] == els@[0].model());
                                assert(Value::model_seq(els@)[1] == els@[1].model());
                                assert(Value::model_seq(els@)[2] == els@[2].model());
                                assert(Value::model_seq(els@)[3] == els@[3].model());
                                assert(Value::model_seq(els@)[4] == els@[4].model());
                                assert(Value::model_seq(els@)[5] == els@[5].model());
                                assert(Value::model_seq(els@)[6] == els@[6].model());
                                assert(Value::model_seq(els@)[7] == els@[7].model());
                                assert(v.model()->Record_0 == Value::model_seq(els@));
                            }
                            return Err(e);
                        },
                    };
                    let next_page_token = match <Option<String>>::from_structured_value(&els[6]) {
                        Ok(x) => x,
                        Err(e) => {
                            proof {
                                lemma_model_seq(els@);
                                assert(Value::model_seq(els@)[0] == els@[0].model());
                                assert(Value::model_seq(els@)[1] == els@[1].model());
                                assert(Value::model_seq(els@)[2] == els@[2].model());
                                assert(Value::model_seq(els@)[3] == els@[3].model());
                                assert(Value::model_seq(els@)[4] == els@[4].model());
                                assert(Value::model_seq(els@)[5] == els@[5].model());
                                assert(Value::model_seq(els@)[6] == els@[6].model());
                                assert(Value::model_seq(els@)[7] == els@[7].model());
                                assert(v.model()->Record_0 == Value::model_seq(els@));
                            }
                            return Err(e);
                        },
                    };
                    let rate_limits = match <Option<RateLimitInfo>>::from_structured_value(&els[7]) {
                        Ok(x) => x,
                        Err(e) => {
                            proof {
                                lemma_model_seq(els@);
                                assert(Value::model_seq(els@)[0] == els@[0].model());
                                assert(Value::model_seq(els@)[1] == els@[1].model());
                                assert(Value::model_seq(els@)[2] == els@[2].model());
                                assert(Value::model_seq(els@)[3] == els@[3].model());
                                assert(Value::model_seq(els@)[4] == els@[4].model());
                                assert(Value::model_seq(els@)[5] == els@[5].model());
                                assert(Value::model_seq(els@)[6] == els@[6].model());
                                assert(Value::model_seq(els@)[7] == els@[7].model());
                                assert(v.model()->Record_0 == Value::model_seq(els@));
                            }
                            return Err(e);
                        },
                    };
                    proof {
                        lemma_model_seq(els@);
            assert(Value::model_seq(els@)[0] == els@[0].model());
            assert(Value::model_seq(els@)[1] == els@[1].model());
            assert(Value::model_seq(els@)[2] == els@[2].model());
            assert(Value::model_seq(els@)[3] == els@[3].model());
            assert(Value::model_seq(els@)[4] == els@[4].model());
            assert(Value::model_seq(els@)[5] == els@[5].model());
            assert(Value::model_seq(els@)[6] == els@[6].model());
            assert(Value::model_seq(els@)[7] == els@[7].model());
                        assert(v.model()->Record_0 == Value::model_seq(els@));
                        assert(Value::model_seq(els@) =~= seq![query.encoded(), total_results.encoded(), search_time_ms.encoded(), safe_search.encoded(), language.encoded(), region.encoded(), next_page_token.encoded(), rate_limits.encoded()]);
                    }
                    Ok(SearchMetadata { query: query, total_results: total_results, search_time_ms: search_time_ms, safe_search: safe_search, language: language, region: region, next_page_token: next_page_token, rate_limits: rate_limits })
                } else {
                    proof {
                        lemma_model_seq(els@);
                    }
                    Err(DecodeError::Shape)
                }
            },
            _ => Err(DecodeError::Shape),
        }
    }

    fn describe_shape() -> (t: TypeDescriptor) {
        let mut els: Vec<TypeDescriptor> = Vec::new();
        els.push(<String>::describe_shape());
        els.push(<Option<u64>>::describe_shape());
        els.push(<Option<u64>>::describe_shape());
        els.push(<Option<SafeSearchLevel>>::describe_shape());
        els.push(<Option<String>>::describe_shape());
        els.push(<Option<String>>::describe_shape());
        els.push(<Option<String>>::describe_shape());
        els.push(<Option<RateLimitInfo>>::describe_shape());
        TypeDescriptor::Record(els)
    }

    proof fn encoded_decodable(&self) {
        <String>::encoded_decodable(&self.query);
        <Option<u64>>::encoded_decodable(&self.total_results);
        <Option<u64>>::encoded_decodable(&self.search_time_ms);
        <Option<SafeSearchLevel>>::encoded_decodable(&self.safe_search);
        <Option<String>>::encoded_decodable(&self.language);
        <Option<String>>::encoded_decodable(&self.region);
        <Option<String>>::encoded_decodable(&self.next_page_token);
        <Option<RateLimitInfo>>::encoded_decodable(&self.rate_limits);
    }
}

impl Codec for SearchParams {
    open spec fn decode_failure(m: ValueModel) -> DecodeError {
        match m {
            ValueModel::Record(els) => if els.len() != 11 {
                DecodeError::Shape
            } else if !<String>::decodable(els[0]) {
                <String>::decode_failure(els[0])
            } else if !<Option<SafeSearchLevel>>::decodable(els[1]) {
                <Option<SafeSearchLevel>>::decode_failure(els[1])
            } else if !<Option<String>>::decodable(els[2]) {
                <Option<String>>::decode_failure(els[2])
            } else if !<Option<String>>::decodable(els[3]) {
                <Option<String>>::decode_failure(els[3])
            } else if !<Option<u32>>::decodable(els[4]) {
                <Option<u32>>::decode_failure(els[4])
            } else if !<Option<TimeRange>>::decodable(els[5]) {
                <Option<TimeRange>>::decode_failure(els[5])
            } else if !<Option<Vec<String>>>::decodable(els[6]) {
                <Option<Vec<String>>>::decode_failure(els[6])
            } else if !<Option<Vec<String>>>::decodable(els[7]) {
                <Option<Vec<String>>>::decode_failure(els[7])
            } else if !<Option<bool>>::decodable(els[8]) {
                <Option<bool>>::decode_failure(els[8])
            } else if !<Option<bool>>::decodable(els[9]) {
                <Option<bool>>::decode_failure(els[9])
            } else {
                <Option<bool>>::decode_failure(els[10])
            },
            _ => DecodeError::Shape,
        }
    }

    open spec fn encoded(&self) -> ValueModel {
        ValueModel::Record(seq![self.query.encoded(), self.safe_search.encoded(), self.language.encoded(), self.region.encoded(), self.max_results.encoded(), self.time_range.encoded(), self.include_domains.encoded(), self.exclude_domains.encoded(), self.include_images.encoded(), self.include_html.encoded(), self.advanced_answer.encoded()])
    }

    open spec fn decodable(m: ValueModel) -> bool {
        m matches ValueModel::Record(els) && els.len() == 11 && <String>::decodable(els[0]) && <Option<SafeSearchLevel>>::decodable(els[1]) && <Option<String>>::decodable(els[2]) && <Option<String>>::decodable(els[3]) && <Option<u32>>::decodable(els[4]) && <Option<TimeRange>>::decodable(els[5]) && <Option<Vec<String>>>::decodable(els[6]) && <Option<Vec<String>>>::decodable(els[7]) && <Option<bool>>::decodable(els[8]) && <Option<bool>>::decodable(els[9]) && <Option<bool>>::decodable(els[10])
    }

    fn to_structured_value(&self) -> (v: Value) {
        let mut els: Vec<Value> = Vec::new();
        els.push(self.query.to_structured_value());
        els.push(self.safe_search.to_structured_value());
        els.push(self.language.to_structured_value());
        els.push(self.region.to_structured_value());
        els.push(self.max_results.to_structured_value());
        els.push(self.time_range.to_structured_value());
        els.push(self.include_domains.to_structured_value());
        els.push(self.exclude_domains.to_structured_value());
        els.push(self.include_images.to_structured_value());
        els.push(self.include_html.to_structured_value());
        els.push(self.advanced_answer.to_structured_value());
        proof {
            lemma_model_seq(els@);
            assert(Value::model_seq(els@)[0] == els@[0].model());
            assert(Value::model_seq(els@)[1] == els@[1].model());
            assert(Value::model_seq(els@)[2] == els@[2].model());
            assert(Value::model_seq(els@)[3] == els@[3].model());
            assert(Value::model_seq(els@)[4] == els@[4].model());
            assert(Value::model_seq(els@)[5] == els@[5].model());
            assert(Value::model_seq(els@)[6] == els@[6].model());
            assert(Value::model_seq(els@)[7] == els@[7].model());
            assert(Value::model_seq(els@)[8] == els@[8].model());
            assert(Value::model_seq(els@)[9] == els@[9].model());
            assert(Value::model_seq(els@)[10] == els@[10].model());
            assert(Value::model_seq(els@) =~= seq![self.query.encoded(), self.safe_search.encoded(), self.language.encoded(), self.region.encoded(), self.max_results.encoded(), self.time_range.encoded(), self.include_domains.encoded(), self.exclude_domains.encoded(), self.include_images.encoded(), self.include_html.encoded(), self.advanced_answer.encoded()]);
        }
        Value::Record(els)
    }

    fn from_structured_value(v: &Value) -> (r: Result<Self, DecodeError>) {
        match v {
            Value::Record(els) => {
                if els.len() == 11 {
                    let query = match <String>::from_structured_value(&els[0]) {
                        Ok(x) => x,
                        Err(e) => {
                            proof {
                                lemma_model_seq(els@);
                                assert(Value::model_seq(els@)[0] == els@[0].model());
                                assert(Value::model_seq(els@)[1] == els@[1].model());
                                assert(Value::model_seq(els@)[2] == els@[2].model());
                                assert(Value::model_seq(els@)[3] == els@[3].model());
                                assert(Value::model_seq(els@)[4] == els@[4].model());
                                assert(Value::model_seq(els@)[5] == els@[5].model());
                                assert(Value::model_seq(els@)[6] == els@[6].model());
                                assert(Value::model_seq(els@)[7] == els@[7].model());
                                assert(Value::model_seq(els@)[8] == els@[8].model());
                                assert(Value::model_seq(els@)[9] == els@[9].model());
                                assert(Value::model_seq(els@)[10] == els@[10].model());
                                assert(v.model()->Record_0 == Value::model_seq(els@));
                            }
                            return Err(e);
                        },
                    };
                    let safe_search = match <Option<SafeSearchLevel>>::from_structured_value(&els[1]) {
                        Ok(x) => x,
                        Err(e) => {
                            proof {
                                lemma_model_seq(els@);
                                assert(Value::model_seq(els@)[0] == els@[0].model());
                                assert(Value::model_seq(els@)[1] == els@[1].model());
                                assert(Value::model_seq(els@)[2] == els@[2].model());
                                assert(Value::model_seq(els@)[3] == els@[3].model());
                                assert(Value::model_seq(els@)[4] == els@[4].model());
                                assert(Value::model_seq(els@)[5] == els@[5].model());
                                assert(Value::model_seq(els@)[6] == els@[6].model());
                                assert(Value::model_seq(els@)[7] == els@[7].model());
                                assert(Value::model_seq(els@)[8] == els@[8].model());
                                assert(Value::model_seq(els@)[9] == els@[9].model());
                                assert(Value::model_seq(els@)[10] == els@[10].model());
                                assert(v.model()->Record_0 == Value::model_seq(els@));
                            }
                            return Err(e);
                        },
                    };
                    let language = match <Option<String>>::from_structured_value(&els[2]) {
                        Ok(x) => x,
                        Err(e) => {
                            proof {
                                lemma_model_seq(els@);
                                assert(Value::model_seq(els@)[0] == els@[0].model());
                                assert(Value::model_seq(els@)[1] == els@[1].model());
                                assert(Value::model_seq(els@)[2] == els@[2].model());
                                assert(Value::model_seq(els@)[3] == els@[3].model());
                                assert(Value::model_seq(els@)[4] == els@[4].model());
                                assert(Value::model_seq(els@)[5] == els@[5].model());
                                assert(Value::model_seq(els@)[6] == els@[6].model());
                                assert(Value::model_seq(els@)[7] == els@[7].model());
                                assert(Value::model_seq(els@)[8] == els@[8].model());
                                assert(Value::model_seq(els@)[9] == els@[9].model());
                                assert(Value::model_seq(els@)[10] == els@[10].model());
                                assert(v.model()->Record_0 == Value::model_seq(els@));
                            }
                            return Err(e);
                        },
                    };
                    let region = match <Option<String>>::from_structured_value(&els[3]) {
                        Ok(x) => x,
                        Err(e) => {
                            proof {
                                lemma_model_seq(els@);
                                assert(Value::model_seq(els@)[0] == els@[0].model());
                                assert(Value::model_seq(els@)[1] == els@[1].model());
                                assert(Value::model_seq(els@)[2] == els@[2].model());
                                assert(Value::model_seq(els@)[3] == els@[3].model());
                                assert(Value::model_seq(els@)[4] == els@[4].model());
                                assert(Value::model_seq(els@)[5] == els@[5].model());
                                assert(Value::model_seq(els@)[6] == els@[6].model());
                                assert(Value::model_seq(els@)[7] == els@[7].model());
                                assert(Value::model_seq(els@)[8] == els@[8].model());
                                assert(Value::model_seq(els@)[9] == els@[9].model());
                                assert(Value::model_seq(els@)[10] == els@[10].model());
                                assert(v.model()->Record_0 == Value::model_seq(els@));
                            }
                            return Err(e);
                        },
                    };
                    let max_results = match <Option<u32>>::from_structured_value(&els[4]) {
                        Ok(x) => x,
                        Err(e) => {
                            proof {
                                lemma_model_seq(els@);
                                assert(Value::model_seq(els@)[0] == els@[0].model());
                                assert(Value::model_seq(els@)[1] == els@[1].model());
                                assert(Value::model_seq(els@)[2] == els@[2].model());
                                assert(Value::model_seq(els@)[3] == els@[3].model());
                                assert(Value::model_seq(els@)[4] == els@[4].model());
                                assert(Value::model_seq(els@)[5] == els@[5].model());
                                assert(Value::model_seq(els@)[6] == els@[6].model());
                                assert(Value::model_seq(els@)[7] == els@[7].model());
                                assert(Value::model_seq(els@)[8] == els@[8].model());
                                assert(Value::model_seq(els@)[9] == els@[9].model());
                                assert(Value::model_seq(els@)[10] == els@[10].model());
                                assert(v.model()->Record_0 == Value::model_seq(els@));
                            }
                            return Err(e);
                        },
                    };
                    let time_range = match <Option<TimeRange>>::from_structured_value(&els[5]) {
                        Ok(x) => x,
                        Err(e) => {
                            proof {
                                lemma_model_seq(els@);
                                assert(Value::model_seq(els@)[0] == els@[0].model());
                                assert(Value::model_seq(els@)[1] == els@[1].model());
                                assert(Value::model_seq(els@)[2] == els@[2].model());
                                assert(Value::model_seq(els@)[3] == els@[3].model());
                                assert(Value::model_seq(els@)[4] == els@[4].model());
                                assert(Value::model_seq(els@)[5] == els@[5].model());
                                assert(Value::model_seq(els@)[6] == els@[6].model());
                                assert(Value::model_seq(els@)[7] == els@[7].model());
                                assert(Value::model_seq(els@)[8] == els@[8].model());
                                assert(Value::model_seq(els@)[9] == els@[9].model());
                                assert(Value::model_seq(els@)[10] == els@[10].model());
                                assert(v.model()->Record_0 == Value::model_seq(els@));
                            }
                            return Err(e);
                        },
                    };
                    let include_domains = match <Option<Vec<String>>>::from_structured_value(&els[6]) {
                        Ok(x) => x,
                        Err(e) => {
                            proof {
                                lemma_model_seq(els@);
                                assert(Value::model_seq(els@)[0] == els@[0].model());
                                assert(Value::model_seq(els@)[1] == els@[1].model());
                                assert(Value::model_seq(els@)[2] == els@[2].model());
                                assert(Value::model_seq(els@)[3] == els@[3].model());
                                assert(Value::model_seq(els@)[4] == els@[4].model());
                                assert(Value::model_seq(els@)[5] == els@[5].model());
                                assert(Value::model_seq(els@)[6] == els@[6].model());
                                assert(Value::model_seq(els@)[7] == els@[7].model());
                                assert(Value::model_seq(els@)[8] == els@[8].model());
                                assert(Value::model_seq(els@)[9] == els@[9].model());
                                assert(Value::model_seq(els@)[10] == els@[10].model());
                                assert(v.model()->Record_0 == Value::model_seq(els@));
                            }
                            return Err(e);
                        },
                    };
                    let exclude_domains = match <Option<Vec<String>>>::from_structured_value(&els[7]) {
                        Ok(x) => x,
                        Err(e) => {
                            proof {
                                lemma_model_seq(els@);
                                assert(Value::model_seq(els@)[0] == els@[0].model());
                                assert(Value::model_seq(els@)[1] == els@[1].model());
                                assert(Value::model_seq(els@)[2] == els@[2].model());
                                assert(Value::model_seq(els@)[3] == els@[3].model());
                                assert(Value::model_seq(els@)[4] == els@[4].model());
                                assert(Value::model_seq(els@)[5] == els@[5].model());
                                assert(Value::model_seq(els@)[6] == els@[6].model());
                                assert(Value::model_seq(els@)[7] == els@[7].model());
                                assert(Value::model_seq(els@)[8] == els@[8].model());
                                assert(Value::model_seq(els@)[9] == els@[9].model());
                                assert(Value::model_seq(els@)[10] == els@[10].model());
                                assert(v.model()->Record_0 == Value::model_seq(els@));
                            }
                            return Err(e);
                        },
                    };
                    let include_images = match <Option<bool>>::from_structured_value(&els[8]) {
                        Ok(x) => x,
                        Err(e) => {
                            proof {
                                lemma_model_seq(els@);
                                assert(Value::model_seq(els@)[0] == els@[0].model());
                                assert(Value::model_seq(els@)[1] == els@[1].model());
                                assert(Value::model_seq(els@)[2] == els@[2].model());
                                assert(Value::model_seq(els@)[3] == els@[3].model());
                                assert(Value::model_seq(els@)[4] == els@[4].model());
                                assert(Value::model_seq(els@)[5] == els@[5].model());
                                assert(Value::model_seq(els@)[6] == els@[6].model());
                                assert(Value::model_seq(els@)[7] == els@[7].model());
                                assert(Value::model_seq(els@)[8] == els@[8].model());
                                assert(Value::model_seq(els@)[9] == els@[9].model());
                                assert(Value::model_seq(els@)[10] == els@[10].model());
                                assert(v.model()->Record_0 == Value::model_seq(els@));
                            }
                            return Err(e);
                        },
                    };
                    let include_html = match <Option<bool>>::from_structured_value(&els[9]) {
                        Ok(x) => x,
                        Err(e) => {
                            proof {
                                lemma_model_seq(els@);
                                assert(Value::model_seq(els@)[0] == els@[0].model());
                                assert(Value::model_seq(els@)[1] == els@[1].model());
                                assert(Value::model_seq(els@)[2] == els@[2].model());
                                assert(Value::model_seq(els@)[3] == els@[3].model());
                                assert(Value::model_seq(els@)[4] == els@[4].model());
                                assert(Value::model_seq(els@)[5] == els@[5].model());
                                assert(Value::model_seq(els@)[6] == els@[6].model());
                                assert(Value::model_seq(els@)[7] == els@[7].model());
                                assert(Value::model_seq(els@)[8] == els@[8].model());
                                assert(Value::model_seq(els@)[9] == els@[9].model());
                                assert(Value::model_seq(els@)[10] == els@[10].model());
                                assert(v.model()->Record_0 == Value::model_seq(els@));
                            }
                            return Err(e);
                        },
                    };
                    let advanced_answer = match <Option<bool>>::from_structured_value(&els[10]) {
                        Ok(x) => x,
                        Err(e) => {
                            proof {
                                lemma_model_seq(els@);
                                assert(Value::model_seq(els@)[0] == els@[0].model());
                                assert(Value::model_seq(els@)[1] == els@[1].model());
                                assert(Value::model_seq(els@)[2] == els@[2].model());
                                assert(Value::model_seq(els@)[3] == els@[3].model());
                                assert(Value::model_seq(els@)[4] == els@[4].model());
                                assert(Value::model_seq(els@)[5] == els@[5].model());
                                assert(Value::model_seq(els@)[6] == els@[6].model());
                                assert(Value::model_seq(els@)[7] == els@[7].model());
                                assert(Value::model_seq(els@)[8] == els@[8].model());
                                assert(Value::model_seq(els@)[9] == els@[9].model());
                                assert(Value::model_seq(els@)[10] == els@[10].model());
                                assert(v.model()->Record_0 == Value::model_seq(els@));
                            }
                            return Err(e);
                        },
                    };
                    proof {
                        lemma_model_seq(els@);
            assert(Value::model_seq(els@)[0] == els@[0].model());
            assert(Value::model_seq(els@)[1] == els@[1].model());
            assert(Value::model_seq(els@)[2] == els@[2].model());
            assert(Value::model_seq(els@)[3] == els@[3].model());
            assert(Value::model_seq(els@)[4] == els@[4].model());
            assert(Value::model_seq(els@)[5] == els@[5].model());
            assert(Value::model_seq(els@)[6] == els@[6].model());
            assert(Value::model_seq(els@)[7] == els@[7].model());
            assert(Value::model_seq(els@)[8] == els@[8].model());
            assert(Value::model_seq(els@)[9] == els@[9].model());
            assert(Value::model_seq(els@)[10] == els@[10].model());
                        assert(v.model()->Record_0 == Value::model_seq(els@));
                        assert(Value::model_seq(els@) =~= seq![query.encoded(), safe_search.encoded(), language.encoded(), region.encoded(), max_results.encoded(), time_range.encoded(), include_domains.encoded(), exclude_domains.encoded(), include_images.encoded(), include_html.encoded(), advanced_answer.encoded()]);
                    }
                    Ok(SearchParams { query: query, safe_search: safe_search, language: language, region: region, max_results: max_results, time_range: time_range, include_domains: include_domains, exclude_domains: exclude_domains, include_images: include_images, include_html: include_html, advanced_answer: advanced_answer })
                } else {
                    proof {
                        lemma_model_seq(els@);
                    }
                    Err(DecodeError::Shape)
                }
            },
            _ => Err(DecodeError::Shape),
        }
    }

    fn describe_shape() -> (t: TypeDescriptor) {
        let mut els: Vec<TypeDescriptor> = Vec::new();
        els.push(<String>::describe_shape());
        els.push(<Option<SafeSearchLevel>>::describe_shape());
        els.push(<Option<String>>::describe_shape());
        els.push(<Option<String>>::describe_shape());
        els.push(<Option<u32>>::describe_shape());
        els.push(<Option<TimeRange>>::describe_shape());
        els.push(<Option<Vec<String>>>::describe_shape());
        els.push(<Option<Vec<String>>>::describe_shape());
        els.push(<Option<bool>>::describe_shape());
        els.push(<Option<bool>>::describe_shape());
        els.push(<Option<bool>>::describe_shape());
        TypeDescriptor::Record(els)
    }

    proof fn encoded_decodable(&self) {
        <String>::encoded_decodable(&self.query);
        <Option<SafeSearchLevel>>::encoded_decodable(&self.safe_search);
        <Option<String>>::encoded_decodable(&self.language);
        <Option<String>>::encoded_decodable(&self.region);
        <Option<u32>>::encoded_decodable(&self.max_results);
        <Option<TimeRange>>::encoded_decodable(&self.time_range);
        <Option<Vec<String>>>::encoded_decodable(&self.include_domains);
        <Option<Vec<String>>>::encoded_decodable(&self.exclude_domains);
        <Option<bool>>::encoded_decodable(&self.include_images);
        <Option<bool>>::encoded_decodable(&self.include_html);
        <Option<bool>>::encoded_decodable(&self.advanced_answer);
    }
}

} // verus!
