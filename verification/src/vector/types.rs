//! The vector-store capability surface: identifiers, vector payloads,
//! metadata, filters, collection and namespace descriptions, search inputs
//! and outputs, and the error taxonomy. Every type implements the structured
//! value codec, so whole vector-store interactions can be recorded in and
//! replayed from the durability log. Fractional quantities — vector
//! components, scores, distances — are carried as their bit patterns, and
//! nested metadata documents as flat values, since the wrapper only moves
//! them through the log.

use vstd::prelude::*;

use crate::codec::Codec;
use crate::value::{lemma_model_seq, DecodeError, TypeDescriptor, Value, ValueModel};

verus! {

/// How distances between vectors are measured.
#[derive(Debug, Clone, Copy, PartialEq, Eq, Structural)]
pub enum DistanceMetric {
    Cosine,
    Euclidean,
    DotProduct,
    Manhattan,
}

/// How a recommendation combines its examples.
#[derive(Debug, Clone, Copy, PartialEq, Eq, Structural)]
pub enum RecommendationStrategy {
    AverageVector,
    BestScore,
}

/// How a filter condition compares a field against a value.
#[derive(Debug, Clone, Copy, PartialEq, Eq, Structural)]
pub enum FilterOperator {
    Eq,
    Ne,
    Gt,
    Gte,
    Lt,
    Lte,
    In,
    NotIn,
    Contains,
}

/// A vector's identifier: numeric or textual.
#[derive(Debug, Clone, PartialEq, Eq)]
pub enum Id {
    Uint(u64),
    Str(String),
}

/// A sparse vector: paired indices and component bit patterns, in order.
#[derive(Debug, Clone, PartialEq, Eq)]
pub struct SparseVector {
    pub indices: Vec<u32>,
    pub values: Vec<u32>,
}

/// A vector payload. Dense and sparse components carry 32-bit IEEE-754 bit
/// patterns; binary vectors carry packed bits.
#[derive(Debug, Clone, PartialEq, Eq)]
pub enum VectorData {
    Dense(Vec<u32>),
    Sparse(SparseVector),
    Binary(Vec<u8>),
}

/// One plain metadata value. Fractional numbers are carried as 64-bit
/// IEEE-754 bit patterns and opaque payloads as byte blobs.
#[derive(Debug, Clone, PartialEq, Eq)]
pub enum MetadataValue {
    NullVal,
    BooleanVal(bool),
    IntegerVal(i64),
    NumberBits(u64),
    StringVal(String),
    BlobVal(Vec<u8>),
}

/// A metadata document: keys with their values, in order.
pub type Metadata = Vec<(String, MetadataValue)>;

/// One filter condition on a metadata field.
#[derive(Debug, Clone, PartialEq, Eq)]
pub struct FilterCondition {
    pub field: String,
    pub operator: FilterOperator,
    pub value: MetadataValue,
}

/// A filter over metadata: a single condition, or one boolean combination of
/// conditions.
#[derive(Debug, Clone, PartialEq, Eq)]
pub enum FilterExpression {
    Condition(FilterCondition),
    AndGroup(Vec<FilterCondition>),
    OrGroup(Vec<FilterCondition>),
    NotGroup(Vec<FilterCondition>),
}

/// How a caller authenticates against the store.
#[derive(Debug, Clone, PartialEq, Eq)]
pub struct Credentials {
    pub api_key: Option<String>,
    pub username: Option<String>,
    pub password: Option<String>,
    pub token: Option<String>,
}

/// What the store reports about the current connection.
#[derive(Debug, Clone, PartialEq, Eq)]
pub struct ConnectionStatus {
    pub connected: bool,
    pub endpoint: Option<String>,
    pub message: Option<String>,
}

/// What the store reports about a namespace.
#[derive(Debug, Clone, PartialEq, Eq)]
pub struct NamespaceInfo {
    pub name: String,
    pub vector_count: Option<u64>,
    pub metadata: Option<Metadata>,
}

/// How a collection's index is configured.
#[derive(Debug, Clone, PartialEq, Eq)]
pub struct IndexConfig {
    pub index_type: Option<String>,
    pub parameters: Option<Metadata>,
}

/// What the store reports about a collection.
#[derive(Debug, Clone, PartialEq, Eq)]
pub struct CollectionInfo {
    pub name: String,
    pub description: Option<String>,
    pub dimension: u32,
    pub metric: DistanceMetric,
    pub vector_count: Option<u64>,
    pub metadata: Option<Metadata>,
}

/// Aggregate statistics of a collection.
#[derive(Debug, Clone, PartialEq, Eq)]
pub struct CollectionStats {
    pub vector_count: u64,
    pub dimension: Option<u32>,
    pub size_bytes: Option<u64>,
}

/// Aggregate statistics of one metadata field.
#[derive(Debug, Clone, PartialEq, Eq)]
pub struct FieldStats {
    pub field: String,
    pub distinct_values: Option<u64>,
    pub min_value: Option<MetadataValue>,
    pub max_value: Option<MetadataValue>,
}

/// One stored vector with its identifier and metadata.
#[derive(Debug, Clone, PartialEq, Eq)]
pub struct VectorRecord {
    pub id: Id,
    pub vector: VectorData,
    pub metadata: Option<Metadata>,
}

/// What a similarity search starts from.
#[derive(Debug, Clone, PartialEq, Eq)]
pub enum SearchQuery {
    Vector(VectorData),
    Id(Id),
    Text(String),
}

/// One search hit. The score carries the provider's 32-bit IEEE-754 bit
/// pattern.
#[derive(Debug, Clone, PartialEq, Eq)]
pub struct SearchResult {
    pub id: Id,
    pub score_bits: u32,
    pub vector: Option<VectorData>,
    pub metadata: Option<Metadata>,
}

/// One group of a grouped search.
#[derive(Debug, Clone, PartialEq, Eq)]
pub struct GroupedSearchResult {
    pub group_key: MetadataValue,
    pub hits: Vec<SearchResult>,
}

/// A positive or negative example of a recommendation search.
#[derive(Debug, Clone, PartialEq, Eq)]
pub enum RecommendationExample {
    Id(Id),
    Vector(VectorData),
}

/// One positive/negative pair of a discovery search.
#[derive(Debug, Clone, PartialEq, Eq)]
pub struct ContextPair {
    pub positive: RecommendationExample,
    pub negative: RecommendationExample,
}

/// The outcome of a batch write.
#[derive(Debug, Clone, Copy, PartialEq, Eq, Structural)]
pub struct BatchResult {
    pub succeeded_count: u32,
    pub failed_count: u32,
}

/// One page of a vector listing.
#[derive(Debug, Clone, PartialEq, Eq)]
pub struct ListResponse {
    pub records: Vec<VectorRecord>,
    pub cursor: Option<Id>,
}

/// Why a vector-store operation failed. Provider failures pass through the
/// durability engine unchanged, persisted like any successful result.
#[derive(Debug, Clone, PartialEq, Eq)]
pub enum VectorError {
    ConnectionError(String),
    Unauthorized(String),
    NotFound(String),
    InvalidParams(String),
    UnsupportedFeature(String),
    ProviderError(String),
}

impl Codec for DistanceMetric {
    open spec fn decode_failure(m: ValueModel) -> DecodeError {
        match m {
            ValueModel::Variant(tag, payload) => DecodeError::Shape,
            _ => DecodeError::Shape,
        }
    }

    open spec fn encoded(&self) -> ValueModel {
        match self {
            DistanceMetric::Cosine => ValueModel::Variant(0, Seq::empty()),
            DistanceMetric::Euclidean => ValueModel::Variant(1, Seq::empty()),
            DistanceMetric::DotProduct => ValueModel::Variant(2, Seq::empty()),
            DistanceMetric::Manhattan => ValueModel::Variant(3, Seq::empty()),
        }
    }

    open spec fn decodable(m: ValueModel) -> bool {
        m matches ValueModel::Variant(tag, payload) && ((tag == 0 && payload.len() == 0) || (tag == 1 && payload.len() == 0) || (tag == 2 && payload.len() == 0) || (tag == 3 && payload.len() == 0))
    }

    fn to_structured_value(&self) -> (v: Value) {
        match self {
            DistanceMetric::Cosine => Value::Variant(0, Vec::new()),
            DistanceMetric::Euclidean => Value::Variant(1, Vec::new()),
            DistanceMetric::DotProduct => Value::Variant(2, Vec::new()),
            DistanceMetric::Manhattan => Value::Variant(3, Vec::new()),
        }
    }

    fn from_structured_value(v: &Value) -> (r: Result<Self, DecodeError>) {
        match v {
            Value::Variant(tag, payload) => {
                proof {
                    lemma_model_seq(payload@);
                }
                if *tag == 0 && payload.len() == 0 {
                    proof {
                        assert(Value::model_seq(payload@) =~= Seq::<ValueModel>::empty());
                    }
                    return Ok(DistanceMetric::Cosine);
                }
                if *tag == 1 && payload.len() == 0 {
                    proof {
                        assert(Value::model_seq(payload@) =~= Seq::<ValueModel>::empty());
                    }
                    return Ok(DistanceMetric::Euclidean);
                }
                if *tag == 2 && payload.len() == 0 {
                    proof {
                        assert(Value::model_seq(payload@) =~= Seq::<ValueModel>::empty());
                    }
                    return Ok(DistanceMetric::DotProduct);
                }
                if *tag == 3 && payload.len() == 0 {
                    proof {
                        assert(Value::model_seq(payload@) =~= Seq::<ValueModel>::empty());
                    }
                    return Ok(DistanceMetric::Manhattan);
                }
                Err(DecodeError::Shape)
            },
            _ => Err(DecodeError::Shape),
        }
    }

    fn describe_shape() -> (t: TypeDescriptor) {
        let mut cases: Vec<Vec<TypeDescriptor>> = Vec::new();
        let case0: Vec<TypeDescriptor> = Vec::new();
        cases.push(case0);
        let case1: Vec<TypeDescriptor> = Vec::new();
        cases.push(case1);
        let case2: Vec<TypeDescriptor> = Vec::new();
        cases.push(case2);
        let case3: Vec<TypeDescriptor> = Vec::new();
        cases.push(case3);
        TypeDescriptor::Variant(cases)
    }

    proof fn encoded_decodable(&self) {
        match self {
            DistanceMetric::Cosine => {},
            DistanceMetric::Euclidean => {},
            DistanceMetric::DotProduct => {},
            DistanceMetric::Manhattan => {},
        }
    }
}

impl Codec for RecommendationStrategy {
    open spec fn decode_failure(m: ValueModel) -> DecodeError {
        match m {
            ValueModel::Variant(tag, payload) => DecodeError::Shape,
            _ => DecodeError::Shape,
        }
    }

    open spec fn encoded(&self) -> ValueModel {
        match self {
            RecommendationStrategy::AverageVector => ValueModel::Variant(0, Seq::empty()),
            RecommendationStrategy::BestScore => ValueModel::Variant(1, Seq::empty()),
        }
    }

    open spec fn decodable(m: ValueModel) -> bool {
        m matches ValueModel::Variant(tag, payload) && ((tag == 0 && payload.len() == 0) || (tag == 1 && payload.len() == 0))
    }

    fn to_structured_value(&self) -> (v: Value) {
        match self {
            RecommendationStrategy::AverageVector => Value::Variant(0, Vec::new()),
            RecommendationStrategy::BestScore => Value::Variant(1, Vec::new()),
        }
    }

    fn from_structured_value(v: &Value) -> (r: Result<Self, DecodeError>) {
        match v {
            Value::Variant(tag, payload) => {
                proof {
                    lemma_model_seq(payload@);
                }
                if *tag == 0 && payload.len() == 0 {
                    proof {
                        assert(Value::model_seq(payload@) =~= Seq::<ValueModel>::empty());
                    }
                    return Ok(RecommendationStrategy::AverageVector);
                }
                if *tag == 1 && payload.len() == 0 {
                    proof {
                        assert(Value::model_seq(payload@) =~= Seq::<ValueModel>::empty());
                    }
                    return Ok(RecommendationStrategy::BestScore);
                }
                Err(DecodeError::Shape)
            },
            _ => Err(DecodeError::Shape),
        }
    }

    fn describe_shape() -> (t: TypeDescriptor) {
        let mut cases: Vec<Vec<TypeDescriptor>> = Vec::new();
        let case0: Vec<TypeDescriptor> = Vec::new();
        cases.push(case0);
        let case1: Vec<TypeDescriptor> = Vec::new();
        cases.push(case1);
        TypeDescriptor::Variant(cases)
    }

    proof fn encoded_decodable(&self) {
        match self {
            RecommendationStrategy::AverageVector => {},
            RecommendationStrategy::BestScore => {},
        }
    }
}

impl Codec for FilterOperator {
    open spec fn decode_failure(m: ValueModel) -> DecodeError {
        match m {
            ValueModel::Variant(tag, payload) => DecodeError::Shape,
            _ => DecodeError::Shape,
        }
    }

    open spec fn encoded(&self) -> ValueModel {
        match self {
            FilterOperator::Eq => ValueModel::Variant(0, Seq::empty()),
            FilterOperator::Ne => ValueModel::Variant(1, Seq::empty()),
            FilterOperator::Gt => ValueModel::Variant(2, Seq::empty()),
            FilterOperator::Gte => ValueModel::Variant(3, Seq::empty()),
            FilterOperator::Lt => ValueModel::Variant(4, Seq::empty()),
            FilterOperator::Lte => ValueModel::Variant(5, Seq::empty()),
            FilterOperator::In => ValueModel::Variant(6, Seq::empty()),
            FilterOperator::NotIn => ValueModel::Variant(7, Seq::empty()),
            FilterOperator::Contains => ValueModel::Variant(8, Seq::empty()),
        }
    }

    open spec fn decodable(m: ValueModel) -> bool {
        m matches ValueModel::Variant(tag, payload) && ((tag == 0 && payload.len() == 0) || (tag == 1 && payload.len() == 0) || (tag == 2 && payload.len() == 0) || (tag == 3 && payload.len() == 0) || (tag == 4 && payload.len() == 0) || (tag == 5 && payload.len() == 0) || (tag == 6 && payload.len() == 0) || (tag == 7 && payload.len() == 0) || (tag == 8 && payload.len() == 0))
    }

    fn to_structured_value(&self) -> (v: Value) {
        match self {
            FilterOperator::Eq => Value::Variant(0, Vec::new()),
            FilterOperator::Ne => Value::Variant(1, Vec::new()),
            FilterOperator::Gt => Value::Variant(2, Vec::new()),
            FilterOperator::Gte => Value::Variant(3, Vec::new()),
            FilterOperator::Lt => Value::Variant(4, Vec::new()),
            FilterOperator::Lte => Value::Variant(5, Vec::new()),
            FilterOperator::In => Value::Variant(6, Vec::new()),
            FilterOperator::NotIn => Value::Variant(7, Vec::new()),
            FilterOperator::Contains => Value::Variant(8, Vec::new()),
        }
    }

    fn from_structured_value(v: &Value) -> (r: Result<Self, DecodeError>) {
        match v {
            Value::Variant(tag, payload) => {
                proof {
                    lemma_model_seq(payload@);
                }
                if *tag == 0 && payload.len() == 0 {
                    proof {
                        assert(Value::model_seq(payload@) =~= Seq::<ValueModel>::empty());
                    }
                    return Ok(FilterOperator::Eq);
                }
                if *tag == 1 && payload.len() == 0 {
                    proof {
                        assert(Value::model_seq(payload@) =~= Seq::<ValueModel>::empty());
                    }
                    return Ok(FilterOperator::Ne);
                }
                if *tag == 2 && payload.len() == 0 {
                    proof {
                        assert(Value::model_seq(payload@) =~= Seq::<ValueModel>::empty());
                    }
                    return Ok(FilterOperator::Gt);
                }
                if *tag == 3 && payload.len() == 0 {
                    proof {
                        assert(Value::model_seq(payload@) =~= Seq::<ValueModel>::empty());
                    }
                    return Ok(FilterOperator::Gte);
                }
                if *tag == 4 && payload.len() == 0 {
                    proof {
                        assert(Value::model_seq(payload@) =~= Seq::<ValueModel>::empty());
                    }
                    return Ok(FilterOperator::Lt);
                }
                if *tag == 5 && payload.len() == 0 {
                    proof {
                        assert(Value::model_seq(payload@) =~= Seq::<ValueModel>::empty());
                    }
                    return Ok(FilterOperator::Lte);
                }
                if *tag == 6 && payload.len() == 0 {
                    proof {
                        assert(Value::model_seq(payload@) =~= Seq::<ValueModel>::empty());
                    }
                    return Ok(FilterOperator::In);
                }
                if *tag == 7 && payload.len() == 0 {
                    proof {
                        assert(Value::model_seq(payload@) =~= Seq::<ValueModel>::empty());
                    }
                    return Ok(FilterOperator::NotIn);
                }
                if *tag == 8 && payload.len() == 0 {
                    proof {
                        assert(Value::model_seq(payload@) =~= Seq::<ValueModel>::empty());
                    }
                    return Ok(FilterOperator::Contains);
                }
                Err(DecodeError::Shape)
            },
            _ => Err(DecodeError::Shape),
        }
    }

    fn describe_shape() -> (t: TypeDescriptor) {
        let mut cases: Vec<Vec<TypeDescriptor>> = Vec::new();
        let case0: Vec<TypeDescriptor> = Vec::new();
        cases.push(case0);
        let case1: Vec<TypeDescriptor> = Vec::new();
        cases.push(case1);
        let case2: Vec<TypeDescriptor> = Vec::new();
        cases.push(case2);
        let case3: Vec<TypeDescriptor> = Vec::new();
        cases.push(case3);
        let case4: Vec<TypeDescriptor> = Vec::new();
        cases.push(case4);
        let case5: Vec<TypeDescriptor> = Vec::new();
        cases.push(case5);
        let case6: Vec<TypeDescriptor> = Vec::new();
        cases.push(case6);
        let case7: Vec<TypeDescriptor> = Vec::new();
        cases.push(case7);
        let case8: Vec<TypeDescriptor> = Vec::new();
        cases.push(case8);
        TypeDescriptor::Variant(cases)
    }

    proof fn encoded_decodable(&self) {
        match self {
            FilterOperator::Eq => {},
            FilterOperator::Ne => {},
            FilterOperator::Gt => {},
            FilterOperator::Gte => {},
            FilterOperator::Lt => {},
            FilterOperator::Lte => {},
            FilterOperator::In => {},
            FilterOperator::NotIn => {},
            FilterOperator::Contains => {},
        }
    }
}

impl Codec for Id {
    open spec fn decode_failure(m: ValueModel) -> DecodeError {
        match m {
            ValueModel::Variant(tag, payload) => if tag == 0 && payload.len() == 1 {
                if !<u64>::decodable(payload[0]) {
                <u64>::decode_failure(payload[0])
            } else {
                DecodeError::Shape
            }
            } else if tag == 1 && payload.len() == 1 {
                if !<String>::decodable(payload[0]) {
                <String>::decode_failure(payload[0])
            } else {
                DecodeError::Shape
            }
            } else {
                DecodeError::Shape
            },
            _ => DecodeError::Shape,
        }
    }

    open spec fn encoded(&self) -> ValueModel {
        match self {
            Id::Uint(n) => ValueModel::Variant(0, seq![n.encoded()]),
            Id::Str(s) => ValueModel::Variant(1, seq![s.encoded()]),
        }
    }

    open spec fn decodable(m: ValueModel) -> bool {
        m matches ValueModel::Variant(tag, payload) && ((tag == 0 && payload.len() == 1 && <u64>::decodable(payload[0])) || (tag == 1 && payload.len() == 1 && <String>::decodable(payload[0])))
    }

    fn to_structured_value(&self) -> (v: Value) {
        match self {
            Id::Uint(n) => {
                let mut payload: Vec<Value> = Vec::new();
                payload.push(n.to_structured_value());
                proof {
                    lemma_model_seq(payload@);
                    assert(Value::model_seq(payload@)[0] == payload@[0].model());
                    assert(Value::model_seq(payload@) =~= seq![n.encoded()]);
                }
                Value::Variant(0, payload)
            },
            Id::Str(s) => {
                let mut payload: Vec<Value> = Vec::new();
                payload.push(s.to_structured_value());
                proof {
                    lemma_model_seq(payload@);
                    assert(Value::model_seq(payload@)[0] == payload@[0].model());
                    assert(Value::model_seq(payload@) =~= seq![s.encoded()]);
                }
                Value::Variant(1, payload)
            },
        }
    }

    fn from_structured_value(v: &Value) -> (r: Result<Self, DecodeError>) {
        match v {
            Value::Variant(tag, payload) => {
                proof {
                    lemma_model_seq(payload@);
                }
                if *tag == 0 && payload.len() == 1 {
                    let n = match <u64>::from_structured_value(&payload[0]) {
                        Ok(x) => x,
                        Err(e) => {
                            proof {
                                assert(Value::model_seq(payload@)[0] == payload@[0].model());
                                assert(v.model()->Variant_1 == Value::model_seq(payload@));
                            }
                            return Err(e);
                        },
                    };
                    proof {
                        assert(Value::model_seq(payload@)[0] == payload@[0].model());
                        assert(v.model()->Variant_1 == Value::model_seq(payload@));
                        assert(Value::model_seq(payload@) =~= seq![n.encoded()]);
                    }
                    return Ok(Id::Uint(n));
                }
                if *tag == 1 && payload.len() == 1 {
                    let s = match <String>::from_structured_value(&payload[0]) {
                        Ok(x) => x,
                        Err(e) => {
                            proof {
                                assert(Value::model_seq(payload@)[0] == payload@[0].model());
                                assert(v.model()->Variant_1 == Value::model_seq(payload@));
                            }
                            return Err(e);
                        },
                    };
                    proof {
                        assert(Value::model_seq(payload@)[0] == payload@[0].model());
                        assert(v.model()->Variant_1 == Value::model_seq(payload@));
                        assert(Value::model_seq(payload@) =~= seq![s.encoded()]);
                    }
                    return Ok(Id::Str(s));
                }
                Err(DecodeError::Shape)
            },
            _ => Err(DecodeError::Shape),
        }
    }

    fn describe_shape() -> (t: TypeDescriptor) {
        let mut cases: Vec<Vec<TypeDescriptor>> = Vec::new();
        let mut case0: Vec<TypeDescriptor> = Vec::new();
        case0.push(<u64>::describe_shape());
        cases.push(case0);
        let mut case1: Vec<TypeDescriptor> = Vec::new();
        case1.push(<String>::describe_shape());
        cases.push(case1);
        TypeDescriptor::Variant(cases)
    }

    proof fn encoded_decodable(&self) {
        match self {
            Id::Uint(n) => {
                <u64>::encoded_decodable(n);
            },
            Id::Str(s) => {
                <String>::encoded_decodable(s);
            },
        }
    }
}

impl Codec for SparseVector {
    open spec fn decode_failure(m: ValueModel) -> DecodeError {
        match m {
            ValueModel::Record(els) => if els.len() != 2 {
                DecodeError::Shape
            } else if !<Vec<u32>>::decodable(els[0]) {
                <Vec<u32>>::decode_failure(els[0])
            } else {
                <Vec<u32>>::decode_failure(els[1])
            },
            _ => DecodeError::Shape,
        }
    }

    open spec fn encoded(&self) -> ValueModel {
        ValueModel::Record(seq![self.indices.encoded(), self.values.encoded()])
    }

    open spec fn decodable(m: ValueModel) -> bool {
        m matches ValueModel::Record(els) && els.len() == 2 && <Vec<u32>>::decodable(els[0]) && <Vec<u32>>::decodable(els[1])
    }

    fn to_structured_value(&self) -> (v: Value) {
        let mut els: Vec<Value> = Vec::new();
        els.push(self.indices.to_structured_value());
        els.push(self.values.to_structured_value());
        proof {
            lemma_model_seq(els@);
            assert(Value::model_seq(els@)[0] == els@[0].model());
            assert(Value::model_seq(els@)[1] == els@[1].model());
            assert(Value::model_seq(els@) =~= seq![self.indices.encoded(), self.values.encoded()]);
        }
        Value::Record(els)
    }

    fn from_structured_value(v: &Value) -> (r: Result<Self, DecodeError>) {
        match v {
            Value::Record(els) => {
                if els.len() == 2 {
                    let indices = match <Vec<u32>>::from_structured_value(&els[0]) {
                        Ok(x) => x,
                        Err(e) => {
                            proof {
                                lemma_model_seq(els@);
                                assert(Value::model_seq(els@)[0] == els@[0].model());
                                assert(Value::model_seq(els@)[1] == els@[1].model());
                                assert(v.model()->Record_0 == Value::model_seq(els@));
                            }
                            return Err(e);
                        },
                    };
                    let values = match <Vec<u32>>::from_structured_value(&els[1]) {
                        Ok(x) => x,
                        Err(e) => {
                            proof {
                                lemma_model_seq(els@);
                                assert(Value::model_seq(els@)[0] == els@[0].model());
                                assert(Value::model_seq(els@)[1] == els@[1].model());
                                assert(v.model()->Record_0 == Value::model_seq(els@));
                            }
                            return Err(e);
                        },
                    };
                    proof {
                        lemma_model_seq(els@);
            assert(Value::model_seq(els@)[0] == els@[0].model());
            assert(Value::model_seq(els@)[1] == els@[1].model());
                        assert(v.model()->Record_0 == Value::model_seq(els@));
                        assert(Value::model_seq(els@) =~= seq![indices.encoded(), values.encoded()]);
                    }
                    Ok(SparseVector { indices: indices, values: values })
                } else {
                    proof {
                        lemma_model_seq(els@);
                    }
                    Err(DecodeError::Shape)
                }
            },
            _ => Err(DecodeError::Shape),
        }
    }

    fn describe_shape() -> (t: TypeDescriptor) {
        let mut els: Vec<TypeDescriptor> = Vec::new();
        els.push(<Vec<u32>>::describe_shape());
        els.push(<Vec<u32>>::describe_shape());
        TypeDescriptor::Record(els)
    }

    proof fn encoded_decodable(&self) {
        <Vec<u32>>::encoded_decodable(&self.indices);
        <Vec<u32>>::encoded_decodable(&self.values);
    }
}

impl Codec for VectorData {
    open spec fn decode_failure(m: ValueModel) -> DecodeError {
        match m {
            ValueModel::Variant(tag, payload) => if tag == 0 && payload.len() == 1 {
                if !<Vec<u32>>::decodable(payload[0]) {
                <Vec<u32>>::decode_failure(payload[0])
            } else {
                DecodeError::Shape
            }
            } else if tag == 1 && payload.len() == 1 {
                if !<SparseVector>::decodable(payload[0]) {
                <SparseVector>::decode_failure(payload[0])
            } else {
                DecodeError::Shape
            }
            } else if tag == 2 && payload.len() == 1 {
                if !<Vec<u8>>::decodable(payload[0]) {
                <Vec<u8>>::decode_failure(payload[0])
            } else {
                DecodeError::Shape
            }
            } else {
                DecodeError::Shape
            },
            _ => DecodeError::Shape,
        }
    }

    open spec fn encoded(&self) -> ValueModel {
        match self {
            VectorData::Dense(d) => ValueModel::Variant(0, seq![d.encoded()]),
            VectorData::Sparse(sv) => ValueModel::Variant(1, seq![sv.encoded()]),
            VectorData::Binary(b) => ValueModel::Variant(2, seq![b.encoded()]),
        }
    }

    open spec fn decodable(m: ValueModel) -> bool {
        m matches ValueModel::Variant(tag, payload) && ((tag == 0 && payload.len() == 1 && <Vec<u32>>::decodable(payload[0])) || (tag == 1 && payload.len() == 1 && <SparseVector>::decodable(payload[0])) || (tag == 2 && payload.len() == 1 && <Vec<u8>>::decodable(payload[0])))
    }

    fn to_structured_value(&self) -> (v: Value) {
        match self {
            VectorData::Dense(d) => {
                let mut payload: Vec<Value> = Vec::new();
                payload.push(d.to_structured_value());
                proof {
                    lemma_model_seq(payload@);
                    assert(Value::model_seq(payload@)[0] == payload@[0].model());
                    assert(Value::model_seq(payload@) =~= seq![d.encoded()]);
                }
                Value::Variant(0, payload)
            },
            VectorData::Sparse(sv) => {
                let mut payload: Vec<Value> = Vec::new();
                payload.push(sv.to_structured_value());
                proof {
                    lemma_model_seq(payload@);
                    assert(Value::model_seq(payload@)[0] == payload@[0].model());
                    assert(Value::model_seq(payload@) =~= seq![sv.encoded()]);
                }
                Value::Variant(1, payload)
            },
            VectorData::Binary(b) => {
                let mut payload: Vec<Value> = Vec::new();
                payload.push(b.to_structured_value());
                proof {
                    lemma_model_seq(payload@);
                    assert(Value::model_seq(payload@)[0] == payload@[0].model());
                    assert(Value::model_seq(payload@) =~= seq![b.encoded()]);
                }
                Value::Variant(2, payload)
            },
        }
    }

    fn from_structured_value(v: &Value) -> (r: Result<Self, DecodeError>) {
        match v {
            Value::Variant(tag, payload) => {
                proof {
                    lemma_model_seq(payload@);
                }
                if *tag == 0 && payload.len() == 1 {
                    let d = match <Vec<u32>>::from_structured_value(&payload[0]) {
                        Ok(x) => x,
                        Err(e) => {
                            proof {
                                assert(Value::model_seq(payload@)[0] == payload@[0].model());
                                assert(v.model()->Variant_1 == Value::model_seq(payload@));
                            }
                            return Err(e);
                        },
                    };
                    proof {
                        assert(Value::model_seq(payload@)[0] == payload@[0].model());
                        assert(v.model()->Variant_1 == Value::model_seq(payload@));
                        assert(Value::model_seq(payload@) =~= seq![d.encoded()]);
                    }
                    return Ok(VectorData::Dense(d));
                }
                if *tag == 1 && payload.len() == 1 {
                    let sv = match <SparseVector>::from_structured_value(&payload[0]) {
                        Ok(x) => x,
                        Err(e) => {
                            proof {
                                assert(Value::model_seq(payload@)[0] == payload@[0].model());
                                assert(v.model()->Variant_1 == Value::model_seq(payload@));
                            }
                            return Err(e);
                        },
                    };
                    proof {
                        assert(Value::model_seq(payload@)[0] == payload@[0].model());
                        assert(v.model()->Variant_1 == Value::model_seq(payload@));
                        assert(Value::model_seq(payload@) =~= seq![sv.encoded()]);
                    }
                    return Ok(VectorData::Sparse(sv));
                }
                if *tag == 2 && payload.len() == 1 {
                    let b = match <Vec<u8>>::from_structured_value(&payload[0]) {
                        Ok(x) => x,
                        Err(e) => {
                            proof {
                                assert(Value::model_seq(payload@)[0] == payload@[0].model());
                                assert(v.model()->Variant_1 == Value::model_seq(payload@));
                            }
                            return Err(e);
                        },
                    };
                    proof {
                        assert(Value::model_seq(payload@)[0] == payload@[0].model());
                        assert(v.model()->Variant_1 == Value::model_seq(payload@));
                        assert(Value::model_seq(payload@) =~= seq![b.encoded()]);
                    }
                    return Ok(VectorData::Binary(b));
                }
                Err(DecodeError::Shape)
            },
            _ => Err(DecodeError::Shape),
        }
    }

    fn describe_shape() -> (t: TypeDescriptor) {
        let mut cases: Vec<Vec<TypeDescriptor>> = Vec::new();
        let mut case0: Vec<TypeDescriptor> = Vec::new();
        case0.push(<Vec<u32>>::describe_shape());
        cases.push(case0);
        let mut case1: Vec<TypeDescriptor> = Vec::new();
        case1.push(<SparseVector>::describe_shape());
        cases.push(case1);
        let mut case2: Vec<TypeDescriptor> = Vec::new();
        case2.push(<Vec<u8>>::describe_shape());
        cases.push(case2);
        TypeDescriptor::Variant(cases)
    }

    proof fn encoded_decodable(&self) {
        match self {
            VectorData::Dense(d) => {
                <Vec<u32>>::encoded_decodable(d);
            },
            VectorData::Sparse(sv) => {
                <SparseVector>::encoded_decodable(sv);
            },
            VectorData::Binary(b) => {
                <Vec<u8>>::encoded_decodable(b);
            },
        }
    }
}

impl Codec for MetadataValue {
    open spec fn decode_failure(m: ValueModel) -> DecodeError {
        match m {
            ValueModel::Variant(tag, payload) => if tag == 1 && payload.len() == 1 {
                if !<bool>::decodable(payload[0]) {
                <bool>::decode_failure(payload[0])
            } else {
                DecodeError::Shape
            }
            } else if tag == 2 && payload.len() == 1 {
                if !<i64>::decodable(payload[0]) {
                <i64>::decode_failure(payload[0])
            } else {
                DecodeError::Shape
            }
            } else if tag == 3 && payload.len() == 1 {
                if !<u64>::decodable(payload[0]) {
                <u64>::decode_failure(payload[0])
            } else {
                DecodeError::Shape
            }
            } else if tag == 4 && payload.len() == 1 {
                if !<String>::decodable(payload[0]) {
                <String>::decode_failure(payload[0])
            } else {
                DecodeError::Shape
            }
            } else if tag == 5 && payload.len() == 1 {
                if !<Vec<u8>>::decodable(payload[0]) {
                <Vec<u8>>::decode_failure(payload[0])
            } else {
                DecodeError::Shape
            }
            } else {
                DecodeError::Shape
            },
            _ => DecodeError::Shape,
        }
    }

    open spec fn encoded(&self) -> ValueModel {
        match self {
            MetadataValue::NullVal => ValueModel::Variant(0, Seq::empty()),
            MetadataValue::BooleanVal(b) => ValueModel::Variant(1, seq![b.encoded()]),
            MetadataValue::IntegerVal(n) => ValueModel::Variant(2, seq![n.encoded()]),
            MetadataValue::NumberBits(bits) => ValueModel::Variant(3, seq![bits.encoded()]),
            MetadataValue::StringVal(s) => ValueModel::Variant(4, seq![s.encoded()]),
            MetadataValue::BlobVal(bytes) => ValueModel::Variant(5, seq![bytes.encoded()]),
        }
    }

    open spec fn decodable(m: ValueModel) -> bool {
        m matches ValueModel::Variant(tag, payload) && ((tag == 0 && payload.len() == 0) || (tag == 1 && payload.len() == 1 && <bool>::decodable(payload[0])) || (tag == 2 && payload.len() == 1 && <i64>::decodable(payload[0])) || (tag == 3 && payload.len() == 1 && <u64>::decodable(payload[0])) || (tag == 4 && payload.len() == 1 && <String>::decodable(payload[0])) || (tag == 5 && payload.len() == 1 && <Vec<u8>>::decodable(payload[0])))
    }

    fn to_structured_value(&self) -> (v: Value) {
        match self {
            MetadataValue::NullVal => Value::Variant(0, Vec::new()),
            MetadataValue::BooleanVal(b) => {
                let mut payload: Vec<Value> = Vec::new();
                payload.push(b.to_structured_value());
                proof {
                    lemma_model_seq(payload@);
                    assert(Value::model_seq(payload@)[0] == payload@[0].model());
                    assert(Value::model_seq(payload@) =~= seq![b.encoded()]);
                }
                Value::Variant(1, payload)
            },
            MetadataValue::IntegerVal(n) => {
                let mut payload: Vec<Value> = Vec::new();
                payload.push(n.to_structured_value());
                proof {
                    lemma_model_seq(payload@);
                    assert(Value::model_seq(payload@)[0] == payload@[0].model());
                    assert(Value::model_seq(payload@) =~= seq![n.encoded()]);
                }
                Value::Variant(2, payload)
            },
            MetadataValue::NumberBits(bits) => {
                let mut payload: Vec<Value> = Vec::new();
                payload.push(bits.to_structured_value());
                proof {
                    lemma_model_seq(payload@);
                    assert(Value::model_seq(payload@)[0] == payload@[0].model());
                    assert(Value::model_seq(payload@) =~= seq![bits.encoded()]);
                }
                Value::Variant(3, payload)
            },
            MetadataValue::StringVal(s) => {
                let mut payload: Vec<Value> = Vec::new();
                payload.push(s.to_structured_value());
                proof {
                    lemma_model_seq(payload@);
                    assert(Value::model_seq(payload@)[0] == payload@[0].model());
                    assert(Value::model_seq(payload@) =~= seq![s.encoded()]);
                }
                Value::Variant(4, payload)
            },
            MetadataValue::BlobVal(bytes) => {
                let mut payload: Vec<Value> = Vec::new();
                payload.push(bytes.to_structured_value());
                proof {
                    lemma_model_seq(payload@);
                    assert(Value::model_seq(payload@)[0] == payload@[0].model());
                    assert(Value::model_seq(payload@) =~= seq![bytes.encoded()]);
                }
                Value::Variant(5, payload)
            },
        }
    }

    fn from_structured_value(v: &Value) -> (r: Result<Self, DecodeError>) {
        match v {
            Value::Variant(tag, payload) => {
                proof {
                    lemma_model_seq(payload@);
                }
                if *tag == 0 && payload.len() == 0 {
                    proof {
                        assert(Value::model_seq(payload@) =~= Seq::<ValueModel>::empty());
                    }
                    return Ok(MetadataValue::NullVal);
                }
                if *tag == 1 && payload.len() == 1 {
                    let b = match <bool>::from_structured_value(&payload[0]) {
                        Ok(x) => x,
                        Err(e) => {
                            proof {
                                assert(Value::model_seq(payload@)[0] == payload@[0].model());
                                assert(v.model()->Variant_1 == Value::model_seq(payload@));
                            }
                            return Err(e);
                        },
                    };
                    proof {
                        assert(Value::model_seq(payload@)[0] == payload@[0].model());
                        assert(v.model()->Variant_1 == Value::model_seq(payload@));
                        assert(Value::model_seq(payload@) =~= seq![b.encoded()]);
                    }
                    return Ok(MetadataValue::BooleanVal(b));
                }
                if *tag == 2 && payload.len() == 1 {
                    let n = match <i64>::from_structured_value(&payload[0]) {
                        Ok(x) => x,
                        Err(e) => {
                            proof {
                                assert(Value::model_seq(payload@)[0] == payload@[0].model());
                                assert(v.model()->Variant_1 == Value::model_seq(payload@));
                            }
                            return Err(e);
                        },
                    };
                    proof {
                        assert(Value::model_seq(payload@)[0] == payload@[0].model());
                        assert(v.model()->Variant_1 == Value::model_seq(payload@));
                        assert(Value::model_seq(payload@) =~= seq![n.encoded()]);
                    }
                    return Ok(MetadataValue::IntegerVal(n));
                }
                if *tag == 3 && payload.len() == 1 {
                    let bits = match <u64>::from_structured_value(&payload[0]) {
                        Ok(x) => x,
                        Err(e) => {
                            proof {
                                assert(Value::model_seq(payload@)[0] == payload@[0].model());
                                assert(v.model()->Variant_1 == Value::model_seq(payload@));
                            }
                            return Err(e);
                        },
                    };
                    proof {
                        assert(Value::model_seq(payload@)[0] == payload@[0].model());
                        assert(v.model()->Variant_1 == Value::model_seq(payload@));
                        assert(Value::model_seq(payload@) =~= seq![bits.encoded()]);
                    }
                    return Ok(MetadataValue::NumberBits(bits));
                }
                if *tag == 4 && payload.len() == 1 {
                    let s = match <String>::from_structured_value(&payload[0]) {
                        Ok(x) => x,
                        Err(e) => {
                            proof {
                                assert(Value::model_seq(payload@)[0] == payload@[0].model());
                                assert(v.model()->Variant_1 == Value::model_seq(payload@));
                            }
                            return Err(e);
                        },
                    };
                    proof {
                        assert(Value::model_seq(payload@)[0] == payload@[0].model());
                        assert(v.model()->Variant_1 == Value::model_seq(payload@));
                        assert(Value::model_seq(payload@) =~= seq![s.encoded()]);
                    }
                    return Ok(MetadataValue::StringVal(s));
                }
                if *tag == 5 && payload.len() == 1 {
                    let bytes = match <Vec<u8>>::from_structured_value(&payload[0]) {
                        Ok(x) => x,
                        Err(e) => {
                            proof {
                                assert(Value::model_seq(payload@)[0] == payload@[0].model());
                                assert(v.model()->Variant_1 == Value::model_seq(payload@));
                            }
                            return Err(e);
                        },
                    };
                    proof {
                        assert(Value::model_seq(payload@)[0] == payload@[0].model());
                        assert(v.model()->Variant_1 == Value::model_seq(payload@));
                        assert(Value::model_seq(payload@) =~= seq![bytes.encoded()]);
                    }
                    return Ok(MetadataValue::BlobVal(bytes));
                }
                Err(DecodeError::Shape)
            },
            _ => Err(DecodeError::Shape),
        }
    }

    fn describe_shape() -> (t: TypeDescriptor) {
        let mut cases: Vec<Vec<TypeDescriptor>> = Vec::new();
        let case0: Vec<TypeDescriptor> = Vec::new();
        cases.push(case0);
        let mut case1: Vec<TypeDescriptor> = Vec::new();
        case1.push(<bool>::describe_shape());
        cases.push(case1);
        let mut case2: Vec<TypeDescriptor> = Vec::new();
        case2.push(<i64>::describe_shape());
        cases.push(case2);
        let mut case3: Vec<TypeDescriptor> = Vec::new();
        case3.push(<u64>::describe_shape());
        cases.push(case3);
        let mut case4: Vec<TypeDescriptor> = Vec::new();
        case4.push(<String>::describe_shape());
        cases.push(case4);
        let mut case5: Vec<TypeDescriptor> = Vec::new();
        case5.push(<Vec<u8>>::describe_shape());
        cases.push(case5);
        TypeDescriptor::Variant(cases)
    }

    proof fn encoded_decodable(&self) {
        match self {
            MetadataValue::NullVal => {},
            MetadataValue::BooleanVal(b) => {
                <bool>::encoded_decodable(b);
            },
            MetadataValue::IntegerVal(n) => {
                <i64>::encoded_decodable(n);
            },
            MetadataValue::NumberBits(bits) => {
                <u64>::encoded_decodable(bits);
            },
            MetadataValue::StringVal(s) => {
                <String>::encoded_decodable(s);
            },
            MetadataValue::BlobVal(bytes) => {
                <Vec<u8>>::encoded_decodable(bytes);
            },
        }
    }
}

impl Codec for FilterCondition {
    open spec fn decode_failure(m: ValueModel) -> DecodeError {
        match m {
            ValueModel::Record(els) => if els.len() != 3 {
                DecodeError::Shape
            } else if !<String>::decodable(els[0]) {
                <String>::decode_failure(els[0])
            } else if !<FilterOperator>::decodable(els[1]) {
                <FilterOperator>::decode_failure(els[1])
            } else {
                <MetadataValue>::decode_failure(els[2])
            },
            _ => DecodeError::Shape,
        }
    }

    open spec fn encoded(&self) -> ValueModel {
        ValueModel::Record(seq![self.field.encoded(), self.operator.encoded(), self.value.encoded()])
    }

    open spec fn decodable(m: ValueModel) -> bool {
        m matches ValueModel::Record(els) && els.len() == 3 && <String>::decodable(els[0]) && <FilterOperator>::decodable(els[1]) && <MetadataValue>::decodable(els[2])
    }

    fn to_structured_value(&self) -> (v: Value) {
        let mut els: Vec<Value> = Vec::new();
        els.push(self.field.to_structured_value());
        els.push(self.operator.to_structured_value());
        els.push(self.value.to_structured_value());
        proof {
            lemma_model_seq(els@);
            assert(Value::model_seq(els@)[0] == els@[0].model());
            assert(Value::model_seq(els@)[1] == els@[1].model());
            assert(Value::model_seq(els@)[2] == els@[2].model());
            assert(Value::model_seq(els@) =~= seq![self.field.encoded(), self.operator.encoded(), self.value.encoded()]);
        }
        Value::Record(els)
    }

    fn from_structured_value(v: &Value) -> (r: Result<Self, DecodeError>) {
        match v {
            Value::Record(els) => {
                if els.len() == 3 {
                    let field = match <String>::from_structured_value(&els[0]) {
                        Ok(x) => x,
                        Err(e) => {
                            proof {
                                lemma_model_seq(els@);
                                assert(Value::model_seq(els@)[0] == els@[0].model());
                                assert(Value::model_seq(els@)[1] == els@[1].model());
                                assert(Value::model_seq(els@)[2] == els@[2].model());
                                assert(v.model()->Record_0 == Value::model_seq(els@));
                            }
                            return Err(e);
                        },
                    };
                    let operator = match <FilterOperator>::from_structured_value(&els[1]) {
                        Ok(x) => x,
                        Err(e) => {
                            proof {
                                lemma_model_seq(els@);
                                assert(Value::model_seq(els@)[0] == els@[0].model());
                                assert(Value::model_seq(els@)[1] == els@[1].model());
                                assert(Value::model_seq(els@)[2] == els@[2].model());
                                assert(v.model()->Record_0 == Value::model_seq(els@));
                            }
                            return Err(e);
                        },
                    };
                    let value = match <MetadataValue>::from_structured_value(&els[2]) {
                        Ok(x) => x,
                        Err(e) => {
                            proof {
                                lemma_model_seq(els@);
                                assert(Value::model_seq(els@)[0] == els@[0].model());
                                assert(Value::model_seq(els@)[1] == els@[1].model());
                                assert(Value::model_seq(els@)[2] == els@[2].model());
                                assert(v.model()->Record_0 == Value::model_seq(els@));
                            }
                            return Err(e);
                        },
                    };
                    proof {
                        lemma_model_seq(els@);
            assert(Value::model_seq(els@)[0] == els@[0].model());
            assert(Value::model_seq(els@)[1] == els@[1].model());
            assert(Value::model_seq(els@)[2] == els@[2].model());
                        assert(v.model()->Record_0 == Value::model_seq(els@));
                        assert(Value::model_seq(els@) =~= seq![field.encoded(), operator.encoded(), value.encoded()]);
                    }
                    Ok(FilterCondition { field: field, operator: operator, value: value })
                } else {
                    proof {
                        lemma_model_seq(els@);
                    }
                    Err(DecodeError::Shape)
                }
            },
            _ => Err(DecodeError::Shape),
        }
    }

    fn describe_shape() -> (t: TypeDescriptor) {
        let mut els: Vec<TypeDescriptor> = Vec::new();
        els.push(<String>::describe_shape());
        els.push(<FilterOperator>::describe_shape());
        els.push(<MetadataValue>::describe_shape());
        TypeDescriptor::Record(els)
    }

    proof fn encoded_decodable(&self) {
        <String>::encoded_decodable(&self.field);
        <FilterOperator>::encoded_decodable(&self.operator);
        <MetadataValue>::encoded_decodable(&self.value);
    }
}

impl Codec for FilterExpression {
    open spec fn decode_failure(m: ValueModel) -> DecodeError {
        match m {
            ValueModel::Variant(tag, payload) => if tag == 0 && payload.len() == 1 {
                if !<FilterCondition>::decodable(payload[0]) {
                <FilterCondition>::decode_failure(payload[0])
            } else {
                DecodeError::Shape
            }
            } else if tag == 1 && payload.len() == 1 {
                if !<Vec<FilterCondition>>::decodable(payload[0]) {
                <Vec<FilterCondition>>::decode_failure(payload[0])
            } else {
                DecodeError::Shape
            }
            } else if tag == 2 && payload.len() == 1 {
                if !<Vec<FilterCondition>>::decodable(payload[0]) {
                <Vec<FilterCondition>>::decode_failure(payload[0])
            } else {
                DecodeError::Shape
            }
            } else if tag == 3 && payload.len() == 1 {
                if !<Vec<FilterCondition>>::decodable(payload[0]) {
                <Vec<FilterCondition>>::decode_failure(payload[0])
            } else {
                DecodeError::Shape
            }
            } else {
                DecodeError::Shape
            },
            _ => DecodeError::Shape,
        }
    }

    open spec fn encoded(&self) -> ValueModel {
        match self {
            FilterExpression::Condition(c) => ValueModel::Variant(0, seq![c.encoded()]),
            FilterExpression::AndGroup(cs) => ValueModel::Variant(1, seq![cs.encoded()]),
            FilterExpression::OrGroup(cs) => ValueModel::Variant(2, seq![cs.encoded()]),
            FilterExpression::NotGroup(cs) => ValueModel::Variant(3, seq![cs.encoded()]),
        }
    }

    open spec fn decodable(m: ValueModel) -> bool {
        m matches ValueModel::Variant(tag, payload) && ((tag == 0 && payload.len() == 1 && <FilterCondition>::decodable(payload[0])) || (tag == 1 && payload.len() == 1 && <Vec<FilterCondition>>::decodable(payload[0])) || (tag == 2 && payload.len() == 1 && <Vec<FilterCondition>>::decodable(payload[0])) || (tag == 3 && payload.len() == 1 && <Vec<FilterCondition>>::decodable(payload[0])))
    }

    fn to_structured_value(&self) -> (v: Value) {
        match self {
            FilterExpression::Condition(c) => {
                let mut payload: Vec<Value> = Vec::new();
                payload.push(c.to_structured_value());
                proof {
                    lemma_model_seq(payload@);
                    assert(Value::model_seq(payload@)[0] == payload@[0].model());
                    assert(Value::model_seq(payload@) =~= seq![c.encoded()]);
                }
                Value::Variant(0, payload)
            },
            FilterExpression::AndGroup(cs) => {
                let mut payload: Vec<Value> = Vec::new();
                payload.push(cs.to_structured_value());
                proof {
                    lemma_model_seq(payload@);
                    assert(Value::model_seq(payload@)[0] == payload@[0].model());
                    assert(Value::model_seq(payload@) =~= seq![cs.encoded()]);
                }
                Value::Variant(1, payload)
            },
            FilterExpression::OrGroup(cs) => {
                let mut payload: Vec<Value> = Vec::new();
                payload.push(cs.to_structured_value());
                proof {
                    lemma_model_seq(payload@);
                    assert(Value::model_seq(payload@)[0] == payload@[0].model());
                    assert(Value::model_seq(payload@) =~= seq![cs.encoded()]);
                }
                Value::Variant(2, payload)
            },
            FilterExpression::NotGroup(cs) => {
                let mut payload: Vec<Value> = Vec::new();
                payload.push(cs.to_structured_value());
                proof {
                    lemma_model_seq(payload@);
                    assert(Value::model_seq(payload@)[0] == payload@[0].model());
                    assert(Value::model_seq(payload@) =~= seq![cs.encoded()]);
                }
                Value::Variant(3, payload)
            },
        }
    }

    fn from_structured_value(v: &Value) -> (r: Result<Self, DecodeError>) {
        match v {
            Value::Variant(tag, payload) => {
                proof {
                    lemma_model_seq(payload@);
                }
                if *tag == 0 && payload.len() == 1 {
                    let c = match <FilterCondition>::from_structured_value(&payload[0]) {
                        Ok(x) => x,
                        Err(e) => {
                            proof {
                                assert(Value::model_seq(payload@)[0] == payload@[0].model());
                                assert(v.model()->Variant_1 == Value::model_seq(payload@));
                            }
                            return Err(e);
                        },
                    };
                    proof {
                        assert(Value::model_seq(payload@)[0] == payload@[0].model());
                        assert(v.model()->Variant_1 == Value::model_seq(payload@));
                        assert(Value::model_seq(payload@) =~= seq![c.encoded()]);
                    }
                    return Ok(FilterExpression::Condition(c));
                }
                if *tag == 1 && payload.len() == 1 {
                    let cs = match <Vec<FilterCondition>>::from_structured_value(&payload[0]) {
                        Ok(x) => x,
                        Err(e) => {
                            proof {
                                assert(Value::model_seq(payload@)[0] == payload@[0].model());
                                assert(v.model()->Variant_1 == Value::model_seq(payload@));
                            }
                            return Err(e);
                        },
                    };
                    proof {
                        assert(Value::model_seq(payload@)[0] == payload@[0].model());
                        assert(v.model()->Variant_1 == Value::model_seq(payload@));
                        assert(Value::model_seq(payload@) =~= seq![cs.encoded()]);
                    }
                    return Ok(FilterExpression::AndGroup(cs));
                }
                if *tag == 2 && payload.len() == 1 {
                    let cs = match <Vec<FilterCondition>>::from_structured_value(&payload[0]) {
                        Ok(x) => x,
                        Err(e) => {
                            proof {
                                assert(Value::model_seq(payload@)[0] == payload@[0].model());
                                assert(v.model()->Variant_1 == Value::model_seq(payload@));
                            }
                            return Err(e);
                        },
                    };
                    proof {
                        assert(Value::model_seq(payload@)[0] == payload@[0].model());
                        assert(v.model()->Variant_1 == Value::model_seq(payload@));
                        assert(Value::model_seq(payload@) =~= seq![cs.encoded()]);
                    }
                    return Ok(FilterExpression::OrGroup(cs));
                }
                if *tag == 3 && payload.len() == 1 {
                    let cs = match <Vec<FilterCondition>>::from_structured_value(&payload[0]) {
                        Ok(x) => x,
                        Err(e) => {
                            proof {
                                assert(Value::model_seq(payload@)[0] == payload@[0].model());
                                assert(v.model()->Variant_1 == Value::model_seq(payload@));
                            }
                            return Err(e);
                        },
                    };
                    proof {
                        assert(Value::model_seq(payload@)[0] == payload@[0].model());
                        assert(v.model()->Variant_1 == Value::model_seq(payload@));
                        assert(Value::model_seq(payload@) =~= seq![cs.encoded()]);
                    }
                    return Ok(FilterExpression::NotGroup(cs));
                }
                Err(DecodeError::Shape)
            },
            _ => Err(DecodeError::Shape),
        }
    }

    fn describe_shape() -> (t: TypeDescriptor) {
        let mut cases: Vec<Vec<TypeDescriptor>> = Vec::new();
        let mut case0: Vec<TypeDescriptor> = Vec::new();
        case0.push(<FilterCondition>::describe_shape());
        cases.push(case0);
        let mut case1: Vec<TypeDescriptor> = Vec::new();
        case1.push(<Vec<FilterCondition>>::describe_shape());
        cases.push(case1);
        let mut case2: Vec<TypeDescriptor> = Vec::new();
        case2.push(<Vec<FilterCondition>>::describe_shape());
        cases.push(case2);
        let mut case3: Vec<TypeDescriptor> = Vec::new();
        case3.push(<Vec<FilterCondition>>::describe_shape());
        cases.push(case3);
        TypeDescriptor::Variant(cases)
    }

    proof fn encoded_decodable(&self) {
        match self {
            FilterExpression::Condition(c) => {
                <FilterCondition>::encoded_decodable(c);
            },
            FilterExpression::AndGroup(cs) => {
                <Vec<FilterCondition>>::encoded_decodable(cs);
            },
            FilterExpression::OrGroup(cs) => {
                <Vec<FilterCondition>>::encoded_decodable(cs);
            },
            FilterExpression::NotGroup(cs) => {
                <Vec<FilterCondition>>::encoded_decodable(cs);
            },
        }
    }
}

impl Codec for Credentials {
    open spec fn decode_failure(m: ValueModel) -> DecodeError {
        match m {
            ValueModel::Record(els) => if els.len() != 4 {
                DecodeError::Shape
            } else if !<Option<String>>::decodable(els[0]) {
                <Option<String>>::decode_failure(els[0])
            } else if !<Option<String>>::decodable(els[1]) {
                <Option<String>>::decode_failure(els[1])
            } else if !<Option<String>>::decodable(els[2]) {
                <Option<String>>::decode_failure(els[2])
            } else {
                <Option<String>>::decode_failure(els[3])
            },
            _ => DecodeError::Shape,
        }
    }

    open spec fn encoded(&self) -> ValueModel {
        ValueModel::Record(seq![self.api_key.encoded(), self.username.encoded(), self.password.encoded(), self.token.encoded()])
    }

    open spec fn decodable(m: ValueModel) -> bool {
        m matches ValueModel::Record(els) && els.len() == 4 && <Option<String>>::decodable(els[0]) && <Option<String>>::decodable(els[1]) && <Option<String>>::decodable(els[2]) && <Option<String>>::decodable(els[3])
    }

    fn to_structured_value(&self) -> (v: Value) {
        let mut els: Vec<Value> = Vec::new();
        els.push(self.api_key.to_structured_value());
        els.push(self.username.to_structured_value());
        els.push(self.password.to_structured_value());
        els.push(self.token.to_structured_value());
        proof {
            lemma_model_seq(els@);
            assert(Value::model_seq(els@)[0] == els@[0].model());
            assert(Value::model_seq(els@)[1] == els@[1].model());
            assert(Value::model_seq(els@)[2] == els@[2].model());
            assert(Value::model_seq(els@)[3] == els@[3].model());
            assert(Value::model_seq(els@) =~= seq![self.api_key.encoded(), self.username.encoded(), self.password.encoded(), self.token.encoded()]);
        }
        Value::Record(els)
    }

    fn from_structured_value(v: &Value) -> (r: Result<Self, DecodeError>) {
        match v {
            Value::Record(els) => {
                if els.len() == 4 {
                    let api_key = match <Option<String>>::from_structured_value(&els[0]) {
                        Ok(x) => x,
                        Err(e) => {
                            proof {
                                lemma_model_seq(els@);
                                assert(Value::model_seq(els@)[0] == els@[0].model());
                                assert(Value::model_seq(els@)[1] == els@[1].model());
                                assert(Value::model_seq(els@)[2] == els@[2].model());
                                assert(Value::model_seq(els@)[3] == els@[3].model());
                                assert(v.model()->Record_0 == Value::model_seq(els@));
                            }
                            return Err(e);
                        },
                    };
                    let username = match <Option<String>>::from_structured_value(&els[1]) {
                        Ok(x) => x,
                        Err(e) => {
                            proof {
                                lemma_model_seq(els@);
                                assert(Value::model_seq(els@)[0] == els@[0].model());
                                assert(Value::model_seq(els@)[1] == els@[1].model());
                                assert(Value::model_seq(els@)[2] == els@[2].model());
                                assert(Value::model_seq(els@)[3] == els@[3].model());
                                assert(v.model()->Record_0 == Value::model_seq(els@));
                            }
                            return Err(e);
                        },
                    };
                    let password = match <Option<String>>::from_structured_value(&els[2]) {
                        Ok(x) => x,
                        Err(e) => {
                            proof {
                                lemma_model_seq(els@);
                                assert(Value::model_seq(els@)[0] == els@[0].model());
                                assert(Value::model_seq(els@)[1] == els@[1].model());
                                assert(Value::model_seq(els@)[2] == els@[2].model());
                                assert(Value::model_seq(els@)[3] == els@[3].model());
                                assert(v.model()->Record_0 == Value::model_seq(els@));
                            }
                            return Err(e);
                        },
                    };
                    let token = match <Option<String>>::from_structured_value(&els[3]) {
                        Ok(x) => x,
                        Err(e) => {
                            proof {
                                lemma_model_seq(els@);
                                assert(Value::model_seq(els@)[0] == els@[0].model());
                                assert(Value::model_seq(els@)[1] == els@[1].model());
                                assert(Value::model_seq(els@)[2] == els@[2].model());
                                assert(Value::model_seq(els@)[3] == els@[3].model());
                                assert(v.model()->Record_0 == Value::model_seq(els@));
                            }
                            return Err(e);
                        },
                    };
                    proof {
                        lemma_model_seq(els@);
            assert(Value::model_seq(els@)[0] == els@[0].model());
            assert(Value::model_seq(els@)[1] == els@[1].model());
            assert(Value::model_seq(els@)[2] == els@[2].model());
            assert(Value::model_seq(els@)[3] == els@[3].model());
                        assert(v.model()->Record_0 == Value::model_seq(els@));
                        assert(Value::model_seq(els@) =~= seq![api_key.encoded(), username.encoded(), password.encoded(), token.encoded()]);
                    }
                    Ok(Credentials { api_key: api_key, username: username, password: password, token: token })
                } else {
                    proof {
                        lemma_model_seq(els@);
                    }
                    Err(DecodeError::Shape)
                }
            },
            _ => Err(DecodeError::Shape),
        }
    }

    fn describe_shape() -> (t: TypeDescriptor) {
        let mut els: Vec<TypeDescriptor> = Vec::new();
        els.push(<Option<String>>::describe_shape());
        els.push(<Option<String>>::describe_shape());
        els.push(<Option<String>>::describe_shape());
        els.push(<Option<String>>::describe_shape());
        TypeDescriptor::Record(els)
    }

    proof fn encoded_decodable(&self) {
        <Option<String>>::encoded_decodable(&self.api_key);
        <Option<String>>::encoded_decodable(&self.username);
        <Option<String>>::encoded_decodable(&self.password);
        <Option<String>>::encoded_decodable(&self.token);
    }
}

impl Codec for ConnectionStatus {
    open spec fn decode_failure(m: ValueModel) -> DecodeError {
        match m {
            ValueModel::Record(els) => if els.len() != 3 {
                DecodeError::Shape
            } else if !<bool>::decodable(els[0]) {
                <bool>::decode_failure(els[0])
            } else if !<Option<String>>::decodable(els[1]) {
                <Option<String>>::decode_failure(els[1])
            } else {
                <Option<String>>::decode_failure(els[2])
            },
            _ => DecodeError::Shape,
        }
    }

    open spec fn encoded(&self) -> ValueModel {
        ValueModel::Record(seq![self.connected.encoded(), self.endpoint.encoded(), self.message.encoded()])
    }

    open spec fn decodable(m: ValueModel) -> bool {
        m matches ValueModel::Record(els) && els.len() == 3 && <bool>::decodable(els[0]) && <Option<String>>::decodable(els[1]) && <Option<String>>::decodable(els[2])
    }

    fn to_structured_value(&self) -> (v: Value) {
        let mut els: Vec<Value> = Vec::new();
        els.push(self.connected.to_structured_value());
        els.push(self.endpoint.to_structured_value());
        els.push(self.message.to_structured_value());
        proof {
            lemma_model_seq(els@);
            assert(Value::model_seq(els@)[0] == els@[0].model());
            assert(Value::model_seq(els@)[1] == els@[1].model());
            assert(Value::model_seq(els@)[2] == els@[2].model());
            assert(Value::model_seq(els@) =~= seq![self.connected.encoded(), self.endpoint.encoded(), self.message.encoded()]);
        }
        Value::Record(els)
    }

    fn from_structured_value(v: &Value) -> (r: Result<Self, DecodeError>) {
        match v {
            Value::Record(els) => {
                if els.len() == 3 {
                    let connected = match <bool>::from_structured_value(&els[0]) {
                        Ok(x) => x,
                        Err(e) => {
                            proof {
                                lemma_model_seq(els@);
                                assert(Value::model_seq(els@)[0] == els@[0].model());
                                assert(Value::model_seq(els@)[1] == els@[1].model());
                                assert(Value::model_seq(els@)[2] == els@[2].model());
                                assert(v.model()->Record_0 == Value::model_seq(els@));
                            }
                            return Err(e);
                        },
                    };
                    let endpoint = match <Option<String>>::from_structured_value(&els[1]) {
                        Ok(x) => x,
                        Err(e) => {
                            proof {
                                lemma_model_seq(els@);
                                assert(Value::model_seq(els@)[0] == els@[0].model());
                                assert(Value::model_seq(els@)[1] == els@[1].model());
                                assert(Value::model_seq(els@)[2] == els@[2].model());
                                assert(v.model()->Record_0 == Value::model_seq(els@));
                            }
                            return Err(e);
                        },
                    };
                    let message = match <Option<String>>::from_structured_value(&els[2]) {
                        Ok(x) => x,
                        Err(e) => {
                            proof {
                                lemma_model_seq(els@);
                                assert(Value::model_seq(els@)[0] == els@[0].model());
                                assert(Value::model_seq(els@)[1] == els@[1].model());
                                assert(Value::model_seq(els@)[2] == els@[2].model());
                                assert(v.model()->Record_0 == Value::model_seq(els@));
                            }
                            return Err(e);
                        },
                    };
                    proof {
                        lemma_model_seq(els@);
            assert(Value::model_seq(els@)[0] == els@[0].model());
            assert(Value::model_seq(els@)[1] == els@[1].model());
            assert(Value::model_seq(els@)[2] == els@[2].model());
                        assert(v.model()->Record_0 == Value::model_seq(els@));
                        assert(Value::model_seq(els@) =~= seq![connected.encoded(), endpoint.encoded(), message.encoded()]);
                    }
                    Ok(ConnectionStatus { connected: connected, endpoint: endpoint, message: message })
                } else {
                    proof {
                        lemma_model_seq(els@);
                    }
                    Err(DecodeError::Shape)
                }
            },
            _ => Err(DecodeError::Shape),
        }
    }

    fn describe_shape() -> (t: TypeDescriptor) {
        let mut els: Vec<TypeDescriptor> = Vec::new();
        els.push(<bool>::describe_shape());
        els.push(<Option<String>>::describe_shape());
        els.push(<Option<String>>::describe_shape());
        TypeDescriptor::Record(els)
    }

    proof fn encoded_decodable(&self) {
        <bool>::encoded_decodable(&self.connected);
        <Option<String>>::encoded_decodable(&self.endpoint);
        <Option<String>>::encoded_decodable(&self.message);
    }
}

impl Codec for NamespaceInfo {
    open spec fn decode_failure(m: ValueModel) -> DecodeError {
        match m {
            ValueModel::Record(els) => if els.len() != 3 {
                DecodeError::Shape
            } else if !<String>::decodable(els[0]) {
                <String>::decode_failure(els[0])
            } else if !<Option<u64>>::decodable(els[1]) {
                <Option<u64>>::decode_failure(els[1])
            } else {
                <Option<Metadata>>::decode_failure(els[2])
            },
            _ => DecodeError::Shape,
        }
    }

    open spec fn encoded(&self) -> ValueModel {
        ValueModel::Record(seq![self.name.encoded(), self.vector_count.encoded(), self.metadata.encoded()])
    }

    open spec fn decodable(m: ValueModel) -> bool {
        m matches ValueModel::Record(els) && els.len() == 3 && <String>::decodable(els[0]) && <Option<u64>>::decodable(els[1]) && <Option<Metadata>>::decodable(els[2])
    }

    fn to_structured_value(&self) -> (v: Value) {
        let mut els: Vec<Value> = Vec::new();
        els.push(self.name.to_structured_value());
        els.push(self.vector_count.to_structured_value());
        els.push(self.metadata.to_structured_value());
        proof {
            lemma_model_seq(els@);
            assert(Value::model_seq(els@)[0] == els@[0].model());
            assert(Value::model_seq(els@)[1] == els@[1].model());
            assert(Value::model_seq(els@)[2] == els@[2].model());
            assert(Value::model_seq(els@) =~= seq![self.name.encoded(), self.vector_count.encoded(), self.metadata.encoded()]);
        }
        Value::Record(els)
    }

    fn from_structured_value(v: &Value) -> (r: Result<Self, DecodeError>) {
        match v {
            Value::Record(els) => {
                if els.len() == 3 {
                    let name = match <String>::from_structured_value(&els[0]) {
                        Ok(x) => x,
                        Err(e) => {
                            proof {
                                lemma_model_seq(els@);
                                assert(Value::model_seq(els@)[0] == els@[0].model());
                                assert(Value::model_seq(els@)[1] == els@[1].model());
                                assert(Value::model_seq(els@)[2] == els@[2].model());
                                assert(v.model()->Record_0 == Value::model_seq(els@));
                            }
                            return Err(e);
                        },
                    };
                    let vector_count = match <Option<u64>>::from_structured_value(&els[1]) {
                        Ok(x) => x,
                        Err(e) => {
                            proof {
                                lemma_model_seq(els@);
                                assert(Value::model_seq(els@)[0] == els@[0].model());
                                assert(Value::model_seq(els@)[1] == els@[1].model());
                                assert(Value::model_seq(els@)[2] == els@[2].model());
                                assert(v.model()->Record_0 == Value::model_seq(els@));
                            }
                            return Err(e);
                        },
                    };
                    let metadata = match <Option<Metadata>>::from_structured_value(&els[2]) {
                        Ok(x) => x,
                        Err(e) => {
                            proof {
                                lemma_model_seq(els@);
                                assert(Value::model_seq(els@)[0] == els@[0].model());
                                assert(Value::model_seq(els@)[1] == els@[1].model());
                                assert(Value::model_seq(els@)[2] == els@[2].model());
                                assert(v.model()->Record_0 == Value::model_seq(els@));
                            }
                            return Err(e);
                        },
                    };
                    proof {
                        lemma_model_seq(els@);
            assert(Value::model_seq(els@)[0] == els@[0].model());
            assert(Value::model_seq(els@)[1] == els@[1].model());
            assert(Value::model_seq(els@)[2] == els@[2].model());
                        assert(v.model()->Record_0 == Value::model_seq(els@));
                        assert(Value::model_seq(els@) =~= seq![name.encoded(), vector_count.encoded(), metadata.encoded()]);
                    }
                    Ok(NamespaceInfo { name: name, vector_count: vector_count, metadata: metadata })
                } else {
                    proof {
                        lemma_model_seq(els@);
                    }
                    Err(DecodeError::Shape)
                }
            },
            _ => Err(DecodeError::Shape),
        }
    }

    fn describe_shape() -> (t: TypeDescriptor) {
        let mut els: Vec<TypeDescriptor> = Vec::new();
        els.push(<String>::describe_shape());
        els.push(<Option<u64>>::describe_shape());
        els.push(<Option<Metadata>>::describe_shape());
        TypeDescriptor::Record(els)
    }

    proof fn encoded_decodable(&self) {
        <String>::encoded_decodable(&self.name);
        <Option<u64>>::encoded_decodable(&self.vector_count);
        <Option<Metadata>>::encoded_decodable(&self.metadata);
    }
}

impl Codec for IndexConfig {
    open spec fn decode_failure(m: ValueModel) -> DecodeError {
        match m {
            ValueModel::Record(els) => if els.len() != 2 {
                DecodeError::Shape
            } else if !<Option<String>>::decodable(els[0]) {
                <Option<String>>::decode_failure(els[0])
            } else {
                <Option<Metadata>>::decode_failure(els[1])
            },
            _ => DecodeError::Shape,
        }
    }

    open spec fn encoded(&self) -> ValueModel {
        ValueModel::Record(seq![self.index_type.encoded(), self.parameters.encoded()])
    }

    open spec fn decodable(m: ValueModel) -> bool {
        m matches ValueModel::Record(els) && els.len() == 2 && <Option<String>>::decodable(els[0]) && <Option<Metadata>>::decodable(els[1])
    }

    fn to_structured_value(&self) -> (v: Value) {
        let mut els: Vec<Value> = Vec::new();
        els.push(self.index_type.to_structured_value());
        els.push(self.parameters.to_structured_value());
        proof {
            lemma_model_seq(els@);
            assert(Value::model_seq(els@)[0] == els@[0].model());
            assert(Value::model_seq(els@)[1] == els@[1].model());
            assert(Value::model_seq(els@) =~= seq![self.index_type.encoded(), self.parameters.encoded()]);
        }
        Value::Record(els)
    }

    fn from_structured_value(v: &Value) -> (r: Result<Self, DecodeError>) {
        match v {
            Value::Record(els) => {
                if els.len() == 2 {
                    let index_type = match <Option<String>>::from_structured_value(&els[0]) {
                        Ok(x) => x,
                        Err(e) => {
                            proof {
                                lemma_model_seq(els@);
                                assert(Value::model_seq(els@)[0] == els@[0].model());
                                assert(Value::model_seq(els@)[1] == els@[1].model());
                                assert(v.model()->Record_0 == Value::model_seq(els@));
                            }
                            return Err(e);
                        },
                    };
                    let parameters = match <Option<Metadata>>::from_structured_value(&els[1]) {
                        Ok(x) => x,
                        Err(e) => {
                            proof {
                                lemma_model_seq(els@);
                                assert(Value::model_seq(els@)[0] == els@[0].model());
                                assert(Value::model_seq(els@)[1] == els@[1].model());
                                assert(v.model()->Record_0 == Value::model_seq(els@));
                            }
                            return Err(e);
                        },
                    };
                    proof {
                        lemma_model_seq(els@);
            assert(Value::model_seq(els@)[0] == els@[0].model());
            assert(Value::model_seq(els@)[1] == els@[1].model());
                        assert(v.model()->Record_0 == Value::model_seq(els@));
                        assert(Value::model_seq(els@) =~= seq![index_type.encoded(), parameters.encoded()]);
                    }
                    Ok(IndexConfig { index_type: index_type, parameters: parameters })
                } else {
                    proof {
                        lemma_model_seq(els@);
                    }
                    Err(DecodeError::Shape)
                }
            },
            _ => Err(DecodeError::Shape),
        }
    }

    fn describe_shape() -> (t: TypeDescriptor) {
        let mut els: Vec<TypeDescriptor> = Vec::new();
        els.push(<Option<String>>::describe_shape());
        els.push(<Option<Metadata>>::describe_shape());
        TypeDescriptor::Record(els)
    }

    proof fn encoded_decodable(&self) {
        <Option<String>>::encoded_decodable(&self.index_type);
        <Option<Metadata>>::encoded_decodable(&self.parameters);
    }
}

impl Codec for CollectionInfo {
    open spec fn decode_failure(m: ValueModel) -> DecodeError {
        match m {
            ValueModel::Record(els) => if els.len() != 6 {
                DecodeError::Shape
            } else if !<String>::decodable(els[0]) {
                <String>::decode_failure(els[0])
            } else if !<Option<String>>::decodable(els[1]) {
                <Option<String>>::decode_failure(els[1])
            } else if !<u32>::decodable(els[2]) {
                <u32>::decode_failure(els[2])
            } else if !<DistanceMetric>::decodable(els[3]) {
                <DistanceMetric>::decode_failure(els[3])
            } else if !<Option<u64>>::decodable(els[4]) {
                <Option<u64>>::decode_failure(els[4])
            } else {
                <Option<Metadata>>::decode_failure(els[5])
            },
            _ => DecodeError::Shape,
        }
    }

    open spec fn encoded(&self) -> ValueModel {
        ValueModel::Record(seq![self.name.encoded(), self.description.encoded(), self.dimension.encoded(), self.metric.encoded(), self.vector_count.encoded(), self.metadata.encoded()])
    }

    open spec fn decodable(m: ValueModel) -> bool {
        m matches ValueModel::Record(els) && els.len() == 6 && <String>::decodable(els[0]) && <Option<String>>::decodable(els[1]) && <u32>::decodable(els[2]) && <DistanceMetric>::decodable(els[3]) && <Option<u64>>::decodable(els[4]) && <Option<Metadata>>::decodable(els[5])
    }

    fn to_structured_value(&self) -> (v: Value) {
        let mut els: Vec<Value> = Vec::new();
        els.push(self.name.to_structured_value());
        els.push(self.description.to_structured_value());
        els.push(self.dimension.to_structured_value());
        els.push(self.metric.to_structured_value());
        els.push(self.vector_count.to_structured_value());
        els.push(self.metadata.to_structured_value());
        proof {
            lemma_model_seq(els@);
            assert(Value::model_seq(els@)[0] == els@[0].model());
            assert(Value::model_seq(els@)[1] == els@[1].model());
            assert(Value::model_seq(els@)[2] == els@[2].model());
            assert(Value::model_seq(els@)[3] == els@[3].model());
            assert(Value::model_seq(els@)[4] == els@[4].model());
            assert(Value::model_seq(els@)[5] == els@[5].model());
            assert(Value::model_seq(els@) =~= seq![self.name.encoded(), self.description.encoded(), self.dimension.encoded(), self.metric.encoded(), self.vector_count.encoded(), self.metadata.encoded()]);
        }
        Value::Record(els)
    }

    fn from_structured_value(v: &Value) -> (r: Result<Self, DecodeError>) {
        match v {
            Value::Record(els) => {
                if els.len() == 6 {
                    let name = match <String>::from_structured_value(&els[0]) {
                        Ok(x) => x,
                        Err(e) => {
                            proof {
                                lemma_model_seq(els@);
                                assert(Value::model_seq(els@)[0] == els@[0].model());
                                assert(Value::model_seq(els@)[1] == els@[1].model());
                                assert(Value::model_seq(els@)[2] == els@[2].model());
                                assert(Value::model_seq(els@)[3] == els@[3].model());
                                assert(Value::model_seq(els@)[4] == els@[4].model());
                                assert(Value::model_seq(els@)[5] == els@[5].model());
                                assert(v.model()->Record_0 == Value::model_seq(els@));
                            }
                            return Err(e);
                        },
                    };
                    let description = match <Option<String>>::from_structured_value(&els[1]) {
                        Ok(x) => x,
                        Err(e) => {
                            proof {
                                lemma_model_seq(els@);
                                assert(Value::model_seq(els@)[0] == els@[0].model());
                                assert(Value::model_seq(els@)[1] == els@[1].model());
                                assert(Value::model_seq(els@)[2] == els@[2].model());
                                assert(Value::model_seq(els@)[3] == els@[3].model());
                                assert(Value::model_seq(els@)[4] == els@[4].model());
                                assert(Value::model_seq(els@)[5] == els@[5].model());
                                assert(v.model()->Record_0 == Value::model_seq(els@));
                            }
                            return Err(e);
                        },
                    };
                    let dimension = match <u32>::from_structured_value(&els[2]) {
                        Ok(x) => x,
                        Err(e) => {
                            proof {
                                lemma_model_seq(els@);
                                assert(Value::model_seq(els@)[0] == els@[0].model());
                                assert(Value::model_seq(els@)[1] == els@[1].model());
                                assert(Value::model_seq(els@)[2] == els@[2].model());
                                assert(Value::model_seq(els@)[3] == els@[3].model());
                                assert(Value::model_seq(els@)[4] == els@[4].model());
                                assert(Value::model_seq(els@)[5] == els@[5].model());
                                assert(v.model()->Record_0 == Value::model_seq(els@));
                            }
                            return Err(e);
                        },
                    };
                    let metric = match <DistanceMetric>::from_structured_value(&els[3]) {
                        Ok(x) => x,
                        Err(e) => {
                            proof {
                                lemma_model_seq(els@);
                                assert(Value::model_seq(els@)[0] == els@[0].model());
                                assert(Value::model_seq(els@)[1] == els@[1].model());
                                assert(Value::model_seq(els@)[2] == els@[2].model());
                                assert(Value::model_seq(els@)[3] == els@[3].model());
                                assert(Value::model_seq(els@)[4] == els@[4].model());
                                assert(Value::model_seq(els@)[5] == els@[5].model());
                                assert(v.model()->Record_0 == Value::model_seq(els@));
                            }
                            return Err(e);
                        },
                    };
                    let vector_count = match <Option<u64>>::from_structured_value(&els[4]) {
                        Ok(x) => x,
                        Err(e) => {
                            proof {
                                lemma_model_seq(els@);
                                assert(Value::model_seq(els@)[0] == els@[0].model());
                                assert(Value::model_seq(els@)[1] == els@[1].model());
                                assert(Value::model_seq(els@)[2] == els@[2].model());
                                assert(Value::model_seq(els@)[3] == els@[3].model());
                                assert(Value::model_seq(els@)[4] == els@[4].model());
                                assert(Value::model_seq(els@)[5] == els@[5].model());
                                assert(v.model()->Record_0 == Value::model_seq(els@));
                            }
                            return Err(e);
                        },
                    };
                    let metadata = match <Option<Metadata>>::from_structured_value(&els[5]) {
                        Ok(x) => x,
                        Err(e) => {
                            proof {
                                lemma_model_seq(els@);
                                assert(Value::model_seq(els@)[0] == els@[0].model());
                                assert(Value::model_seq(els@)[1] == els@[1].model());
                                assert(Value::model_seq(els@)[2] == els@[2].model());
                                assert(Value::model_seq(els@)[3] == els@[3].model());
                                assert(Value::model_seq(els@)[4] == els@[4].model());
                                assert(Value::model_seq(els@)[5] == els@[5].model());
                                assert(v.model()->Record_0 == Value::model_seq(els@));
                            }
                            return Err(e);
                        },
                    };
                    proof {
                        lemma_model_seq(els@);
            assert(Value::model_seq(els@)[0] == els@[0].model());
            assert(Value::model_seq(els@)[1] == els@[1].model());
            assert(Value::model_seq(els@)[2] == els@[2].model());
            assert(Value::model_seq(els@)[3] == els@[3].model());
            assert(Value::model_seq(els@)[4] == els@[4].model());
            assert(Value::model_seq(els@)[5] == els@[5].model());
                        assert(v.model()->Record_0 == Value::model_seq(els@));
                        assert(Value::model_seq(els@) =~= seq![name.encoded(), description.encoded(), dimension.encoded(), metric.encoded(), vector_count.encoded(), metadata.encoded()]);
                    }
                    Ok(CollectionInfo { name: name, description: description, dimension: dimension, metric: metric, vector_count: vector_count, metadata: metadata })
                } else {
                    proof {
                        lemma_model_seq(els@);
                    }
                    Err(DecodeError::Shape)
                }
            },
            _ => Err(DecodeError::Shape),
        }
    }

    fn describe_shape() -> (t: TypeDescriptor) {
        let mut els: Vec<TypeDescriptor> = Vec::new();
        els.push(<String>::describe_shape());
        els.push(<Option<String>>::describe_shape());
        els.push(<u32>::describe_shape());
        els.push(<DistanceMetric>::describe_shape());
        els.push(<Option<u64>>::describe_shape());
        els.push(<Option<Metadata>>::describe_shape());
        TypeDescriptor::Record(els)
    }

    proof fn encoded_decodable(&self) {
        <String>::encoded_decodable(&self.name);
        <Option<String>>::encoded_decodable(&self.description);
        <u32>::encoded_decodable(&self.dimension);
        <DistanceMetric>::encoded_decodable(&self.metric);
        <Option<u64>>::encoded_decodable(&self.vector_count);
        <Option<Metadata>>::encoded_decodable(&self.metadata);
    }
}

impl Codec for CollectionStats {
    open spec fn decode_failure(m: ValueModel) -> DecodeError {
        match m {
            ValueModel::Record(els) => if els.len() != 3 {
                DecodeError::Shape
            } else if !<u64>::decodable(els[0]) {
                <u64>::decode_failure(els[0])
            } else if !<Option<u32>>::decodable(els[1]) {
                <Option<u32>>::decode_failure(els[1])
            } else {
                <Option<u64>>::decode_failure(els[2])
            },
            _ => DecodeError::Shape,
        }
    }

    open spec fn encoded(&self) -> ValueModel {
        ValueModel::Record(seq![self.vector_count.encoded(), self.dimension.encoded(), self.size_bytes.encoded()])
    }

    open spec fn decodable(m: ValueModel) -> bool {
        m matches ValueModel::Record(els) && els.len() == 3 && <u64>::decodable(els[0]) && <Option<u32>>::decodable(els[1]) && <Option<u64>>::decodable(els[2])
    }

    fn to_structured_value(&self) -> (v: Value) {
        let mut els: Vec<Value> = Vec::new();
        els.push(self.vector_count.to_structured_value());
        els.push(self.dimension.to_structured_value());
        els.push(self.size_bytes.to_structured_value());
        proof {
            lemma_model_seq(els@);
            assert(Value::model_seq(els@)[0] == els@[0].model());
            assert(Value::model_seq(els@)[1] == els@[1].model());
            assert(Value::model_seq(els@)[2] == els@[2].model());
            assert(Value::model_seq(els@) =~= seq![self.vector_count.encoded(), self.dimension.encoded(), self.size_bytes.encoded()]);
        }
        Value::Record(els)
    }

    fn from_structured_value(v: &Value) -> (r: Result<Self, DecodeError>) {
        match v {
            Value::Record(els) => {
                if els.len() == 3 {
                    let vector_count = match <u64>::from_structured_value(&els[0]) {
                        Ok(x) => x,
                        Err(e) => {
                            proof {
                                lemma_model_seq(els@);
                                assert(Value::model_seq(els@)[0] == els@[0].model());
                                assert(Value::model_seq(els@)[1] == els@[1].model());
                                assert(Value::model_seq(els@)[2] == els@[2].model());
                                assert(v.model()->Record_0 == Value::model_seq(els@));
                            }
                            return Err(e);
                        },
                    };
                    let dimension = match <Option<u32>>::from_structured_value(&els[1]) {
                        Ok(x) => x,
                        Err(e) => {
                            proof {
                                lemma_model_seq(els@);
                                assert(Value::model_seq(els@)[0] == els@[0].model());
                                assert(Value::model_seq(els@)[1] == els@[1].model());
                                assert(Value::model_seq(els@)[2] == els@[2].model());
                                assert(v.model()->Record_0 == Value::model_seq(els@));
                            }
                            return Err(e);
                        },
                    };
                    let size_bytes = match <Option<u64>>::from_structured_value(&els[2]) {
                        Ok(x) => x,
                        Err(e) => {
                            proof {
                                lemma_model_seq(els@);
                                assert(Value::model_seq(els@)[0] == els@[0].model());
                                assert(Value::model_seq(els@)[1] == els@[1].model());
                                assert(Value::model_seq(els@)[2] == els@[2].model());
                                assert(v.model()->Record_0 == Value::model_seq(els@));
                            }
                            return Err(e);
                        },
                    };
                    proof {
                        lemma_model_seq(els@);
            assert(Value::model_seq(els@)[0] == els@[0].model());
            assert(Value::model_seq(els@)[1] == els@[1].model());
            assert(Value::model_seq(els@)[2] == els@[2].model());
                        assert(v.model()->Record_0 == Value::model_seq(els@));
                        assert(Value::model_seq(els@) =~= seq![vector_count.encoded(), dimension.encoded(), size_bytes.encoded()]);
                    }
                    Ok(CollectionStats { vector_count: vector_count, dimension: dimension, size_bytes: size_bytes })
                } else {
                    proof {
                        lemma_model_seq(els@);
                    }
                    Err(DecodeError::Shape)
                }
            },
            _ => Err(DecodeError::Shape),
        }
    }

    fn describe_shape() -> (t: TypeDescriptor) {
        let mut els: Vec<TypeDescriptor> = Vec::new();
        els.push(<u64>::describe_shape());
        els.push(<Option<u32>>::describe_shape());
        els.push(<Option<u64>>::describe_shape());
        TypeDescriptor::Record(els)
    }

    proof fn encoded_decodable(&self) {
        <u64>::encoded_decodable(&self.vector_count);
        <Option<u32>>::encoded_decodable(&self.dimension);
        <Option<u64>>::encoded_decodable(&self.size_bytes);
    }
}

impl Codec for FieldStats {
    open spec fn decode_failure(m: ValueModel) -> DecodeError {
        match m {
            ValueModel::Record(els) => if els.len() != 4 {
                DecodeError::Shape
            } else if !<String>::decodable(els[0]) {
                <String>::decode_failure(els[0])
            } else if !<Option<u64>>::decodable(els[1]) {
                <Option<u64>>::decode_failure(els[1])
            } else if !<Option<MetadataValue>>::decodable(els[2]) {
                <Option<MetadataValue>>::decode_failure(els[2])
            } else {
                <Option<MetadataValue>>::decode_failure(els[3])
            },
            _ => DecodeError::Shape,
        }
    }

    open spec fn encoded(&self) -> ValueModel {
        ValueModel::Record(seq![self.field.encoded(), self.distinct_values.encoded(), self.min_value.encoded(), self.max_value.encoded()])
    }

    open spec fn decodable(m: ValueModel) -> bool {
        m matches ValueModel::Record(els) && els.len() == 4 && <String>::decodable(els[0]) && <Option<u64>>::decodable(els[1]) && <Option<MetadataValue>>::decodable(els[2]) && <Option<MetadataValue>>::decodable(els[3])
    }

    fn to_structured_value(&self) -> (v: Value) {
        let mut els: Vec<Value> = Vec::new();
        els.push(self.field.to_structured_value());
        els.push(self.distinct_values.to_structured_value());
        els.push(self.min_value.to_structured_value());
        els.push(self.max_value.to_structured_value());
        proof {
            lemma_model_seq(els@);
            assert(Value::model_seq(els@)[0] == els@[0].model());
            assert(Value::model_seq(els@)[1] == els@[1].model());
            assert(Value::model_seq(els@)[2] == els@[2].model());
            assert(Value::model_seq(els@)[3] == els@[3].model());
            assert(Value::model_seq(els@) =~= seq![self.field.encoded(), self.distinct_values.encoded(), self.min_value.encoded(), self.max_value.encoded()]);
        }
        Value::Record(els)
    }

    fn from_structured_value(v: &Value) -> (r: Result<Self, DecodeError>) {
        match v {
            Value::Record(els) => {
                if els.len() == 4 {
                    let field = match <String>::from_structured_value(&els[0]) {
                        Ok(x) => x,
                        Err(e) => {
                            proof {
                                lemma_model_seq(els@);
                                assert(Value::model_seq(els@)[0] == els@[0].model());
                                assert(Value::model_seq(els@)[1] == els@[1].model());
                                assert(Value::model_seq(els@)[2] == els@[2].model());
                                assert(Value::model_seq(els@)[3] == els@[3].model());
                                assert(v.model()->Record_0 == Value::model_seq(els@));
                            }
                            return Err(e);
                        },
                    };
                    let distinct_values = match <Option<u64>>::from_structured_value(&els[1]) {
                        Ok(x) => x,
                        Err(e) => {
                            proof {
                                lemma_model_seq(els@);
                                assert(Value::model_seq(els@)[0] == els@[0].model());
                                assert(Value::model_seq(els@)[1] == els@[1].model());
                                assert(Value::model_seq(els@)[2] == els@[2].model());
                                assert(Value::model_seq(els@)[3] == els@[3].model());
                                assert(v.model()->Record_0 == Value::model_seq(els@));
                            }
                            return Err(e);
                        },
                    };
                    let min_value = match <Option<MetadataValue>>::from_structured_value(&els[2]) {
                        Ok(x) => x,
                        Err(e) => {
                            proof {
                                lemma_model_seq(els@);
                                assert(Value::model_seq(els@)[0] == els@[0].model());
                                assert(Value::model_seq(els@)[1] == els@[1].model());
                                assert(Value::model_seq(els@)[2] == els@[2].model());
                                assert(Value::model_seq(els@)[3] == els@[3].model());
                                assert(v.model()->Record_0 == Value::model_seq(els@));
                            }
                            return Err(e);
                        },
                    };
                    let max_value = match <Option<MetadataValue>>::from_structured_value(&els[3]) {
                        Ok(x) => x,
                        Err(e) => {
                            proof {
                                lemma_model_seq(els@);
                                assert(Value::model_seq(els@)[0] == els@[0].model());
                                assert(Value::model_seq(els@)[1] == els@[1].model());
                                assert(Value::model_seq(els@)[2] == els@[2].model());
                                assert(Value::model_seq(els@)[3] == els@[3].model());
                                assert(v.model()->Record_0 == Value::model_seq(els@));
                            }
                            return Err(e);
                        },
                    };
                    proof {
                        lemma_model_seq(els@);
            assert(Value::model_seq(els@)[0] == els@[0].model());
            assert(Value::model_seq(els@)[1] == els@[1].model());
            assert(Value::model_seq(els@)[2] == els@[2].model());
            assert(Value::model_seq(els@)[3] == els@[3].model());
                        assert(v.model()->Record_0 == Value::model_seq(els@));
                        assert(Value::model_seq(els@) =~= seq![field.encoded(), distinct_values.encoded(), min_value.encoded(), max_value.encoded()]);
                    }
                    Ok(FieldStats { field: field, distinct_values: distinct_values, min_value: min_value, max_value: max_value })
                } else {
                    proof {
                        lemma_model_seq(els@);
                    }
                    Err(DecodeError::Shape)
                }
            },
            _ => Err(DecodeError::Shape),
        }
    }

    fn describe_shape() -> (t: TypeDescriptor) {
        let mut els: Vec<TypeDescriptor> = Vec::new();
        els.push(<String>::describe_shape());
        els.push(<Option<u64>>::describe_shape());
        els.push(<Option<MetadataValue>>::describe_shape());
        els.push(<Option<MetadataValue>>::describe_shape());
        TypeDescriptor::Record(els)
    }

    proof fn encoded_decodable(&self) {
        <String>::encoded_decodable(&self.field);
        <Option<u64>>::encoded_decodable(&self.distinct_values);
        <Option<MetadataValue>>::encoded_decodable(&self.min_value);
        <Option<MetadataValue>>::encoded_decodable(&self.max_value);
    }
}

impl Codec for VectorRecord {
    open spec fn decode_failure(m: ValueModel) -> DecodeError {
        match m {
            ValueModel::Record(els) => if els.len() != 3 {
                DecodeError::Shape
            } else if !<Id>::decodable(els[0]) {
                <Id>::decode_failure(els[0])
            } else if !<VectorData>::decodable(els[1]) {
                <VectorData>::decode_failure(els[1])
            } else {
                <Option<Metadata>>::decode_failure(els[2])
            },
            _ => DecodeError::Shape,
        }
    }

    open spec fn encoded(&self) -> ValueModel {
        ValueModel::Record(seq![self.id.encoded(), self.vector.encoded(), self.metadata.encoded()])
    }

    open spec fn decodable(m: ValueModel) -> bool {
        m matches ValueModel::Record(els) && els.len() == 3 && <Id>::decodable(els[0]) && <VectorData>::decodable(els[1]) && <Option<Metadata>>::decodable(els[2])
    }

    fn to_structured_value(&self) -> (v: Value) {
        let mut els: Vec<Value> = Vec::new();
        els.push(self.id.to_structured_value());
        els.push(self.vector.to_structured_value());
        els.push(self.metadata.to_structured_value());
        proof {
            lemma_model_seq(els@);
            assert(Value::model_seq(els@)[0] == els@[0].model());
            assert(Value::model_seq(els@)[1] == els@[1].model());
            assert(Value::model_seq(els@)[2] == els@[2].model());
            assert(Value::model_seq(els@) =~= seq![self.id.encoded(), self.vector.encoded(), self.metadata.encoded()]);
        }
        Value::Record(els)
    }

    fn from_structured_value(v: &Value) -> (r: Result<Self, DecodeError>) {
        match v {
            Value::Record(els) => {
                if els.len() == 3 {
                    let id = match <Id>::from_structured_value(&els[0]) {
                        Ok(x) => x,
                        Err(e) => {
                            proof {
                                lemma_model_seq(els@);
                                assert(Value::model_seq(els@)[0] == els@[0].model());
                                assert(Value::model_seq(els@)[1] == els@[1].model());
                                assert(Value::model_seq(els@)[2] == els@[2].model());
                                assert(v.model()->Record_0 == Value::model_seq(els@));
                            }
                            return Err(e);
                        },
                    };
                    let vector = match <VectorData>::from_structured_value(&els[1]) {
                        Ok(x) => x,
                        Err(e) => {
                            proof {
                                lemma_model_seq(els@);
                                assert(Value::model_seq(els@)[0] == els@[0].model());
                                assert(Value::model_seq(els@)[1] == els@[1].model());
                                assert(Value::model_seq(els@)[2] == els@[2].model());
                                assert(v.model()->Record_0 == Value::model_seq(els@));
                            }
                            return Err(e);
                        },
                    };
                    let metadata = match <Option<Metadata>>::from_structured_value(&els[2]) {
                        Ok(x) => x,
                        Err(e) => {
                            proof {
                                lemma_model_seq(els@);
                                assert(Value::model_seq(els@)[0] == els@[0].model());
                                assert(Value::model_seq(els@)[1] == els@[1].model());
                                assert(Value::model_seq(els@)[2] == els@[2].model());
                                assert(v.model()->Record_0 == Value::model_seq(els@));
                            }
                            return Err(e);
                        },
                    };
                    proof {
                        lemma_model_seq(els@);
            assert(Value::model_seq(els@)[0] == els@[0].model());
            assert(Value::model_seq(els@)[1] == els@[1].model());
            assert(Value::model_seq(els@)[2] == els@[2].model());
                        assert(v.model()->Record_0 == Value::model_seq(els@));
                        assert(Value::model_seq(els@) =~= seq![id.encoded(), vector.encoded(), metadata.encoded()]);
                    }
                    Ok(VectorRecord { id: id, vector: vector, metadata: metadata })
                } else {
                    proof {
                        lemma_model_seq(els@);
                    }
                    Err(DecodeError::Shape)
                }
            },
            _ => Err(DecodeError::Shape),
        }
    }

    fn describe_shape() -> (t: TypeDescriptor) {
        let mut els: Vec<TypeDescriptor> = Vec::new();
        els.push(<Id>::describe_shape());
        els.push(<VectorData>::describe_shape());
        els.push(<Option<Metadata>>::describe_shape());
        TypeDescriptor::Record(els)
    }

    proof fn encoded_decodable(&self) {
        <Id>::encoded_decodable(&self.id);
        <VectorData>::encoded_decodable(&self.vector);
        <Option<Metadata>>::encoded_decodable(&self.metadata);
    }
}

impl Codec for SearchQuery {
    open spec fn decode_failure(m: ValueModel) -> DecodeError {
        match m {
            ValueModel::Variant(tag, payload) => if tag == 0 && payload.len() == 1 {
                if !<VectorData>::decodable(payload[0]) {
                <VectorData>::decode_failure(payload[0])
            } else {
                DecodeError::Shape
            }
            } else if tag == 1 && payload.len() == 1 {
                if !<Id>::decodable(payload[0]) {
                <Id>::decode_failure(payload[0])
            } else {
                DecodeError::Shape
            }
            } else if tag == 2 && payload.len() == 1 {
                if !<String>::decodable(payload[0]) {
                <String>::decode_failure(payload[0])
            } else {
                DecodeError::Shape
            }
            } else {
                DecodeError::Shape
            },
            _ => DecodeError::Shape,
        }
    }

    open spec fn encoded(&self) -> ValueModel {
        match self {
            SearchQuery::Vector(vd) => ValueModel::Variant(0, seq![vd.encoded()]),
            SearchQuery::Id(i) => ValueModel::Variant(1, seq![i.encoded()]),
            SearchQuery::Text(t) => ValueModel::Variant(2, seq![t.encoded()]),
        }
    }

    open spec fn decodable(m: ValueModel) -> bool {
        m matches ValueModel::Variant(tag, payload) && ((tag == 0 && payload.len() == 1 && <VectorData>::decodable(payload[0])) || (tag == 1 && payload.len() == 1 && <Id>::decodable(payload[0])) || (tag == 2 && payload.len() == 1 && <String>::decodable(payload[0])))
    }

    fn to_structured_value(&self) -> (v: Value) {
        match self {
            SearchQuery::Vector(vd) => {
                let mut payload: Vec<Value> = Vec::new();
                payload.push(vd.to_structured_value());
                proof {
                    lemma_model_seq(payload@);
                    assert(Value::model_seq(payload@)[0] == payload@[0].model());
                    assert(Value::model_seq(payload@) =~= seq![vd.encoded()]);
                }
                Value::Variant(0, payload)
            },
            SearchQuery::Id(i) => {
                let mut payload: Vec<Value> = Vec::new();
                payload.push(i.to_structured_value());
                proof {
                    lemma_model_seq(payload@);
                    assert(Value::model_seq(payload@)[0] == payload@[0].model());
                    assert(Value::model_seq(payload@) =~= seq![i.encoded()]);
                }
                Value::Variant(1, payload)
            },
            SearchQuery::Text(t) => {
                let mut payload: Vec<Value> = Vec::new();
                payload.push(t.to_structured_value());
                proof {
                    lemma_model_seq(payload@);
                    assert(Value::model_seq(payload@)[0] == payload@[0].model());
                    assert(Value::model_seq(payload@) =~= seq![t.encoded()]);
                }
                Value::Variant(2, payload)
            },
        }
    }

    fn from_structured_value(v: &Value) -> (r: Result<Self, DecodeError>) {
        match v {
            Value::Variant(tag, payload) => {
                proof {
                    lemma_model_seq(payload@);
                }
                if *tag == 0 && payload.len() == 1 {
                    let vd = match <VectorData>::from_structured_value(&payload[0]) {
                        Ok(x) => x,
                        Err(e) => {
                            proof {
                                assert(Value::model_seq(payload@)[0] == payload@[0].model());
                                assert(v.model()->Variant_1 == Value::model_seq(payload@));
                            }
                            return Err(e);
                        },
                    };
                    proof {
                        assert(Value::model_seq(payload@)[0] == payload@[0].model());
                        assert(v.model()->Variant_1 == Value::model_seq(payload@));
                        assert(Value::model_seq(payload@) =~= seq![vd.encoded()]);
                    }
                    return Ok(SearchQuery::Vector(vd));
                }
                if *tag == 1 && payload.len() == 1 {
                    let i = match <Id>::from_structured_value(&payload[0]) {
                        Ok(x) => x,
                        Err(e) => {
                            proof {
                                assert(Value::model_seq(payload@)[0] == payload@[0].model());
                                assert(v.model()->Variant_1 == Value::model_seq(payload@));
                            }
                            return Err(e);
                        },
                    };
                    proof {
                        assert(Value::model_seq(payload@)[0] == payload@[0].model());
                        assert(v.model()->Variant_1 == Value::model_seq(payload@));
                        assert(Value::model_seq(payload@) =~= seq![i.encoded()]);
                    }
                    return Ok(SearchQuery::Id(i));
                }
                if *tag == 2 && payload.len() == 1 {
                    let t = match <String>::from_structured_value(&payload[0]) {
                        Ok(x) => x,
                        Err(e) => {
                            proof {
                                assert(Value::model_seq(payload@)[0] == payload@[0].model());
                                assert(v.model()->Variant_1 == Value::model_seq(payload@));
                            }
                            return Err(e);
                        },
                    };
                    proof {
                        assert(Value::model_seq(payload@)[0] == payload@[0].model());
                        assert(v.model()->Variant_1 == Value::model_seq(payload@));
                        assert(Value::model_seq(payload@) =~= seq![t.encoded()]);
                    }
                    return Ok(SearchQuery::Text(t));
                }
                Err(DecodeError::Shape)
            },
            _ => Err(DecodeError::Shape),
        }
    }

    fn describe_shape() -> (t: TypeDescriptor) {
        let mut cases: Vec<Vec<TypeDescriptor>> = Vec::new();
        let mut case0: Vec<TypeDescriptor> = Vec::new();
        case0.push(<VectorData>::describe_shape());
        cases.push(case0);
        let mut case1: Vec<TypeDescriptor> = Vec::new();
        case1.push(<Id>::describe_shape());
        cases.push(case1);
        let mut case2: Vec<TypeDescriptor> = Vec::new();
        case2.push(<String>::describe_shape());
        cases.push(case2);
        TypeDescriptor::Variant(cases)
    }

    proof fn encoded_decodable(&self) {
        match self {
            SearchQuery::Vector(vd) => {
                <VectorData>::encoded_decodable(vd);
            },
            SearchQuery::Id(i) => {
                <Id>::encoded_decodable(i);
            },
            SearchQuery::Text(t) => {
                <String>::encoded_decodable(t);
            },
        }
    }
}

impl Codec for SearchResult {
    open spec fn decode_failure(m: ValueModel) -> DecodeError {
        match m {
            ValueModel::Record(els) => if els.len() != 4 {
                DecodeError::Shape
            } else if !<Id>::decodable(els[0]) {
                <Id>::decode_failure(els[0])
            } else if !<u32>::decodable(els[1]) {
                <u32>::decode_failure(els[1])
            } else if !<Option<VectorData>>::decodable(els[2]) {
                <Option<VectorData>>::decode_failure(els[2])
            } else {
                <Option<Metadata>>::decode_failure(els[3])
            },
            _ => DecodeError::Shape,
        }
    }

    open spec fn encoded(&self) -> ValueModel {
        ValueModel::Record(seq![self.id.encoded(), self.score_bits.encoded(), self.vector.encoded(), self.metadata.encoded()])
    }

    open spec fn decodable(m: ValueModel) -> bool {
        m matches ValueModel::Record(els) && els.len() == 4 && <Id>::decodable(els[0]) && <u32>::decodable(els[1]) && <Option<VectorData>>::decodable(els[2]) && <Option<Metadata>>::decodable(els[3])
    }

    fn to_structured_value(&self) -> (v: Value) {
        let mut els: Vec<Value> = Vec::new();
        els.push(self.id.to_structured_value());
        els.push(self.score_bits.to_structured_value());
        els.push(self.vector.to_structured_value());
        els.push(self.metadata.to_structured_value());
        proof {
            lemma_model_seq(els@);
            assert(Value::model_seq(els@)[0] == els@[0].model());
            assert(Value::model_seq(els@)[1] == els@[1].model());
            assert(Value::model_seq(els@)[2] == els@[2].model());
            assert(Value::model_seq(els@)[3] == els@[3].model());
            assert(Value::model_seq(els@) =~= seq![self.id.encoded(), self.score_bits.encoded(), self.vector.encoded(), self.metadata.encoded()]);
        }
        Value::Record(els)
    }

    fn from_structured_value(v: &Value) -> (r: Result<Self, DecodeError>) {
        match v {
            Value::Record(els) => {
                if els.len() == 4 {
                    let id = match <Id>::from_structured_value(&els[0]) {
                        Ok(x) => x,
                        Err(e) => {
                            proof {
                                lemma_model_seq(els@);
                                assert(Value::model_seq(els@)[0] == els@[0].model());
                                assert(Value::model_seq(els@)[1] == els@[1].model());
                                assert(Value::model_seq(els@)[2] == els@[2].model());
                                assert(Value::model_seq(els@)[3] == els@[3].model());
                                assert(v.model()->Record_0 == Value::model_seq(els@));
                            }
                            return Err(e);
                        },
                    };
                    let score_bits = match <u32>::from_structured_value(&els[1]) {
                        Ok(x) => x,
                        Err(e) => {
                            proof {
                                lemma_model_seq(els@);
                                assert(Value::model_seq(els@)[0] == els@[0].model());
                                assert(Value::model_seq(els@)[1] == els@[1].model());
                                assert(Value::model_seq(els@)[2] == els@[2].model());
                                assert(Value::model_seq(els@)[3] == els@[3].model());
                                assert(v.model()->Record_0 == Value::model_seq(els@));
                            }
                            return Err(e);
                        },
                    };
                    let vector = match <Option<VectorData>>::from_structured_value(&els[2]) {
                        Ok(x) => x,
                        Err(e) => {
                            proof {
                                lemma_model_seq(els@);
                                assert(Value::model_seq(els@)[0] == els@[0].model());
                                assert(Value::model_seq(els@)[1] == els@[1].model());
                                assert(Value::model_seq(els@)[2] == els@[2].model());
                                assert(Value::model_seq(els@)[3] == els@[3].model());
                                assert(v.model()->Record_0 == Value::model_seq(els@));
                            }
                            return Err(e);
                        },
                    };
                    let metadata = match <Option<Metadata>>::from_structured_value(&els[3]) {
                        Ok(x) => x,
                        Err(e) => {
                            proof {
                                lemma_model_seq(els@);
                                assert(Value::model_seq(els@)[0] == els@[0].model());
                                assert(Value::model_seq(els@)[1] == els@[1].model());
                                assert(Value::model_seq(els@)[2] == els@[2].model());
                                assert(Value::model_seq(els@)[3] == els@[3].model());
                                assert(v.model()->Record_0 == Value::model_seq(els@));
                            }
                            return Err(e);
                        },
                    };
                    proof {
                        lemma_model_seq(els@);
            assert(Value::model_seq(els@)[0] == els@[0].model());
            assert(Value::model_seq(els@)[1] == els@[1].model());
            assert(Value::model_seq(els@)[2] == els@[2].model());
            assert(Value::model_seq(els@)[3] == els@[3].model());
                        assert(v.model()->Record_0 == Value::model_seq(els@));
                        assert(Value::model_seq(els@) =~= seq![id.encoded(), score_bits.encoded(), vector.encoded(), metadata.encoded()]);
                    }
                    Ok(SearchResult { id: id, score_bits: score_bits, vector: vector, metadata: metadata })
                } else {
                    proof {
                        lemma_model_seq(els@);
                    }
                    Err(DecodeError::Shape)
                }
            },
            _ => Err(DecodeError::Shape),
        }
    }

    fn describe_shape() -> (t: TypeDescriptor) {
        let mut els: Vec<TypeDescriptor> = Vec::new();
        els.push(<Id>::describe_shape());
        els.push(<u32>::describe_shape());
        els.push(<Option<VectorData>>::describe_shape());
        els.push(<Option<Metadata>>::describe_shape());
        TypeDescriptor::Record(els)
    }

    proof fn encoded_decodable(&self) {
        <Id>::encoded_decodable(&self.id);
        <u32>::encoded_decodable(&self.score_bits);
        <Option<VectorData>>::encoded_decodable(&self.vector);
        <Option<Metadata>>::encoded_decodable(&self.metadata);
    }
}

impl Codec for GroupedSearchResult {
    open spec fn decode_failure(m: ValueModel) -> DecodeError {
        match m {
            ValueModel::Record(els) => if els.len() != 2 {
                DecodeError::Shape
            } else if !<MetadataValue>::decodable(els[0]) {
                <MetadataValue>::decode_failure(els[0])
            } else {
                <Vec<SearchResult>>::decode_failure(els[1])
            },
            _ => DecodeError::Shape,
        }
    }

    open spec fn encoded(&self) -> ValueModel {
        ValueModel::Record(seq![self.group_key.encoded(), self.hits.encoded()])
    }

    open spec fn decodable(m: ValueModel) -> bool {
        m matches ValueModel::Record(els) && els.len() == 2 && <MetadataValue>::decodable(els[0]) && <Vec<SearchResult>>::decodable(els[1])
    }

    fn to_structured_value(&self) -> (v: Value) {
        let mut els: Vec<Value> = Vec::new();
        els.push(self.group_key.to_structured_value());
        els.push(self.hits.to_structured_value());
        proof {
            lemma_model_seq(els@);
            assert(Value::model_seq(els@)[0] == els@[0].model());
            assert(Value::model_seq(els@)[1] == els@[1].model());
            assert(Value::model_seq(els@) =~= seq![self.group_key.encoded(), self.hits.encoded()]);
        }
        Value::Record(els)
    }

    fn from_structured_value(v: &Value) -> (r: Result<Self, DecodeError>) {
        match v {
            Value::Record(els) => {
                if els.len() == 2 {
                    let group_key = match <MetadataValue>::from_structured_value(&els[0]) {
                        Ok(x) => x,
                        Err(e) => {
                            proof {
                                lemma_model_seq(els@);
                                assert(Value::model_seq(els@)[0] == els@[0].model());
                                assert(Value::model_seq(els@)[1] == els@[1].model());
                                assert(v.model()->Record_0 == Value::model_seq(els@));
                            }
                            return Err(e);
                        },
                    };
                    let hits = match <Vec<SearchResult>>::from_structured_value(&els[1]) {
                        Ok(x) => x,
                        Err(e) => {
                            proof {
                                lemma_model_seq(els@);
                                assert(Value::model_seq(els@)[0] == els@[0].model());
                                assert(Value::model_seq(els@)[1] == els@[1].model());
                                assert(v.model()->Record_0 == Value::model_seq(els@));
                            }
                            return Err(e);
                        },
                    };
                    proof {
                        lemma_model_seq(els@);
            assert(Value::model_seq(els@)[0] == els@[0].model());
            assert(Value::model_seq(els@)[1] == els@[1].model());
                        assert(v.model()->Record_0 == Value::model_seq(els@));
                        assert(Value::model_seq(els@) =~= seq![group_key.encoded(), hits.encoded()]);
                    }
                    Ok(GroupedSearchResult { group_key: group_key, hits: hits })
                } else {
                    proof {
                        lemma_model_seq(els@);
                    }
                    Err(DecodeError::Shape)
                }
            },
            _ => Err(DecodeError::Shape),
        }
    }

    fn describe_shape() -> (t: TypeDescriptor) {
        let mut els: Vec<TypeDescriptor> = Vec::new();
        els.push(<MetadataValue>::describe_shape());
        els.push(<Vec<SearchResult>>::describe_shape());
        TypeDescriptor::Record(els)
    }

    proof fn encoded_decodable(&self) {
        <MetadataValue>::encoded_decodable(&self.group_key);
        <Vec<SearchResult>>::encoded_decodable(&self.hits);
    }
}

impl Codec for RecommendationExample {
    open spec fn decode_failure(m: ValueModel) -> DecodeError {
        match m {
            ValueModel::Variant(tag, payload) => if tag == 0 && payload.len() == 1 {
                if !<Id>::decodable(payload[0]) {
                <Id>::decode_failure(payload[0])
            } else {
                DecodeError::Shape
            }
            } else if tag == 1 && payload.len() == 1 {
                if !<VectorData>::decodable(payload[0]) {
                <VectorData>::decode_failure(payload[0])
            } else {
                DecodeError::Shape
            }
            } else {
                DecodeError::Shape
            },
            _ => DecodeError::Shape,
        }
    }

    open spec fn encoded(&self) -> ValueModel {
        match self {
            RecommendationExample::Id(i) => ValueModel::Variant(0, seq![i.encoded()]),
            RecommendationExample::Vector(vd) => ValueModel::Variant(1, seq![vd.encoded()]),
        }
    }

    open spec fn decodable(m: ValueModel) -> bool {
        m matches ValueModel::Variant(tag, payload) && ((tag == 0 && payload.len() == 1 && <Id>::decodable(payload[0])) || (tag == 1 && payload.len() == 1 && <VectorData>::decodable(payload[0])))
    }

    fn to_structured_value(&self) -> (v: Value) {
        match self {
            RecommendationExample::Id(i) => {
                let mut payload: Vec<Value> = Vec::new();
                payload.push(i.to_structured_value());
                proof {
                    lemma_model_seq(payload@);
                    assert(Value::model_seq(payload@)[0] == payload@[0].model());
                    assert(Value::model_seq(payload@) =~= seq![i.encoded()]);
                }
                Value::Variant(0, payload)
            },
            RecommendationExample::Vector(vd) => {
                let mut payload: Vec<Value> = Vec::new();
                payload.push(vd.to_structured_value());
                proof {
                    lemma_model_seq(payload@);
                    assert(Value::model_seq(payload@)[0] == payload@[0].model());
                    assert(Value::model_seq(payload@) =~= seq![vd.encoded()]);
                }
                Value::Variant(1, payload)
            },
        }
    }

    fn from_structured_value(v: &Value) -> (r: Result<Self, DecodeError>) {
        match v {
            Value::Variant(tag, payload) => {
                proof {
                    lemma_model_seq(payload@);
                }
                if *tag == 0 && payload.len() == 1 {
                    let i = match <Id>::from_structured_value(&payload[0]) {
                        Ok(x) => x,
                        Err(e) => {
                            proof {
                                assert(Value::model_seq(payload@)[0] == payload@[0].model());
                                assert(v.model()->Variant_1 == Value::model_seq(payload@));
                            }
                            return Err(e);
                        },
                    };
                    proof {
                        assert(Value::model_seq(payload@)[0] == payload@[0].model());
                        assert(v.model()->Variant_1 == Value::model_seq(payload@));
                        assert(Value::model_seq(payload@) =~= seq![i.encoded()]);
                    }
                    return Ok(RecommendationExample::Id(i));
                }
                if *tag == 1 && payload.len() == 1 {
                    let vd = match <VectorData>::from_structured_value(&payload[0]) {
                        Ok(x) => x,
                        Err(e) => {
                            proof {
                                assert(Value::model_seq(payload@)[0] == payload@[0].model());
                                assert(v.model()->Variant_1 == Value::model_seq(payload@));
                            }
                            return Err(e);
                        },
                    };
                    proof {
                        assert(Value::model_seq(payload@)[0] == payload@[0].model());
                        assert(v.model()->Variant_1 == Value::model_seq(payload@));
                        assert(Value::model_seq(payload@) =~= seq![vd.encoded()]);
                    }
                    return Ok(RecommendationExample::Vector(vd));
                }
                Err(DecodeError::Shape)
            },
            _ => Err(DecodeError::Shape),
        }
    }

    fn describe_shape() -> (t: TypeDescriptor) {
        let mut cases: Vec<Vec<TypeDescriptor>> = Vec::new();
        let mut case0: Vec<TypeDescriptor> = Vec::new();
        case0.push(<Id>::describe_shape());
        cases.push(case0);
        let mut case1: Vec<TypeDescriptor> = Vec::new();
        case1.push(<VectorData>::describe_shape());
        cases.push(case1);
        TypeDescriptor::Variant(cases)
    }

    proof fn encoded_decodable(&self) {
        match self {
            RecommendationExample::Id(i) => {
                <Id>::encoded_decodable(i);
            },
            RecommendationExample::Vector(vd) => {
                <VectorData>::encoded_decodable(vd);
            },
        }
    }
}

impl Codec for ContextPair {
    open spec fn decode_failure(m: ValueModel) -> DecodeError {
        match m {
            ValueModel::Record(els) => if els.len() != 2 {
                DecodeError::Shape
            } else if !<RecommendationExample>::decodable(els[0]) {
                <RecommendationExample>::decode_failure(els[0])
            } else {
                <RecommendationExample>::decode_failure(els[1])
            },
            _ => DecodeError::Shape,
        }
    }

    open spec fn encoded(&self) -> ValueModel {
        ValueModel::Record(seq![self.positive.encoded(), self.negative.encoded()])
    }

    open spec fn decodable(m: ValueModel) -> bool {
        m matches ValueModel::Record(els) && els.len() == 2 && <RecommendationExample>::decodable(els[0]) && <RecommendationExample>::decodable(els[1])
    }

    fn to_structured_value(&self) -> (v: Value) {
        let mut els: Vec<Value> = Vec::new();
        els.push(self.positive.to_structured_value());
        els.push(self.negative.to_structured_value());
        proof {
            lemma_model_seq(els@);
            assert(Value::model_seq(els@)[0] == els@[0].model());
            assert(Value::model_seq(els@)[1] == els@[1].model());
            assert(Value::model_seq(els@) =~= seq![self.positive.encoded(), self.negative.encoded()]);
        }
        Value::Record(els)
    }

    fn from_structured_value(v: &Value) -> (r: Result<Self, DecodeError>) {
        match v {
            Value::Record(els) => {
                if els.len() == 2 {
                    let positive = match <RecommendationExample>::from_structured_value(&els[0]) {
                        Ok(x) => x,
                        Err(e) => {
                            proof {
                                lemma_model_seq(els@);
                                assert(Value::model_seq(els@)[0] == els@[0].model());
                                assert(Value::model_seq(els@)[1] == els@[1].model());
                                assert(v.model()->Record_0 == Value::model_seq(els@));
                            }
                            return Err(e);
                        },
                    };
                    let negative = match <RecommendationExample>::from_structured_value(&els[1]) {
                        Ok(x) => x,
                        Err(e) => {
                            proof {
                                lemma_model_seq(els@);
                                assert(Value::model_seq(els@)[0] == els@[0].model());
                                assert(Value::model_seq(els@)[1] == els@[1].model());
                                assert(v.model()->Record_0 == Value::model_seq(els@));
                            }
                            return Err(e);
                        },
                    };
                    proof {
                        lemma_model_seq(els@);
            assert(Value::model_seq(els@)[0] == els@[0].model());
            assert(Value::model_seq(els@)[1] == els@[1].model());
                        assert(v.model()->Record_0 == Value::model_seq(els@));
                        assert(Value::model_seq(els@) =~= seq![positive.encoded(), negative.encoded()]);
                    }
                    Ok(ContextPair { positive: positive, negative: negative })
                } else {
                    proof {
                        lemma_model_seq(els@);
                    }
                    Err(DecodeError::Shape)
                }
            },
            _ => Err(DecodeError::Shape),
        }
    }

    fn describe_shape() -> (t: TypeDescriptor) {
        let mut els: Vec<TypeDescriptor> = Vec::new();
        els.push(<RecommendationExample>::describe_shape());
        els.push(<RecommendationExample>::describe_shape());
        TypeDescriptor::Record(els)
    }

    proof fn encoded_decodable(&self) {
        <RecommendationExample>::encoded_decodable(&self.positive);
        <RecommendationExample>::encoded_decodable(&self.negative);
    }
}

impl Codec for BatchResult {
    open spec fn decode_failure(m: ValueModel) -> DecodeError {
        match m {
            ValueModel::Record(els) => if els.len() != 2 {
                DecodeError::Shape
            } else if !<u32>::decodable(els[0]) {
                <u32>::decode_failure(els[0])
            } else {
                <u32>::decode_failure(els[1])
            },
            _ => DecodeError::Shape,
        }
    }

    open spec fn encoded(&self) -> ValueModel {
        ValueModel::Record(seq![self.succeeded_count.encoded(), self.failed_count.encoded()])
    }

    open spec fn decodable(m: ValueModel) -> bool {
        m matches ValueModel::Record(els) && els.len() == 2 && <u32>::decodable(els[0]) && <u32>::decodable(els[1])
    }

    fn to_structured_value(&self) -> (v: Value) {
        let mut els: Vec<Value> = Vec::new();
        els.push(self.succeeded_count.to_structured_value());
        els.push(self.failed_count.to_structured_value());
        proof {
            lemma_model_seq(els@);
            assert(Value::model_seq(els@)[0] == els@[0].model());
            assert(Value::model_seq(els@)[1] == els@[1].model());
            assert(Value::model_seq(els@) =~= seq![self.succeeded_count.encoded(), self.failed_count.encoded()]);
        }
        Value::Record(els)
    }

    fn from_structured_value(v: &Value) -> (r: Result<Self, DecodeError>) {
        match v {
            Value::Record(els) => {
                if els.len() == 2 {
                    let succeeded_count = match <u32>::from_structured_value(&els[0]) {
                        Ok(x) => x,
                        Err(e) => {
                            proof {
                                lemma_model_seq(els@);
                                assert(Value::model_seq(els@)[0] == els@[0].model());
                                assert(Value::model_seq(els@)[1] == els@[1].model());
                                assert(v.model()->Record_0 == Value::model_seq(els@));
                            }
                            return Err(e);
                        },
                    };
                    let failed_count = match <u32>::from_structured_value(&els[1]) {
                        Ok(x) => x,
                        Err(e) => {
                            proof {
                                lemma_model_seq(els@);
                                assert(Value::model_seq(els@)[0] == els@[0].model());
                                assert(Value::model_seq(els@)[1] == els@[1].model());
                                assert(v.model()->Record_0 == Value::model_seq(els@));
                            }
                            return Err(e);
                        },
                    };
                    proof {
                        lemma_model_seq(els@);
            assert(Value::model_seq(els@)[0] == els@[0].model());
            assert(Value::model_seq(els@)[1] == els@[1].model());
                        assert(v.model()->Record_0 == Value::model_seq(els@));
                        assert(Value::model_seq(els@) =~= seq![succeeded_count.encoded(), failed_count.encoded()]);
                    }
                    Ok(BatchResult { succeeded_count: succeeded_count, failed_count: failed_count })
                } else {
                    proof {
                        lemma_model_seq(els@);
                    }
                    Err(DecodeError::Shape)
                }
            },
            _ => Err(DecodeError::Shape),
        }
    }

    fn describe_shape() -> (t: TypeDescriptor) {
        let mut els: Vec<TypeDescriptor> = Vec::new();
        els.push(<u32>::describe_shape());
        els.push(<u32>::describe_shape());
        TypeDescriptor::Record(els)
    }

    proof fn encoded_decodable(&self) {
        <u32>::encoded_decodable(&self.succeeded_count);
        <u32>::encoded_decodable(&self.failed_count);
    }
}

impl Codec for ListResponse {
    open spec fn decode_failure(m: ValueModel) -> DecodeError {
        match m {
            ValueModel::Record(els) => if els.len() != 2 {
                DecodeError::Shape
            } else if !<Vec<VectorRecord>>::decodable(els[0]) {
                <Vec<VectorRecord>>::decode_failure(els[0])
            } else {
                <Option<Id>>::decode_failure(els[1])
            },
            _ => DecodeError::Shape,
        }
    }

    open spec fn encoded(&self) -> ValueModel {
        ValueModel::Record(seq![self.records.encoded(), self.cursor.encoded()])
    }

    open spec fn decodable(m: ValueModel) -> bool {
        m matches ValueModel::Record(els) && els.len() == 2 && <Vec<VectorRecord>>::decodable(els[0]) && <Option<Id>>::decodable(els[1])
    }

    fn to_structured_value(&self) -> (v: Value) {
        let mut els: Vec<Value> = Vec::new();
        els.push(self.records.to_structured_value());
        els.push(self.cursor.to_structured_value());
        proof {
            lemma_model_seq(els@);
            assert(Value::model_seq(els@)[0] == els@[0].model());
            assert(Value::model_seq(els@)[1] == els@[1].model());
            assert(Value::model_seq(els@) =~= seq![self.records.encoded(), self.cursor.encoded()]);
        }
        Value::Record(els)
    }

    fn from_structured_value(v: &Value) -> (r: Result<Self, DecodeError>) {
        match v {
            Value::Record(els) => {
                if els.len() == 2 {
                    let records = match <Vec<VectorRecord>>::from_structured_value(&els[0]) {
                        Ok(x) => x,
                        Err(e) => {
                            proof {
                                lemma_model_seq(els@);
                                assert(Value::model_seq(els@)[0] == els@[0].model());
                                assert(Value::model_seq(els@)[1] == els@[1].model());
                                assert(v.model()->Record_0 == Value::model_seq(els@));
                            }
                            return Err(e);
                        },
                    };
                    let cursor = match <Option<Id>>::from_structured_value(&els[1]) {
                        Ok(x) => x,
                        Err(e) => {
                            proof {
                                lemma_model_seq(els@);
                                assert(Value::model_seq(els@)[0] == els@[0].model());
                                assert(Value::model_seq(els@)[1] == els@[1].model());
                                assert(v.model()->Record_0 == Value::model_seq(els@));
                            }
                            return Err(e);
                        },
                    };
                    proof {
                        lemma_model_seq(els@);
            assert(Value::model_seq(els@)[0] == els@[0].model());
            assert(Value::model_seq(els@)[1] == els@[1].model());
                        assert(v.model()->Record_0 == Value::model_seq(els@));
                        assert(Value::model_seq(els@) =~= seq![records.encoded(), cursor.encoded()]);
                    }
                    Ok(ListResponse { records: records, cursor: cursor })
                } else {
                    proof {
                        lemma_model_seq(els@);
                    }
                    Err(DecodeError::Shape)
                }
            },
            _ => Err(DecodeError::Shape),
        }
    }

    fn describe_shape() -> (t: TypeDescriptor) {
        let mut els: Vec<TypeDescriptor> = Vec::new();
        els.push(<Vec<VectorRecord>>::describe_shape());
        els.push(<Option<Id>>::describe_shape());
        TypeDescriptor::Record(els)
    }

    proof fn encoded_decodable(&self) {
        <Vec<VectorRecord>>::encoded_decodable(&self.records);
        <Option<Id>>::encoded_decodable(&self.cursor);
    }
}

impl Codec for VectorError {
    open spec fn decode_failure(m: ValueModel) -> DecodeError {
        match m {
            ValueModel::Variant(tag, payload) => if tag == 0 && payload.len() == 1 {
                if !<String>::decodable(payload[0]) {
                <String>::decode_failure(payload[0])
            } else {
                DecodeError::Shape
            }
            } else if tag == 1 && payload.len() == 1 {
                if !<String>::decodable(payload[0]) {
                <String>::decode_failure(payload[0])
            } else {
                DecodeError::Shape
            }
            } else if tag == 2 && payload.len() == 1 {
                if !<String>::decodable(payload[0]) {
                <String>::decode_failure(payload[0])
            } else {
                DecodeError::Shape
            }
            } else if tag == 3 && payload.len() == 1 {
                if !<String>::decodable(payload[0]) {
                <String>::decode_failure(payload[0])
            } else {
                DecodeError::Shape
            }
            } else if tag == 4 && payload.len() == 1 {
                if !<String>::decodable(payload[0]) {
                <String>::decode_failure(payload[0])
            } else {
                DecodeError::Shape
            }
            } else if tag == 5 && payload.len() == 1 {
                if !<String>::decodable(payload[0]) {
                <String>::decode_failure(payload[0])
            } else {
                DecodeError::Shape
            }
            } else {
                DecodeError::Shape
            },
            _ => DecodeError::Shape,
        }
    }

    open spec fn encoded(&self) -> ValueModel {
        match self {
            VectorError::ConnectionError(m) => ValueModel::Variant(0, seq![m.encoded()]),
            VectorError::Unauthorized(m) => ValueModel::Variant(1, seq![m.encoded()]),
            VectorError::NotFound(m) => ValueModel::Variant(2, seq![m.encoded()]),
            VectorError::InvalidParams(m) => ValueModel::Variant(3, seq![m.encoded()]),
            VectorError::UnsupportedFeature(m) => ValueModel::Variant(4, seq![m.encoded()]),
            VectorError::ProviderError(m) => ValueModel::Variant(5, seq![m.encoded()]),
        }
    }

    open spec fn decodable(m: ValueModel) -> bool {
        m matches ValueModel::Variant(tag, payload) && ((tag == 0 && payload.len() == 1 && <String>::decodable(payload[0])) || (tag == 1 && payload.len() == 1 && <String>::decodable(payload[0])) || (tag == 2 && payload.len() == 1 && <String>::decodable(payload[0])) || (tag == 3 && payload.len() == 1 && <String>::decodable(payload[0])) || (tag == 4 && payload.len() == 1 && <String>::decodable(payload[0])) || (tag == 5 && payload.len() == 1 && <String>::decodable(payload[0])))
    }

    fn to_structured_value(&self) -> (v: Value) {
        match self {
            VectorError::ConnectionError(m) => {
                let mut payload: Vec<Value> = Vec::new();
                payload.push(m.to_structured_value());
                proof {
                    lemma_model_seq(payload@);
                    assert(Value::model_seq(payload@)[0] == payload@[0].model());
                    assert(Value::model_seq(payload@) =~= seq![m.encoded()]);
                }
                Value::Variant(0, payload)
            },
            VectorError::Unauthorized(m) => {
                let mut payload: Vec<Value> = Vec::new();
                payload.push(m.to_structured_value());
                proof {
                    lemma_model_seq(payload@);
                    assert(Value::model_seq(payload@)[0] == payload@[0].model());
                    assert(Value::model_seq(payload@) =~= seq![m.encoded()]);
                }
                Value::Variant(1, payload)
            },
            VectorError::NotFound(m) => {
                let mut payload: Vec<Value> = Vec::new();
                payload.push(m.to_structured_value());
                proof {
                    lemma_model_seq(payload@);
                    assert(Value::model_seq(payload@)[0] == payload@[0].model());
                    assert(Value::model_seq(payload@) =~= seq![m.encoded()]);
                }
                Value::Variant(2, payload)
            },
            VectorError::InvalidParams(m) => {
                let mut payload: Vec<Value> = Vec::new();
                payload.push(m.to_structured_value());
                proof {
                    lemma_model_seq(payload@);
                    assert(Value::model_seq(payload@)[0] == payload@[0].model());
                    assert(Value::model_seq(payload@) =~= seq![m.encoded()]);
                }
                Value::Variant(3, payload)
            },
            VectorError::UnsupportedFeature(m) => {
                let mut payload: Vec<Value> = Vec::new();
                payload.push(m.to_structured_value());
                proof {
                    lemma_model_seq(payload@);
                    assert(Value::model_seq(payload@)[0] == payload@[0].model());
                    assert(Value::model_seq(payload@) =~= seq![m.encoded()]);
                }
                Value::Variant(4, payload)
            },
            VectorError::ProviderError(m) => {
                let mut payload: Vec<Value> = Vec::new();
                payload.push(m.to_structured_value());
                proof {
                    lemma_model_seq(payload@);
                    assert(Value::model_seq(payload@)[0] == payload@[0].model());
                    assert(Value::model_seq(payload@) =~= seq![m.encoded()]);
                }
                Value::Variant(5, payload)
            },
        }
    }

    fn from_structured_value(v: &Value) -> (r: Result<Self, DecodeError>) {
        match v {
            Value::Variant(tag, payload) => {
                proof {
                    lemma_model_seq(payload@);
                }
                if *tag == 0 && payload.len() == 1 {
                    let m = match <String>::from_structured_value(&payload[0]) {
                        Ok(x) => x,
                        Err(e) => {
                            proof {
                                assert(Value::model_seq(payload@)[0] == payload@[0].model());
                                assert(v.model()->Variant_1 == Value::model_seq(payload@));
                            }
                            return Err(e);
                        },
                    };
                    proof {
                        assert(Value::model_seq(payload@)[0] == payload@[0].model());
                        assert(v.model()->Variant_1 == Value::model_seq(payload@));
                        assert(Value::model_seq(payload@) =~= seq![m.encoded()]);
                    }
                    return Ok(VectorError::ConnectionError(m));
                }
                if *tag == 1 && payload.len() == 1 {
                    let m = match <String>::from_structured_value(&payload[0]) {
                        Ok(x) => x,
                        Err(e) => {
                            proof {
                                assert(Value::model_seq(payload@)[0] == payload@[0].model());
                                assert(v.model()->Variant_1 == Value::model_seq(payload@));
                            }
                            return Err(e);
                        },
                    };
                    proof {
                        assert(Value::model_seq(payload@)[0] == payload@[0].model());
                        assert(v.model()->Variant_1 == Value::model_seq(payload@));
                        assert(Value::model_seq(payload@) =~= seq![m.encoded()]);
                    }
                    return Ok(VectorError::Unauthorized(m));
                }
                if *tag == 2 && payload.len() == 1 {
                    let m = match <String>::from_structured_value(&payload[0]) {
                        Ok(x) => x,
                        Err(e) => {
                            proof {
                                assert(Value::model_seq(payload@)[0] == payload@[0].model());
                                assert(v.model()->Variant_1 == Value::model_seq(payload@));
                            }
                            return Err(e);
                        },
                    };
                    proof {
                        assert(Value::model_seq(payload@)[0] == payload@[0].model());
                        assert(v.model()->Variant_1 == Value::model_seq(payload@));
                        assert(Value::model_seq(payload@) =~= seq![m.encoded()]);
                    }
                    return Ok(VectorError::NotFound(m));
                }
                if *tag == 3 && payload.len() == 1 {
                    let m = match <String>::from_structured_value(&payload[0]) {
                        Ok(x) => x,
                        Err(e) => {
                            proof {
                                assert(Value::model_seq(payload@)[0] == payload@[0].model());
                                assert(v.model()->Variant_1 == Value::model_seq(payload@));
                            }
                            return Err(e);
                        },
                    };
                    proof {
                        assert(Value::model_seq(payload@)[0] == payload@[0].model());
                        assert(v.model()->Variant_1 == Value::model_seq(payload@));
                        assert(Value::model_seq(payload@) =~= seq![m.encoded()]);
                    }
                    return Ok(VectorError::InvalidParams(m));
                }
                if *tag == 4 && payload.len() == 1 {
                    let m = match <String>::from_structured_value(&payload[0]) {
                        Ok(x) => x,
                        Err(e) => {
                            proof {
                                assert(Value::model_seq(payload@)[0] == payload@[0].model());
                                assert(v.model()->Variant_1 == Value::model_seq(payload@));
                            }
                            return Err(e);
                        },
                    };
                    proof {
                        assert(Value::model_seq(payload@)[0] == payload@[0].model());
                        assert(v.model()->Variant_1 == Value::model_seq(payload@));
                        assert(Value::model_seq(payload@) =~= seq![m.encoded()]);
                    }
                    return Ok(VectorError::UnsupportedFeature(m));
                }
                if *tag == 5 && payload.len() == 1 {
                    let m = match <String>::from_structured_value(&payload[0]) {
                        Ok(x) => x,
                        Err(e) => {
                            proof {
                                assert(Value::model_seq(payload@)[0] == payload@[0].model());
                                assert(v.model()->Variant_1 == Value::model_seq(payload@));
                            }
                            return Err(e);
                        },
                    };
                    proof {
                        assert(Value::model_seq(payload@)[0] == payload@[0].model());
                        assert(v.model()->Variant_1 == Value::model_seq(payload@));
                        assert(Value::model_seq(payload@) =~= seq![m.encoded()]);
                    }
                    return Ok(VectorError::ProviderError(m));
                }
                Err(DecodeError::Shape)
            },
            _ => Err(DecodeError::Shape),
        }
    }

    fn describe_shape() -> (t: TypeDescriptor) {
        let mut cases: Vec<Vec<TypeDescriptor>> = Vec::new();
        let mut case0: Vec<TypeDescriptor> = Vec::new();
        case0.push(<String>::describe_shape());
        cases.push(case0);
        let mut case1: Vec<TypeDescriptor> = Vec::new();
        case1.push(<String>::describe_shape());
        cases.push(case1);
        let mut case2: Vec<TypeDescriptor> = Vec::new();
        case2.push(<String>::describe_shape());
        cases.push(case2);
        let mut case3: Vec<TypeDescriptor> = Vec::new();
        case3.push(<String>::describe_shape());
        cases.push(case3);
        let mut case4: Vec<TypeDescriptor> = Vec::new();
        case4.push(<String>::describe_shape());
        cases.push(case4);
        let mut case5: Vec<TypeDescriptor> = Vec::new();
        case5.push(<String>::describe_shape());
        cases.push(case5);
        TypeDescriptor::Variant(cases)
    }

    proof fn encoded_decodable(&self) {
        match self {
            VectorError::ConnectionError(m) => {
                <String>::encoded_decodable(m);
            },
            VectorError::Unauthorized(m) => {
                <String>::encoded_decodable(m);
            },
            VectorError::NotFound(m) => {
                <String>::encoded_decodable(m);
            },
            VectorError::InvalidParams(m) => {
                <String>::encoded_decodable(m);
            },
            VectorError::UnsupportedFeature(m) => {
                <String>::encoded_decodable(m);
            },
            VectorError::ProviderError(m) => {
                <String>::encoded_decodable(m);
            },
        }
    }
}

} // verus!
