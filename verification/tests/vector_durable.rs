//! The durable vector-store wrapper: live calls record, replay skips the
//! provider, provider errors are persisted like successes, and a disabled
//! context is a pure passthrough.

use std::cell::Cell;

use golem_durability::codec::Codec;
use golem_durability::durability::{DurabilityContext, DurableFunctionType, LogEntry};
use golem_durability::params::NoParam;
use golem_durability::value::Value;
use golem_durability::vector::durable::{upsert_collection_steps, DurableVector, VectorProvider};
use golem_durability::vector::types::{
    BatchResult, CollectionInfo, CollectionStats, ConnectionStatus, ContextPair, Credentials,
    DistanceMetric, FieldStats, FilterExpression, GroupedSearchResult, Id, IndexConfig,
    ListResponse, Metadata, MetadataValue, NamespaceInfo, RecommendationExample,
    RecommendationStrategy, SearchQuery, SearchResult, VectorData, VectorError, VectorRecord,
};

struct FakeStore {
    calls: Cell<u32>,
    fail: bool,
}

impl FakeStore {
    fn new(fail: bool) -> Self {
        FakeStore { calls: Cell::new(0), fail }
    }

    fn tick(&self) -> Result<(), VectorError> {
        self.calls.set(self.calls.get() + 1);
        if self.fail {
            Err(VectorError::NotFound("missing".to_string()))
        } else {
            Ok(())
        }
    }
}

fn info(name: &str) -> NamespaceInfo {
    NamespaceInfo { name: name.to_string(), vector_count: Some(2), metadata: None }
}

fn collection(name: &str) -> CollectionInfo {
    CollectionInfo {
        name: name.to_string(),
        description: None,
        dimension: 4,
        metric: DistanceMetric::Cosine,
        vector_count: Some(0),
        metadata: None,
    }
}

impl VectorProvider for &FakeStore {
    fn connect(
        &self,
        _endpoint: String,
        _credentials: Option<Credentials>,
        _timeout_ms: Option<u32>,
        _options: Option<Metadata>,
    ) -> Result<(), VectorError> {
        self.tick()
    }

    fn disconnect(&self) -> Result<(), VectorError> {
        self.tick()
    }

    fn get_connection_status(&self) -> Result<ConnectionStatus, VectorError> {
        self.tick()?;
        Ok(ConnectionStatus { connected: true, endpoint: None, message: None })
    }

    fn test_connection(
        &self,
        _endpoint: String,
        _credentials: Option<Credentials>,
        _timeout_ms: Option<u32>,
        _options: Option<Metadata>,
    ) -> Result<bool, VectorError> {
        self.tick()?;
        Ok(true)
    }

    fn upsert_namespace(
        &self,
        _collection: String,
        namespace: String,
        _metadata: Option<Metadata>,
    ) -> Result<NamespaceInfo, VectorError> {
        self.tick()?;
        Ok(info(&namespace))
    }

    fn list_namespaces(&self, _collection: String) -> Result<Vec<NamespaceInfo>, VectorError> {
        self.tick()?;
        Ok(vec![info("a"), info("b")])
    }

    fn get_namespace(
        &self,
        _collection: String,
        namespace: String,
    ) -> Result<NamespaceInfo, VectorError> {
        self.tick()?;
        Ok(info(&namespace))
    }

    fn delete_namespace(
        &self,
        _collection: String,
        _namespace: String,
    ) -> Result<(), VectorError> {
        self.tick()
    }

    fn namespace_exists(
        &self,
        _collection: String,
        _namespace: String,
    ) -> Result<bool, VectorError> {
        self.tick()?;
        Ok(false)
    }

    fn get_collection_stats(
        &self,
        _collection: String,
        _namespace: Option<String>,
    ) -> Result<CollectionStats, VectorError> {
        self.tick()?;
        Ok(CollectionStats { vector_count: 7, dimension: Some(4), size_bytes: None })
    }

    fn get_field_stats(
        &self,
        _collection: String,
        field: String,
        _namespace: Option<String>,
    ) -> Result<FieldStats, VectorError> {
        self.tick()?;
        Ok(FieldStats { field, distinct_values: Some(3), min_value: None, max_value: None })
    }

    fn get_field_distribution(
        &self,
        _collection: String,
        _field: String,
        _limit: Option<u32>,
        _namespace: Option<String>,
    ) -> Result<Vec<(MetadataValue, u64)>, VectorError> {
        self.tick()?;
        Ok(vec![(MetadataValue::StringVal("x".to_string()), 5)])
    }

    fn recommend_vectors(
        &self,
        _collection: String,
        _positive: Vec<RecommendationExample>,
        _negative: Option<Vec<RecommendationExample>>,
        _limit: u32,
        _filter: Option<FilterExpression>,
        _namespace: Option<String>,
        _strategy: Option<RecommendationStrategy>,
        _include_vectors: Option<bool>,
        _include_metadata: Option<bool>,
    ) -> Result<Vec<SearchResult>, VectorError> {
        self.tick()?;
        Ok(vec![])
    }

    fn discover_vectors(
        &self,
        _collection: String,
        _context_pairs: Vec<ContextPair>,
        _limit: u32,
        _filter: Option<FilterExpression>,
        _namespace: Option<String>,
        _include_vectors: Option<bool>,
        _include_metadata: Option<bool>,
    ) -> Result<Vec<SearchResult>, VectorError> {
        self.tick()?;
        Ok(vec![])
    }

    fn search_groups(
        &self,
        _collection: String,
        _query: SearchQuery,
        _group_by: String,
        _group_size: u32,
        _max_groups: u32,
        _filter: Option<FilterExpression>,
        _namespace: Option<String>,
        _include_vectors: Option<bool>,
        _include_metadata: Option<bool>,
    ) -> Result<Vec<GroupedSearchResult>, VectorError> {
        self.tick()?;
        Ok(vec![])
    }

    fn search_range(
        &self,
        _collection: String,
        _vector: VectorData,
        _min_distance_bits: Option<u32>,
        _max_distance_bits: u32,
        _filter: Option<FilterExpression>,
        _namespace: Option<String>,
        _limit: Option<u32>,
        _include_vectors: Option<bool>,
        _include_metadata: Option<bool>,
    ) -> Result<Vec<SearchResult>, VectorError> {
        self.tick()?;
        Ok(vec![])
    }

    fn search_text(
        &self,
        _collection: String,
        _query_text: String,
        _limit: u32,
        _filter: Option<FilterExpression>,
        _namespace: Option<String>,
    ) -> Result<Vec<SearchResult>, VectorError> {
        self.tick()?;
        Ok(vec![])
    }

    fn search_vectors(
        &self,
        _collection: String,
        _query: SearchQuery,
        _limit: u32,
        _filter: Option<FilterExpression>,
        _namespace: Option<String>,
        _include_vectors: Option<bool>,
        _include_metadata: Option<bool>,
        _min_score_bits: Option<u32>,
        _max_distance_bits: Option<u32>,
        _search_params: Option<Vec<(String, String)>>,
    ) -> Result<Vec<SearchResult>, VectorError> {
        self.tick()?;
        Ok(vec![SearchResult {
            id: Id::Uint(1),
            score_bits: 0x3f800000,
            vector: None,
            metadata: None,
        }])
    }

    fn find_similar(
        &self,
        _collection: String,
        _vector: VectorData,
        _limit: u32,
        _namespace: Option<String>,
    ) -> Result<Vec<SearchResult>, VectorError> {
        self.tick()?;
        Ok(vec![])
    }

    fn batch_search(
        &self,
        _collection: String,
        _queries: Vec<SearchQuery>,
        _limit: u32,
        _filter: Option<FilterExpression>,
        _namespace: Option<String>,
        _include_vectors: Option<bool>,
        _include_metadata: Option<bool>,
        _search_params: Option<Vec<(String, String)>>,
    ) -> Result<Vec<Vec<SearchResult>>, VectorError> {
        self.tick()?;
        Ok(vec![])
    }

    fn upsert_vectors(
        &self,
        _collection: String,
        vectors: Vec<VectorRecord>,
        _namespace: Option<String>,
    ) -> Result<BatchResult, VectorError> {
        self.tick()?;
        Ok(BatchResult { succeeded_count: vectors.len() as u32, failed_count: 0 })
    }

    fn upsert_vector(
        &self,
        _collection: String,
        _id: Id,
        _vector: VectorData,
        _metadata: Option<Metadata>,
        _namespace: Option<String>,
    ) -> Result<(), VectorError> {
        self.tick()
    }

    fn get_vectors(
        &self,
        _collection: String,
        _ids: Vec<Id>,
        _namespace: Option<String>,
        _include_vectors: Option<bool>,
        _include_metadata: Option<bool>,
    ) -> Result<Vec<VectorRecord>, VectorError> {
        self.tick()?;
        Ok(vec![])
    }

    fn get_vector(
        &self,
        _collection: String,
        id: Id,
        _namespace: Option<String>,
    ) -> Result<Option<VectorRecord>, VectorError> {
        self.tick()?;
        Ok(Some(VectorRecord {
            id,
            vector: VectorData::Dense(vec![0x3f800000, 0x40000000]),
            metadata: None,
        }))
    }

    fn update_vector(
        &self,
        _collection: String,
        _id: Id,
        _vector: Option<VectorData>,
        _metadata: Option<Metadata>,
        _namespace: Option<String>,
        _merge_metadata: Option<bool>,
    ) -> Result<(), VectorError> {
        self.tick()
    }

    fn delete_vectors(
        &self,
        _collection: String,
        ids: Vec<Id>,
        _namespace: Option<String>,
    ) -> Result<u32, VectorError> {
        self.tick()?;
        Ok(ids.len() as u32)
    }

    fn delete_by_filter(
        &self,
        _collection: String,
        _filter: FilterExpression,
        _namespace: Option<String>,
    ) -> Result<u32, VectorError> {
        self.tick()?;
        Ok(0)
    }

    fn delete_namespace_vectors(
        &self,
        _collection: String,
        _namespace: String,
    ) -> Result<u32, VectorError> {
        self.tick()?;
        Ok(9)
    }

    fn list_vectors(
        &self,
        _collection: String,
        _namespace: Option<String>,
        _filter: Option<FilterExpression>,
        _limit: Option<u32>,
        _cursor: Option<Id>,
        _include_vectors: Option<bool>,
        _include_metadata: Option<bool>,
    ) -> Result<ListResponse, VectorError> {
        self.tick()?;
        Ok(ListResponse { records: vec![], cursor: None })
    }

    fn count_vectors(
        &self,
        _collection: String,
        _filter: Option<FilterExpression>,
        _namespace: Option<String>,
    ) -> Result<u64, VectorError> {
        self.tick()?;
        Ok(42)
    }

    fn upsert_collection(
        &self,
        name: String,
        _description: Option<String>,
        _dimension: u32,
        _metric: DistanceMetric,
        _index_config: Option<IndexConfig>,
        _metadata: Option<Metadata>,
    ) -> Result<CollectionInfo, VectorError> {
        self.tick()?;
        Ok(collection(&name))
    }

    fn list_collections(&self) -> Result<Vec<String>, VectorError> {
        self.tick()?;
        Ok(vec!["docs".to_string()])
    }

    fn get_collection(&self, name: String) -> Result<CollectionInfo, VectorError> {
        self.tick()?;
        Ok(collection(&name))
    }

    fn update_collection(
        &self,
        name: String,
        _description: Option<String>,
        _metadata: Option<Metadata>,
    ) -> Result<CollectionInfo, VectorError> {
        self.tick()?;
        Ok(collection(&name))
    }

    fn delete_collection(&self, _name: String) -> Result<(), VectorError> {
        self.tick()
    }

    fn collection_exists(&self, _name: String) -> Result<bool, VectorError> {
        self.tick()?;
        Ok(true)
    }
}

fn record(n: u64) -> VectorRecord {
    VectorRecord {
        id: Id::Uint(n),
        vector: VectorData::Dense(vec![0x3f000000, 0x3f800000]),
        metadata: Some(vec![(
            "kind".to_string(),
            MetadataValue::StringVal("test".to_string()),
        )]),
    }
}

#[test]
fn upsert_vectors_records_then_replays() {
    let store = FakeStore::new(false);
    let wrapper = DurableVector::new(&store, DurabilityContext::new(true));
    let (wrapper, r1) = wrapper.upsert_vectors("docs".to_string(), vec![record(1), record(2)], None);
    assert_eq!(r1, Ok(BatchResult { succeeded_count: 2, failed_count: 0 }));
    assert_eq!(store.calls.get(), 1);
    assert_eq!(wrapper.ctx.recorded_count(), 1);

    let wrapper2 = DurableVector::new(&store, wrapper.ctx.restarted());
    let (wrapper2, r2) = wrapper2.upsert_vectors("docs".to_string(), vec![record(1), record(2)], None);
    assert_eq!(r2, Ok(BatchResult { succeeded_count: 2, failed_count: 0 }));
    assert_eq!(store.calls.get(), 1);
    assert_eq!(wrapper2.ctx.cursor, 1);
}

#[test]
fn provider_errors_are_persisted_and_replayed() {
    let failing = FakeStore::new(true);
    let wrapper = DurableVector::new(&failing, DurabilityContext::new(true));
    let (wrapper, r1) = wrapper.get_vector("docs".to_string(), Id::Uint(1), None);
    assert_eq!(r1, Err(VectorError::NotFound("missing".to_string())));
    assert_eq!(wrapper.ctx.recorded_count(), 1);

    // replay returns the same error without touching the provider
    let healthy = FakeStore::new(false);
    let wrapper2 = DurableVector::new(&healthy, wrapper.ctx.restarted());
    let (_, r2) = wrapper2.get_vector("docs".to_string(), Id::Uint(1), None);
    assert_eq!(r2, Err(VectorError::NotFound("missing".to_string())));
    assert_eq!(healthy.calls.get(), 0);
}

#[test]
fn a_sequence_of_operations_replays_in_order() {
    let store = FakeStore::new(false);
    let w = DurableVector::new(&store, DurabilityContext::new(true));
    let (w, a) = w.list_collections();
    let (w, b) = w.count_vectors("docs".to_string(), None, None);
    let (w, c) = w.get_vector("docs".to_string(), Id::Str("k".to_string()), None);
    assert_eq!(a, Ok(vec!["docs".to_string()]));
    assert_eq!(b, Ok(42));
    assert!(c.as_ref().is_ok_and(|v| v.is_some()));
    assert_eq!(store.calls.get(), 3);
    assert_eq!(w.ctx.recorded_count(), 3);

    let w2 = DurableVector::new(&store, w.ctx.restarted());
    let (w2, a2) = w2.list_collections();
    let (w2, b2) = w2.count_vectors("docs".to_string(), None, None);
    let (w2, c2) = w2.get_vector("docs".to_string(), Id::Str("k".to_string()), None);
    assert_eq!(a2, a);
    assert_eq!(b2, b);
    assert_eq!(c2, c);
    assert_eq!(store.calls.get(), 3);
    assert_eq!(w2.ctx.cursor, 3);
}

#[test]
fn upsert_collection_keeps_recording_active_for_nested_steps() {
    let store = FakeStore::new(false);
    let w = DurableVector::new(&store, DurabilityContext::new(true));
    let (w, r) = w.upsert_collection(
        "docs".to_string(),
        Some("test collection".to_string()),
        4,
        DistanceMetric::Cosine,
        None,
        None,
    );
    assert_eq!(r, Ok(collection("docs")));
    assert_eq!(w.ctx.recorded_count(), 1);
    assert_eq!(w.ctx.ambient, golem_durability::durability::PersistenceLevel::PersistRemoteSideEffects);
}

#[test]
fn corrupt_record_surfaces_as_provider_error() {
    let mut ctx = DurabilityContext::new(true);
    ctx.store.push(Some(LogEntry {
        interface_name: "golem_vector::collections".to_string(),
        operation: "list_collections".to_string(),
        function_type: DurableFunctionType::ReadRemote,
        params: NoParam.to_structured_value(),
        result: Value::Bool(true),
        next: 1,
    }));
    let store = FakeStore::new(false);
    let w = DurableVector::new(&store, ctx);
    let (_, r) = w.list_collections();
    assert_eq!(
        r,
        Err(VectorError::ProviderError(
            "durability log does not match this call".to_string()
        ))
    );
    assert_eq!(store.calls.get(), 0);
}

#[test]
fn disabled_vector_context_is_passthrough() {
    let store = FakeStore::new(false);
    let w = DurableVector::new(&store, DurabilityContext::new(false));
    let (w, r) = w.namespace_exists("docs".to_string(), "ns".to_string());
    assert_eq!(r, Ok(false));
    assert_eq!(store.calls.get(), 1);
    assert_eq!(w.ctx.recorded_count(), 0);
}

#[test]
fn upsert_collection_steps_record_and_resume() {
    // live run: the probe and the chosen branch each record their own entry
    let store = FakeStore::new(false);
    let ctx = DurabilityContext::new(true);
    let (ctx, r) = upsert_collection_steps(
        ctx,
        "docs".to_string(),
        4,
        DistanceMetric::Cosine,
        None,
        None,
        |c, p| (c, (&store).collection_exists(p.p1)),
        |c, p| {
            let _ = p.p2;
            (c, (&store).update_collection(p.p1, None, None))
        },
        |c, p| (c, (&store).upsert_collection(p.p1, None, p.p2, p.p3, p.p4, p.p5)),
    );
    // the fake store reports every collection as existing, so the update ran
    assert_eq!(r, Ok(collection("docs")));
    assert_eq!(store.calls.get(), 2);
    assert_eq!(ctx.recorded_count(), 2);
    assert_eq!(ctx.cursor, 2);

    // the same logical execution re-run: both steps replay, nothing executes
    let ctx2 = ctx.restarted();
    let (ctx2, r2) = upsert_collection_steps(
        ctx2,
        "docs".to_string(),
        4,
        DistanceMetric::Cosine,
        None,
        None,
        |c, p| (c, (&store).collection_exists(p.p1)),
        |c, p| {
            let _ = p.p2;
            (c, (&store).update_collection(p.p1, None, None))
        },
        |c, p| (c, (&store).upsert_collection(p.p1, None, p.p2, p.p3, p.p4, p.p5)),
    );
    assert_eq!(r2, Ok(collection("docs")));
    assert_eq!(store.calls.get(), 2);
    assert_eq!(ctx2.cursor, 2);
}

#[test]
fn upsert_collection_steps_resume_after_partial_completion() {
    // first run: only the probe completed before the interruption
    let store = FakeStore::new(false);
    let ctx = DurabilityContext::new(true);
    let probe = (&store).collection_exists("docs".to_string()).unwrap();
    assert!(probe);
    let mut interrupted = ctx;
    interrupted.store.push(Some(golem_durability::durability::LogEntry {
        interface_name: "golem_vector::collections".to_string(),
        operation: "upsert_collection/collection_exists".to_string(),
        function_type: DurableFunctionType::ReadRemote,
        params: golem_durability::params::Param::new("docs".to_string()).to_structured_value(),
        result: Ok::<bool, VectorError>(true).to_structured_value(),
        next: 1,
    }));

    // resumed run: the probe replays, only the update executes
    let mut update_calls = 0u32;
    let (ctx2, r) = upsert_collection_steps(
        interrupted,
        "docs".to_string(),
        4,
        DistanceMetric::Cosine,
        None,
        None,
        |c, p| {
            let _ = p.p1;
            panic!("the recorded probe must replay")
        },
        |c, p| {
            update_calls += 1;
            (c, (&store).update_collection(p.p1, None, None))
        },
        |c, p| (c, (&store).upsert_collection(p.p1, None, p.p2, p.p3, p.p4, p.p5)),
    );
    assert_eq!(r, Ok(collection("docs")));
    assert_eq!(update_calls, 1);
    assert_eq!(ctx2.recorded_count(), 2);
    assert_eq!(ctx2.cursor, 2);
}
