//! The durable wrapper for the vector-store capability: an implementation of
//! the capability's full operation set that is behaviorally identical to a
//! plain provider, but routes every operation through the durability engine
//! under a stable `(interface, operation)` key, so a resumed execution
//! replays recorded outcomes instead of repeating remote calls. The module
//! also carries the durable create-vs-update sequence a provider's
//! collection upsert decomposes into.

use vstd::prelude::*;

use crate::codec::Codec;
use crate::durability::{entry_matches, read_remote_durably, run_durably_rel, store_write,
    write_remote_durably, write_remote_durably_with_side_effects, DurabilityContext,
    DurableFunctionType, PersistenceLevel, ReplayFault};
use crate::params::{NoParam, Param, Param10, Param2, Param3, Param4, Param5, Param6, Param7,
    Param8, Param9};
use crate::value::ValueModel;
use crate::vector::types::{BatchResult, CollectionInfo, CollectionStats, ConnectionStatus,
    ContextPair, Credentials, DistanceMetric, FieldStats, FilterExpression, GroupedSearchResult,
    Id, IndexConfig, ListResponse, Metadata, MetadataValue, NamespaceInfo, RecommendationExample,
    RecommendationStrategy, SearchQuery, SearchResult, VectorData, VectorError, VectorRecord};

verus! {

/// What a plain vector-store provider supplies, unaware of durability. Each
/// operation carries an abstract postcondition hook, empty by default, so an
/// implementation with a contract of its own passes it through the durable
/// wrapper to its callers.
pub trait VectorProvider {
    /// Establish a connection to the vector store.
    fn connect(&self, endpoint: String, credentials: Option<Credentials>, timeout_ms: Option<u32>, options: Option<Metadata>) -> (r: Result<(), VectorError>)
        ensures
            self.connect_post(endpoint, credentials, timeout_ms, options, r),
    ;

    /// What this provider promises of [`Self::connect`]'s result; nothing,
    /// unless an implementation states more.
    open spec fn connect_post(&self, endpoint: String, credentials: Option<Credentials>, timeout_ms: Option<u32>, options: Option<Metadata>, r: Result<(), VectorError>) -> bool {
        true
    }
    /// Close the connection.
    fn disconnect(&self) -> (r: Result<(), VectorError>)
        ensures
            self.disconnect_post(r),
    ;

    /// What this provider promises of [`Self::disconnect`]'s result; nothing,
    /// unless an implementation states more.
    open spec fn disconnect_post(&self, r: Result<(), VectorError>) -> bool {
        true
    }
    /// Report the current connection status.
    fn get_connection_status(&self) -> (r: Result<ConnectionStatus, VectorError>)
        ensures
            self.get_connection_status_post(r),
    ;

    /// What this provider promises of [`Self::get_connection_status`]'s result; nothing,
    /// unless an implementation states more.
    open spec fn get_connection_status_post(&self, r: Result<ConnectionStatus, VectorError>) -> bool {
        true
    }
    /// Test a connection without changing state.
    fn test_connection(&self, endpoint: String, credentials: Option<Credentials>, timeout_ms: Option<u32>, options: Option<Metadata>) -> (r: Result<bool, VectorError>)
        ensures
            self.test_connection_post(endpoint, credentials, timeout_ms, options, r),
    ;

    /// What this provider promises of [`Self::test_connection`]'s result; nothing,
    /// unless an implementation states more.
    open spec fn test_connection_post(&self, endpoint: String, credentials: Option<Credentials>, timeout_ms: Option<u32>, options: Option<Metadata>, r: Result<bool, VectorError>) -> bool {
        true
    }
    /// Create or update a namespace.
    fn upsert_namespace(&self, collection: String, namespace: String, metadata: Option<Metadata>) -> (r: Result<NamespaceInfo, VectorError>)
        ensures
            self.upsert_namespace_post(collection, namespace, metadata, r),
    ;

    /// What this provider promises of [`Self::upsert_namespace`]'s result; nothing,
    /// unless an implementation states more.
    open spec fn upsert_namespace_post(&self, collection: String, namespace: String, metadata: Option<Metadata>, r: Result<NamespaceInfo, VectorError>) -> bool {
        true
    }
    /// List the namespaces of a collection.
    fn list_namespaces(&self, collection: String) -> (r: Result<Vec<NamespaceInfo>, VectorError>)
        ensures
            self.list_namespaces_post(collection, r),
    ;

    /// What this provider promises of [`Self::list_namespaces`]'s result; nothing,
    /// unless an implementation states more.
    open spec fn list_namespaces_post(&self, collection: String, r: Result<Vec<NamespaceInfo>, VectorError>) -> bool {
        true
    }
    /// Describe one namespace.
    fn get_namespace(&self, collection: String, namespace: String) -> (r: Result<NamespaceInfo, VectorError>)
        ensures
            self.get_namespace_post(collection, namespace, r),
    ;

    /// What this provider promises of [`Self::get_namespace`]'s result; nothing,
    /// unless an implementation states more.
    open spec fn get_namespace_post(&self, collection: String, namespace: String, r: Result<NamespaceInfo, VectorError>) -> bool {
        true
    }
    /// Delete a namespace and everything in it.
    fn delete_namespace(&self, collection: String, namespace: String) -> (r: Result<(), VectorError>)
        ensures
            self.delete_namespace_post(collection, namespace, r),
    ;

    /// What this provider promises of [`Self::delete_namespace`]'s result; nothing,
    /// unless an implementation states more.
    open spec fn delete_namespace_post(&self, collection: String, namespace: String, r: Result<(), VectorError>) -> bool {
        true
    }
    /// Whether a namespace exists.
    fn namespace_exists(&self, collection: String, namespace: String) -> (r: Result<bool, VectorError>)
        ensures
            self.namespace_exists_post(collection, namespace, r),
    ;

    /// What this provider promises of [`Self::namespace_exists`]'s result; nothing,
    /// unless an implementation states more.
    open spec fn namespace_exists_post(&self, collection: String, namespace: String, r: Result<bool, VectorError>) -> bool {
        true
    }
    /// Aggregate statistics of a collection.
    fn get_collection_stats(&self, collection: String, namespace: Option<String>) -> (r: Result<CollectionStats, VectorError>)
        ensures
            self.get_collection_stats_post(collection, namespace, r),
    ;

    /// What this provider promises of [`Self::get_collection_stats`]'s result; nothing,
    /// unless an implementation states more.
    open spec fn get_collection_stats_post(&self, collection: String, namespace: Option<String>, r: Result<CollectionStats, VectorError>) -> bool {
        true
    }
    /// Aggregate statistics of one metadata field.
    fn get_field_stats(&self, collection: String, field: String, namespace: Option<String>) -> (r: Result<FieldStats, VectorError>)
        ensures
            self.get_field_stats_post(collection, field, namespace, r),
    ;

    /// What this provider promises of [`Self::get_field_stats`]'s result; nothing,
    /// unless an implementation states more.
    open spec fn get_field_stats_post(&self, collection: String, field: String, namespace: Option<String>, r: Result<FieldStats, VectorError>) -> bool {
        true
    }
    /// The value distribution of one metadata field.
    fn get_field_distribution(&self, collection: String, field: String, limit: Option<u32>, namespace: Option<String>) -> (r: Result<Vec<(MetadataValue, u64)>, VectorError>)
        ensures
            self.get_field_distribution_post(collection, field, limit, namespace, r),
    ;

    /// What this provider promises of [`Self::get_field_distribution`]'s result; nothing,
    /// unless an implementation states more.
    open spec fn get_field_distribution_post(&self, collection: String, field: String, limit: Option<u32>, namespace: Option<String>, r: Result<Vec<(MetadataValue, u64)>, VectorError>) -> bool {
        true
    }
    /// Recommendation-based search.
    fn recommend_vectors(&self, collection: String, positive: Vec<RecommendationExample>, negative: Option<Vec<RecommendationExample>>, limit: u32, filter: Option<FilterExpression>, namespace: Option<String>, strategy: Option<RecommendationStrategy>, include_vectors: Option<bool>, include_metadata: Option<bool>) -> (r: Result<Vec<SearchResult>, VectorError>)
        ensures
            self.recommend_vectors_post(collection, positive, negative, limit, filter, namespace, strategy, include_vectors, include_metadata, r),
    ;

    /// What this provider promises of [`Self::recommend_vectors`]'s result; nothing,
    /// unless an implementation states more.
    open spec fn recommend_vectors_post(&self, collection: String, positive: Vec<RecommendationExample>, negative: Option<Vec<RecommendationExample>>, limit: u32, filter: Option<FilterExpression>, namespace: Option<String>, strategy: Option<RecommendationStrategy>, include_vectors: Option<bool>, include_metadata: Option<bool>, r: Result<Vec<SearchResult>, VectorError>) -> bool {
        true
    }
    /// Discovery search from context pairs.
    fn discover_vectors(&self, collection: String, context_pairs: Vec<ContextPair>, limit: u32, filter: Option<FilterExpression>, namespace: Option<String>, include_vectors: Option<bool>, include_metadata: Option<bool>) -> (r: Result<Vec<SearchResult>, VectorError>)
        ensures
            self.discover_vectors_post(collection, context_pairs, limit, filter, namespace, include_vectors, include_metadata, r),
    ;

    /// What this provider promises of [`Self::discover_vectors`]'s result; nothing,
    /// unless an implementation states more.
    open spec fn discover_vectors_post(&self, collection: String, context_pairs: Vec<ContextPair>, limit: u32, filter: Option<FilterExpression>, namespace: Option<String>, include_vectors: Option<bool>, include_metadata: Option<bool>, r: Result<Vec<SearchResult>, VectorError>) -> bool {
        true
    }
    /// Grouped search for diverse results.
    fn search_groups(&self, collection: String, query: SearchQuery, group_by: String, group_size: u32, max_groups: u32, filter: Option<FilterExpression>, namespace: Option<String>, include_vectors: Option<bool>, include_metadata: Option<bool>) -> (r: Result<Vec<GroupedSearchResult>, VectorError>)
        ensures
            self.search_groups_post(collection, query, group_by, group_size, max_groups, filter, namespace, include_vectors, include_metadata, r),
    ;

    /// What this provider promises of [`Self::search_groups`]'s result; nothing,
    /// unless an implementation states more.
    open spec fn search_groups_post(&self, collection: String, query: SearchQuery, group_by: String, group_size: u32, max_groups: u32, filter: Option<FilterExpression>, namespace: Option<String>, include_vectors: Option<bool>, include_metadata: Option<bool>, r: Result<Vec<GroupedSearchResult>, VectorError>) -> bool {
        true
    }
    /// Range search within distance bounds, given as bit patterns.
    fn search_range(&self, collection: String, vector: VectorData, min_distance_bits: Option<u32>, max_distance_bits: u32, filter: Option<FilterExpression>, namespace: Option<String>, limit: Option<u32>, include_vectors: Option<bool>, include_metadata: Option<bool>) -> (r: Result<Vec<SearchResult>, VectorError>)
        ensures
            self.search_range_post(collection, vector, min_distance_bits, max_distance_bits, filter, namespace, limit, include_vectors, include_metadata, r),
    ;

    /// What this provider promises of [`Self::search_range`]'s result; nothing,
    /// unless an implementation states more.
    open spec fn search_range_post(&self, collection: String, vector: VectorData, min_distance_bits: Option<u32>, max_distance_bits: u32, filter: Option<FilterExpression>, namespace: Option<String>, limit: Option<u32>, include_vectors: Option<bool>, include_metadata: Option<bool>, r: Result<Vec<SearchResult>, VectorError>) -> bool {
        true
    }
    /// Text search with provider-side embedding.
    fn search_text(&self, collection: String, query_text: String, limit: u32, filter: Option<FilterExpression>, namespace: Option<String>) -> (r: Result<Vec<SearchResult>, VectorError>)
        ensures
            self.search_text_post(collection, query_text, limit, filter, namespace, r),
    ;

    /// What this provider promises of [`Self::search_text`]'s result; nothing,
    /// unless an implementation states more.
    open spec fn search_text_post(&self, collection: String, query_text: String, limit: u32, filter: Option<FilterExpression>, namespace: Option<String>, r: Result<Vec<SearchResult>, VectorError>) -> bool {
        true
    }
    /// Similarity search.
    fn search_vectors(&self, collection: String, query: SearchQuery, limit: u32, filter: Option<FilterExpression>, namespace: Option<String>, include_vectors: Option<bool>, include_metadata: Option<bool>, min_score_bits: Option<u32>, max_distance_bits: Option<u32>, search_params: Option<Vec<(String, String)>>) -> (r: Result<Vec<SearchResult>, VectorError>)
        ensures
            self.search_vectors_post(collection, query, limit, filter, namespace, include_vectors, include_metadata, min_score_bits, max_distance_bits, search_params, r),
    ;

    /// What this provider promises of [`Self::search_vectors`]'s result; nothing,
    /// unless an implementation states more.
    open spec fn search_vectors_post(&self, collection: String, query: SearchQuery, limit: u32, filter: Option<FilterExpression>, namespace: Option<String>, include_vectors: Option<bool>, include_metadata: Option<bool>, min_score_bits: Option<u32>, max_distance_bits: Option<u32>, search_params: Option<Vec<(String, String)>>, r: Result<Vec<SearchResult>, VectorError>) -> bool {
        true
    }
    /// Simple similarity search.
    fn find_similar(&self, collection: String, vector: VectorData, limit: u32, namespace: Option<String>) -> (r: Result<Vec<SearchResult>, VectorError>)
        ensures
            self.find_similar_post(collection, vector, limit, namespace, r),
    ;

    /// What this provider promises of [`Self::find_similar`]'s result; nothing,
    /// unless an implementation states more.
    open spec fn find_similar_post(&self, collection: String, vector: VectorData, limit: u32, namespace: Option<String>, r: Result<Vec<SearchResult>, VectorError>) -> bool {
        true
    }
    /// Batch similarity search.
    fn batch_search(&self, collection: String, queries: Vec<SearchQuery>, limit: u32, filter: Option<FilterExpression>, namespace: Option<String>, include_vectors: Option<bool>, include_metadata: Option<bool>, search_params: Option<Vec<(String, String)>>) -> (r: Result<Vec<Vec<SearchResult>>, VectorError>)
        ensures
            self.batch_search_post(collection, queries, limit, filter, namespace, include_vectors, include_metadata, search_params, r),
    ;

    /// What this provider promises of [`Self::batch_search`]'s result; nothing,
    /// unless an implementation states more.
    open spec fn batch_search_post(&self, collection: String, queries: Vec<SearchQuery>, limit: u32, filter: Option<FilterExpression>, namespace: Option<String>, include_vectors: Option<bool>, include_metadata: Option<bool>, search_params: Option<Vec<(String, String)>>, r: Result<Vec<Vec<SearchResult>>, VectorError>) -> bool {
        true
    }
    /// Upsert vectors.
    fn upsert_vectors(&self, collection: String, vectors: Vec<VectorRecord>, namespace: Option<String>) -> (r: Result<BatchResult, VectorError>)
        ensures
            self.upsert_vectors_post(collection, vectors, namespace, r),
    ;

    /// What this provider promises of [`Self::upsert_vectors`]'s result; nothing,
    /// unless an implementation states more.
    open spec fn upsert_vectors_post(&self, collection: String, vectors: Vec<VectorRecord>, namespace: Option<String>, r: Result<BatchResult, VectorError>) -> bool {
        true
    }
    /// Upsert a single vector.
    fn upsert_vector(&self, collection: String, id: Id, vector: VectorData, metadata: Option<Metadata>, namespace: Option<String>) -> (r: Result<(), VectorError>)
        ensures
            self.upsert_vector_post(collection, id, vector, metadata, namespace, r),
    ;

    /// What this provider promises of [`Self::upsert_vector`]'s result; nothing,
    /// unless an implementation states more.
    open spec fn upsert_vector_post(&self, collection: String, id: Id, vector: VectorData, metadata: Option<Metadata>, namespace: Option<String>, r: Result<(), VectorError>) -> bool {
        true
    }
    /// Fetch vectors by identifier.
    fn get_vectors(&self, collection: String, ids: Vec<Id>, namespace: Option<String>, include_vectors: Option<bool>, include_metadata: Option<bool>) -> (r: Result<Vec<VectorRecord>, VectorError>)
        ensures
            self.get_vectors_post(collection, ids, namespace, include_vectors, include_metadata, r),
    ;

    /// What this provider promises of [`Self::get_vectors`]'s result; nothing,
    /// unless an implementation states more.
    open spec fn get_vectors_post(&self, collection: String, ids: Vec<Id>, namespace: Option<String>, include_vectors: Option<bool>, include_metadata: Option<bool>, r: Result<Vec<VectorRecord>, VectorError>) -> bool {
        true
    }
    /// Fetch a single vector.
    fn get_vector(&self, collection: String, id: Id, namespace: Option<String>) -> (r: Result<Option<VectorRecord>, VectorError>)
        ensures
            self.get_vector_post(collection, id, namespace, r),
    ;

    /// What this provider promises of [`Self::get_vector`]'s result; nothing,
    /// unless an implementation states more.
    open spec fn get_vector_post(&self, collection: String, id: Id, namespace: Option<String>, r: Result<Option<VectorRecord>, VectorError>) -> bool {
        true
    }
    /// Update a vector in place.
    fn update_vector(&self, collection: String, id: Id, vector: Option<VectorData>, metadata: Option<Metadata>, namespace: Option<String>, merge_metadata: Option<bool>) -> (r: Result<(), VectorError>)
        ensures
            self.update_vector_post(collection, id, vector, metadata, namespace, merge_metadata, r),
    ;

    /// What this provider promises of [`Self::update_vector`]'s result; nothing,
    /// unless an implementation states more.
    open spec fn update_vector_post(&self, collection: String, id: Id, vector: Option<VectorData>, metadata: Option<Metadata>, namespace: Option<String>, merge_metadata: Option<bool>, r: Result<(), VectorError>) -> bool {
        true
    }
    /// Delete vectors by identifier.
    fn delete_vectors(&self, collection: String, ids: Vec<Id>, namespace: Option<String>) -> (r: Result<u32, VectorError>)
        ensures
            self.delete_vectors_post(collection, ids, namespace, r),
    ;

    /// What this provider promises of [`Self::delete_vectors`]'s result; nothing,
    /// unless an implementation states more.
    open spec fn delete_vectors_post(&self, collection: String, ids: Vec<Id>, namespace: Option<String>, r: Result<u32, VectorError>) -> bool {
        true
    }
    /// Delete vectors matching a filter.
    fn delete_by_filter(&self, collection: String, filter: FilterExpression, namespace: Option<String>) -> (r: Result<u32, VectorError>)
        ensures
            self.delete_by_filter_post(collection, filter, namespace, r),
    ;

    /// What this provider promises of [`Self::delete_by_filter`]'s result; nothing,
    /// unless an implementation states more.
    open spec fn delete_by_filter_post(&self, collection: String, filter: FilterExpression, namespace: Option<String>, r: Result<u32, VectorError>) -> bool {
        true
    }
    /// Delete every vector in a namespace.
    fn delete_namespace_vectors(&self, collection: String, namespace: String) -> (r: Result<u32, VectorError>)
        ensures
            self.delete_namespace_vectors_post(collection, namespace, r),
    ;

    /// What this provider promises of [`Self::delete_namespace_vectors`]'s result; nothing,
    /// unless an implementation states more.
    open spec fn delete_namespace_vectors_post(&self, collection: String, namespace: String, r: Result<u32, VectorError>) -> bool {
        true
    }
    /// List vectors with filtering and pagination.
    fn list_vectors(&self, collection: String, namespace: Option<String>, filter: Option<FilterExpression>, limit: Option<u32>, cursor: Option<Id>, include_vectors: Option<bool>, include_metadata: Option<bool>) -> (r: Result<ListResponse, VectorError>)
        ensures
            self.list_vectors_post(collection, namespace, filter, limit, cursor, include_vectors, include_metadata, r),
    ;

    /// What this provider promises of [`Self::list_vectors`]'s result; nothing,
    /// unless an implementation states more.
    open spec fn list_vectors_post(&self, collection: String, namespace: Option<String>, filter: Option<FilterExpression>, limit: Option<u32>, cursor: Option<Id>, include_vectors: Option<bool>, include_metadata: Option<bool>, r: Result<ListResponse, VectorError>) -> bool {
        true
    }
    /// Count vectors matching a filter.
    fn count_vectors(&self, collection: String, filter: Option<FilterExpression>, namespace: Option<String>) -> (r: Result<u64, VectorError>)
        ensures
            self.count_vectors_post(collection, filter, namespace, r),
    ;

    /// What this provider promises of [`Self::count_vectors`]'s result; nothing,
    /// unless an implementation states more.
    open spec fn count_vectors_post(&self, collection: String, filter: Option<FilterExpression>, namespace: Option<String>, r: Result<u64, VectorError>) -> bool {
        true
    }
    /// Create or update a collection. The provider may decide between creating and updating in separate remote steps, so recording stays active for its nested calls.
    fn upsert_collection(&self, name: String, description: Option<String>, dimension: u32, metric: DistanceMetric, index_config: Option<IndexConfig>, metadata: Option<Metadata>) -> (r: Result<CollectionInfo, VectorError>)
        ensures
            self.upsert_collection_post(name, description, dimension, metric, index_config, metadata, r),
    ;

    /// What this provider promises of [`Self::upsert_collection`]'s result; nothing,
    /// unless an implementation states more.
    open spec fn upsert_collection_post(&self, name: String, description: Option<String>, dimension: u32, metric: DistanceMetric, index_config: Option<IndexConfig>, metadata: Option<Metadata>, r: Result<CollectionInfo, VectorError>) -> bool {
        true
    }
    /// List all collections.
    fn list_collections(&self) -> (r: Result<Vec<String>, VectorError>)
        ensures
            self.list_collections_post(r),
    ;

    /// What this provider promises of [`Self::list_collections`]'s result; nothing,
    /// unless an implementation states more.
    open spec fn list_collections_post(&self, r: Result<Vec<String>, VectorError>) -> bool {
        true
    }
    /// Describe one collection.
    fn get_collection(&self, name: String) -> (r: Result<CollectionInfo, VectorError>)
        ensures
            self.get_collection_post(name, r),
    ;

    /// What this provider promises of [`Self::get_collection`]'s result; nothing,
    /// unless an implementation states more.
    open spec fn get_collection_post(&self, name: String, r: Result<CollectionInfo, VectorError>) -> bool {
        true
    }
    /// Update a collection's description and metadata.
    fn update_collection(&self, name: String, description: Option<String>, metadata: Option<Metadata>) -> (r: Result<CollectionInfo, VectorError>)
        ensures
            self.update_collection_post(name, description, metadata, r),
    ;

    /// What this provider promises of [`Self::update_collection`]'s result; nothing,
    /// unless an implementation states more.
    open spec fn update_collection_post(&self, name: String, description: Option<String>, metadata: Option<Metadata>, r: Result<CollectionInfo, VectorError>) -> bool {
        true
    }
    /// Delete a collection and all its vectors.
    fn delete_collection(&self, name: String) -> (r: Result<(), VectorError>)
        ensures
            self.delete_collection_post(name, r),
    ;

    /// What this provider promises of [`Self::delete_collection`]'s result; nothing,
    /// unless an implementation states more.
    open spec fn delete_collection_post(&self, name: String, r: Result<(), VectorError>) -> bool {
        true
    }
    /// Whether a collection exists.
    fn collection_exists(&self, name: String) -> (r: Result<bool, VectorError>)
        ensures
            self.collection_exists_post(name, r),
    ;

    /// What this provider promises of [`Self::collection_exists`]'s result; nothing,
    /// unless an implementation states more.
    open spec fn collection_exists_post(&self, name: String, r: Result<bool, VectorError>) -> bool {
        true
    }
}

/// What every wrapped leaf operation guarantees about the durability state:
/// nothing changes under passthrough or suppression; a live call appends
/// exactly its own record, keyed and carrying the encoded parameters and
/// result, and advances the cursor one position; a replayed call leaves the
/// log alone, returns a result with the recorded encoding when the entry
/// matches and still decodes, and otherwise fails as a provider error.
pub open spec fn durable_op_rel<X: Codec>(
    pre: DurabilityContext,
    post: DurabilityContext,
    iface: Seq<char>,
    op: Seq<char>,
    function_type: DurableFunctionType,
    params_m: ValueModel,
    r: Result<X, VectorError>,
) -> bool {
    &&& post.ambient == pre.ambient
    &&& post.enabled == pre.enabled
    &&& (pre.is_passthrough() ==> post == pre)
    &&& (pre.is_suppressed() ==> post == pre)
    &&& (pre.is_live() ==> {
        &&& post.cursor == pre.cursor + 1
        &&& post.recorded_at(pre.cursor as int)
        &&& entry_matches(
            post.record_at(pre.cursor as int),
            iface,
            op,
            function_type,
            params_m,
            r.encoded(),
            pre.cursor + 1,
        )
        &&& post.store@ == store_write(pre.store@, pre.cursor as int, post.record_at(pre.cursor as int))
    })
    &&& (pre.is_replay() ==> {
        let e = pre.record_at(pre.cursor as int);
        &&& post.store@ == pre.store@
        &&& (if e.interface_name@ == iface && e.operation@ == op && <Result<X, VectorError> as Codec>::decodable(e.result.model()) {
            &&& r.encoded() == e.result.model()
            &&& post.cursor == (if e.next > pre.cursor + 1 {
                e.next as int
            } else {
                pre.cursor + 1
            })
        } else {
            &&& r matches Err(err) && err is ProviderError
            &&& post.cursor == pre.cursor
        })
    })
}

/// Map the raw durable-call outcome into the capability's result: a replay
/// fault surfaces as an unrecoverable provider error.
fn settle<X: Codec>(out: Result<Result<X, VectorError>, ReplayFault>) -> (r: Result<X, VectorError>)
    ensures
        (out matches Ok(x) ==> r == x),
        (out is Err ==> (r matches Err(e) && e is ProviderError)),
{
    match out {
        Ok(x) => x,
        Err(_) => Err(
            VectorError::ProviderError(String::from_str("durability log does not match this call")),
        ),
    }
}

/// A leaf durable call — one whose wrapped function leaves the context as it
/// found it and whose result satisfies `post`, as every plain provider call
/// does — satisfies the per-operation durability relation, and outside
/// replay its result is an outcome of the wrapped call.
pub proof fn lemma_durable_leaf<X: Codec, P: Codec, F: FnOnce(DurabilityContext, P) -> (
    DurabilityContext,
    Result<X, VectorError>,
)>(
    pre: DurabilityContext,
    function_type: DurableFunctionType,
    level: PersistenceLevel,
    iface: Seq<char>,
    op: Seq<char>,
    params: P,
    func: F,
    run_res: (DurabilityContext, Result<Result<X, VectorError>, ReplayFault>),
    r: Result<X, VectorError>,
    post: spec_fn(P, Result<X, VectorError>) -> bool,
)
    requires
        pre.cursor < usize::MAX,
        run_durably_rel(pre, function_type, level, iface, op, params, func, run_res),
        forall|c: DurabilityContext, p: P, o: (DurabilityContext, Result<X, VectorError>)|
            #[trigger] call_ensures(func, (c, p), o) ==> o.0 == c && post(p, o.1),
        run_res.1 matches Ok(x) ==> r == x,
        run_res.1 is Err ==> (r matches Err(e) && e is ProviderError),
    ensures
        durable_op_rel(pre, run_res.0, iface, op, function_type, params.encoded(), r),
        (pre.is_passthrough() || pre.is_suppressed() || pre.is_live()) ==> post(params, r),
{
    if pre.is_passthrough() {
        let out = choose|out: (DurabilityContext, Result<X, VectorError>)|
            #[trigger] call_ensures(func, (pre, params), out) && run_res == (
            out.0,
            Ok::<Result<X, VectorError>, ReplayFault>(out.1),
            );
        assert(out.0 == pre);
        assert(post(params, out.1));
    } else if pre.is_suppressed() {
        let out = choose|out: (DurabilityContext, Result<X, VectorError>)|
            #[trigger] call_ensures(func, (pre.with_ambient(level), params), out) && run_res.0
                == out.0.with_ambient(pre.ambient) && run_res.1 == Ok::<
                Result<X, VectorError>,
                ReplayFault,
            >(out.1);
        assert(out.0 == pre.with_ambient(level));
        assert(run_res.0 == pre);
        assert(post(params, out.1));
    } else if pre.is_live() {
        let started = pre.with_ambient(level).with_cursor((pre.cursor + 1) as usize);
        let out = choose|out: (DurabilityContext, Result<X, VectorError>)|
            {
                let next = if out.0.cursor > pre.cursor + 1 {
                    out.0.cursor as int
                } else {
                    pre.cursor + 1
                };
                &&& #[trigger] call_ensures(func, (started, params), out)
                &&& run_res.1 matches Ok(rr) && rr == out.1
                &&& run_res.0.recorded_at(pre.cursor as int)
                &&& entry_matches(
                    run_res.0.record_at(pre.cursor as int),
                    iface,
                    op,
                    function_type,
                    params.encoded(),
                    out.1.encoded(),
                    next,
                )
                &&& run_res.0.enabled == out.0.enabled
                &&& run_res.0.ambient == pre.ambient
                &&& run_res.0.cursor == next
                &&& run_res.0.store@ == store_write(
                    out.0.store@,
                    pre.cursor as int,
                    run_res.0.record_at(pre.cursor as int),
                )
            };
        assert(out.0 == started);
        assert(post(params, out.1));
    } else {
        assert(pre.is_replay());
    }
}

/// A vector-store provider lifted into the durability pipeline, carrying the
/// durability context of its logical execution.
pub struct DurableVector<Impl> {
    pub ctx: DurabilityContext,
    pub inner: Impl,
}

impl<Impl: VectorProvider> DurableVector<Impl> {
    /// Wrap a plain provider for the given logical execution.
    pub fn new(inner: Impl, ctx: DurabilityContext) -> (r: Self)
        ensures
            r.ctx == ctx,
            r.inner == inner,
    {
        DurableVector { ctx, inner }
    }

    /// Establish a connection to the vector store.
    pub fn connect(self, endpoint: String, credentials: Option<Credentials>, timeout_ms: Option<u32>, options: Option<Metadata>) -> (res: (Self, Result<(), VectorError>))
        requires
            self.ctx.cursor < usize::MAX,
        ensures
            res.0.inner == self.inner,
            durable_op_rel::<()>(
                self.ctx,
                res.0.ctx,
                "golem_vector::connection"@,
                "connect"@,
                DurableFunctionType::ReadRemote,
                (Param4 { p1: endpoint, p2: credentials, p3: timeout_ms, p4: options }).encoded(),
                res.1,
            ),
            (self.ctx.is_passthrough() || self.ctx.is_suppressed() || self.ctx.is_live())
                ==> self.inner.connect_post(endpoint, credentials, timeout_ms, options, res.1),
    {
        let DurableVector { ctx, inner } = self;
        let ghost pre = ctx;
        let pk = Param4::new(endpoint, credentials, timeout_ms, options);
        let ghost pk0 = pk;
        let func = |c: DurabilityContext, p: Param4<String, Option<Credentials>, Option<u32>, Option<Metadata>>| -> (o: (
            DurabilityContext,
            Result<(), VectorError>,
        ))
            ensures
                o.0 == c,
                inner.connect_post(p.p1, p.p2, p.p3, p.p4, o.1),
            {
                let call = |a1: String, a2: Option<Credentials>, a3: Option<u32>, a4: Option<Metadata>| -> (o:
                    Result<(), VectorError>)
                    ensures
                        inner.connect_post(a1, a2, a3, a4, o),
                    {
                        inner.connect(a1, a2, a3, a4)
                    };
                let r = p.invoke(call);
                (c, r)
            };
        let ghost func0 = func;
        let ghost post = |p: Param4<String, Option<Credentials>, Option<u32>, Option<Metadata>>, r: Result<(), VectorError>| inner.connect_post(p.p1, p.p2, p.p3, p.p4, r);
        let (ctx, out) = read_remote_durably(ctx, "golem_vector::connection", "connect", pk, func);
        let ghost out0 = out;
        let r = settle(out);
        proof {
            assert forall|c: DurabilityContext, p: Param4<String, Option<Credentials>, Option<u32>, Option<Metadata>>, o: (
                DurabilityContext,
                Result<(), VectorError>,
            )| #[trigger] call_ensures(func0, (c, p), o) implies o.0 == c && post(p, o.1) by {}
            lemma_durable_leaf(
                pre,
                DurableFunctionType::ReadRemote,
                PersistenceLevel::PersistNothing,
                "golem_vector::connection"@,
                "connect"@,
                pk0,
                func0,
                (ctx, out0),
                r,
                post,
            );
        }
        (DurableVector { ctx, inner }, r)
    }

    /// Close the connection.
    pub fn disconnect(self) -> (res: (Self, Result<(), VectorError>))
        requires
            self.ctx.cursor < usize::MAX,
        ensures
            res.0.inner == self.inner,
            durable_op_rel::<()>(
                self.ctx,
                res.0.ctx,
                "golem_vector::connection"@,
                "disconnect"@,
                DurableFunctionType::ReadRemote,
                NoParam.encoded(),
                res.1,
            ),
            (self.ctx.is_passthrough() || self.ctx.is_suppressed() || self.ctx.is_live())
                ==> self.inner.disconnect_post(res.1),
    {
        let DurableVector { ctx, inner } = self;
        let ghost pre = ctx;
        let pk = NoParam;
        let ghost pk0 = pk;
        let func = |c: DurabilityContext, p: NoParam| -> (o: (
            DurabilityContext,
            Result<(), VectorError>,
        ))
            ensures
                o.0 == c,
                inner.disconnect_post(o.1),
            {
                let call = || -> (o:
                    Result<(), VectorError>)
                    ensures
                        inner.disconnect_post(o),
                    {
                        inner.disconnect()
                    };
                let r = p.invoke(call);
                (c, r)
            };
        let ghost func0 = func;
        let ghost post = |p: NoParam, r: Result<(), VectorError>| inner.disconnect_post(r);
        let (ctx, out) = read_remote_durably(ctx, "golem_vector::connection", "disconnect", pk, func);
        let ghost out0 = out;
        let r = settle(out);
        proof {
            assert forall|c: DurabilityContext, p: NoParam, o: (
                DurabilityContext,
                Result<(), VectorError>,
            )| #[trigger] call_ensures(func0, (c, p), o) implies o.0 == c && post(p, o.1) by {}
            lemma_durable_leaf(
                pre,
                DurableFunctionType::ReadRemote,
                PersistenceLevel::PersistNothing,
                "golem_vector::connection"@,
                "disconnect"@,
                pk0,
                func0,
                (ctx, out0),
                r,
                post,
            );
        }
        (DurableVector { ctx, inner }, r)
    }

    /// Report the current connection status.
    pub fn get_connection_status(self) -> (res: (Self, Result<ConnectionStatus, VectorError>))
        requires
            self.ctx.cursor < usize::MAX,
        ensures
            res.0.inner == self.inner,
            durable_op_rel::<ConnectionStatus>(
                self.ctx,
                res.0.ctx,
                "golem_vector::connection"@,
                "get_connection_status"@,
                DurableFunctionType::ReadRemote,
                NoParam.encoded(),
                res.1,
            ),
            (self.ctx.is_passthrough() || self.ctx.is_suppressed() || self.ctx.is_live())
                ==> self.inner.get_connection_status_post(res.1),
    {
        let DurableVector { ctx, inner } = self;
        let ghost pre = ctx;
        let pk = NoParam;
        let ghost pk0 = pk;
        let func = |c: DurabilityContext, p: NoParam| -> (o: (
            DurabilityContext,
            Result<ConnectionStatus, VectorError>,
        ))
            ensures
                o.0 == c,
                inner.get_connection_status_post(o.1),
            {
                let call = || -> (o:
                    Result<ConnectionStatus, VectorError>)
                    ensures
                        inner.get_connection_status_post(o),
                    {
                        inner.get_connection_status()
                    };
                let r = p.invoke(call);
                (c, r)
            };
        let ghost func0 = func;
        let ghost post = |p: NoParam, r: Result<ConnectionStatus, VectorError>| inner.get_connection_status_post(r);
        let (ctx, out) = read_remote_durably(ctx, "golem_vector::connection", "get_connection_status", pk, func);
        let ghost out0 = out;
        let r = settle(out);
        proof {
            assert forall|c: DurabilityContext, p: NoParam, o: (
                DurabilityContext,
                Result<ConnectionStatus, VectorError>,
            )| #[trigger] call_ensures(func0, (c, p), o) implies o.0 == c && post(p, o.1) by {}
            lemma_durable_leaf(
                pre,
                DurableFunctionType::ReadRemote,
                PersistenceLevel::PersistNothing,
                "golem_vector::connection"@,
                "get_connection_status"@,
                pk0,
                func0,
                (ctx, out0),
                r,
                post,
            );
        }
        (DurableVector { ctx, inner }, r)
    }

    /// Test a connection without changing state.
    pub fn test_connection(self, endpoint: String, credentials: Option<Credentials>, timeout_ms: Option<u32>, options: Option<Metadata>) -> (res: (Self, Result<bool, VectorError>))
        requires
            self.ctx.cursor < usize::MAX,
        ensures
            res.0.inner == self.inner,
            durable_op_rel::<bool>(
                self.ctx,
                res.0.ctx,
                "golem_vector::connection"@,
                "test_connection"@,
                DurableFunctionType::ReadRemote,
                (Param4 { p1: endpoint, p2: credentials, p3: timeout_ms, p4: options }).encoded(),
                res.1,
            ),
            (self.ctx.is_passthrough() || self.ctx.is_suppressed() || self.ctx.is_live())
                ==> self.inner.test_connection_post(endpoint, credentials, timeout_ms, options, res.1),
    {
        let DurableVector { ctx, inner } = self;
        let ghost pre = ctx;
        let pk = Param4::new(endpoint, credentials, timeout_ms, options);
        let ghost pk0 = pk;
        let func = |c: DurabilityContext, p: Param4<String, Option<Credentials>, Option<u32>, Option<Metadata>>| -> (o: (
            DurabilityContext,
            Result<bool, VectorError>,
        ))
            ensures
                o.0 == c,
                inner.test_connection_post(p.p1, p.p2, p.p3, p.p4, o.1),
            {
                let call = |a1: String, a2: Option<Credentials>, a3: Option<u32>, a4: Option<Metadata>| -> (o:
                    Result<bool, VectorError>)
                    ensures
                        inner.test_connection_post(a1, a2, a3, a4, o),
                    {
                        inner.test_connection(a1, a2, a3, a4)
                    };
                let r = p.invoke(call);
                (c, r)
            };
        let ghost func0 = func;
        let ghost post = |p: Param4<String, Option<Credentials>, Option<u32>, Option<Metadata>>, r: Result<bool, VectorError>| inner.test_connection_post(p.p1, p.p2, p.p3, p.p4, r);
        let (ctx, out) = read_remote_durably(ctx, "golem_vector::connection", "test_connection", pk, func);
        let ghost out0 = out;
        let r = settle(out);
        proof {
            assert forall|c: DurabilityContext, p: Param4<String, Option<Credentials>, Option<u32>, Option<Metadata>>, o: (
                DurabilityContext,
                Result<bool, VectorError>,
            )| #[trigger] call_ensures(func0, (c, p), o) implies o.0 == c && post(p, o.1) by {}
            lemma_durable_leaf(
                pre,
                DurableFunctionType::ReadRemote,
                PersistenceLevel::PersistNothing,
                "golem_vector::connection"@,
                "test_connection"@,
                pk0,
                func0,
                (ctx, out0),
                r,
                post,
            );
        }
        (DurableVector { ctx, inner }, r)
    }

    /// Create or update a namespace.
    pub fn upsert_namespace(self, collection: String, namespace: String, metadata: Option<Metadata>) -> (res: (Self, Result<NamespaceInfo, VectorError>))
        requires
            self.ctx.cursor < usize::MAX,
        ensures
            res.0.inner == self.inner,
            durable_op_rel::<NamespaceInfo>(
                self.ctx,
                res.0.ctx,
                "golem_vector::namespaces"@,
                "upsert_namespace"@,
                DurableFunctionType::WriteRemote,
                (Param3 { p1: collection, p2: namespace, p3: metadata }).encoded(),
                res.1,
            ),
            (self.ctx.is_passthrough() || self.ctx.is_suppressed() || self.ctx.is_live())
                ==> self.inner.upsert_namespace_post(collection, namespace, metadata, res.1),
    {
        let DurableVector { ctx, inner } = self;
        let ghost pre = ctx;
        let pk = Param3::new(collection, namespace, metadata);
        let ghost pk0 = pk;
        let func = |c: DurabilityContext, p: Param3<String, String, Option<Metadata>>| -> (o: (
            DurabilityContext,
            Result<NamespaceInfo, VectorError>,
        ))
            ensures
                o.0 == c,
                inner.upsert_namespace_post(p.p1, p.p2, p.p3, o.1),
            {
                let call = |a1: String, a2: String, a3: Option<Metadata>| -> (o:
                    Result<NamespaceInfo, VectorError>)
                    ensures
                        inner.upsert_namespace_post(a1, a2, a3, o),
                    {
                        inner.upsert_namespace(a1, a2, a3)
                    };
                let r = p.invoke(call);
                (c, r)
            };
        let ghost func0 = func;
        let ghost post = |p: Param3<String, String, Option<Metadata>>, r: Result<NamespaceInfo, VectorError>| inner.upsert_namespace_post(p.p1, p.p2, p.p3, r);
        let (ctx, out) = write_remote_durably(ctx, "golem_vector::namespaces", "upsert_namespace", pk, func);
        let ghost out0 = out;
        let r = settle(out);
        proof {
            assert forall|c: DurabilityContext, p: Param3<String, String, Option<Metadata>>, o: (
                DurabilityContext,
                Result<NamespaceInfo, VectorError>,
            )| #[trigger] call_ensures(func0, (c, p), o) implies o.0 == c && post(p, o.1) by {}
            lemma_durable_leaf(
                pre,
                DurableFunctionType::WriteRemote,
                PersistenceLevel::PersistNothing,
                "golem_vector::namespaces"@,
                "upsert_namespace"@,
                pk0,
                func0,
                (ctx, out0),
                r,
                post,
            );
        }
        (DurableVector { ctx, inner }, r)
    }

    /// List the namespaces of a collection.
    pub fn list_namespaces(self, collection: String) -> (res: (Self, Result<Vec<NamespaceInfo>, VectorError>))
        requires
            self.ctx.cursor < usize::MAX,
        ensures
            res.0.inner == self.inner,
            durable_op_rel::<Vec<NamespaceInfo>>(
                self.ctx,
                res.0.ctx,
                "golem_vector::namespaces"@,
                "list_namespaces"@,
                DurableFunctionType::ReadRemote,
                (Param { p1: collection }).encoded(),
                res.1,
            ),
            (self.ctx.is_passthrough() || self.ctx.is_suppressed() || self.ctx.is_live())
                ==> self.inner.list_namespaces_post(collection, res.1),
    {
        let DurableVector { ctx, inner } = self;
        let ghost pre = ctx;
        let pk = Param::new(collection);
        let ghost pk0 = pk;
        let func = |c: DurabilityContext, p: Param<String>| -> (o: (
            DurabilityContext,
            Result<Vec<NamespaceInfo>, VectorError>,
        ))
            ensures
                o.0 == c,
                inner.list_namespaces_post(p.p1, o.1),
            {
                let call = |a1: String| -> (o:
                    Result<Vec<NamespaceInfo>, VectorError>)
                    ensures
                        inner.list_namespaces_post(a1, o),
                    {
                        inner.list_namespaces(a1)
                    };
                let r = p.invoke(call);
                (c, r)
            };
        let ghost func0 = func;
        let ghost post = |p: Param<String>, r: Result<Vec<NamespaceInfo>, VectorError>| inner.list_namespaces_post(p.p1, r);
        let (ctx, out) = read_remote_durably(ctx, "golem_vector::namespaces", "list_namespaces", pk, func);
        let ghost out0 = out;
        let r = settle(out);
        proof {
            assert forall|c: DurabilityContext, p: Param<String>, o: (
                DurabilityContext,
                Result<Vec<NamespaceInfo>, VectorError>,
            )| #[trigger] call_ensures(func0, (c, p), o) implies o.0 == c && post(p, o.1) by {}
            lemma_durable_leaf(
                pre,
                DurableFunctionType::ReadRemote,
                PersistenceLevel::PersistNothing,
                "golem_vector::namespaces"@,
                "list_namespaces"@,
                pk0,
                func0,
                (ctx, out0),
                r,
                post,
            );
        }
        (DurableVector { ctx, inner }, r)
    }

    /// Describe one namespace.
    pub fn get_namespace(self, collection: String, namespace: String) -> (res: (Self, Result<NamespaceInfo, VectorError>))
        requires
            self.ctx.cursor < usize::MAX,
        ensures
            res.0.inner == self.inner,
            durable_op_rel::<NamespaceInfo>(
                self.ctx,
                res.0.ctx,
                "golem_vector::namespaces"@,
                "get_namespace"@,
                DurableFunctionType::ReadRemote,
                (Param2 { p1: collection, p2: namespace }).encoded(),
                res.1,
            ),
            (self.ctx.is_passthrough() || self.ctx.is_suppressed() || self.ctx.is_live())
                ==> self.inner.get_namespace_post(collection, namespace, res.1),
    {
        let DurableVector { ctx, inner } = self;
        let ghost pre = ctx;
        let pk = Param2::new(collection, namespace);
        let ghost pk0 = pk;
        let func = |c: DurabilityContext, p: Param2<String, String>| -> (o: (
            DurabilityContext,
            Result<NamespaceInfo, VectorError>,
        ))
            ensures
                o.0 == c,
                inner.get_namespace_post(p.p1, p.p2, o.1),
            {
                let call = |a1: String, a2: String| -> (o:
                    Result<NamespaceInfo, VectorError>)
                    ensures
                        inner.get_namespace_post(a1, a2, o),
                    {
                        inner.get_namespace(a1, a2)
                    };
                let r = p.invoke(call);
                (c, r)
            };
        let ghost func0 = func;
        let ghost post = |p: Param2<String, String>, r: Result<NamespaceInfo, VectorError>| inner.get_namespace_post(p.p1, p.p2, r);
        let (ctx, out) = read_remote_durably(ctx, "golem_vector::namespaces", "get_namespace", pk, func);
        let ghost out0 = out;
        let r = settle(out);
        proof {
            assert forall|c: DurabilityContext, p: Param2<String, String>, o: (
                DurabilityContext,
                Result<NamespaceInfo, VectorError>,
            )| #[trigger] call_ensures(func0, (c, p), o) implies o.0 == c && post(p, o.1) by {}
            lemma_durable_leaf(
                pre,
                DurableFunctionType::ReadRemote,
                PersistenceLevel::PersistNothing,
                "golem_vector::namespaces"@,
                "get_namespace"@,
                pk0,
                func0,
                (ctx, out0),
                r,
                post,
            );
        }
        (DurableVector { ctx, inner }, r)
    }

    /// Delete a namespace and everything in it.
    pub fn delete_namespace(self, collection: String, namespace: String) -> (res: (Self, Result<(), VectorError>))
        requires
            self.ctx.cursor < usize::MAX,
        ensures
            res.0.inner == self.inner,
            durable_op_rel::<()>(
                self.ctx,
                res.0.ctx,
                "golem_vector::namespaces"@,
                "delete_namespace"@,
                DurableFunctionType::WriteRemote,
                (Param2 { p1: collection, p2: namespace }).encoded(),
                res.1,
            ),
            (self.ctx.is_passthrough() || self.ctx.is_suppressed() || self.ctx.is_live())
                ==> self.inner.delete_namespace_post(collection, namespace, res.1),
    {
        let DurableVector { ctx, inner } = self;
        let ghost pre = ctx;
        let pk = Param2::new(collection, namespace);
        let ghost pk0 = pk;
        let func = |c: DurabilityContext, p: Param2<String, String>| -> (o: (
            DurabilityContext,
            Result<(), VectorError>,
        ))
            ensures
                o.0 == c,
                inner.delete_namespace_post(p.p1, p.p2, o.1),
            {
                let call = |a1: String, a2: String| -> (o:
                    Result<(), VectorError>)
                    ensures
                        inner.delete_namespace_post(a1, a2, o),
                    {
                        inner.delete_namespace(a1, a2)
                    };
                let r = p.invoke(call);
                (c, r)
            };
        let ghost func0 = func;
        let ghost post = |p: Param2<String, String>, r: Result<(), VectorError>| inner.delete_namespace_post(p.p1, p.p2, r);
        let (ctx, out) = write_remote_durably(ctx, "golem_vector::namespaces", "delete_namespace", pk, func);
        let ghost out0 = out;
        let r = settle(out);
        proof {
            assert forall|c: DurabilityContext, p: Param2<String, String>, o: (
                DurabilityContext,
                Result<(), VectorError>,
            )| #[trigger] call_ensures(func0, (c, p), o) implies o.0 == c && post(p, o.1) by {}
            lemma_durable_leaf(
                pre,
                DurableFunctionType::WriteRemote,
                PersistenceLevel::PersistNothing,
                "golem_vector::namespaces"@,
                "delete_namespace"@,
                pk0,
                func0,
                (ctx, out0),
                r,
                post,
            );
        }
        (DurableVector { ctx, inner }, r)
    }

    /// Whether a namespace exists.
    pub fn namespace_exists(self, collection: String, namespace: String) -> (res: (Self, Result<bool, VectorError>))
        requires
            self.ctx.cursor < usize::MAX,
        ensures
            res.0.inner == self.inner,
            durable_op_rel::<bool>(
                self.ctx,
                res.0.ctx,
                "golem_vector::namespaces"@,
                "namespace_exists"@,
                DurableFunctionType::ReadRemote,
                (Param2 { p1: collection, p2: namespace }).encoded(),
                res.1,
            ),
            (self.ctx.is_passthrough() || self.ctx.is_suppressed() || self.ctx.is_live())
                ==> self.inner.namespace_exists_post(collection, namespace, res.1),
    {
        let DurableVector { ctx, inner } = self;
        let ghost pre = ctx;
        let pk = Param2::new(collection, namespace);
        let ghost pk0 = pk;
        let func = |c: DurabilityContext, p: Param2<String, String>| -> (o: (
            DurabilityContext,
            Result<bool, VectorError>,
        ))
            ensures
                o.0 == c,
                inner.namespace_exists_post(p.p1, p.p2, o.1),
            {
                let call = |a1: String, a2: String| -> (o:
                    Result<bool, VectorError>)
                    ensures
                        inner.namespace_exists_post(a1, a2, o),
                    {
                        inner.namespace_exists(a1, a2)
                    };
                let r = p.invoke(call);
                (c, r)
            };
        let ghost func0 = func;
        let ghost post = |p: Param2<String, String>, r: Result<bool, VectorError>| inner.namespace_exists_post(p.p1, p.p2, r);
        let (ctx, out) = read_remote_durably(ctx, "golem_vector::namespaces", "namespace_exists", pk, func);
        let ghost out0 = out;
        let r = settle(out);
        proof {
            assert forall|c: DurabilityContext, p: Param2<String, String>, o: (
                DurabilityContext,
                Result<bool, VectorError>,
            )| #[trigger] call_ensures(func0, (c, p), o) implies o.0 == c && post(p, o.1) by {}
            lemma_durable_leaf(
                pre,
                DurableFunctionType::ReadRemote,
                PersistenceLevel::PersistNothing,
                "golem_vector::namespaces"@,
                "namespace_exists"@,
                pk0,
                func0,
                (ctx, out0),
                r,
                post,
            );
        }
        (DurableVector { ctx, inner }, r)
    }

    /// Aggregate statistics of a collection.
    pub fn get_collection_stats(self, collection: String, namespace: Option<String>) -> (res: (Self, Result<CollectionStats, VectorError>))
        requires
            self.ctx.cursor < usize::MAX,
        ensures
            res.0.inner == self.inner,
            durable_op_rel::<CollectionStats>(
                self.ctx,
                res.0.ctx,
                "golem_vector::analytics"@,
                "get_collection_stats"@,
                DurableFunctionType::ReadRemote,
                (Param2 { p1: collection, p2: namespace }).encoded(),
                res.1,
            ),
            (self.ctx.is_passthrough() || self.ctx.is_suppressed() || self.ctx.is_live())
                ==> self.inner.get_collection_stats_post(collection, namespace, res.1),
    {
        let DurableVector { ctx, inner } = self;
        let ghost pre = ctx;
        let pk = Param2::new(collection, namespace);
        let ghost pk0 = pk;
        let func = |c: DurabilityContext, p: Param2<String, Option<String>>| -> (o: (
            DurabilityContext,
            Result<CollectionStats, VectorError>,
        ))
            ensures
                o.0 == c,
                inner.get_collection_stats_post(p.p1, p.p2, o.1),
            {
                let call = |a1: String, a2: Option<String>| -> (o:
                    Result<CollectionStats, VectorError>)
                    ensures
                        inner.get_collection_stats_post(a1, a2, o),
                    {
                        inner.get_collection_stats(a1, a2)
                    };
                let r = p.invoke(call);
                (c, r)
            };
        let ghost func0 = func;
        let ghost post = |p: Param2<String, Option<String>>, r: Result<CollectionStats, VectorError>| inner.get_collection_stats_post(p.p1, p.p2, r);
        let (ctx, out) = read_remote_durably(ctx, "golem_vector::analytics", "get_collection_stats", pk, func);
        let ghost out0 = out;
        let r = settle(out);
        proof {
            assert forall|c: DurabilityContext, p: Param2<String, Option<String>>, o: (
                DurabilityContext,
                Result<CollectionStats, VectorError>,
            )| #[trigger] call_ensures(func0, (c, p), o) implies o.0 == c && post(p, o.1) by {}
            lemma_durable_leaf(
                pre,
                DurableFunctionType::ReadRemote,
                PersistenceLevel::PersistNothing,
                "golem_vector::analytics"@,
                "get_collection_stats"@,
                pk0,
                func0,
                (ctx, out0),
                r,
                post,
            );
        }
        (DurableVector { ctx, inner }, r)
    }

    /// Aggregate statistics of one metadata field.
    pub fn get_field_stats(self, collection: String, field: String, namespace: Option<String>) -> (res: (Self, Result<FieldStats, VectorError>))
        requires
            self.ctx.cursor < usize::MAX,
        ensures
            res.0.inner == self.inner,
            durable_op_rel::<FieldStats>(
                self.ctx,
                res.0.ctx,
                "golem_vector::analytics"@,
                "get_field_stats"@,
                DurableFunctionType::ReadRemote,
                (Param3 { p1: collection, p2: field, p3: namespace }).encoded(),
                res.1,
            ),
            (self.ctx.is_passthrough() || self.ctx.is_suppressed() || self.ctx.is_live())
                ==> self.inner.get_field_stats_post(collection, field, namespace, res.1),
    {
        let DurableVector { ctx, inner } = self;
        let ghost pre = ctx;
        let pk = Param3::new(collection, field, namespace);
        let ghost pk0 = pk;
        let func = |c: DurabilityContext, p: Param3<String, String, Option<String>>| -> (o: (
            DurabilityContext,
            Result<FieldStats, VectorError>,
        ))
            ensures
                o.0 == c,
                inner.get_field_stats_post(p.p1, p.p2, p.p3, o.1),
            {
                let call = |a1: String, a2: String, a3: Option<String>| -> (o:
                    Result<FieldStats, VectorError>)
                    ensures
                        inner.get_field_stats_post(a1, a2, a3, o),
                    {
                        inner.get_field_stats(a1, a2, a3)
                    };
                let r = p.invoke(call);
                (c, r)
            };
        let ghost func0 = func;
        let ghost post = |p: Param3<String, String, Option<String>>, r: Result<FieldStats, VectorError>| inner.get_field_stats_post(p.p1, p.p2, p.p3, r);
        let (ctx, out) = read_remote_durably(ctx, "golem_vector::analytics", "get_field_stats", pk, func);
        let ghost out0 = out;
        let r = settle(out);
        proof {
            assert forall|c: DurabilityContext, p: Param3<String, String, Option<String>>, o: (
                DurabilityContext,
                Result<FieldStats, VectorError>,
            )| #[trigger] call_ensures(func0, (c, p), o) implies o.0 == c && post(p, o.1) by {}
            lemma_durable_leaf(
                pre,
                DurableFunctionType::ReadRemote,
                PersistenceLevel::PersistNothing,
                "golem_vector::analytics"@,
                "get_field_stats"@,
                pk0,
                func0,
                (ctx, out0),
                r,
                post,
            );
        }
        (DurableVector { ctx, inner }, r)
    }

    /// The value distribution of one metadata field.
    pub fn get_field_distribution(self, collection: String, field: String, limit: Option<u32>, namespace: Option<String>) -> (res: (Self, Result<Vec<(MetadataValue, u64)>, VectorError>))
        requires
            self.ctx.cursor < usize::MAX,
        ensures
            res.0.inner == self.inner,
            durable_op_rel::<Vec<(MetadataValue, u64)>>(
                self.ctx,
                res.0.ctx,
                "golem_vector::analytics"@,
                "get_field_distribution"@,
                DurableFunctionType::ReadRemote,
                (Param4 { p1: collection, p2: field, p3: limit, p4: namespace }).encoded(),
                res.1,
            ),
            (self.ctx.is_passthrough() || self.ctx.is_suppressed() || self.ctx.is_live())
                ==> self.inner.get_field_distribution_post(collection, field, limit, namespace, res.1),
    {
        let DurableVector { ctx, inner } = self;
        let ghost pre = ctx;
        let pk = Param4::new(collection, field, limit, namespace);
        let ghost pk0 = pk;
        let func = |c: DurabilityContext, p: Param4<String, String, Option<u32>, Option<String>>| -> (o: (
            DurabilityContext,
            Result<Vec<(MetadataValue, u64)>, VectorError>,
        ))
            ensures
                o.0 == c,
                inner.get_field_distribution_post(p.p1, p.p2, p.p3, p.p4, o.1),
            {
                let call = |a1: String, a2: String, a3: Option<u32>, a4: Option<String>| -> (o:
                    Result<Vec<(MetadataValue, u64)>, VectorError>)
                    ensures
                        inner.get_field_distribution_post(a1, a2, a3, a4, o),
                    {
                        inner.get_field_distribution(a1, a2, a3, a4)
                    };
                let r = p.invoke(call);
                (c, r)
            };
        let ghost func0 = func;
        let ghost post = |p: Param4<String, String, Option<u32>, Option<String>>, r: Result<Vec<(MetadataValue, u64)>, VectorError>| inner.get_field_distribution_post(p.p1, p.p2, p.p3, p.p4, r);
        let (ctx, out) = read_remote_durably(ctx, "golem_vector::analytics", "get_field_distribution", pk, func);
        let ghost out0 = out;
        let r = settle(out);
        proof {
            assert forall|c: DurabilityContext, p: Param4<String, String, Option<u32>, Option<String>>, o: (
                DurabilityContext,
                Result<Vec<(MetadataValue, u64)>, VectorError>,
            )| #[trigger] call_ensures(func0, (c, p), o) implies o.0 == c && post(p, o.1) by {}
            lemma_durable_leaf(
                pre,
                DurableFunctionType::ReadRemote,
                PersistenceLevel::PersistNothing,
                "golem_vector::analytics"@,
                "get_field_distribution"@,
                pk0,
                func0,
                (ctx, out0),
                r,
                post,
            );
        }
        (DurableVector { ctx, inner }, r)
    }

    /// Recommendation-based search.
    pub fn recommend_vectors(self, collection: String, positive: Vec<RecommendationExample>, negative: Option<Vec<RecommendationExample>>, limit: u32, filter: Option<FilterExpression>, namespace: Option<String>, strategy: Option<RecommendationStrategy>, include_vectors: Option<bool>, include_metadata: Option<bool>) -> (res: (Self, Result<Vec<SearchResult>, VectorError>))
        requires
            self.ctx.cursor < usize::MAX,
        ensures
            res.0.inner == self.inner,
            durable_op_rel::<Vec<SearchResult>>(
                self.ctx,
                res.0.ctx,
                "golem_vector::search-extended"@,
                "recommend_vectors"@,
                DurableFunctionType::ReadRemote,
                (Param9 { p1: collection, p2: positive, p3: negative, p4: limit, p5: filter, p6: namespace, p7: strategy, p8: include_vectors, p9: include_metadata }).encoded(),
                res.1,
            ),
            (self.ctx.is_passthrough() || self.ctx.is_suppressed() || self.ctx.is_live())
                ==> self.inner.recommend_vectors_post(collection, positive, negative, limit, filter, namespace, strategy, include_vectors, include_metadata, res.1),
    {
        let DurableVector { ctx, inner } = self;
        let ghost pre = ctx;
        let pk = Param9::new(collection, positive, negative, limit, filter, namespace, strategy, include_vectors, include_metadata);
        let ghost pk0 = pk;
        let func = |c: DurabilityContext, p: Param9<String, Vec<RecommendationExample>, Option<Vec<RecommendationExample>>, u32, Option<FilterExpression>, Option<String>, Option<RecommendationStrategy>, Option<bool>, Option<bool>>| -> (o: (
            DurabilityContext,
            Result<Vec<SearchResult>, VectorError>,
        ))
            ensures
                o.0 == c,
                inner.recommend_vectors_post(p.p1, p.p2, p.p3, p.p4, p.p5, p.p6, p.p7, p.p8, p.p9, o.1),
            {
                let call = |a1: String, a2: Vec<RecommendationExample>, a3: Option<Vec<RecommendationExample>>, a4: u32, a5: Option<FilterExpression>, a6: Option<String>, a7: Option<RecommendationStrategy>, a8: Option<bool>, a9: Option<bool>| -> (o:
                    Result<Vec<SearchResult>, VectorError>)
                    ensures
                        inner.recommend_vectors_post(a1, a2, a3, a4, a5, a6, a7, a8, a9, o),
                    {
                        inner.recommend_vectors(a1, a2, a3, a4, a5, a6, a7, a8, a9)
                    };
                let r = p.invoke(call);
                (c, r)
            };
        let ghost func0 = func;
        let ghost post = |p: Param9<String, Vec<RecommendationExample>, Option<Vec<RecommendationExample>>, u32, Option<FilterExpression>, Option<String>, Option<RecommendationStrategy>, Option<bool>, Option<bool>>, r: Result<Vec<SearchResult>, VectorError>| inner.recommend_vectors_post(p.p1, p.p2, p.p3, p.p4, p.p5, p.p6, p.p7, p.p8, p.p9, r);
        let (ctx, out) = read_remote_durably(ctx, "golem_vector::search-extended", "recommend_vectors", pk, func);
        let ghost out0 = out;
        let r = settle(out);
        proof {
            assert forall|c: DurabilityContext, p: Param9<String, Vec<RecommendationExample>, Option<Vec<RecommendationExample>>, u32, Option<FilterExpression>, Option<String>, Option<RecommendationStrategy>, Option<bool>, Option<bool>>, o: (
                DurabilityContext,
                Result<Vec<SearchResult>, VectorError>,
            )| #[trigger] call_ensures(func0, (c, p), o) implies o.0 == c && post(p, o.1) by {}
            lemma_durable_leaf(
                pre,
                DurableFunctionType::ReadRemote,
                PersistenceLevel::PersistNothing,
                "golem_vector::search-extended"@,
                "recommend_vectors"@,
                pk0,
                func0,
                (ctx, out0),
                r,
                post,
            );
        }
        (DurableVector { ctx, inner }, r)
    }

    /// Discovery search from context pairs.
    pub fn discover_vectors(self, collection: String, context_pairs: Vec<ContextPair>, limit: u32, filter: Option<FilterExpression>, namespace: Option<String>, include_vectors: Option<bool>, include_metadata: Option<bool>) -> (res: (Self, Result<Vec<SearchResult>, VectorError>))
        requires
            self.ctx.cursor < usize::MAX,
        ensures
            res.0.inner == self.inner,
            durable_op_rel::<Vec<SearchResult>>(
                self.ctx,
                res.0.ctx,
                "golem_vector::search-extended"@,
                "discover_vectors"@,
                DurableFunctionType::ReadRemote,
                (Param7 { p1: collection, p2: context_pairs, p3: limit, p4: filter, p5: namespace, p6: include_vectors, p7: include_metadata }).encoded(),
                res.1,
            ),
            (self.ctx.is_passthrough() || self.ctx.is_suppressed() || self.ctx.is_live())
                ==> self.inner.discover_vectors_post(collection, context_pairs, limit, filter, namespace, include_vectors, include_metadata, res.1),
    {
        let DurableVector { ctx, inner } = self;
        let ghost pre = ctx;
        let pk = Param7::new(collection, context_pairs, limit, filter, namespace, include_vectors, include_metadata);
        let ghost pk0 = pk;
        let func = |c: DurabilityContext, p: Param7<String, Vec<ContextPair>, u32, Option<FilterExpression>, Option<String>, Option<bool>, Option<bool>>| -> (o: (
            DurabilityContext,
            Result<Vec<SearchResult>, VectorError>,
        ))
            ensures
                o.0 == c,
                inner.discover_vectors_post(p.p1, p.p2, p.p3, p.p4, p.p5, p.p6, p.p7, o.1),
            {
                let call = |a1: String, a2: Vec<ContextPair>, a3: u32, a4: Option<FilterExpression>, a5: Option<String>, a6: Option<bool>, a7: Option<bool>| -> (o:
                    Result<Vec<SearchResult>, VectorError>)
                    ensures
                        inner.discover_vectors_post(a1, a2, a3, a4, a5, a6, a7, o),
                    {
                        inner.discover_vectors(a1, a2, a3, a4, a5, a6, a7)
                    };
                let r = p.invoke(call);
                (c, r)
            };
        let ghost func0 = func;
        let ghost post = |p: Param7<String, Vec<ContextPair>, u32, Option<FilterExpression>, Option<String>, Option<bool>, Option<bool>>, r: Result<Vec<SearchResult>, VectorError>| inner.discover_vectors_post(p.p1, p.p2, p.p3, p.p4, p.p5, p.p6, p.p7, r);
        let (ctx, out) = read_remote_durably(ctx, "golem_vector::search-extended", "discover_vectors", pk, func);
        let ghost out0 = out;
        let r = settle(out);
        proof {
            assert forall|c: DurabilityContext, p: Param7<String, Vec<ContextPair>, u32, Option<FilterExpression>, Option<String>, Option<bool>, Option<bool>>, o: (
                DurabilityContext,
                Result<Vec<SearchResult>, VectorError>,
            )| #[trigger] call_ensures(func0, (c, p), o) implies o.0 == c && post(p, o.1) by {}
            lemma_durable_leaf(
                pre,
                DurableFunctionType::ReadRemote,
                PersistenceLevel::PersistNothing,
                "golem_vector::search-extended"@,
                "discover_vectors"@,
                pk0,
                func0,
                (ctx, out0),
                r,
                post,
            );
        }
        (DurableVector { ctx, inner }, r)
    }

    /// Grouped search for diverse results.
    pub fn search_groups(self, collection: String, query: SearchQuery, group_by: String, group_size: u32, max_groups: u32, filter: Option<FilterExpression>, namespace: Option<String>, include_vectors: Option<bool>, include_metadata: Option<bool>) -> (res: (Self, Result<Vec<GroupedSearchResult>, VectorError>))
        requires
            self.ctx.cursor < usize::MAX,
        ensures
            res.0.inner == self.inner,
            durable_op_rel::<Vec<GroupedSearchResult>>(
                self.ctx,
                res.0.ctx,
                "golem_vector::search-extended"@,
                "search_groups"@,
                DurableFunctionType::ReadRemote,
                (Param9 { p1: collection, p2: query, p3: group_by, p4: group_size, p5: max_groups, p6: filter, p7: namespace, p8: include_vectors, p9: include_metadata }).encoded(),
                res.1,
            ),
            (self.ctx.is_passthrough() || self.ctx.is_suppressed() || self.ctx.is_live())
                ==> self.inner.search_groups_post(collection, query, group_by, group_size, max_groups, filter, namespace, include_vectors, include_metadata, res.1),
    {
        let DurableVector { ctx, inner } = self;
        let ghost pre = ctx;
        let pk = Param9::new(collection, query, group_by, group_size, max_groups, filter, namespace, include_vectors, include_metadata);
        let ghost pk0 = pk;
        let func = |c: DurabilityContext, p: Param9<String, SearchQuery, String, u32, u32, Option<FilterExpression>, Option<String>, Option<bool>, Option<bool>>| -> (o: (
            DurabilityContext,
            Result<Vec<GroupedSearchResult>, VectorError>,
        ))
            ensures
                o.0 == c,
                inner.search_groups_post(p.p1, p.p2, p.p3, p.p4, p.p5, p.p6, p.p7, p.p8, p.p9, o.1),
            {
                let call = |a1: String, a2: SearchQuery, a3: String, a4: u32, a5: u32, a6: Option<FilterExpression>, a7: Option<String>, a8: Option<bool>, a9: Option<bool>| -> (o:
                    Result<Vec<GroupedSearchResult>, VectorError>)
                    ensures
                        inner.search_groups_post(a1, a2, a3, a4, a5, a6, a7, a8, a9, o),
                    {
                        inner.search_groups(a1, a2, a3, a4, a5, a6, a7, a8, a9)
                    };
                let r = p.invoke(call);
                (c, r)
            };
        let ghost func0 = func;
        let ghost post = |p: Param9<String, SearchQuery, String, u32, u32, Option<FilterExpression>, Option<String>, Option<bool>, Option<bool>>, r: Result<Vec<GroupedSearchResult>, VectorError>| inner.search_groups_post(p.p1, p.p2, p.p3, p.p4, p.p5, p.p6, p.p7, p.p8, p.p9, r);
        let (ctx, out) = read_remote_durably(ctx, "golem_vector::search-extended", "search_groups", pk, func);
        let ghost out0 = out;
        let r = settle(out);
        proof {
            assert forall|c: DurabilityContext, p: Param9<String, SearchQuery, String, u32, u32, Option<FilterExpression>, Option<String>, Option<bool>, Option<bool>>, o: (
                DurabilityContext,
                Result<Vec<GroupedSearchResult>, VectorError>,
            )| #[trigger] call_ensures(func0, (c, p), o) implies o.0 == c && post(p, o.1) by {}
            lemma_durable_leaf(
                pre,
                DurableFunctionType::ReadRemote,
                PersistenceLevel::PersistNothing,
                "golem_vector::search-extended"@,
                "search_groups"@,
                pk0,
                func0,
                (ctx, out0),
                r,
                post,
            );
        }
        (DurableVector { ctx, inner }, r)
    }

    /// Range search within distance bounds, given as bit patterns.
    pub fn search_range(self, collection: String, vector: VectorData, min_distance_bits: Option<u32>, max_distance_bits: u32, filter: Option<FilterExpression>, namespace: Option<String>, limit: Option<u32>, include_vectors: Option<bool>, include_metadata: Option<bool>) -> (res: (Self, Result<Vec<SearchResult>, VectorError>))
        requires
            self.ctx.cursor < usize::MAX,
        ensures
            res.0.inner == self.inner,
            durable_op_rel::<Vec<SearchResult>>(
                self.ctx,
                res.0.ctx,
                "golem_vector::search-extended"@,
                "search_range"@,
                DurableFunctionType::ReadRemote,
                (Param9 { p1: collection, p2: vector, p3: min_distance_bits, p4: max_distance_bits, p5: filter, p6: namespace, p7: limit, p8: include_vectors, p9: include_metadata }).encoded(),
                res.1,
            ),
            (self.ctx.is_passthrough() || self.ctx.is_suppressed() || self.ctx.is_live())
                ==> self.inner.search_range_post(collection, vector, min_distance_bits, max_distance_bits, filter, namespace, limit, include_vectors, include_metadata, res.1),
    {
        let DurableVector { ctx, inner } = self;
        let ghost pre = ctx;
        let pk = Param9::new(collection, vector, min_distance_bits, max_distance_bits, filter, namespace, limit, include_vectors, include_metadata);
        let ghost pk0 = pk;
        let func = |c: DurabilityContext, p: Param9<String, VectorData, Option<u32>, u32, Option<FilterExpression>, Option<String>, Option<u32>, Option<bool>, Option<bool>>| -> (o: (
            DurabilityContext,
            Result<Vec<SearchResult>, VectorError>,
        ))
            ensures
                o.0 == c,
                inner.search_range_post(p.p1, p.p2, p.p3, p.p4, p.p5, p.p6, p.p7, p.p8, p.p9, o.1),
            {
                let call = |a1: String, a2: VectorData, a3: Option<u32>, a4: u32, a5: Option<FilterExpression>, a6: Option<String>, a7: Option<u32>, a8: Option<bool>, a9: Option<bool>| -> (o:
                    Result<Vec<SearchResult>, VectorError>)
                    ensures
                        inner.search_range_post(a1, a2, a3, a4, a5, a6, a7, a8, a9, o),
                    {
                        inner.search_range(a1, a2, a3, a4, a5, a6, a7, a8, a9)
                    };
                let r = p.invoke(call);
                (c, r)
            };
        let ghost func0 = func;
        let ghost post = |p: Param9<String, VectorData, Option<u32>, u32, Option<FilterExpression>, Option<String>, Option<u32>, Option<bool>, Option<bool>>, r: Result<Vec<SearchResult>, VectorError>| inner.search_range_post(p.p1, p.p2, p.p3, p.p4, p.p5, p.p6, p.p7, p.p8, p.p9, r);
        let (ctx, out) = read_remote_durably(ctx, "golem_vector::search-extended", "search_range", pk, func);
        let ghost out0 = out;
        let r = settle(out);
        proof {
            assert forall|c: DurabilityContext, p: Param9<String, VectorData, Option<u32>, u32, Option<FilterExpression>, Option<String>, Option<u32>, Option<bool>, Option<bool>>, o: (
                DurabilityContext,
                Result<Vec<SearchResult>, VectorError>,
            )| #[trigger] call_ensures(func0, (c, p), o) implies o.0 == c && post(p, o.1) by {}
            lemma_durable_leaf(
                pre,
                DurableFunctionType::ReadRemote,
                PersistenceLevel::PersistNothing,
                "golem_vector::search-extended"@,
                "search_range"@,
                pk0,
                func0,
                (ctx, out0),
                r,
                post,
            );
        }
        (DurableVector { ctx, inner }, r)
    }

    /// Text search with provider-side embedding.
    pub fn search_text(self, collection: String, query_text: String, limit: u32, filter: Option<FilterExpression>, namespace: Option<String>) -> (res: (Self, Result<Vec<SearchResult>, VectorError>))
        requires
            self.ctx.cursor < usize::MAX,
        ensures
            res.0.inner == self.inner,
            durable_op_rel::<Vec<SearchResult>>(
                self.ctx,
                res.0.ctx,
                "golem_vector::search-extended"@,
                "search_text"@,
                DurableFunctionType::ReadRemote,
                (Param5 { p1: collection, p2: query_text, p3: limit, p4: filter, p5: namespace }).encoded(),
                res.1,
            ),
            (self.ctx.is_passthrough() || self.ctx.is_suppressed() || self.ctx.is_live())
                ==> self.inner.search_text_post(collection, query_text, limit, filter, namespace, res.1),
    {
        let DurableVector { ctx, inner } = self;
        let ghost pre = ctx;
        let pk = Param5::new(collection, query_text, limit, filter, namespace);
        let ghost pk0 = pk;
        let func = |c: DurabilityContext, p: Param5<String, String, u32, Option<FilterExpression>, Option<String>>| -> (o: (
            DurabilityContext,
            Result<Vec<SearchResult>, VectorError>,
        ))
            ensures
                o.0 == c,
                inner.search_text_post(p.p1, p.p2, p.p3, p.p4, p.p5, o.1),
            {
                let call = |a1: String, a2: String, a3: u32, a4: Option<FilterExpression>, a5: Option<String>| -> (o:
                    Result<Vec<SearchResult>, VectorError>)
                    ensures
                        inner.search_text_post(a1, a2, a3, a4, a5, o),
                    {
                        inner.search_text(a1, a2, a3, a4, a5)
                    };
                let r = p.invoke(call);
                (c, r)
            };
        let ghost func0 = func;
        let ghost post = |p: Param5<String, String, u32, Option<FilterExpression>, Option<String>>, r: Result<Vec<SearchResult>, VectorError>| inner.search_text_post(p.p1, p.p2, p.p3, p.p4, p.p5, r);
        let (ctx, out) = read_remote_durably(ctx, "golem_vector::search-extended", "search_text", pk, func);
        let ghost out0 = out;
        let r = settle(out);
        proof {
            assert forall|c: DurabilityContext, p: Param5<String, String, u32, Option<FilterExpression>, Option<String>>, o: (
                DurabilityContext,
                Result<Vec<SearchResult>, VectorError>,
            )| #[trigger] call_ensures(func0, (c, p), o) implies o.0 == c && post(p, o.1) by {}
            lemma_durable_leaf(
                pre,
                DurableFunctionType::ReadRemote,
                PersistenceLevel::PersistNothing,
                "golem_vector::search-extended"@,
                "search_text"@,
                pk0,
                func0,
                (ctx, out0),
                r,
                post,
            );
        }
        (DurableVector { ctx, inner }, r)
    }

    /// Similarity search.
    pub fn search_vectors(self, collection: String, query: SearchQuery, limit: u32, filter: Option<FilterExpression>, namespace: Option<String>, include_vectors: Option<bool>, include_metadata: Option<bool>, min_score_bits: Option<u32>, max_distance_bits: Option<u32>, search_params: Option<Vec<(String, String)>>) -> (res: (Self, Result<Vec<SearchResult>, VectorError>))
        requires
            self.ctx.cursor < usize::MAX,
        ensures
            res.0.inner == self.inner,
            durable_op_rel::<Vec<SearchResult>>(
                self.ctx,
                res.0.ctx,
                "golem_vector::search"@,
                "search_vectors"@,
                DurableFunctionType::ReadRemote,
                (Param10 { p1: collection, p2: query, p3: limit, p4: filter, p5: namespace, p6: include_vectors, p7: include_metadata, p8: min_score_bits, p9: max_distance_bits, p10: search_params }).encoded(),
                res.1,
            ),
            (self.ctx.is_passthrough() || self.ctx.is_suppressed() || self.ctx.is_live())
                ==> self.inner.search_vectors_post(collection, query, limit, filter, namespace, include_vectors, include_metadata, min_score_bits, max_distance_bits, search_params, res.1),
    {
        let DurableVector { ctx, inner } = self;
        let ghost pre = ctx;
        let pk = Param10::new(collection, query, limit, filter, namespace, include_vectors, include_metadata, min_score_bits, max_distance_bits, search_params);
        let ghost pk0 = pk;
        let func = |c: DurabilityContext, p: Param10<String, SearchQuery, u32, Option<FilterExpression>, Option<String>, Option<bool>, Option<bool>, Option<u32>, Option<u32>, Option<Vec<(String, String)>>>| -> (o: (
            DurabilityContext,
            Result<Vec<SearchResult>, VectorError>,
        ))
            ensures
                o.0 == c,
                inner.search_vectors_post(p.p1, p.p2, p.p3, p.p4, p.p5, p.p6, p.p7, p.p8, p.p9, p.p10, o.1),
            {
                let call = |a1: String, a2: SearchQuery, a3: u32, a4: Option<FilterExpression>, a5: Option<String>, a6: Option<bool>, a7: Option<bool>, a8: Option<u32>, a9: Option<u32>, a10: Option<Vec<(String, String)>>| -> (o:
                    Result<Vec<SearchResult>, VectorError>)
                    ensures
                        inner.search_vectors_post(a1, a2, a3, a4, a5, a6, a7, a8, a9, a10, o),
                    {
                        inner.search_vectors(a1, a2, a3, a4, a5, a6, a7, a8, a9, a10)
                    };
                let r = p.invoke(call);
                (c, r)
            };
        let ghost func0 = func;
        let ghost post = |p: Param10<String, SearchQuery, u32, Option<FilterExpression>, Option<String>, Option<bool>, Option<bool>, Option<u32>, Option<u32>, Option<Vec<(String, String)>>>, r: Result<Vec<SearchResult>, VectorError>| inner.search_vectors_post(p.p1, p.p2, p.p3, p.p4, p.p5, p.p6, p.p7, p.p8, p.p9, p.p10, r);
        let (ctx, out) = read_remote_durably(ctx, "golem_vector::search", "search_vectors", pk, func);
        let ghost out0 = out;
        let r = settle(out);
        proof {
            assert forall|c: DurabilityContext, p: Param10<String, SearchQuery, u32, Option<FilterExpression>, Option<String>, Option<bool>, Option<bool>, Option<u32>, Option<u32>, Option<Vec<(String, String)>>>, o: (
                DurabilityContext,
                Result<Vec<SearchResult>, VectorError>,
            )| #[trigger] call_ensures(func0, (c, p), o) implies o.0 == c && post(p, o.1) by {}
            lemma_durable_leaf(
                pre,
                DurableFunctionType::ReadRemote,
                PersistenceLevel::PersistNothing,
                "golem_vector::search"@,
                "search_vectors"@,
                pk0,
                func0,
                (ctx, out0),
                r,
                post,
            );
        }
        (DurableVector { ctx, inner }, r)
    }

    /// Simple similarity search.
    pub fn find_similar(self, collection: String, vector: VectorData, limit: u32, namespace: Option<String>) -> (res: (Self, Result<Vec<SearchResult>, VectorError>))
        requires
            self.ctx.cursor < usize::MAX,
        ensures
            res.0.inner == self.inner,
            durable_op_rel::<Vec<SearchResult>>(
                self.ctx,
                res.0.ctx,
                "golem_vector::search"@,
                "find_similar"@,
                DurableFunctionType::ReadRemote,
                (Param4 { p1: collection, p2: vector, p3: limit, p4: namespace }).encoded(),
                res.1,
            ),
            (self.ctx.is_passthrough() || self.ctx.is_suppressed() || self.ctx.is_live())
                ==> self.inner.find_similar_post(collection, vector, limit, namespace, res.1),
    {
        let DurableVector { ctx, inner } = self;
        let ghost pre = ctx;
        let pk = Param4::new(collection, vector, limit, namespace);
        let ghost pk0 = pk;
        let func = |c: DurabilityContext, p: Param4<String, VectorData, u32, Option<String>>| -> (o: (
            DurabilityContext,
            Result<Vec<SearchResult>, VectorError>,
        ))
            ensures
                o.0 == c,
                inner.find_similar_post(p.p1, p.p2, p.p3, p.p4, o.1),
            {
                let call = |a1: String, a2: VectorData, a3: u32, a4: Option<String>| -> (o:
                    Result<Vec<SearchResult>, VectorError>)
                    ensures
                        inner.find_similar_post(a1, a2, a3, a4, o),
                    {
                        inner.find_similar(a1, a2, a3, a4)
                    };
                let r = p.invoke(call);
                (c, r)
            };
        let ghost func0 = func;
        let ghost post = |p: Param4<String, VectorData, u32, Option<String>>, r: Result<Vec<SearchResult>, VectorError>| inner.find_similar_post(p.p1, p.p2, p.p3, p.p4, r);
        let (ctx, out) = read_remote_durably(ctx, "golem_vector::search", "find_similar", pk, func);
        let ghost out0 = out;
        let r = settle(out);
        proof {
            assert forall|c: DurabilityContext, p: Param4<String, VectorData, u32, Option<String>>, o: (
                DurabilityContext,
                Result<Vec<SearchResult>, VectorError>,
            )| #[trigger] call_ensures(func0, (c, p), o) implies o.0 == c && post(p, o.1) by {}
            lemma_durable_leaf(
                pre,
                DurableFunctionType::ReadRemote,
                PersistenceLevel::PersistNothing,
                "golem_vector::search"@,
                "find_similar"@,
                pk0,
                func0,
                (ctx, out0),
                r,
                post,
            );
        }
        (DurableVector { ctx, inner }, r)
    }

    /// Batch similarity search.
    pub fn batch_search(self, collection: String, queries: Vec<SearchQuery>, limit: u32, filter: Option<FilterExpression>, namespace: Option<String>, include_vectors: Option<bool>, include_metadata: Option<bool>, search_params: Option<Vec<(String, String)>>) -> (res: (Self, Result<Vec<Vec<SearchResult>>, VectorError>))
        requires
            self.ctx.cursor < usize::MAX,
        ensures
            res.0.inner == self.inner,
            durable_op_rel::<Vec<Vec<SearchResult>>>(
                self.ctx,
                res.0.ctx,
                "golem_vector::search"@,
                "batch_search"@,
                DurableFunctionType::ReadRemote,
                (Param8 { p1: collection, p2: queries, p3: limit, p4: filter, p5: namespace, p6: include_vectors, p7: include_metadata, p8: search_params }).encoded(),
                res.1,
            ),
            (self.ctx.is_passthrough() || self.ctx.is_suppressed() || self.ctx.is_live())
                ==> self.inner.batch_search_post(collection, queries, limit, filter, namespace, include_vectors, include_metadata, search_params, res.1),
    {
        let DurableVector { ctx, inner } = self;
        let ghost pre = ctx;
        let pk = Param8::new(collection, queries, limit, filter, namespace, include_vectors, include_metadata, search_params);
        let ghost pk0 = pk;
        let func = |c: DurabilityContext, p: Param8<String, Vec<SearchQuery>, u32, Option<FilterExpression>, Option<String>, Option<bool>, Option<bool>, Option<Vec<(String, String)>>>| -> (o: (
            DurabilityContext,
            Result<Vec<Vec<SearchResult>>, VectorError>,
        ))
            ensures
                o.0 == c,
                inner.batch_search_post(p.p1, p.p2, p.p3, p.p4, p.p5, p.p6, p.p7, p.p8, o.1),
            {
                let call = |a1: String, a2: Vec<SearchQuery>, a3: u32, a4: Option<FilterExpression>, a5: Option<String>, a6: Option<bool>, a7: Option<bool>, a8: Option<Vec<(String, String)>>| -> (o:
                    Result<Vec<Vec<SearchResult>>, VectorError>)
                    ensures
                        inner.batch_search_post(a1, a2, a3, a4, a5, a6, a7, a8, o),
                    {
                        inner.batch_search(a1, a2, a3, a4, a5, a6, a7, a8)
                    };
                let r = p.invoke(call);
                (c, r)
            };
        let ghost func0 = func;
        let ghost post = |p: Param8<String, Vec<SearchQuery>, u32, Option<FilterExpression>, Option<String>, Option<bool>, Option<bool>, Option<Vec<(String, String)>>>, r: Result<Vec<Vec<SearchResult>>, VectorError>| inner.batch_search_post(p.p1, p.p2, p.p3, p.p4, p.p5, p.p6, p.p7, p.p8, r);
        let (ctx, out) = read_remote_durably(ctx, "golem_vector::search", "batch_search", pk, func);
        let ghost out0 = out;
        let r = settle(out);
        proof {
            assert forall|c: DurabilityContext, p: Param8<String, Vec<SearchQuery>, u32, Option<FilterExpression>, Option<String>, Option<bool>, Option<bool>, Option<Vec<(String, String)>>>, o: (
                DurabilityContext,
                Result<Vec<Vec<SearchResult>>, VectorError>,
            )| #[trigger] call_ensures(func0, (c, p), o) implies o.0 == c && post(p, o.1) by {}
            lemma_durable_leaf(
                pre,
                DurableFunctionType::ReadRemote,
                PersistenceLevel::PersistNothing,
                "golem_vector::search"@,
                "batch_search"@,
                pk0,
                func0,
                (ctx, out0),
                r,
                post,
            );
        }
        (DurableVector { ctx, inner }, r)
    }

    /// Upsert vectors.
    pub fn upsert_vectors(self, collection: String, vectors: Vec<VectorRecord>, namespace: Option<String>) -> (res: (Self, Result<BatchResult, VectorError>))
        requires
            self.ctx.cursor < usize::MAX,
        ensures
            res.0.inner == self.inner,
            durable_op_rel::<BatchResult>(
                self.ctx,
                res.0.ctx,
                "golem_vector::vectors"@,
                "upsert_vectors"@,
                DurableFunctionType::WriteRemote,
                (Param3 { p1: collection, p2: vectors, p3: namespace }).encoded(),
                res.1,
            ),
            (self.ctx.is_passthrough() || self.ctx.is_suppressed() || self.ctx.is_live())
                ==> self.inner.upsert_vectors_post(collection, vectors, namespace, res.1),
    {
        let DurableVector { ctx, inner } = self;
        let ghost pre = ctx;
        let pk = Param3::new(collection, vectors, namespace);
        let ghost pk0 = pk;
        let func = |c: DurabilityContext, p: Param3<String, Vec<VectorRecord>, Option<String>>| -> (o: (
            DurabilityContext,
            Result<BatchResult, VectorError>,
        ))
            ensures
                o.0 == c,
                inner.upsert_vectors_post(p.p1, p.p2, p.p3, o.1),
            {
                let call = |a1: String, a2: Vec<VectorRecord>, a3: Option<String>| -> (o:
                    Result<BatchResult, VectorError>)
                    ensures
                        inner.upsert_vectors_post(a1, a2, a3, o),
                    {
                        inner.upsert_vectors(a1, a2, a3)
                    };
                let r = p.invoke(call);
                (c, r)
            };
        let ghost func0 = func;
        let ghost post = |p: Param3<String, Vec<VectorRecord>, Option<String>>, r: Result<BatchResult, VectorError>| inner.upsert_vectors_post(p.p1, p.p2, p.p3, r);
        let (ctx, out) = write_remote_durably(ctx, "golem_vector::vectors", "upsert_vectors", pk, func);
        let ghost out0 = out;
        let r = settle(out);
        proof {
            assert forall|c: DurabilityContext, p: Param3<String, Vec<VectorRecord>, Option<String>>, o: (
                DurabilityContext,
                Result<BatchResult, VectorError>,
            )| #[trigger] call_ensures(func0, (c, p), o) implies o.0 == c && post(p, o.1) by {}
            lemma_durable_leaf(
                pre,
                DurableFunctionType::WriteRemote,
                PersistenceLevel::PersistNothing,
                "golem_vector::vectors"@,
                "upsert_vectors"@,
                pk0,
                func0,
                (ctx, out0),
                r,
                post,
            );
        }
        (DurableVector { ctx, inner }, r)
    }

    /// Upsert a single vector.
    pub fn upsert_vector(self, collection: String, id: Id, vector: VectorData, metadata: Option<Metadata>, namespace: Option<String>) -> (res: (Self, Result<(), VectorError>))
        requires
            self.ctx.cursor < usize::MAX,
        ensures
            res.0.inner == self.inner,
            durable_op_rel::<()>(
                self.ctx,
                res.0.ctx,
                "golem_vector::vectors"@,
                "upsert_vector"@,
                DurableFunctionType::WriteRemote,
                (Param5 { p1: collection, p2: id, p3: vector, p4: metadata, p5: namespace }).encoded(),
                res.1,
            ),
            (self.ctx.is_passthrough() || self.ctx.is_suppressed() || self.ctx.is_live())
                ==> self.inner.upsert_vector_post(collection, id, vector, metadata, namespace, res.1),
    {
        let DurableVector { ctx, inner } = self;
        let ghost pre = ctx;
        let pk = Param5::new(collection, id, vector, metadata, namespace);
        let ghost pk0 = pk;
        let func = |c: DurabilityContext, p: Param5<String, Id, VectorData, Option<Metadata>, Option<String>>| -> (o: (
            DurabilityContext,
            Result<(), VectorError>,
        ))
            ensures
                o.0 == c,
                inner.upsert_vector_post(p.p1, p.p2, p.p3, p.p4, p.p5, o.1),
            {
                let call = |a1: String, a2: Id, a3: VectorData, a4: Option<Metadata>, a5: Option<String>| -> (o:
                    Result<(), VectorError>)
                    ensures
                        inner.upsert_vector_post(a1, a2, a3, a4, a5, o),
                    {
                        inner.upsert_vector(a1, a2, a3, a4, a5)
                    };
                let r = p.invoke(call);
                (c, r)
            };
        let ghost func0 = func;
        let ghost post = |p: Param5<String, Id, VectorData, Option<Metadata>, Option<String>>, r: Result<(), VectorError>| inner.upsert_vector_post(p.p1, p.p2, p.p3, p.p4, p.p5, r);
        let (ctx, out) = write_remote_durably(ctx, "golem_vector::vectors", "upsert_vector", pk, func);
        let ghost out0 = out;
        let r = settle(out);
        proof {
            assert forall|c: DurabilityContext, p: Param5<String, Id, VectorData, Option<Metadata>, Option<String>>, o: (
                DurabilityContext,
                Result<(), VectorError>,
            )| #[trigger] call_ensures(func0, (c, p), o) implies o.0 == c && post(p, o.1) by {}
            lemma_durable_leaf(
                pre,
                DurableFunctionType::WriteRemote,
                PersistenceLevel::PersistNothing,
                "golem_vector::vectors"@,
                "upsert_vector"@,
                pk0,
                func0,
                (ctx, out0),
                r,
                post,
            );
        }
        (DurableVector { ctx, inner }, r)
    }

    /// Fetch vectors by identifier.
    pub fn get_vectors(self, collection: String, ids: Vec<Id>, namespace: Option<String>, include_vectors: Option<bool>, include_metadata: Option<bool>) -> (res: (Self, Result<Vec<VectorRecord>, VectorError>))
        requires
            self.ctx.cursor < usize::MAX,
        ensures
            res.0.inner == self.inner,
            durable_op_rel::<Vec<VectorRecord>>(
                self.ctx,
                res.0.ctx,
                "golem_vector::vectors"@,
                "get_vectors"@,
                DurableFunctionType::ReadRemote,
                (Param5 { p1: collection, p2: ids, p3: namespace, p4: include_vectors, p5: include_metadata }).encoded(),
                res.1,
            ),
            (self.ctx.is_passthrough() || self.ctx.is_suppressed() || self.ctx.is_live())
                ==> self.inner.get_vectors_post(collection, ids, namespace, include_vectors, include_metadata, res.1),
    {
        let DurableVector { ctx, inner } = self;
        let ghost pre = ctx;
        let pk = Param5::new(collection, ids, namespace, include_vectors, include_metadata);
        let ghost pk0 = pk;
        let func = |c: DurabilityContext, p: Param5<String, Vec<Id>, Option<String>, Option<bool>, Option<bool>>| -> (o: (
            DurabilityContext,
            Result<Vec<VectorRecord>, VectorError>,
        ))
            ensures
                o.0 == c,
                inner.get_vectors_post(p.p1, p.p2, p.p3, p.p4, p.p5, o.1),
            {
                let call = |a1: String, a2: Vec<Id>, a3: Option<String>, a4: Option<bool>, a5: Option<bool>| -> (o:
                    Result<Vec<VectorRecord>, VectorError>)
                    ensures
                        inner.get_vectors_post(a1, a2, a3, a4, a5, o),
                    {
                        inner.get_vectors(a1, a2, a3, a4, a5)
                    };
                let r = p.invoke(call);
                (c, r)
            };
        let ghost func0 = func;
        let ghost post = |p: Param5<String, Vec<Id>, Option<String>, Option<bool>, Option<bool>>, r: Result<Vec<VectorRecord>, VectorError>| inner.get_vectors_post(p.p1, p.p2, p.p3, p.p4, p.p5, r);
        let (ctx, out) = read_remote_durably(ctx, "golem_vector::vectors", "get_vectors", pk, func);
        let ghost out0 = out;
        let r = settle(out);
        proof {
            assert forall|c: DurabilityContext, p: Param5<String, Vec<Id>, Option<String>, Option<bool>, Option<bool>>, o: (
                DurabilityContext,
                Result<Vec<VectorRecord>, VectorError>,
            )| #[trigger] call_ensures(func0, (c, p), o) implies o.0 == c && post(p, o.1) by {}
            lemma_durable_leaf(
                pre,
                DurableFunctionType::ReadRemote,
                PersistenceLevel::PersistNothing,
                "golem_vector::vectors"@,
                "get_vectors"@,
                pk0,
                func0,
                (ctx, out0),
                r,
                post,
            );
        }
        (DurableVector { ctx, inner }, r)
    }

    /// Fetch a single vector.
    pub fn get_vector(self, collection: String, id: Id, namespace: Option<String>) -> (res: (Self, Result<Option<VectorRecord>, VectorError>))
        requires
            self.ctx.cursor < usize::MAX,
        ensures
            res.0.inner == self.inner,
            durable_op_rel::<Option<VectorRecord>>(
                self.ctx,
                res.0.ctx,
                "golem_vector::vectors"@,
                "get_vector"@,
                DurableFunctionType::ReadRemote,
                (Param3 { p1: collection, p2: id, p3: namespace }).encoded(),
                res.1,
            ),
            (self.ctx.is_passthrough() || self.ctx.is_suppressed() || self.ctx.is_live())
                ==> self.inner.get_vector_post(collection, id, namespace, res.1),
    {
        let DurableVector { ctx, inner } = self;
        let ghost pre = ctx;
        let pk = Param3::new(collection, id, namespace);
        let ghost pk0 = pk;
        let func = |c: DurabilityContext, p: Param3<String, Id, Option<String>>| -> (o: (
            DurabilityContext,
            Result<Option<VectorRecord>, VectorError>,
        ))
            ensures
                o.0 == c,
                inner.get_vector_post(p.p1, p.p2, p.p3, o.1),
            {
                let call = |a1: String, a2: Id, a3: Option<String>| -> (o:
                    Result<Option<VectorRecord>, VectorError>)
                    ensures
                        inner.get_vector_post(a1, a2, a3, o),
                    {
                        inner.get_vector(a1, a2, a3)
                    };
                let r = p.invoke(call);
                (c, r)
            };
        let ghost func0 = func;
        let ghost post = |p: Param3<String, Id, Option<String>>, r: Result<Option<VectorRecord>, VectorError>| inner.get_vector_post(p.p1, p.p2, p.p3, r);
        let (ctx, out) = read_remote_durably(ctx, "golem_vector::vectors", "get_vector", pk, func);
        let ghost out0 = out;
        let r = settle(out);
        proof {
            assert forall|c: DurabilityContext, p: Param3<String, Id, Option<String>>, o: (
                DurabilityContext,
                Result<Option<VectorRecord>, VectorError>,
            )| #[trigger] call_ensures(func0, (c, p), o) implies o.0 == c && post(p, o.1) by {}
            lemma_durable_leaf(
                pre,
                DurableFunctionType::ReadRemote,
                PersistenceLevel::PersistNothing,
                "golem_vector::vectors"@,
                "get_vector"@,
                pk0,
                func0,
                (ctx, out0),
                r,
                post,
            );
        }
        (DurableVector { ctx, inner }, r)
    }

    /// Update a vector in place.
    pub fn update_vector(self, collection: String, id: Id, vector: Option<VectorData>, metadata: Option<Metadata>, namespace: Option<String>, merge_metadata: Option<bool>) -> (res: (Self, Result<(), VectorError>))
        requires
            self.ctx.cursor < usize::MAX,
        ensures
            res.0.inner == self.inner,
            durable_op_rel::<()>(
                self.ctx,
                res.0.ctx,
                "golem_vector::vectors"@,
                "update_vector"@,
                DurableFunctionType::WriteRemote,
                (Param6 { p1: collection, p2: id, p3: vector, p4: metadata, p5: namespace, p6: merge_metadata }).encoded(),
                res.1,
            ),
            (self.ctx.is_passthrough() || self.ctx.is_suppressed() || self.ctx.is_live())
                ==> self.inner.update_vector_post(collection, id, vector, metadata, namespace, merge_metadata, res.1),
    {
        let DurableVector { ctx, inner } = self;
        let ghost pre = ctx;
        let pk = Param6::new(collection, id, vector, metadata, namespace, merge_metadata);
        let ghost pk0 = pk;
        let func = |c: DurabilityContext, p: Param6<String, Id, Option<VectorData>, Option<Metadata>, Option<String>, Option<bool>>| -> (o: (
            DurabilityContext,
            Result<(), VectorError>,
        ))
            ensures
                o.0 == c,
                inner.update_vector_post(p.p1, p.p2, p.p3, p.p4, p.p5, p.p6, o.1),
            {
                let call = |a1: String, a2: Id, a3: Option<VectorData>, a4: Option<Metadata>, a5: Option<String>, a6: Option<bool>| -> (o:
                    Result<(), VectorError>)
                    ensures
                        inner.update_vector_post(a1, a2, a3, a4, a5, a6, o),
                    {
                        inner.update_vector(a1, a2, a3, a4, a5, a6)
                    };
                let r = p.invoke(call);
                (c, r)
            };
        let ghost func0 = func;
        let ghost post = |p: Param6<String, Id, Option<VectorData>, Option<Metadata>, Option<String>, Option<bool>>, r: Result<(), VectorError>| inner.update_vector_post(p.p1, p.p2, p.p3, p.p4, p.p5, p.p6, r);
        let (ctx, out) = write_remote_durably(ctx, "golem_vector::vectors", "update_vector", pk, func);
        let ghost out0 = out;
        let r = settle(out);
        proof {
            assert forall|c: DurabilityContext, p: Param6<String, Id, Option<VectorData>, Option<Metadata>, Option<String>, Option<bool>>, o: (
                DurabilityContext,
                Result<(), VectorError>,
            )| #[trigger] call_ensures(func0, (c, p), o) implies o.0 == c && post(p, o.1) by {}
            lemma_durable_leaf(
                pre,
                DurableFunctionType::WriteRemote,
                PersistenceLevel::PersistNothing,
                "golem_vector::vectors"@,
                "update_vector"@,
                pk0,
                func0,
                (ctx, out0),
                r,
                post,
            );
        }
        (DurableVector { ctx, inner }, r)
    }

    /// Delete vectors by identifier.
    pub fn delete_vectors(self, collection: String, ids: Vec<Id>, namespace: Option<String>) -> (res: (Self, Result<u32, VectorError>))
        requires
            self.ctx.cursor < usize::MAX,
        ensures
            res.0.inner == self.inner,
            durable_op_rel::<u32>(
                self.ctx,
                res.0.ctx,
                "golem_vector::vectors"@,
                "delete_vectors"@,
                DurableFunctionType::WriteRemote,
                (Param3 { p1: collection, p2: ids, p3: namespace }).encoded(),
                res.1,
            ),
            (self.ctx.is_passthrough() || self.ctx.is_suppressed() || self.ctx.is_live())
                ==> self.inner.delete_vectors_post(collection, ids, namespace, res.1),
    {
        let DurableVector { ctx, inner } = self;
        let ghost pre = ctx;
        let pk = Param3::new(collection, ids, namespace);
        let ghost pk0 = pk;
        let func = |c: DurabilityContext, p: Param3<String, Vec<Id>, Option<String>>| -> (o: (
            DurabilityContext,
            Result<u32, VectorError>,
        ))
            ensures
                o.0 == c,
                inner.delete_vectors_post(p.p1, p.p2, p.p3, o.1),
            {
                let call = |a1: String, a2: Vec<Id>, a3: Option<String>| -> (o:
                    Result<u32, VectorError>)
                    ensures
                        inner.delete_vectors_post(a1, a2, a3, o),
                    {
                        inner.delete_vectors(a1, a2, a3)
                    };
                let r = p.invoke(call);
                (c, r)
            };
        let ghost func0 = func;
        let ghost post = |p: Param3<String, Vec<Id>, Option<String>>, r: Result<u32, VectorError>| inner.delete_vectors_post(p.p1, p.p2, p.p3, r);
        let (ctx, out) = write_remote_durably(ctx, "golem_vector::vectors", "delete_vectors", pk, func);
        let ghost out0 = out;
        let r = settle(out);
        proof {
            assert forall|c: DurabilityContext, p: Param3<String, Vec<Id>, Option<String>>, o: (
                DurabilityContext,
                Result<u32, VectorError>,
            )| #[trigger] call_ensures(func0, (c, p), o) implies o.0 == c && post(p, o.1) by {}
            lemma_durable_leaf(
                pre,
                DurableFunctionType::WriteRemote,
                PersistenceLevel::PersistNothing,
                "golem_vector::vectors"@,
                "delete_vectors"@,
                pk0,
                func0,
                (ctx, out0),
                r,
                post,
            );
        }
        (DurableVector { ctx, inner }, r)
    }

    /// Delete vectors matching a filter.
    pub fn delete_by_filter(self, collection: String, filter: FilterExpression, namespace: Option<String>) -> (res: (Self, Result<u32, VectorError>))
        requires
            self.ctx.cursor < usize::MAX,
        ensures
            res.0.inner == self.inner,
            durable_op_rel::<u32>(
                self.ctx,
                res.0.ctx,
                "golem_vector::vectors"@,
                "delete_by_filter"@,
                DurableFunctionType::WriteRemote,
                (Param3 { p1: collection, p2: filter, p3: namespace }).encoded(),
                res.1,
            ),
            (self.ctx.is_passthrough() || self.ctx.is_suppressed() || self.ctx.is_live())
                ==> self.inner.delete_by_filter_post(collection, filter, namespace, res.1),
    {
        let DurableVector { ctx, inner } = self;
        let ghost pre = ctx;
        let pk = Param3::new(collection, filter, namespace);
        let ghost pk0 = pk;
        let func = |c: DurabilityContext, p: Param3<String, FilterExpression, Option<String>>| -> (o: (
            DurabilityContext,
            Result<u32, VectorError>,
        ))
            ensures
                o.0 == c,
                inner.delete_by_filter_post(p.p1, p.p2, p.p3, o.1),
            {
                let call = |a1: String, a2: FilterExpression, a3: Option<String>| -> (o:
                    Result<u32, VectorError>)
                    ensures
                        inner.delete_by_filter_post(a1, a2, a3, o),
                    {
                        inner.delete_by_filter(a1, a2, a3)
                    };
                let r = p.invoke(call);
                (c, r)
            };
        let ghost func0 = func;
        let ghost post = |p: Param3<String, FilterExpression, Option<String>>, r: Result<u32, VectorError>| inner.delete_by_filter_post(p.p1, p.p2, p.p3, r);
        let (ctx, out) = write_remote_durably(ctx, "golem_vector::vectors", "delete_by_filter", pk, func);
        let ghost out0 = out;
        let r = settle(out);
        proof {
            assert forall|c: DurabilityContext, p: Param3<String, FilterExpression, Option<String>>, o: (
                DurabilityContext,
                Result<u32, VectorError>,
            )| #[trigger] call_ensures(func0, (c, p), o) implies o.0 == c && post(p, o.1) by {}
            lemma_durable_leaf(
                pre,
                DurableFunctionType::WriteRemote,
                PersistenceLevel::PersistNothing,
                "golem_vector::vectors"@,
                "delete_by_filter"@,
                pk0,
                func0,
                (ctx, out0),
                r,
                post,
            );
        }
        (DurableVector { ctx, inner }, r)
    }

    /// Delete every vector in a namespace.
    pub fn delete_namespace_vectors(self, collection: String, namespace: String) -> (res: (Self, Result<u32, VectorError>))
        requires
            self.ctx.cursor < usize::MAX,
        ensures
            res.0.inner == self.inner,
            durable_op_rel::<u32>(
                self.ctx,
                res.0.ctx,
                "golem_vector::vectors"@,
                "delete_namespace"@,
                DurableFunctionType::WriteRemote,
                (Param2 { p1: collection, p2: namespace }).encoded(),
                res.1,
            ),
            (self.ctx.is_passthrough() || self.ctx.is_suppressed() || self.ctx.is_live())
                ==> self.inner.delete_namespace_vectors_post(collection, namespace, res.1),
    {
        let DurableVector { ctx, inner } = self;
        let ghost pre = ctx;
        let pk = Param2::new(collection, namespace);
        let ghost pk0 = pk;
        let func = |c: DurabilityContext, p: Param2<String, String>| -> (o: (
            DurabilityContext,
            Result<u32, VectorError>,
        ))
            ensures
                o.0 == c,
                inner.delete_namespace_vectors_post(p.p1, p.p2, o.1),
            {
                let call = |a1: String, a2: String| -> (o:
                    Result<u32, VectorError>)
                    ensures
                        inner.delete_namespace_vectors_post(a1, a2, o),
                    {
                        inner.delete_namespace_vectors(a1, a2)
                    };
                let r = p.invoke(call);
                (c, r)
            };
        let ghost func0 = func;
        let ghost post = |p: Param2<String, String>, r: Result<u32, VectorError>| inner.delete_namespace_vectors_post(p.p1, p.p2, r);
        let (ctx, out) = write_remote_durably(ctx, "golem_vector::vectors", "delete_namespace", pk, func);
        let ghost out0 = out;
        let r = settle(out);
        proof {
            assert forall|c: DurabilityContext, p: Param2<String, String>, o: (
                DurabilityContext,
                Result<u32, VectorError>,
            )| #[trigger] call_ensures(func0, (c, p), o) implies o.0 == c && post(p, o.1) by {}
            lemma_durable_leaf(
                pre,
                DurableFunctionType::WriteRemote,
                PersistenceLevel::PersistNothing,
                "golem_vector::vectors"@,
                "delete_namespace"@,
                pk0,
                func0,
                (ctx, out0),
                r,
                post,
            );
        }
        (DurableVector { ctx, inner }, r)
    }

    /// List vectors with filtering and pagination.
    pub fn list_vectors(self, collection: String, namespace: Option<String>, filter: Option<FilterExpression>, limit: Option<u32>, cursor: Option<Id>, include_vectors: Option<bool>, include_metadata: Option<bool>) -> (res: (Self, Result<ListResponse, VectorError>))
        requires
            self.ctx.cursor < usize::MAX,
        ensures
            res.0.inner == self.inner,
            durable_op_rel::<ListResponse>(
                self.ctx,
                res.0.ctx,
                "golem_vector::vectors"@,
                "list_vectors"@,
                DurableFunctionType::ReadRemote,
                (Param7 { p1: collection, p2: namespace, p3: filter, p4: limit, p5: cursor, p6: include_vectors, p7: include_metadata }).encoded(),
                res.1,
            ),
            (self.ctx.is_passthrough() || self.ctx.is_suppressed() || self.ctx.is_live())
                ==> self.inner.list_vectors_post(collection, namespace, filter, limit, cursor, include_vectors, include_metadata, res.1),
    {
        let DurableVector { ctx, inner } = self;
        let ghost pre = ctx;
        let pk = Param7::new(collection, namespace, filter, limit, cursor, include_vectors, include_metadata);
        let ghost pk0 = pk;
        let func = |c: DurabilityContext, p: Param7<String, Option<String>, Option<FilterExpression>, Option<u32>, Option<Id>, Option<bool>, Option<bool>>| -> (o: (
            DurabilityContext,
            Result<ListResponse, VectorError>,
        ))
            ensures
                o.0 == c,
                inner.list_vectors_post(p.p1, p.p2, p.p3, p.p4, p.p5, p.p6, p.p7, o.1),
            {
                let call = |a1: String, a2: Option<String>, a3: Option<FilterExpression>, a4: Option<u32>, a5: Option<Id>, a6: Option<bool>, a7: Option<bool>| -> (o:
                    Result<ListResponse, VectorError>)
                    ensures
                        inner.list_vectors_post(a1, a2, a3, a4, a5, a6, a7, o),
                    {
                        inner.list_vectors(a1, a2, a3, a4, a5, a6, a7)
                    };
                let r = p.invoke(call);
                (c, r)
            };
        let ghost func0 = func;
        let ghost post = |p: Param7<String, Option<String>, Option<FilterExpression>, Option<u32>, Option<Id>, Option<bool>, Option<bool>>, r: Result<ListResponse, VectorError>| inner.list_vectors_post(p.p1, p.p2, p.p3, p.p4, p.p5, p.p6, p.p7, r);
        let (ctx, out) = read_remote_durably(ctx, "golem_vector::vectors", "list_vectors", pk, func);
        let ghost out0 = out;
        let r = settle(out);
        proof {
            assert forall|c: DurabilityContext, p: Param7<String, Option<String>, Option<FilterExpression>, Option<u32>, Option<Id>, Option<bool>, Option<bool>>, o: (
                DurabilityContext,
                Result<ListResponse, VectorError>,
            )| #[trigger] call_ensures(func0, (c, p), o) implies o.0 == c && post(p, o.1) by {}
            lemma_durable_leaf(
                pre,
                DurableFunctionType::ReadRemote,
                PersistenceLevel::PersistNothing,
                "golem_vector::vectors"@,
                "list_vectors"@,
                pk0,
                func0,
                (ctx, out0),
                r,
                post,
            );
        }
        (DurableVector { ctx, inner }, r)
    }

    /// Count vectors matching a filter.
    pub fn count_vectors(self, collection: String, filter: Option<FilterExpression>, namespace: Option<String>) -> (res: (Self, Result<u64, VectorError>))
        requires
            self.ctx.cursor < usize::MAX,
        ensures
            res.0.inner == self.inner,
            durable_op_rel::<u64>(
                self.ctx,
                res.0.ctx,
                "golem_vector::vectors"@,
                "count_vectors"@,
                DurableFunctionType::ReadRemote,
                (Param3 { p1: collection, p2: filter, p3: namespace }).encoded(),
                res.1,
            ),
            (self.ctx.is_passthrough() || self.ctx.is_suppressed() || self.ctx.is_live())
                ==> self.inner.count_vectors_post(collection, filter, namespace, res.1),
    {
        let DurableVector { ctx, inner } = self;
        let ghost pre = ctx;
        let pk = Param3::new(collection, filter, namespace);
        let ghost pk0 = pk;
        let func = |c: DurabilityContext, p: Param3<String, Option<FilterExpression>, Option<String>>| -> (o: (
            DurabilityContext,
            Result<u64, VectorError>,
        ))
            ensures
                o.0 == c,
                inner.count_vectors_post(p.p1, p.p2, p.p3, o.1),
            {
                let call = |a1: String, a2: Option<FilterExpression>, a3: Option<String>| -> (o:
                    Result<u64, VectorError>)
                    ensures
                        inner.count_vectors_post(a1, a2, a3, o),
                    {
                        inner.count_vectors(a1, a2, a3)
                    };
                let r = p.invoke(call);
                (c, r)
            };
        let ghost func0 = func;
        let ghost post = |p: Param3<String, Option<FilterExpression>, Option<String>>, r: Result<u64, VectorError>| inner.count_vectors_post(p.p1, p.p2, p.p3, r);
        let (ctx, out) = read_remote_durably(ctx, "golem_vector::vectors", "count_vectors", pk, func);
        let ghost out0 = out;
        let r = settle(out);
        proof {
            assert forall|c: DurabilityContext, p: Param3<String, Option<FilterExpression>, Option<String>>, o: (
                DurabilityContext,
                Result<u64, VectorError>,
            )| #[trigger] call_ensures(func0, (c, p), o) implies o.0 == c && post(p, o.1) by {}
            lemma_durable_leaf(
                pre,
                DurableFunctionType::ReadRemote,
                PersistenceLevel::PersistNothing,
                "golem_vector::vectors"@,
                "count_vectors"@,
                pk0,
                func0,
                (ctx, out0),
                r,
                post,
            );
        }
        (DurableVector { ctx, inner }, r)
    }

    /// Create or update a collection. The provider may decide between creating and updating in separate remote steps, so recording stays active for its nested calls.
    pub fn upsert_collection(self, name: String, description: Option<String>, dimension: u32, metric: DistanceMetric, index_config: Option<IndexConfig>, metadata: Option<Metadata>) -> (res: (Self, Result<CollectionInfo, VectorError>))
        requires
            self.ctx.cursor < usize::MAX,
        ensures
            res.0.inner == self.inner,
            durable_op_rel::<CollectionInfo>(
                self.ctx,
                res.0.ctx,
                "golem_vector::collections"@,
                "upsert_collection"@,
                DurableFunctionType::WriteRemote,
                (Param6 { p1: name, p2: description, p3: dimension, p4: metric, p5: index_config, p6: metadata }).encoded(),
                res.1,
            ),
            (self.ctx.is_passthrough() || self.ctx.is_suppressed() || self.ctx.is_live())
                ==> self.inner.upsert_collection_post(name, description, dimension, metric, index_config, metadata, res.1),
    {
        let DurableVector { ctx, inner } = self;
        let ghost pre = ctx;
        let pk = Param6::new(name, description, dimension, metric, index_config, metadata);
        let ghost pk0 = pk;
        let func = |c: DurabilityContext, p: Param6<String, Option<String>, u32, DistanceMetric, Option<IndexConfig>, Option<Metadata>>| -> (o: (
            DurabilityContext,
            Result<CollectionInfo, VectorError>,
        ))
            ensures
                o.0 == c,
                inner.upsert_collection_post(p.p1, p.p2, p.p3, p.p4, p.p5, p.p6, o.1),
            {
                let call = |a1: String, a2: Option<String>, a3: u32, a4: DistanceMetric, a5: Option<IndexConfig>, a6: Option<Metadata>| -> (o:
                    Result<CollectionInfo, VectorError>)
                    ensures
                        inner.upsert_collection_post(a1, a2, a3, a4, a5, a6, o),
                    {
                        inner.upsert_collection(a1, a2, a3, a4, a5, a6)
                    };
                let r = p.invoke(call);
                (c, r)
            };
        let ghost func0 = func;
        let ghost post = |p: Param6<String, Option<String>, u32, DistanceMetric, Option<IndexConfig>, Option<Metadata>>, r: Result<CollectionInfo, VectorError>| inner.upsert_collection_post(p.p1, p.p2, p.p3, p.p4, p.p5, p.p6, r);
        let (ctx, out) = write_remote_durably_with_side_effects(ctx, "golem_vector::collections", "upsert_collection", pk, func);
        let ghost out0 = out;
        let r = settle(out);
        proof {
            assert forall|c: DurabilityContext, p: Param6<String, Option<String>, u32, DistanceMetric, Option<IndexConfig>, Option<Metadata>>, o: (
                DurabilityContext,
                Result<CollectionInfo, VectorError>,
            )| #[trigger] call_ensures(func0, (c, p), o) implies o.0 == c && post(p, o.1) by {}
            lemma_durable_leaf(
                pre,
                DurableFunctionType::WriteRemote,
                PersistenceLevel::PersistRemoteSideEffects,
                "golem_vector::collections"@,
                "upsert_collection"@,
                pk0,
                func0,
                (ctx, out0),
                r,
                post,
            );
        }
        (DurableVector { ctx, inner }, r)
    }

    /// List all collections.
    pub fn list_collections(self) -> (res: (Self, Result<Vec<String>, VectorError>))
        requires
            self.ctx.cursor < usize::MAX,
        ensures
            res.0.inner == self.inner,
            durable_op_rel::<Vec<String>>(
                self.ctx,
                res.0.ctx,
                "golem_vector::collections"@,
                "list_collections"@,
                DurableFunctionType::ReadRemote,
                NoParam.encoded(),
                res.1,
            ),
            (self.ctx.is_passthrough() || self.ctx.is_suppressed() || self.ctx.is_live())
                ==> self.inner.list_collections_post(res.1),
    {
        let DurableVector { ctx, inner } = self;
        let ghost pre = ctx;
        let pk = NoParam;
        let ghost pk0 = pk;
        let func = |c: DurabilityContext, p: NoParam| -> (o: (
            DurabilityContext,
            Result<Vec<String>, VectorError>,
        ))
            ensures
                o.0 == c,
                inner.list_collections_post(o.1),
            {
                let call = || -> (o:
                    Result<Vec<String>, VectorError>)
                    ensures
                        inner.list_collections_post(o),
                    {
                        inner.list_collections()
                    };
                let r = p.invoke(call);
                (c, r)
            };
        let ghost func0 = func;
        let ghost post = |p: NoParam, r: Result<Vec<String>, VectorError>| inner.list_collections_post(r);
        let (ctx, out) = read_remote_durably(ctx, "golem_vector::collections", "list_collections", pk, func);
        let ghost out0 = out;
        let r = settle(out);
        proof {
            assert forall|c: DurabilityContext, p: NoParam, o: (
                DurabilityContext,
                Result<Vec<String>, VectorError>,
            )| #[trigger] call_ensures(func0, (c, p), o) implies o.0 == c && post(p, o.1) by {}
            lemma_durable_leaf(
                pre,
                DurableFunctionType::ReadRemote,
                PersistenceLevel::PersistNothing,
                "golem_vector::collections"@,
                "list_collections"@,
                pk0,
                func0,
                (ctx, out0),
                r,
                post,
            );
        }
        (DurableVector { ctx, inner }, r)
    }

    /// Describe one collection.
    pub fn get_collection(self, name: String) -> (res: (Self, Result<CollectionInfo, VectorError>))
        requires
            self.ctx.cursor < usize::MAX,
        ensures
            res.0.inner == self.inner,
            durable_op_rel::<CollectionInfo>(
                self.ctx,
                res.0.ctx,
                "golem_vector::collections"@,
                "get_collection"@,
                DurableFunctionType::ReadRemote,
                (Param { p1: name }).encoded(),
                res.1,
            ),
            (self.ctx.is_passthrough() || self.ctx.is_suppressed() || self.ctx.is_live())
                ==> self.inner.get_collection_post(name, res.1),
    {
        let DurableVector { ctx, inner } = self;
        let ghost pre = ctx;
        let pk = Param::new(name);
        let ghost pk0 = pk;
        let func = |c: DurabilityContext, p: Param<String>| -> (o: (
            DurabilityContext,
            Result<CollectionInfo, VectorError>,
        ))
            ensures
                o.0 == c,
                inner.get_collection_post(p.p1, o.1),
            {
                let call = |a1: String| -> (o:
                    Result<CollectionInfo, VectorError>)
                    ensures
                        inner.get_collection_post(a1, o),
                    {
                        inner.get_collection(a1)
                    };
                let r = p.invoke(call);
                (c, r)
            };
        let ghost func0 = func;
        let ghost post = |p: Param<String>, r: Result<CollectionInfo, VectorError>| inner.get_collection_post(p.p1, r);
        let (ctx, out) = read_remote_durably(ctx, "golem_vector::collections", "get_collection", pk, func);
        let ghost out0 = out;
        let r = settle(out);
        proof {
            assert forall|c: DurabilityContext, p: Param<String>, o: (
                DurabilityContext,
                Result<CollectionInfo, VectorError>,
            )| #[trigger] call_ensures(func0, (c, p), o) implies o.0 == c && post(p, o.1) by {}
            lemma_durable_leaf(
                pre,
                DurableFunctionType::ReadRemote,
                PersistenceLevel::PersistNothing,
                "golem_vector::collections"@,
                "get_collection"@,
                pk0,
                func0,
                (ctx, out0),
                r,
                post,
            );
        }
        (DurableVector { ctx, inner }, r)
    }

    /// Update a collection's description and metadata.
    pub fn update_collection(self, name: String, description: Option<String>, metadata: Option<Metadata>) -> (res: (Self, Result<CollectionInfo, VectorError>))
        requires
            self.ctx.cursor < usize::MAX,
        ensures
            res.0.inner == self.inner,
            durable_op_rel::<CollectionInfo>(
                self.ctx,
                res.0.ctx,
                "golem_vector::collections"@,
                "update_collection"@,
                DurableFunctionType::WriteRemote,
                (Param3 { p1: name, p2: description, p3: metadata }).encoded(),
                res.1,
            ),
            (self.ctx.is_passthrough() || self.ctx.is_suppressed() || self.ctx.is_live())
                ==> self.inner.update_collection_post(name, description, metadata, res.1),
    {
        let DurableVector { ctx, inner } = self;
        let ghost pre = ctx;
        let pk = Param3::new(name, description, metadata);
        let ghost pk0 = pk;
        let func = |c: DurabilityContext, p: Param3<String, Option<String>, Option<Metadata>>| -> (o: (
            DurabilityContext,
            Result<CollectionInfo, VectorError>,
        ))
            ensures
                o.0 == c,
                inner.update_collection_post(p.p1, p.p2, p.p3, o.1),
            {
                let call = |a1: String, a2: Option<String>, a3: Option<Metadata>| -> (o:
                    Result<CollectionInfo, VectorError>)
                    ensures
                        inner.update_collection_post(a1, a2, a3, o),
                    {
                        inner.update_collection(a1, a2, a3)
                    };
                let r = p.invoke(call);
                (c, r)
            };
        let ghost func0 = func;
        let ghost post = |p: Param3<String, Option<String>, Option<Metadata>>, r: Result<CollectionInfo, VectorError>| inner.update_collection_post(p.p1, p.p2, p.p3, r);
        let (ctx, out) = write_remote_durably(ctx, "golem_vector::collections", "update_collection", pk, func);
        let ghost out0 = out;
        let r = settle(out);
        proof {
            assert forall|c: DurabilityContext, p: Param3<String, Option<String>, Option<Metadata>>, o: (
                DurabilityContext,
                Result<CollectionInfo, VectorError>,
            )| #[trigger] call_ensures(func0, (c, p), o) implies o.0 == c && post(p, o.1) by {}
            lemma_durable_leaf(
                pre,
                DurableFunctionType::WriteRemote,
                PersistenceLevel::PersistNothing,
                "golem_vector::collections"@,
                "update_collection"@,
                pk0,
                func0,
                (ctx, out0),
                r,
                post,
            );
        }
        (DurableVector { ctx, inner }, r)
    }

    /// Delete a collection and all its vectors.
    pub fn delete_collection(self, name: String) -> (res: (Self, Result<(), VectorError>))
        requires
            self.ctx.cursor < usize::MAX,
        ensures
            res.0.inner == self.inner,
            durable_op_rel::<()>(
                self.ctx,
                res.0.ctx,
                "golem_vector::collections"@,
                "delete_collection"@,
                DurableFunctionType::WriteRemote,
                (Param { p1: name }).encoded(),
                res.1,
            ),
            (self.ctx.is_passthrough() || self.ctx.is_suppressed() || self.ctx.is_live())
                ==> self.inner.delete_collection_post(name, res.1),
    {
        let DurableVector { ctx, inner } = self;
        let ghost pre = ctx;
        let pk = Param::new(name);
        let ghost pk0 = pk;
        let func = |c: DurabilityContext, p: Param<String>| -> (o: (
            DurabilityContext,
            Result<(), VectorError>,
        ))
            ensures
                o.0 == c,
                inner.delete_collection_post(p.p1, o.1),
            {
                let call = |a1: String| -> (o:
                    Result<(), VectorError>)
                    ensures
                        inner.delete_collection_post(a1, o),
                    {
                        inner.delete_collection(a1)
                    };
                let r = p.invoke(call);
                (c, r)
            };
        let ghost func0 = func;
        let ghost post = |p: Param<String>, r: Result<(), VectorError>| inner.delete_collection_post(p.p1, r);
        let (ctx, out) = write_remote_durably(ctx, "golem_vector::collections", "delete_collection", pk, func);
        let ghost out0 = out;
        let r = settle(out);
        proof {
            assert forall|c: DurabilityContext, p: Param<String>, o: (
                DurabilityContext,
                Result<(), VectorError>,
            )| #[trigger] call_ensures(func0, (c, p), o) implies o.0 == c && post(p, o.1) by {}
            lemma_durable_leaf(
                pre,
                DurableFunctionType::WriteRemote,
                PersistenceLevel::PersistNothing,
                "golem_vector::collections"@,
                "delete_collection"@,
                pk0,
                func0,
                (ctx, out0),
                r,
                post,
            );
        }
        (DurableVector { ctx, inner }, r)
    }

    /// Whether a collection exists.
    pub fn collection_exists(self, name: String) -> (res: (Self, Result<bool, VectorError>))
        requires
            self.ctx.cursor < usize::MAX,
        ensures
            res.0.inner == self.inner,
            durable_op_rel::<bool>(
                self.ctx,
                res.0.ctx,
                "golem_vector::collections"@,
                "collection_exists"@,
                DurableFunctionType::ReadRemote,
                (Param { p1: name }).encoded(),
                res.1,
            ),
            (self.ctx.is_passthrough() || self.ctx.is_suppressed() || self.ctx.is_live())
                ==> self.inner.collection_exists_post(name, res.1),
    {
        let DurableVector { ctx, inner } = self;
        let ghost pre = ctx;
        let pk = Param::new(name);
        let ghost pk0 = pk;
        let func = |c: DurabilityContext, p: Param<String>| -> (o: (
            DurabilityContext,
            Result<bool, VectorError>,
        ))
            ensures
                o.0 == c,
                inner.collection_exists_post(p.p1, o.1),
            {
                let call = |a1: String| -> (o:
                    Result<bool, VectorError>)
                    ensures
                        inner.collection_exists_post(a1, o),
                    {
                        inner.collection_exists(a1)
                    };
                let r = p.invoke(call);
                (c, r)
            };
        let ghost func0 = func;
        let ghost post = |p: Param<String>, r: Result<bool, VectorError>| inner.collection_exists_post(p.p1, r);
        let (ctx, out) = read_remote_durably(ctx, "golem_vector::collections", "collection_exists", pk, func);
        let ghost out0 = out;
        let r = settle(out);
        proof {
            assert forall|c: DurabilityContext, p: Param<String>, o: (
                DurabilityContext,
                Result<bool, VectorError>,
            )| #[trigger] call_ensures(func0, (c, p), o) implies o.0 == c && post(p, o.1) by {}
            lemma_durable_leaf(
                pre,
                DurableFunctionType::ReadRemote,
                PersistenceLevel::PersistNothing,
                "golem_vector::collections"@,
                "collection_exists"@,
                pk0,
                func0,
                (ctx, out0),
                r,
                post,
            );
        }
        (DurableVector { ctx, inner }, r)
    }
}

/// The composed durability relation of the create-vs-update sequence: a
/// durable existence probe under its own sub-step key decides between a
/// durable update and a durable create, each under its own sub-step key.
/// Probe errors pass through; a replay fault, or a log cursor at the end of
/// the address space, is an unrecoverable provider error.
pub open spec fn upsert_collection_steps_rel<F1: FnOnce(DurabilityContext, Param<String>) -> (
    DurabilityContext,
    Result<bool, VectorError>,
), F2: FnOnce(DurabilityContext, Param2<String, Option<Metadata>>) -> (
    DurabilityContext,
    Result<CollectionInfo, VectorError>,
), F3: FnOnce(
    DurabilityContext,
    Param5<String, u32, DistanceMetric, Option<IndexConfig>, Option<Metadata>>,
) -> (DurabilityContext, Result<CollectionInfo, VectorError>)>(
    ctx: DurabilityContext,
    name: String,
    dimension: u32,
    metric: DistanceMetric,
    index_config: Option<IndexConfig>,
    metadata: Option<Metadata>,
    exists_check: F1,
    update: F2,
    create: F3,
    res: (DurabilityContext, Result<CollectionInfo, VectorError>),
) -> bool {
    exists|r1: (DurabilityContext, Result<Result<bool, VectorError>, ReplayFault>)|
        {
            &&& #[trigger] run_durably_rel(
                ctx,
                DurableFunctionType::ReadRemote,
                PersistenceLevel::PersistNothing,
                "golem_vector::collections"@,
                "upsert_collection/collection_exists"@,
                (Param { p1: name }),
                exists_check,
                r1,
            )
            &&& match r1.1 {
                Ok(probe) => match probe {
                    Ok(exists_flag) => if r1.0.cursor < usize::MAX {
                        if exists_flag {
                            exists|r2: (
                                DurabilityContext,
                                Result<Result<CollectionInfo, VectorError>, ReplayFault>,
                            )|
                                {
                                    &&& #[trigger] run_durably_rel(
                                        r1.0,
                                        DurableFunctionType::WriteRemote,
                                        PersistenceLevel::PersistNothing,
                                        "golem_vector::collections"@,
                                        "upsert_collection/update_collection"@,
                                        (Param2 { p1: name, p2: metadata }),
                                        update,
                                        r2,
                                    )
                                    &&& res.0 == r2.0
                                    &&& (r2.1 matches Ok(x) ==> res.1 == x)
                                    &&& (r2.1 is Err ==> (res.1 matches Err(e) && e
                                        is ProviderError))
                                }
                        } else {
                            exists|r2: (
                                DurabilityContext,
                                Result<Result<CollectionInfo, VectorError>, ReplayFault>,
                            )|
                                {
                                    &&& #[trigger] run_durably_rel(
                                        r1.0,
                                        DurableFunctionType::WriteRemote,
                                        PersistenceLevel::PersistNothing,
                                        "golem_vector::collections"@,
                                        "upsert_collection/create_collection"@,
                                        (Param5 {
                                            p1: name,
                                            p2: dimension,
                                            p3: metric,
                                            p4: index_config,
                                            p5: metadata,
                                        }),
                                        create,
                                        r2,
                                    )
                                    &&& res.0 == r2.0
                                    &&& (r2.1 matches Ok(x) ==> res.1 == x)
                                    &&& (r2.1 is Err ==> (res.1 matches Err(e) && e
                                        is ProviderError))
                                }
                        }
                    } else {
                        res.0 == r1.0 && (res.1 matches Err(e) && e is ProviderError)
                    },
                    Err(probe_err) => res == (
                        r1.0,
                        Err::<CollectionInfo, VectorError>(probe_err),
                    ),
                },
                Err(_) => res.0 == r1.0 && (res.1 matches Err(e) && e is ProviderError),
            }
        }
}

/// The durable create-vs-update sequence a collection upsert decomposes
/// into: probe whether the collection exists, then update or create it, each
/// step recorded under its own sub-step key. Run inside a wrapper that keeps
/// recording active, a partially completed upsert resumes from the steps
/// already recorded.
pub fn upsert_collection_steps<F1: FnOnce(DurabilityContext, Param<String>) -> (
    DurabilityContext,
    Result<bool, VectorError>,
), F2: FnOnce(DurabilityContext, Param2<String, Option<Metadata>>) -> (
    DurabilityContext,
    Result<CollectionInfo, VectorError>,
), F3: FnOnce(
    DurabilityContext,
    Param5<String, u32, DistanceMetric, Option<IndexConfig>, Option<Metadata>>,
) -> (DurabilityContext, Result<CollectionInfo, VectorError>)>(
    ctx: DurabilityContext,
    name: String,
    dimension: u32,
    metric: DistanceMetric,
    index_config: Option<IndexConfig>,
    metadata: Option<Metadata>,
    exists_check: F1,
    update: F2,
    create: F3,
) -> (res: (DurabilityContext, Result<CollectionInfo, VectorError>))
    requires
        ctx.cursor < usize::MAX,
        forall|c: DurabilityContext, p: Param<String>| #[trigger] call_requires(
            exists_check,
            (c, p),
        ),
        forall|c: DurabilityContext, p: Param2<String, Option<Metadata>>| #[trigger] call_requires(
            update,
            (c, p),
        ),
        forall|
            c: DurabilityContext,
            p: Param5<String, u32, DistanceMetric, Option<IndexConfig>, Option<Metadata>>,
        | #[trigger] call_requires(create, (c, p)),
    ensures
        upsert_collection_steps_rel(
            ctx,
            name,
            dimension,
            metric,
            index_config,
            metadata,
            exists_check,
            update,
            create,
            res,
        ),
{
    let probe_name = name.clone();
    let (ctx1, probe) = read_remote_durably(
        ctx,
        "golem_vector::collections",
        "upsert_collection/collection_exists",
        Param::new(probe_name),
        exists_check,
    );
    match probe {
        Ok(Ok(exists_flag)) => {
            if ctx1.cursor == usize::MAX {
                return (
                    ctx1,
                    Err(
                        VectorError::ProviderError(
                            String::from_str("durability log does not match this call"),
                        ),
                    ),
                );
            }
            if exists_flag {
                let (ctx2, out) = write_remote_durably(
                    ctx1,
                    "golem_vector::collections",
                    "upsert_collection/update_collection",
                    Param2::new(name, metadata),
                    update,
                );
                let r = settle(out);
                (ctx2, r)
            } else {
                let (ctx2, out) = write_remote_durably(
                    ctx1,
                    "golem_vector::collections",
                    "upsert_collection/create_collection",
                    Param5::new(name, dimension, metric, index_config, metadata),
                    create,
                );
                let r = settle(out);
                (ctx2, r)
            }
        },
        Ok(Err(probe_err)) => (ctx1, Err(probe_err)),
        Err(_) => (
            ctx1,
            Err(
                VectorError::ProviderError(
                    String::from_str("durability log does not match this call"),
                ),
            ),
        ),
    }
}

} // verus!
