//! The durable wrapper for the web-search capability: behaviorally identical
//! to a plain provider, but every operation is routed through the durability
//! protocol under a stable `(interface, operation)` key.
//!
//! The session handle a provider opens is not serializable, so only the fact
//! that a session was opened is recorded: a replayed execution consumes the
//! marker and derives a fresh handle from the provider, and a failed opening
//! records nothing. The one-shot search records its full result — an error
//! like a success — and replays it without touching the provider.

use vstd::prelude::*;

use crate::codec::Codec;
use crate::durability::{entry_matches, run_durably_rel, store_write, write_remote_durably,
    DurabilityContext, DurableFunctionType, PersistenceLevel, ReplayFault};
use crate::params::NoParam;
use crate::text::str_eq;
use crate::value::{Value, ValueModel};
use crate::websearch::types::{SearchError, SearchMetadata, SearchParams, SearchResult};

verus! {

/// The full response of a one-shot search.
pub type SearchOnceResponse = (Vec<SearchResult>, Option<SearchMetadata>);

/// What a plain web-search provider supplies, unaware of durability. Each
/// operation carries an abstract postcondition hook, empty by default, so an
/// implementation with a contract of its own passes it through the durable
/// wrapper to its callers.
pub trait WebSearchProvider {
    /// The provider's own paginated session handle.
    type Session;

    /// Open a paginated search session.
    fn start_search(&self, params: SearchParams) -> (r: Result<Self::Session, SearchError>)
        ensures
            self.start_search_post(params, r),
    ;

    /// What this provider promises of [`Self::start_search`]'s result;
    /// nothing, unless an implementation states more.
    open spec fn start_search_post(
        &self,
        params: SearchParams,
        r: Result<Self::Session, SearchError>,
    ) -> bool {
        true
    }

    /// Run one search, returning its hits and metadata.
    fn search_once(&self, params: SearchParams) -> (r: Result<SearchOnceResponse, SearchError>)
        ensures
            self.search_once_post(params, r),
    ;

    /// What this provider promises of [`Self::search_once`]'s result;
    /// nothing, unless an implementation states more.
    open spec fn search_once_post(
        &self,
        params: SearchParams,
        r: Result<SearchOnceResponse, SearchError>,
    ) -> bool {
        true
    }
}

/// A web-search provider lifted into the durability pipeline, carrying the
/// durability context of its logical execution.
pub struct DurableWebSearch<Impl> {
    pub ctx: DurabilityContext,
    pub inner: Impl,
}

/// The error returned when a replayed position holds a record that does not
/// belong to this call or no longer decodes.
fn log_fault_error() -> (r: SearchError)
    ensures
        r matches SearchError::BackendError(m) && m@
            == "durability log does not match this call"@,
{
    SearchError::BackendError(String::from_str("durability log does not match this call"))
}

/// What the one-shot search guarantees about the durability state: nothing
/// changes under passthrough or suppression; a live call appends exactly its
/// own record carrying the encoded parameters and the encoded result — an
/// error like a success — and advances the cursor one position; a replayed
/// call leaves the log alone and returns a result with the recorded
/// encoding when the entry matches and still decodes, and otherwise fails
/// as a log fault.
pub open spec fn search_once_rel(
    pre: DurabilityContext,
    post: DurabilityContext,
    params: SearchParams,
    r: Result<SearchOnceResponse, SearchError>,
) -> bool {
    &&& post.ambient == pre.ambient
    &&& post.enabled == pre.enabled
    &&& (pre.is_passthrough() ==> post == pre)
    &&& (pre.is_suppressed() ==> post == pre)
    &&& (pre.is_live() ==> {
        &&& post.cursor == pre.cursor + 1
        &&& post.recorded_at(pre.cursor as int)
        &&& entry_matches(
            post.record_at(pre.cursor as int),
            "golem_web_search"@,
            "search_once"@,
            DurableFunctionType::WriteRemote,
            params.encoded(),
            r.encoded(),
            pre.cursor + 1,
        )
        &&& post.store@ == store_write(pre.store@, pre.cursor as int, post.record_at(pre.cursor as int))
    })
    &&& (pre.is_replay() ==> {
        let e = pre.record_at(pre.cursor as int);
        &&& post.store@ == pre.store@
        &&& (if e.interface_name@ == "golem_web_search"@ && e.operation@ == "search_once"@
            && <Result<SearchOnceResponse, SearchError> as Codec>::decodable(e.result.model()) {
            &&& r.encoded() == e.result.model()
            &&& post.cursor == (if e.next > pre.cursor + 1 {
                e.next as int
            } else {
                pre.cursor + 1
            })
        } else {
            &&& (r matches Err(err) && (err matches SearchError::BackendError(m) && m@
                == "durability log does not match this call"@))
            &&& post.cursor == pre.cursor
        })
    })
}

/// A leaf durable one-shot call — the wrapped function leaves the context as
/// it found it and its result satisfies `post` — satisfies the one-shot
/// relation, and outside replay its result is an outcome of the wrapped
/// provider call.
proof fn lemma_search_once_leaf<F: FnOnce(DurabilityContext, SearchParams) -> (
    DurabilityContext,
    Result<SearchOnceResponse, SearchError>,
)>(
    pre: DurabilityContext,
    params: SearchParams,
    func: F,
    run_res: (DurabilityContext, Result<Result<SearchOnceResponse, SearchError>, ReplayFault>),
    r: Result<SearchOnceResponse, SearchError>,
    post: spec_fn(SearchParams, Result<SearchOnceResponse, SearchError>) -> bool,
)
    requires
        pre.cursor < usize::MAX,
        run_durably_rel(
            pre,
            DurableFunctionType::WriteRemote,
            PersistenceLevel::PersistNothing,
            "golem_web_search"@,
            "search_once"@,
            params,
            func,
            run_res,
        ),
        forall|
            c: DurabilityContext,
            p: SearchParams,
            o: (DurabilityContext, Result<SearchOnceResponse, SearchError>),
        | #[trigger] call_ensures(func, (c, p), o) ==> o.0 == c && post(p, o.1),
        run_res.1 matches Ok(x) ==> r == x,
        run_res.1 is Err ==> (r matches Err(e) && (e matches SearchError::BackendError(m) && m@
            == "durability log does not match this call"@)),
    ensures
        search_once_rel(pre, run_res.0, params, r),
        (pre.is_passthrough() || pre.is_suppressed() || pre.is_live()) ==> post(params, r),
{
    let level = PersistenceLevel::PersistNothing;
    if pre.is_passthrough() {
        let out = choose|out: (DurabilityContext, Result<SearchOnceResponse, SearchError>)|
            #[trigger] call_ensures(func, (pre, params), out) && run_res == (
            out.0,
            Ok::<Result<SearchOnceResponse, SearchError>, ReplayFault>(out.1),
            );
        assert(out.0 == pre);
        assert(post(params, out.1));
    } else if pre.is_suppressed() {
        let out = choose|out: (DurabilityContext, Result<SearchOnceResponse, SearchError>)|
            #[trigger] call_ensures(func, (pre.with_ambient(level), params), out) && run_res.0
                == out.0.with_ambient(pre.ambient) && run_res.1 == Ok::<
                Result<SearchOnceResponse, SearchError>,
                ReplayFault,
            >(out.1);
        assert(out.0 == pre.with_ambient(level));
        assert(run_res.0 == pre);
        assert(post(params, out.1));
    } else if pre.is_live() {
        let started = pre.with_ambient(level).with_cursor((pre.cursor + 1) as usize);
        let out = choose|out: (DurabilityContext, Result<SearchOnceResponse, SearchError>)|
            {
                let next = if out.0.cursor > pre.cursor + 1 {
                    out.0.cursor as int
                } else {
                    pre.cursor + 1
                };
                &&& #[trigger] call_ensures(func, (started, params), out)
                &&& run_res.1 matches Ok(rr) && rr == out.1
                &&& run_res.0.recorded_at(pre.cursor as int)
                &&& entry_matches(
                    run_res.0.record_at(pre.cursor as int),
                    "golem_web_search"@,
                    "search_once"@,
                    DurableFunctionType::WriteRemote,
                    params.encoded(),
                    out.1.encoded(),
                    next,
                )
                &&& run_res.0.enabled == out.0.enabled
                &&& run_res.0.ambient == pre.ambient
                &&& run_res.0.cursor == next
                &&& run_res.0.store@ == store_write(
                    out.0.store@,
                    pre.cursor as int,
                    run_res.0.record_at(pre.cursor as int),
                )
            };
        assert(out.0 == started);
        assert(post(params, out.1));
    } else {
        assert(pre.is_replay());
    }
}

impl<Impl: WebSearchProvider> DurableWebSearch<Impl> {
    /// Wrap a plain provider for the given logical execution.
    pub fn new(inner: Impl, ctx: DurabilityContext) -> (r: Self)
        ensures
            r.ctx == ctx,
            r.inner == inner,
    {
        DurableWebSearch { ctx, inner }
    }

    /// Open a session durably. A successful live call records a marker entry
    /// under the stable key; a failed live call records nothing. On replay a
    /// key-matched entry must still decode as the marker — anything else is
    /// a log fault — and the provider is then asked for a fresh handle,
    /// since a handle cannot be reproduced from the log.
    pub fn start_search(self, params: SearchParams) -> (res: (
        Self,
        Result<Impl::Session, SearchError>,
    ))
        requires
            self.ctx.cursor < usize::MAX,
        ensures
            res.0.inner == self.inner,
            res.0.ctx.ambient == self.ctx.ambient,
            res.0.ctx.enabled == self.ctx.enabled,
            (self.ctx.is_passthrough() || self.ctx.is_suppressed()) ==> res.0.ctx == self.ctx,
            (self.ctx.is_passthrough() || self.ctx.is_suppressed() || self.ctx.is_live())
                ==> self.inner.start_search_post(params, res.1),
            self.ctx.is_live() ==> match res.1 {
                Ok(_) => {
                    &&& res.0.ctx.cursor == self.ctx.cursor + 1
                    &&& res.0.ctx.recorded_at(self.ctx.cursor as int)
                    &&& entry_matches(
                        res.0.ctx.record_at(self.ctx.cursor as int),
                        "golem_web_search"@,
                        "start_search"@,
                        DurableFunctionType::WriteRemote,
                        params.encoded(),
                        ValueModel::Record(Seq::empty()),
                        self.ctx.cursor + 1,
                    )
                    &&& res.0.ctx.store@ == store_write(
                        self.ctx.store@,
                        self.ctx.cursor as int,
                        res.0.ctx.record_at(self.ctx.cursor as int),
                    )
                },
                Err(_) => res.0.ctx == self.ctx,
            },
            self.ctx.is_replay() ==> {
                let e = self.ctx.record_at(self.ctx.cursor as int);
                if e.interface_name@ == "golem_web_search"@ && e.operation@ == "start_search"@
                    && <NoParam as Codec>::decodable(e.result.model()) {
                    &&& res.0.ctx.store@ == self.ctx.store@
                    &&& res.0.ctx.cursor == (if e.next > self.ctx.cursor + 1 {
                        e.next as int
                    } else {
                        self.ctx.cursor + 1
                    })
                    &&& self.inner.start_search_post(params, res.1)
                } else {
                    &&& res.0.ctx == self.ctx
                    &&& res.1 matches Err(err) && (err matches SearchError::BackendError(m) && m@
                        == "durability log does not match this call"@)
                }
            },
    {
        let DurableWebSearch { ctx, inner } = self;
        if !ctx.enabled {
            let r = inner.start_search(params);
            return (DurableWebSearch { ctx, inner }, r);
        }
        if let PersistenceLevel::PersistNothing = ctx.ambient {
            let r = inner.start_search(params);
            return (DurableWebSearch { ctx, inner }, r);
        }
        if ctx.has_record_now() {
            let p = ctx.cursor;
            let (entry_ok, e_next): (bool, usize) = match &ctx.store[p] {
                Some(e) => {
                    let key_ok = str_eq(e.interface_name.as_str(), "golem_web_search") && str_eq(
                        e.operation.as_str(),
                        "start_search",
                    );
                    let marker_ok = match <NoParam as Codec>::from_structured_value(&e.result) {
                        Ok(_) => true,
                        Err(_) => false,
                    };
                    (key_ok && marker_ok, e.next)
                },
                None => {
                    proof {
                        assert(false);
                    }
                    vstd::pervasive::unreached()
                },
            };
            if entry_ok {
                let newcur = if e_next > p + 1 {
                    e_next
                } else {
                    p + 1
                };
                let mut c = ctx;
                c.cursor = newcur;
                let r = inner.start_search(params);
                return (DurableWebSearch { ctx: c, inner }, r);
            } else {
                return (DurableWebSearch { ctx, inner }, Err(log_fault_error()));
            }
        }
        let pv = params.to_structured_value();
        let r = inner.start_search(params);
        match r {
            Ok(session) => {
                let marker = Value::Record(Vec::new());
                proof {
                    assert(Value::model_seq(Seq::<Value>::empty()) =~= Seq::<ValueModel>::empty());
                }
                let c = ctx.record_now(
                    "golem_web_search",
                    "start_search",
                    DurableFunctionType::WriteRemote,
                    pv,
                    marker,
                );
                (DurableWebSearch { ctx: c, inner }, Ok(session))
            },
            Err(e) => (DurableWebSearch { ctx, inner }, Err(e)),
        }
    }

    /// Run a one-shot search durably. A live call records the full result —
    /// a provider error like a success — under the stable key; on replay the
    /// recorded result is decoded and returned without invoking the
    /// provider.
    pub fn search_once(self, params: SearchParams) -> (res: (
        Self,
        Result<SearchOnceResponse, SearchError>,
    ))
        requires
            self.ctx.cursor < usize::MAX,
        ensures
            res.0.inner == self.inner,
            search_once_rel(self.ctx, res.0.ctx, params, res.1),
            (self.ctx.is_passthrough() || self.ctx.is_suppressed() || self.ctx.is_live())
                ==> self.inner.search_once_post(params, res.1),
    {
        let DurableWebSearch { ctx, inner } = self;
        let ghost pre = ctx;
        let call = |c: DurabilityContext, p: SearchParams| -> (o: (
            DurabilityContext,
            Result<SearchOnceResponse, SearchError>,
        ))
            ensures
                o.0 == c,
                inner.search_once_post(p, o.1),
            {
                let r = inner.search_once(p);
                (c, r)
            };
        let ghost call0 = call;
        let ghost post = |p: SearchParams, r: Result<SearchOnceResponse, SearchError>|
            inner.search_once_post(p, r);
        let (ctx, out) = write_remote_durably(ctx, "golem_web_search", "search_once", params, call);
        let ghost out0 = out;
        let r = match out {
            Ok(x) => x,
            Err(_) => Err(log_fault_error()),
        };
        proof {
            assert forall|
                c: DurabilityContext,
                p: SearchParams,
                o: (DurabilityContext, Result<SearchOnceResponse, SearchError>),
            | #[trigger] call_ensures(call0, (c, p), o) implies o.0 == c && post(p, o.1) by {}
            lemma_search_once_leaf(pre, params, call0, (ctx, out0), r, post);
        }
        (DurableWebSearch { ctx, inner }, r)
    }
}

} // verus!
