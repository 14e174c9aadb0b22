//! The durability engine: the single choke point that decides, for one call
//! site, whether to execute the real operation or substitute a previously
//! recorded outcome.
//!
//! A [`DurabilityContext`] carries the durability log (a position-indexed
//! store of recorded calls), the log cursor, and the ambient persistence
//! level, threaded explicitly through every call. [`run_durably`] implements
//! the protocol: a position that already holds a record is replayed without
//! invoking the wrapped function; a fresh position runs the function live
//! with the chosen persistence level in effect, then records the serialized
//! parameters and result at the reserved position. The ambient level is
//! restored after every call, and a context with durability disabled is a
//! pure passthrough.

use vstd::prelude::*;

use crate::codec::Codec;
use crate::text::str_eq;
use crate::value::{DecodeError, Value, ValueModel};

verus! {

/// Whether a wrapped operation merely observes the remote system or mutates
/// it. Replaying a write must reproduce the recorded result rather than
/// re-execute, to avoid a double mutation; a read is safe to skip on replay
/// without consistency concerns.
#[derive(Debug, Clone, Copy, PartialEq, Eq, Structural)]
pub enum DurableFunctionType {
    ReadRemote,
    WriteRemote,
}

/// Whether nested durable calls made while a wrapped function runs are
/// themselves recorded. `PersistNothing` suppresses their records — only the
/// outer call's result matters; `PersistRemoteSideEffects` keeps recording
/// active, so the steps of a multi-step operation are independently durable.
#[derive(Debug, Clone, Copy, PartialEq, Eq, Structural)]
pub enum PersistenceLevel {
    PersistNothing,
    PersistRemoteSideEffects,
}

/// One recorded invocation: the addressing key, the classification, the
/// serialized parameters and result, and the cursor position just past every
/// record written while the call ran (the resume point for replay).
#[derive(Debug)]
pub struct LogEntry {
    pub interface_name: String,
    pub operation: String,
    pub function_type: DurableFunctionType,
    pub params: Value,
    pub result: Value,
    pub next: usize,
}

/// What a [`LogEntry`] says, stated over views and models.
pub open spec fn entry_matches(
    e: LogEntry,
    iface: Seq<char>,
    op: Seq<char>,
    function_type: DurableFunctionType,
    params_m: ValueModel,
    result_m: ValueModel,
    next: int,
) -> bool {
    &&& e.interface_name@ == iface
    &&& e.operation@ == op
    &&& e.function_type == function_type
    &&& e.params.model() == params_m
    &&& e.result.model() == result_m
    &&& e.next == next
}

/// The durability log with the entry `e` written at position `p`, padding
/// never-written positions with `None`.
pub open spec fn store_write(s: Seq<Option<LogEntry>>, p: int, e: LogEntry) -> Seq<
    Option<LogEntry>,
> {
    if p < s.len() {
        s.update(p, Some(e))
    } else {
        s + Seq::new((p - s.len()) as nat, |i: int| None::<LogEntry>) + seq![Some(e)]
    }
}

/// The explicit durability state of one logical execution: whether durability
/// is enabled at all, the ambient persistence level, the log cursor, and the
/// position-indexed log itself.
#[derive(Debug)]
pub struct DurabilityContext {
    pub enabled: bool,
    pub ambient: PersistenceLevel,
    pub cursor: usize,
    pub store: Vec<Option<LogEntry>>,
}

impl DurabilityContext {
    /// Whether position `p` of the log holds a record.
    pub open spec fn recorded_at(self, p: int) -> bool {
        0 <= p < self.store@.len() && self.store@[p] is Some
    }

    /// The record at position `p`.
    pub open spec fn record_at(self, p: int) -> LogEntry {
        self.store@[p]->0
    }

    /// Durability is disabled: every wrapped call is a pure passthrough.
    pub open spec fn is_passthrough(self) -> bool {
        !self.enabled
    }

    /// Recording of this call is suppressed by the ambient level.
    pub open spec fn is_suppressed(self) -> bool {
        self.enabled && self.ambient is PersistNothing
    }

    /// Durable calls at this context record and replay.
    pub open spec fn is_recording(self) -> bool {
        self.enabled && self.ambient is PersistRemoteSideEffects
    }

    /// The current position holds a record: the next durable call replays it.
    pub open spec fn is_replay(self) -> bool {
        self.is_recording() && self.recorded_at(self.cursor as int)
    }

    /// The current position is fresh: the next durable call runs live.
    pub open spec fn is_live(self) -> bool {
        self.is_recording() && !self.recorded_at(self.cursor as int)
    }

    /// This context with another ambient persistence level.
    pub open spec fn with_ambient(self, level: PersistenceLevel) -> Self {
        DurabilityContext { ambient: level, ..self }
    }

    /// This context with the cursor moved.
    pub open spec fn with_cursor(self, cursor: usize) -> Self {
        DurabilityContext { cursor, ..self }
    }

    /// A fresh logical execution with an empty log.
    pub fn new(enabled: bool) -> (r: Self)
        ensures
            r.enabled == enabled,
            r.ambient is PersistRemoteSideEffects,
            r.cursor == 0,
            r.store@.len() == 0,
    {
        DurabilityContext {
            enabled,
            ambient: PersistenceLevel::PersistRemoteSideEffects,
            cursor: 0,
            store: Vec::new(),
        }
    }

    /// The same logical execution started over from its persisted log: the
    /// cursor returns to the first position, so recorded calls replay.
    pub fn restarted(self) -> (r: Self)
        ensures
            r.enabled == self.enabled,
            r.ambient is PersistRemoteSideEffects,
            r.cursor == 0,
            r.store@ == self.store@,
    {
        DurabilityContext {
            enabled: self.enabled,
            ambient: PersistenceLevel::PersistRemoteSideEffects,
            cursor: 0,
            store: self.store,
        }
    }

    /// How many positions of the log hold a record.
    pub fn recorded_count(&self) -> (n: usize)
        ensures
            n as int == Self::count_recorded(self.store@),
    {
        let mut n: usize = 0;
        let mut i: usize = 0;
        while i < self.store.len()
            invariant
                i <= self.store@.len(),
                n as int == Self::count_recorded(self.store@.subrange(0, i as int)),
                n <= i,
            decreases self.store@.len() - i,
        {
            proof {
                assert(self.store@.subrange(0, i + 1 as int).drop_last() =~= self.store@.subrange(
                    0,
                    i as int,
                ));
            }
            if self.store[i].is_some() {
                n += 1;
            }
            i += 1;
        }
        proof {
            assert(self.store@.subrange(0, self.store@.len() as int) =~= self.store@);
        }
        n
    }


    /// Whether the current position already holds a record.
    pub fn has_record_now(&self) -> (b: bool)
        ensures
            b == self.recorded_at(self.cursor as int),
    {
        self.cursor < self.store.len() && self.store[self.cursor].is_some()
    }

    /// Write a record at the current position and advance the cursor just
    /// past it. Used by adapters whose recording step is conditional, such as
    /// a session-opening call that records a marker only on success.
    pub fn record_now(
        self,
        interface_name: &str,
        operation: &str,
        function_type: DurableFunctionType,
        params: Value,
        result: Value,
    ) -> (r: Self)
        requires
            self.cursor < usize::MAX,
        ensures
            r.enabled == self.enabled,
            r.ambient == self.ambient,
            r.cursor == self.cursor + 1,
            r.recorded_at(self.cursor as int),
            entry_matches(
                r.record_at(self.cursor as int),
                interface_name@,
                operation@,
                function_type,
                params.model(),
                result.model(),
                self.cursor + 1,
            ),
            r.store@ == store_write(self.store@, self.cursor as int, r.record_at(self.cursor as int)),
    {
        let ghost pre = self;
        let mut c = self;
        let p = c.cursor;
        let entry = LogEntry {
            interface_name: interface_name.to_owned(),
            operation: operation.to_owned(),
            function_type,
            params,
            result,
            next: p + 1,
        };
        let ghost entry0 = entry;
        if c.store.len() <= p {
            while c.store.len() < p
                invariant
                    c.store@.len() >= pre.store@.len(),
                    c.store@ =~= pre.store@ + Seq::new(
                        (c.store@.len() - pre.store@.len()) as nat,
                        |i: int| None::<LogEntry>,
                    ),
                    c.store@.len() <= p,
                    c == (DurabilityContext { store: c.store, ..pre }),
                decreases p - c.store@.len(),
            {
                c.store.push(None);
            }
            c.store.push(Some(entry));
            proof {
                assert(c.store@ =~= store_write(pre.store@, p as int, entry0));
            }
        } else {
            c.store.remove(p);
            c.store.insert(p, Some(entry));
            proof {
                assert(c.store@ =~= store_write(pre.store@, p as int, entry0));
            }
        }
        c.cursor = p + 1;
        c
    }

    /// The number of `Some` positions in a log.
    pub open spec fn count_recorded(s: Seq<Option<LogEntry>>) -> int
        decreases s,
    {
        if s.len() == 0 {
            0
        } else {
            Self::count_recorded(s.drop_last()) + if s.last() is Some {
                1int
            } else {
                0int
            }
        }
    }
}

/// A fatal durability-log fault met during replay: the recorded entry at the
/// current position belongs to another call, or its result no longer decodes
/// at the expected type. There is no fallback to live execution — that would
/// break replay determinism — so the fault surfaces to the caller as an
/// unrecoverable error.
#[derive(Debug, Clone, PartialEq, Eq)]
pub enum ReplayFault {
    KeyMismatch,
    Corrupt(DecodeError),
}

/// Everything [`run_durably`] promises, as one relation between the context
/// before the call, the call's description, and the pair it returned.
pub open spec fn run_durably_rel<P: Codec, R: Codec, F: FnOnce(DurabilityContext, P) -> (
    DurabilityContext,
    R,
)>(
    ctx: DurabilityContext,
    function_type: DurableFunctionType,
    level: PersistenceLevel,
    iface: Seq<char>,
    op: Seq<char>,
    params: P,
    func: F,
    res: (DurabilityContext, Result<R, ReplayFault>),
) -> bool {
    &&& (ctx.is_passthrough() ==> exists|out: (DurabilityContext, R)|
        #[trigger] call_ensures(func, (ctx, params), out) && res == (
        out.0,
        Ok::<R, ReplayFault>(out.1),
        ))
    &&& (ctx.is_suppressed() ==> exists|out: (DurabilityContext, R)|
        #[trigger] call_ensures(func, (ctx.with_ambient(level), params), out) && res.0
            == out.0.with_ambient(ctx.ambient) && res.1 == Ok::<R, ReplayFault>(out.1))
    &&& (ctx.is_replay() ==> {
        let e = ctx.record_at(ctx.cursor as int);
        if e.interface_name@ == iface && e.operation@ == op {
            if R::decodable(e.result.model()) {
                &&& res.1 matches Ok(r) && r.encoded() == e.result.model()
                &&& res.0 == ctx.with_cursor(
                    if e.next > ctx.cursor + 1 {
                        e.next
                    } else {
                        (ctx.cursor + 1) as usize
                    },
                )
            } else {
                &&& res.1 == Err::<R, ReplayFault>(
                    ReplayFault::Corrupt(R::decode_failure(e.result.model())),
                )
                &&& res.0 == ctx
            }
        } else {
            &&& res.1 == Err::<R, ReplayFault>(ReplayFault::KeyMismatch)
            &&& res.0 == ctx
        }
    })
    &&& (ctx.is_live() ==> exists|out: (DurabilityContext, R)|
        {
            let next = if out.0.cursor > ctx.cursor + 1 {
                out.0.cursor as int
            } else {
                ctx.cursor + 1
            };
            &&& #[trigger] call_ensures(
                func,
                (ctx.with_ambient(level).with_cursor((ctx.cursor + 1) as usize), params),
                out,
            )
            &&& res.1 matches Ok(r) && r == out.1
            &&& res.0.recorded_at(ctx.cursor as int)
            &&& entry_matches(
                res.0.record_at(ctx.cursor as int),
                iface,
                op,
                function_type,
                params.encoded(),
                out.1.encoded(),
                next,
            )
            &&& res.0.enabled == out.0.enabled
            &&& res.0.ambient == ctx.ambient
            &&& res.0.cursor == next
            &&& res.0.store@ == store_write(
                out.0.store@,
                ctx.cursor as int,
                res.0.record_at(ctx.cursor as int),
            )
        })
}

/// Run one wrapped call through the durability protocol.
///
/// With durability disabled the call is a pure passthrough. While the ambient
/// level is `PersistNothing` the function runs live and nothing is recorded.
/// Otherwise the cursor position decides: a recorded position is replayed —
/// the function is not invoked, the recorded result is decoded and the cursor
/// skips past the call's records — and a fresh position runs the function
/// live with the supplied level in effect for its nested calls, then records
/// (key, classification, parameters, result) at the position reserved when
/// the call began. The ambient level is restored in every branch.
pub fn run_durably<P: Codec, R: Codec, F: FnOnce(DurabilityContext, P) -> (DurabilityContext, R)>(
    ctx: DurabilityContext,
    function_type: DurableFunctionType,
    level: PersistenceLevel,
    interface_name: &str,
    operation: &str,
    params: P,
    func: F,
) -> (res: (DurabilityContext, Result<R, ReplayFault>))
    requires
        ctx.cursor < usize::MAX,
        ctx.is_passthrough() ==> call_requires(func, (ctx, params)),
        ctx.is_suppressed() ==> call_requires(func, (ctx.with_ambient(level), params)),
        ctx.is_live() ==> call_requires(
            func,
            (ctx.with_ambient(level).with_cursor((ctx.cursor + 1) as usize), params),
        ),
    ensures
        run_durably_rel(ctx, function_type, level, interface_name@, operation@, params, func, res),
        ctx.enabled ==> res.0.ambient == ctx.ambient,
{
    if !ctx.enabled {
        let (c2, r) = func(ctx, params);
        return (c2, Ok(r));
    }
    let saved = ctx.ambient;
    if let PersistenceLevel::PersistNothing = ctx.ambient {
        let ghost ctx0 = ctx;
        let mut c1 = ctx;
        c1.ambient = level;
        proof {
            assert(c1 == ctx0.with_ambient(level));
        }
        let (mut c2, r) = func(c1, params);
        let ghost mid = c2;
        c2.ambient = saved;
        proof {
            assert(c2 == mid.with_ambient(ctx0.ambient));
        }
        return (c2, Ok(r));
    }
    let p = ctx.cursor;
    let already = p < ctx.store.len() && ctx.store[p].is_some();
    if already {
        let ghost ctx0 = ctx;
        let (e_next, outcome): (usize, Result<R, ReplayFault>) = match &ctx.store[p] {
            Some(e) => {
                if str_eq(e.interface_name.as_str(), interface_name) && str_eq(
                    e.operation.as_str(),
                    operation,
                ) {
                    match R::from_structured_value(&e.result) {
                        Ok(r) => (e.next, Ok(r)),
                        Err(de) => (p, Err(ReplayFault::Corrupt(de))),
                    }
                } else {
                    (p, Err(ReplayFault::KeyMismatch))
                }
            },
            None => {
                proof {
                    assert(false);
                }
                vstd::pervasive::unreached()
            },
        };
        match outcome {
            Ok(r) => {
                let newcur = if e_next > p + 1 {
                    e_next
                } else {
                    p + 1
                };
                let mut c = ctx;
                c.cursor = newcur;
                proof {
                    assert(c == ctx0.with_cursor(newcur));
                }
                (c, Ok(r))
            },
            Err(f) => (ctx, Err(f)),
        }
    } else {
        let ghost ctx0 = ctx;
        let params_value = params.to_structured_value();
        let mut c1 = ctx;
        c1.ambient = level;
        c1.cursor = p + 1;
        proof {
            assert(c1 == ctx0.with_ambient(level).with_cursor((ctx0.cursor + 1) as usize));
        }
        let (mut c2, r) = func(c1, params);
        let ghost mid = c2;
        let result_value = r.to_structured_value();
        let newcur = if c2.cursor > p + 1 {
            c2.cursor
        } else {
            p + 1
        };
        let entry = LogEntry {
            interface_name: interface_name.to_owned(),
            operation: operation.to_owned(),
            function_type,
            params: params_value,
            result: result_value,
            next: newcur,
        };
        let ghost entry0 = entry;
        if c2.store.len() <= p {
            while c2.store.len() < p
                invariant
                    c2.store@.len() >= mid.store@.len(),
                    c2.store@ =~= mid.store@ + Seq::new(
                        (c2.store@.len() - mid.store@.len()) as nat,
                        |i: int| None::<LogEntry>,
                    ),
                    c2.store@.len() <= p,
                    c2 == (DurabilityContext { store: c2.store, ..mid }),
                decreases p - c2.store@.len(),
            {
                c2.store.push(None);
            }
            c2.store.push(Some(entry));
            proof {
                assert(c2.store@ =~= store_write(mid.store@, p as int, entry0));
            }
        } else {
            c2.store.remove(p);
            c2.store.insert(p, Some(entry));
            proof {
                assert(c2.store@ =~= store_write(mid.store@, p as int, entry0));
            }
        }
        c2.ambient = saved;
        c2.cursor = newcur;
        proof {
            let out = (mid, r);
            let next = if mid.cursor > ctx0.cursor + 1 {
                mid.cursor as int
            } else {
                ctx0.cursor + 1
            };
            assert(entry_matches(
                entry0,
                interface_name@,
                operation@,
                function_type,
                params.encoded(),
                r.encoded(),
                next,
            ));
            assert(c2.store@ == store_write(out.0.store@, ctx0.cursor as int, entry0));
        }
        (c2, Ok(r))
    }
}

/// Run a read-classified remote call durably. Nested calls made by `func`
/// are not themselves recorded: only the outer call's result matters.
pub fn read_remote_durably<P: Codec, R: Codec, F: FnOnce(DurabilityContext, P) -> (
    DurabilityContext,
    R,
)>(ctx: DurabilityContext, interface_name: &str, operation: &str, params: P, func: F) -> (res: (
    DurabilityContext,
    Result<R, ReplayFault>,
))
    requires
        ctx.cursor < usize::MAX,
        ctx.is_passthrough() ==> call_requires(func, (ctx, params)),
        ctx.is_suppressed() ==> call_requires(
            func,
            (ctx.with_ambient(PersistenceLevel::PersistNothing), params),
        ),
        ctx.is_live() ==> call_requires(
            func,
            (
                ctx.with_ambient(PersistenceLevel::PersistNothing).with_cursor(
                    (ctx.cursor + 1) as usize,
                ),
                params,
            ),
        ),
    ensures
        run_durably_rel(
            ctx,
            DurableFunctionType::ReadRemote,
            PersistenceLevel::PersistNothing,
            interface_name@,
            operation@,
            params,
            func,
            res,
        ),
        ctx.enabled ==> res.0.ambient == ctx.ambient,
{
    run_durably(
        ctx,
        DurableFunctionType::ReadRemote,
        PersistenceLevel::PersistNothing,
        interface_name,
        operation,
        params,
        func,
    )
}

/// Run a write-classified remote call durably. Nested calls made by `func`
/// are not themselves recorded.
pub fn write_remote_durably<P: Codec, R: Codec, F: FnOnce(DurabilityContext, P) -> (
    DurabilityContext,
    R,
)>(ctx: DurabilityContext, interface_name: &str, operation: &str, params: P, func: F) -> (res: (
    DurabilityContext,
    Result<R, ReplayFault>,
))
    requires
        ctx.cursor < usize::MAX,
        ctx.is_passthrough() ==> call_requires(func, (ctx, params)),
        ctx.is_suppressed() ==> call_requires(
            func,
            (ctx.with_ambient(PersistenceLevel::PersistNothing), params),
        ),
        ctx.is_live() ==> call_requires(
            func,
            (
                ctx.with_ambient(PersistenceLevel::PersistNothing).with_cursor(
                    (ctx.cursor + 1) as usize,
                ),
                params,
            ),
        ),
    ensures
        run_durably_rel(
            ctx,
            DurableFunctionType::WriteRemote,
            PersistenceLevel::PersistNothing,
            interface_name@,
            operation@,
            params,
            func,
            res,
        ),
        ctx.enabled ==> res.0.ambient == ctx.ambient,
{
    run_durably(
        ctx,
        DurableFunctionType::WriteRemote,
        PersistenceLevel::PersistNothing,
        interface_name,
        operation,
        params,
        func,
    )
}

/// Run a write-classified remote call durably, keeping recording active for
/// the nested durable calls `func` makes, so that the steps of a multi-step
/// operation are independently replayable.
pub fn write_remote_durably_with_side_effects<P: Codec, R: Codec, F: FnOnce(
    DurabilityContext,
    P,
) -> (DurabilityContext, R)>(
    ctx: DurabilityContext,
    interface_name: &str,
    operation: &str,
    params: P,
    func: F,
) -> (res: (DurabilityContext, Result<R, ReplayFault>))
    requires
        ctx.cursor < usize::MAX,
        ctx.is_passthrough() ==> call_requires(func, (ctx, params)),
        ctx.is_suppressed() ==> call_requires(
            func,
            (ctx.with_ambient(PersistenceLevel::PersistRemoteSideEffects), params),
        ),
        ctx.is_live() ==> call_requires(
            func,
            (
                ctx.with_ambient(PersistenceLevel::PersistRemoteSideEffects).with_cursor(
                    (ctx.cursor + 1) as usize,
                ),
                params,
            ),
        ),
    ensures
        run_durably_rel(
            ctx,
            DurableFunctionType::WriteRemote,
            PersistenceLevel::PersistRemoteSideEffects,
            interface_name@,
            operation@,
            params,
            func,
            res,
        ),
        ctx.enabled ==> res.0.ambient == ctx.ambient,
{
    run_durably(
        ctx,
        DurableFunctionType::WriteRemote,
        PersistenceLevel::PersistRemoteSideEffects,
        interface_name,
        operation,
        params,
        func,
    )
}

/// Run a read-classified remote call durably, keeping recording active for
/// the nested durable calls `func` makes.
pub fn read_remote_durably_with_side_effects<P: Codec, R: Codec, F: FnOnce(
    DurabilityContext,
    P,
) -> (DurabilityContext, R)>(
    ctx: DurabilityContext,
    interface_name: &str,
    operation: &str,
    params: P,
    func: F,
) -> (res: (DurabilityContext, Result<R, ReplayFault>))
    requires
        ctx.cursor < usize::MAX,
        ctx.is_passthrough() ==> call_requires(func, (ctx, params)),
        ctx.is_suppressed() ==> call_requires(
            func,
            (ctx.with_ambient(PersistenceLevel::PersistRemoteSideEffects), params),
        ),
        ctx.is_live() ==> call_requires(
            func,
            (
                ctx.with_ambient(PersistenceLevel::PersistRemoteSideEffects).with_cursor(
                    (ctx.cursor + 1) as usize,
                ),
                params,
            ),
        ),
    ensures
        run_durably_rel(
            ctx,
            DurableFunctionType::ReadRemote,
            PersistenceLevel::PersistRemoteSideEffects,
            interface_name@,
            operation@,
            params,
            func,
            res,
        ),
        ctx.enabled ==> res.0.ambient == ctx.ambient,
{
    run_durably(
        ctx,
        DurableFunctionType::ReadRemote,
        PersistenceLevel::PersistRemoteSideEffects,
        interface_name,
        operation,
        params,
        func,
    )
}

/// At a recorded position the wrapped function is never invoked: the log and
/// the ambient level are left untouched, and when the recorded entry carries
/// the call's own key and still decodes, the result is fully determined by
/// the log.
pub proof fn lemma_replay_returns_recorded<P: Codec, R: Codec, F: FnOnce(DurabilityContext, P) -> (
    DurabilityContext,
    R,
)>(
    ctx: DurabilityContext,
    function_type: DurableFunctionType,
    level: PersistenceLevel,
    iface: Seq<char>,
    op: Seq<char>,
    params: P,
    func: F,
    res: (DurabilityContext, Result<R, ReplayFault>),
)
    requires
        run_durably_rel(ctx, function_type, level, iface, op, params, func, res),
        ctx.is_replay(),
    ensures
        res.0.store@ == ctx.store@,
        res.0.ambient == ctx.ambient,
        res.0.enabled == ctx.enabled,
        ({
            let e = ctx.record_at(ctx.cursor as int);
            e.interface_name@ == iface && e.operation@ == op && R::decodable(e.result.model())
        }) ==> (res.1 matches Ok(r) && r.encoded() == ctx.record_at(
            ctx.cursor as int,
        ).result.model()),
{
}

/// Replaying the same position of the same log twice gives results with the
/// same encoding: replay is deterministic.
pub proof fn lemma_replay_deterministic<P: Codec, R: Codec, F1: FnOnce(DurabilityContext, P) -> (
    DurabilityContext,
    R,
), F2: FnOnce(DurabilityContext, P) -> (DurabilityContext, R)>(
    ctx1: DurabilityContext,
    ctx2: DurabilityContext,
    function_type: DurableFunctionType,
    level: PersistenceLevel,
    iface: Seq<char>,
    op: Seq<char>,
    params1: P,
    params2: P,
    func1: F1,
    func2: F2,
    res1: (DurabilityContext, Result<R, ReplayFault>),
    res2: (DurabilityContext, Result<R, ReplayFault>),
)
    requires
        run_durably_rel(ctx1, function_type, level, iface, op, params1, func1, res1),
        run_durably_rel(ctx2, function_type, level, iface, op, params2, func2, res2),
        ctx1.is_replay(),
        ctx2.is_replay(),
        ctx1.cursor == ctx2.cursor,
        ctx1.store@ == ctx2.store@,
        ({
            let e = ctx1.record_at(ctx1.cursor as int);
            e.interface_name@ == iface && e.operation@ == op && R::decodable(e.result.model())
        }),
    ensures
        res1.1 matches Ok(r1) && (res2.1 matches Ok(r2) && r1.encoded() == r2.encoded()),
        res1.0.cursor == res2.0.cursor,
{
    assert(ctx1.record_at(ctx1.cursor as int) == ctx2.record_at(ctx2.cursor as int));
}

/// With durability disabled the wrapper is behaviorally transparent: it
/// returns exactly an outcome of the plain function applied to the untouched
/// context, and nothing is recorded on the side.
pub proof fn lemma_passthrough_transparent<P: Codec, R: Codec, F: FnOnce(DurabilityContext, P) -> (
    DurabilityContext,
    R,
)>(
    ctx: DurabilityContext,
    function_type: DurableFunctionType,
    level: PersistenceLevel,
    iface: Seq<char>,
    op: Seq<char>,
    params: P,
    func: F,
    res: (DurabilityContext, Result<R, ReplayFault>),
)
    requires
        run_durably_rel(ctx, function_type, level, iface, op, params, func, res),
        ctx.is_passthrough(),
    ensures
        res.1 matches Ok(r) && call_ensures(func, (ctx, params), (res.0, r)),
{
    let out = choose|out: (DurabilityContext, R)|
        #[trigger] call_ensures(func, (ctx, params), out) && res == (
        out.0,
        Ok::<R, ReplayFault>(out.1),
        );
    assert(res.1 matches Ok(r) && call_ensures(func, (ctx, params), (res.0, r))) by {
        assert(res.0 == out.0 && res.1 == Ok::<R, ReplayFault>(out.1));
    }
}

/// A durable call made while the ambient level suppresses persistence leaves
/// the log exactly as the wrapped function left it; for a function that does
/// not touch the log — every plain provider call — no entry is added.
pub proof fn lemma_suppressed_appends_nothing<P: Codec, R: Codec, F: FnOnce(
    DurabilityContext,
    P,
) -> (DurabilityContext, R)>(
    ctx: DurabilityContext,
    function_type: DurableFunctionType,
    level: PersistenceLevel,
    iface: Seq<char>,
    op: Seq<char>,
    params: P,
    func: F,
    res: (DurabilityContext, Result<R, ReplayFault>),
)
    requires
        run_durably_rel(ctx, function_type, level, iface, op, params, func, res),
        ctx.is_suppressed(),
        forall|out: (DurabilityContext, R)|
            #[trigger] call_ensures(func, (ctx.with_ambient(level), params), out)
                ==> out.0.store@ == ctx.store@ && out.0.cursor == ctx.cursor,
    ensures
        res.0.store@ == ctx.store@,
        res.0.cursor == ctx.cursor,
        res.0.ambient == ctx.ambient,
        res.1 is Ok,
{
}

/// A live durable call by a leaf function — one that leaves the context as it
/// found it, as every plain provider call does — appends exactly its own
/// record: the reserved position is filled with the call's key, parameters
/// and result, the rest of the log is unchanged, and the cursor advances by
/// exactly one position.
pub proof fn lemma_live_records_one<P: Codec, R: Codec, F: FnOnce(DurabilityContext, P) -> (
    DurabilityContext,
    R,
)>(
    ctx: DurabilityContext,
    function_type: DurableFunctionType,
    level: PersistenceLevel,
    iface: Seq<char>,
    op: Seq<char>,
    params: P,
    func: F,
    res: (DurabilityContext, Result<R, ReplayFault>),
)
    requires
        run_durably_rel(ctx, function_type, level, iface, op, params, func, res),
        ctx.is_live(),
        ctx.cursor < usize::MAX,
        forall|out: (DurabilityContext, R)|
            #[trigger] call_ensures(
                func,
                (ctx.with_ambient(level).with_cursor((ctx.cursor + 1) as usize), params),
                out,
            ) ==> out.0 == ctx.with_ambient(level).with_cursor((ctx.cursor + 1) as usize),
    ensures
        res.1 is Ok,
        res.0.recorded_at(ctx.cursor as int),
        entry_matches(
            res.0.record_at(ctx.cursor as int),
            iface,
            op,
            function_type,
            params.encoded(),
            res.1->Ok_0.encoded(),
            ctx.cursor + 1,
        ),
        res.0.store@ == store_write(ctx.store@, ctx.cursor as int, res.0.record_at(ctx.cursor as int)),
        res.0.cursor == ctx.cursor + 1,
        res.0.ambient == ctx.ambient,
{
    let started = ctx.with_ambient(level).with_cursor((ctx.cursor + 1) as usize);
    let out = choose|out: (DurabilityContext, R)|
        {
            let next = if out.0.cursor > ctx.cursor + 1 {
                out.0.cursor as int
            } else {
                ctx.cursor + 1
            };
            &&& #[trigger] call_ensures(func, (started, params), out)
            &&& res.1 matches Ok(r) && r == out.1
            &&& res.0.recorded_at(ctx.cursor as int)
            &&& entry_matches(
                res.0.record_at(ctx.cursor as int),
                iface,
                op,
                function_type,
                params.encoded(),
                out.1.encoded(),
                next,
            )
            &&& res.0.enabled == out.0.enabled
            &&& res.0.ambient == ctx.ambient
            &&& res.0.cursor == next
            &&& res.0.store@ == store_write(
                out.0.store@,
                ctx.cursor as int,
                res.0.record_at(ctx.cursor as int),
            )
        };
    assert(out.0 == started);
}

/// The write-then-replay law: a live call records its result, and re-running
/// the same logical execution from the persisted log makes the same call site
/// return a result with the identical encoding, without invoking the wrapped
/// function, with the cursor advancing past the call exactly as in the first
/// run.
pub proof fn lemma_write_then_replay<P: Codec, R: Codec, F1: FnOnce(DurabilityContext, P) -> (
    DurabilityContext,
    R,
), F2: FnOnce(DurabilityContext, P) -> (DurabilityContext, R)>(
    ctx1: DurabilityContext,
    ctx2: DurabilityContext,
    function_type: DurableFunctionType,
    level: PersistenceLevel,
    iface: Seq<char>,
    op: Seq<char>,
    params1: P,
    params2: P,
    func1: F1,
    func2: F2,
    res1: (DurabilityContext, Result<R, ReplayFault>),
    res2: (DurabilityContext, Result<R, ReplayFault>),
)
    requires
        run_durably_rel(ctx1, function_type, level, iface, op, params1, func1, res1),
        ctx1.is_live(),
        ctx1.cursor < usize::MAX,
        forall|out: (DurabilityContext, R)|
            #[trigger] call_ensures(
                func1,
                (ctx1.with_ambient(level).with_cursor((ctx1.cursor + 1) as usize), params1),
                out,
            ) ==> out.0 == ctx1.with_ambient(level).with_cursor((ctx1.cursor + 1) as usize),
        run_durably_rel(ctx2, function_type, level, iface, op, params2, func2, res2),
        ctx2.is_recording(),
        ctx2.cursor == ctx1.cursor,
        ctx2.store@ == res1.0.store@,
    ensures
        res1.1 is Ok,
        res2.1 matches Ok(r2) && r2.encoded() == res1.1->Ok_0.encoded(),
        res2.0.cursor == ctx1.cursor + 1,
        res2.0.cursor == res1.0.cursor,
        res2.0.store@ == res1.0.store@,
        res2.0.ambient == ctx2.ambient,
{
    lemma_live_records_one(ctx1, function_type, level, iface, op, params1, func1, res1);
    let e = res1.0.record_at(ctx1.cursor as int);
    assert(ctx2.recorded_at(ctx2.cursor as int));
    assert(ctx2.record_at(ctx2.cursor as int) == e);
    let r1 = res1.1->Ok_0;
    R::encoded_decodable(&r1);
    assert(R::decodable(e.result.model()));
}


} // verus!
