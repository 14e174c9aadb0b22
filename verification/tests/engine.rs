//! The durability engine's observable protocol: write-then-replay,
//! at-most-once invocation, persistence-level isolation, ambient restoration,
//! passthrough transparency, and the fatal log faults.

use golem_durability::durability::{
    read_remote_durably, write_remote_durably, write_remote_durably_with_side_effects,
    DurabilityContext, DurableFunctionType, LogEntry, PersistenceLevel, ReplayFault,
};
use golem_durability::codec::Codec;
use golem_durability::params::{NoParam, Param, Param2};
use golem_durability::value::{DecodeError, Value};

#[test]
fn write_then_replay_returns_recorded_result() {
    let ctx = DurabilityContext::new(true);
    let mut calls = 0u32;
    let (ctx, r) = write_remote_durably(ctx, "iface", "op", Param::new(7u32), |c, p| {
        calls += 1;
        (c, p.invoke(|_x| Ok::<u64, String>(42)))
    });
    assert_eq!(r, Ok(Ok(42)));
    assert_eq!(calls, 1);
    assert_eq!(ctx.cursor, 1);
    assert_eq!(ctx.recorded_count(), 1);

    // the same logical execution, re-run from its persisted log
    let ctx2 = ctx.restarted();
    let mut replay_calls = 0u32;
    let (ctx2, r2) = write_remote_durably(ctx2, "iface", "op", Param::new(7u32), |c, _p| {
        replay_calls += 1;
        (c, Ok::<u64, String>(0))
    });
    assert_eq!(r2, Ok(Ok(42)));
    assert_eq!(replay_calls, 0);
    assert_eq!(ctx2.cursor, 1);
    assert_eq!(ctx2.recorded_count(), 1);
}

#[test]
fn persistence_level_isolation() {
    // nested durable calls inside a PersistNothing wrapper leave no records
    let ctx = DurabilityContext::new(true);
    let (ctx, r) = write_remote_durably(ctx, "outer", "op", NoParam, |c, _p| {
        let (c, a) = read_remote_durably(c, "inner", "one", NoParam, |c2, _q| {
            (c2, Ok::<u64, String>(1))
        });
        let (c, b) = read_remote_durably(c, "inner", "two", NoParam, |c2, _q| {
            (c2, Ok::<u64, String>(2))
        });
        let a = a.unwrap().unwrap();
        let b = b.unwrap().unwrap();
        (c, Ok::<u64, String>(a + b))
    });
    assert_eq!(r, Ok(Ok(3)));
    assert_eq!(ctx.recorded_count(), 1);

    // the same nested calls inside a PersistRemoteSideEffects wrapper each
    // leave their own record
    let ctx = DurabilityContext::new(true);
    let (ctx, r) = write_remote_durably_with_side_effects(ctx, "outer", "op", NoParam, |c, _p| {
        let (c, a) = read_remote_durably(c, "inner", "one", NoParam, |c2, _q| {
            (c2, Ok::<u64, String>(1))
        });
        let (c, b) = read_remote_durably(c, "inner", "two", NoParam, |c2, _q| {
            (c2, Ok::<u64, String>(2))
        });
        let a = a.unwrap().unwrap();
        let b = b.unwrap().unwrap();
        (c, Ok::<u64, String>(a + b))
    });
    assert_eq!(r, Ok(Ok(3)));
    assert_eq!(ctx.recorded_count(), 3);
}

#[test]
fn interrupted_side_effects_resume_from_their_records() {
    // first run: the nested steps record, but the outer call never completes
    let ctx = DurabilityContext::new(true);
    let mut c1 = ctx;
    c1.ambient = PersistenceLevel::PersistRemoteSideEffects;
    c1.cursor = 1; // the position the outer call would have reserved
    let mut first_calls = 0u32;
    let (c1, a) = read_remote_durably(c1, "inner", "step", NoParam, |c, _q| {
        first_calls += 1;
        (c, Ok::<u64, String>(11))
    });
    assert_eq!(a, Ok(Ok(11)));
    assert_eq!(first_calls, 1);

    // resumed run: the outer call runs live again, but its nested step replays
    let mut c2 = c1.restarted();
    c2.cursor = 0;
    let mut outer_calls = 0u32;
    let mut inner_calls = 0u32;
    let (c2, r) = write_remote_durably_with_side_effects(c2, "outer", "op", NoParam, |c, _p| {
        outer_calls += 1;
        let (c, a) = read_remote_durably(c, "inner", "step", NoParam, |cc, _q| {
            inner_calls += 1;
            (cc, Ok::<u64, String>(0))
        });
        (c, a.unwrap())
    });
    assert_eq!(r, Ok(Ok(11)));
    assert_eq!(outer_calls, 1);
    assert_eq!(inner_calls, 0);
    assert_eq!(c2.recorded_count(), 2);
    assert_eq!(c2.cursor, 2);
}

#[test]
fn ambient_level_is_restored_after_success_and_error() {
    let ctx = DurabilityContext::new(true);
    assert_eq!(ctx.ambient, PersistenceLevel::PersistRemoteSideEffects);
    let (ctx, _r) = write_remote_durably(ctx, "iface", "op", NoParam, |c, _p| {
        (c, Ok::<u64, String>(1))
    });
    assert_eq!(ctx.ambient, PersistenceLevel::PersistRemoteSideEffects);
    // an error returned by the wrapped function is an ordinary result: it is
    // recorded like a success and the ambient level is still restored
    let (ctx, r) = write_remote_durably(ctx, "iface", "op2", NoParam, |c, _p| {
        (c, Err::<u64, String>(String::from("provider failed")))
    });
    assert_eq!(r, Ok(Err(String::from("provider failed"))));
    assert_eq!(ctx.ambient, PersistenceLevel::PersistRemoteSideEffects);
    assert_eq!(ctx.recorded_count(), 2);
}

#[test]
fn passthrough_is_transparent_when_durability_is_disabled() {
    let ctx = DurabilityContext::new(false);
    let mut calls = 0u32;
    let (ctx, r1) = write_remote_durably(ctx, "iface", "op", Param::new(3u32), |c, p| {
        calls += 1;
        (c, p.invoke(|x| Ok::<u32, String>(x * 2)))
    });
    let (ctx, r2) = read_remote_durably(ctx, "iface", "op", Param::new(4u32), |c, p| {
        calls += 1;
        (c, p.invoke(|x| Ok::<u32, String>(x * 2)))
    });
    assert_eq!(r1, Ok(Ok(6)));
    assert_eq!(r2, Ok(Ok(8)));
    assert_eq!(calls, 2);
    assert_eq!(ctx.recorded_count(), 0);
    assert_eq!(ctx.cursor, 0);
}

#[test]
fn replay_key_mismatch_is_fatal() {
    let ctx = DurabilityContext::new(true);
    let (ctx, _r) = write_remote_durably(ctx, "iface", "op", NoParam, |c, _p| {
        (c, Ok::<u64, String>(9))
    });
    let ctx2 = ctx.restarted();
    let (ctx2, r2) = write_remote_durably(ctx2, "iface", "other", NoParam, |c, _p| {
        (c, Ok::<u64, String>(9))
    });
    assert_eq!(r2, Err(ReplayFault::KeyMismatch));
    assert_eq!(ctx2.cursor, 0);
}

#[test]
fn replay_corrupt_record_is_fatal() {
    let mut ctx = DurabilityContext::new(true);
    ctx.store.push(Some(LogEntry {
        interface_name: String::from("iface"),
        operation: String::from("op"),
        function_type: DurableFunctionType::WriteRemote,
        params: NoParam.to_structured_value(),
        result: Value::Bool(true),
        next: 1,
    }));
    let (_ctx, r) = write_remote_durably(ctx, "iface", "op", NoParam, |c, _p| {
        (c, Ok::<u64, String>(1))
    });
    assert_eq!(r, Err(ReplayFault::Corrupt(DecodeError::Shape)));
}

#[test]
fn replay_corrupt_record_carries_the_arity_error() {
    let mut ctx = DurabilityContext::new(true);
    ctx.store.push(Some(LogEntry {
        interface_name: String::from("iface"),
        operation: String::from("op"),
        function_type: DurableFunctionType::WriteRemote,
        params: NoParam.to_structured_value(),
        result: Value::Tuple(vec![Value::S64(1), Value::S64(2), Value::S64(3)]),
        next: 1,
    }));
    let (_ctx, r) = write_remote_durably(ctx, "iface", "op", NoParam, |c, _p| {
        (c, Param2::new(1i32, 2i32))
    });
    assert_eq!(
        r,
        Err(ReplayFault::Corrupt(DecodeError::ExpectedTuple { arity: 2 }))
    );
}
