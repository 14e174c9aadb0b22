//! Round trips of the typed parameter tuples through the structured value
//! codec, and the arity-mismatch failures.

use golem_durability::codec::{roundtrip_assert, Codec};
use golem_durability::params::{
    NoParam, Param, Param10, Param2, Param3, Param4, Param5, Param6, Param7, Param8, Param9,
};
use golem_durability::value::{DecodeError, Value};

#[test]
fn roundtrip_test_noparam() {
    assert_eq!(roundtrip_assert(NoParam), NoParam);
}

#[test]
fn roundtrip_test_param() {
    assert_eq!(roundtrip_assert(Param::new(1)), Param::new(1));
}

#[test]
fn roundtrip_test_param2() {
    assert_eq!(roundtrip_assert(Param2::new(1, 2)), Param2::new(1, 2));
}

#[test]
fn roundtrip_test_param3() {
    assert_eq!(roundtrip_assert(Param3::new(1, 2, 3)), Param3::new(1, 2, 3));
}

#[test]
fn roundtrip_test_param4() {
    assert_eq!(roundtrip_assert(Param4::new(1, 2, 3, 4)), Param4::new(1, 2, 3, 4));
}

#[test]
fn roundtrip_test_param5() {
    assert_eq!(roundtrip_assert(Param5::new(1, 2, 3, 4, 5)), Param5::new(1, 2, 3, 4, 5));
}

#[test]
fn roundtrip_test_param6() {
    assert_eq!(roundtrip_assert(Param6::new(1, 2, 3, 4, 5, 6)), Param6::new(1, 2, 3, 4, 5, 6));
}

#[test]
fn roundtrip_test_param7() {
    assert_eq!(
        roundtrip_assert(Param7::new(1, 2, 3, 4, 5, 6, 7)),
        Param7::new(1, 2, 3, 4, 5, 6, 7)
    );
}

#[test]
fn roundtrip_test_param8() {
    assert_eq!(
        roundtrip_assert(Param8::new(1, 2, 3, 4, 5, 6, 7, 8)),
        Param8::new(1, 2, 3, 4, 5, 6, 7, 8)
    );
}

#[test]
fn roundtrip_test_param9() {
    assert_eq!(
        roundtrip_assert(Param9::new(1, 2, 3, 4, 5, 6, 7, 8, 9)),
        Param9::new(1, 2, 3, 4, 5, 6, 7, 8, 9)
    );
}

#[test]
fn roundtrip_test_param10() {
    assert_eq!(
        roundtrip_assert(Param10::new(1, 2, 3, 4, 5, 6, 7, 8, 9, 10)),
        Param10::new(1, 2, 3, 4, 5, 6, 7, 8, 9, 10)
    );
}

#[test]
fn roundtrip_nested_compositions() {
    let v = Param3::new(
        Some(vec![1u32, 2, 3]),
        (String::from("alpha"), None::<bool>),
        vec![Some(7u64), None],
    );
    assert_eq!(roundtrip_assert(v.clone()), v);
    let w = Param2::new(Param2::new(1u32, 2u32), vec![vec![String::from("x")]]);
    assert_eq!(roundtrip_assert(w.clone()), w);
}

#[test]
fn arity_mismatch_always_fails() {
    // a 3-tuple decoded at every other arity
    let three = Param3::new(1, 2, 3).to_structured_value();
    assert_eq!(
        <Param2<i32, i32>>::from_structured_value(&three),
        Err(DecodeError::ExpectedTuple { arity: 2 })
    );
    assert_eq!(
        <Param<i32>>::from_structured_value(&three),
        Err(DecodeError::ExpectedTuple { arity: 1 })
    );
    assert_eq!(
        <Param4<i32, i32, i32, i32>>::from_structured_value(&three),
        Err(DecodeError::ExpectedTuple { arity: 4 })
    );
    assert_eq!(
        <Param10<i32, i32, i32, i32, i32, i32, i32, i32, i32, i32>>::from_structured_value(&three),
        Err(DecodeError::ExpectedTuple { arity: 10 })
    );
    // the empty parameter pack is not a tuple at all
    let unit = NoParam.to_structured_value();
    assert_eq!(
        <Param<i32>>::from_structured_value(&unit),
        Err(DecodeError::ExpectedTuple { arity: 1 })
    );
    // a non-tuple value fails at every arity
    let scalar = Value::U64(5);
    assert_eq!(
        <Param2<i32, i32>>::from_structured_value(&scalar),
        Err(DecodeError::ExpectedTuple { arity: 2 })
    );
}

#[test]
fn element_errors_propagate() {
    // right arity, wrong element type: the element's own error comes out
    let v = Param2::new(1i32, 2i32).to_structured_value();
    assert_eq!(
        <Param2<i32, String>>::from_structured_value(&v),
        Err(DecodeError::Shape)
    );
}
