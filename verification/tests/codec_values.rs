//! Round trips and shape failures of the scalar, string, vector, option,
//! result and pair codecs.

use golem_durability::codec::{roundtrip_assert, Codec};
use golem_durability::value::{DecodeError, TypeDescriptor, Value};

#[test]
fn scalar_roundtrips() {
    assert_eq!(roundtrip_assert(true), true);
    assert_eq!(roundtrip_assert(0u8), 0u8);
    assert_eq!(roundtrip_assert(65535u16), 65535u16);
    assert_eq!(roundtrip_assert(4294967295u32), 4294967295u32);
    assert_eq!(roundtrip_assert(u64::MAX), u64::MAX);
    assert_eq!(roundtrip_assert(-2147483648i32), -2147483648i32);
    assert_eq!(roundtrip_assert(i64::MIN), i64::MIN);
    assert_eq!(roundtrip_assert(String::from("hello")), String::from("hello"));
}

#[test]
fn composite_roundtrips() {
    assert_eq!(roundtrip_assert(vec![1u32, 2, 3]), vec![1u32, 2, 3]);
    assert_eq!(roundtrip_assert(Some(5u64)), Some(5u64));
    assert_eq!(roundtrip_assert(None::<String>), None::<String>);
    assert_eq!(
        roundtrip_assert(Ok::<u32, String>(9)),
        Ok::<u32, String>(9)
    );
    assert_eq!(
        roundtrip_assert(Err::<u32, String>(String::from("boom"))),
        Err::<u32, String>(String::from("boom"))
    );
    assert_eq!(
        roundtrip_assert((String::from("k"), vec![true, false])),
        (String::from("k"), vec![true, false])
    );
}

#[test]
fn range_checks_reject_oversized_scalars() {
    let v = Value::U64(1 << 40);
    assert_eq!(<u32 as Codec>::from_structured_value(&v), Err(DecodeError::Shape));
    assert_eq!(<u16 as Codec>::from_structured_value(&v), Err(DecodeError::Shape));
    assert_eq!(<u8 as Codec>::from_structured_value(&v), Err(DecodeError::Shape));
    assert_eq!(<u64 as Codec>::from_structured_value(&v), Ok(1u64 << 40));
    let w = Value::S64(1 << 40);
    assert_eq!(<i32 as Codec>::from_structured_value(&w), Err(DecodeError::Shape));
}

#[test]
fn shape_mismatches_never_coerce() {
    let v = Value::Bool(true);
    assert_eq!(<u64 as Codec>::from_structured_value(&v), Err(DecodeError::Shape));
    assert_eq!(<String as Codec>::from_structured_value(&v), Err(DecodeError::Shape));
    assert_eq!(
        <Vec<u32> as Codec>::from_structured_value(&v),
        Err(DecodeError::Shape)
    );
    // a list whose element fails propagates the element failure
    let l = Value::List(vec![Value::U64(1), Value::Bool(false)]);
    assert_eq!(<Vec<u64> as Codec>::from_structured_value(&l), Err(DecodeError::Shape));
}

#[test]
fn shape_descriptions() {
    assert_eq!(<u32 as Codec>::describe_shape(), TypeDescriptor::U32);
    assert_eq!(
        <Vec<String> as Codec>::describe_shape(),
        TypeDescriptor::List(Box::new(TypeDescriptor::Text))
    );
    assert_eq!(
        <Option<bool> as Codec>::describe_shape(),
        TypeDescriptor::Variant(vec![vec![], vec![TypeDescriptor::Bool]])
    );
}
