//! The structured value codec contract: every type that flows through a
//! durable call supplies a serialization into [`Value`], the inverse
//! deserialization, and a value-free description of its shape. The inverse
//! law — decoding an encoded value reproduces it — is a proof obligation of
//! every implementation, discharged here for scalars, strings, options,
//! vectors, results and pairs.

use vstd::prelude::*;

use crate::value::{lemma_model_seq, lemma_model_seq_push, DecodeError, TypeDescriptor, Value,
    ValueModel};

verus! {

/// The two capabilities every parameter and result type must supply, plus a
/// shape description for schema-aware consumers of the durability log.
///
/// `encoded` is the mathematical content of a value: two values with equal
/// encodings are indistinguishable to the durability log. Every implementation
/// must prove `encoded_decodable`, which together with the contracts of
/// `to_structured_value` and `from_structured_value` yields the inverse law:
/// decoding an encoded value always succeeds and reproduces the value.
pub trait Codec: Sized {
    /// The model of this value's structured encoding.
    spec fn encoded(&self) -> ValueModel;

    /// Whether a structured value model is the encoding of some value of this
    /// type.
    spec fn decodable(m: ValueModel) -> bool;

    /// Serialize the value into its self-describing structured form.
    fn to_structured_value(&self) -> (v: Value)
        ensures
            v.model() == self.encoded(),
    ;

    /// The error decoding yields on a value that is not an encoding of this
    /// type: an arity error for a fixed-arity tuple, the first failing
    /// element's error for a composite, and a shape error otherwise.
    spec fn decode_failure(m: ValueModel) -> DecodeError;

    /// Recover a value from its structured form. Fails exactly on values that
    /// are not an encoding of this type, with the error `decode_failure`
    /// names; shape mismatches are never coerced.
    fn from_structured_value(v: &Value) -> (r: Result<Self, DecodeError>)
        ensures
            r matches Ok(x) ==> Self::decodable(v.model()) && x.encoded() == v.model(),
            r is Err ==> !Self::decodable(v.model()),
            r matches Err(e) ==> e == Self::decode_failure(v.model()),
    ;

    /// A value-free description of the encoded structure of this type.
    fn describe_shape() -> TypeDescriptor;

    /// Every value's encoding is decodable.
    proof fn encoded_decodable(&self)
        ensures
            Self::decodable(self.encoded()),
    ;
}

/// The inverse law made executable: encoding a value and decoding the result
/// gives the value back, for every codec type and every value of it. The
/// error branch of the decoder is proved unreachable here.
pub fn roundtrip_assert<T: Codec>(value: T) -> (r: T)
    ensures
        r.encoded() == value.encoded(),
{
    let v = value.to_structured_value();
    proof {
        value.encoded_decodable();
    }
    match T::from_structured_value(&v) {
        Ok(x) => x,
        Err(_) => {
            proof {
                assert(false);
            }
            vstd::pervasive::unreached()
        },
    }
}

impl Codec for () {
    open spec fn decode_failure(m: ValueModel) -> DecodeError {
        DecodeError::Shape
    }

    open spec fn encoded(&self) -> ValueModel {
        ValueModel::Tuple(Seq::empty())
    }

    open spec fn decodable(m: ValueModel) -> bool {
        m matches ValueModel::Tuple(els) && els.len() == 0
    }

    fn to_structured_value(&self) -> (v: Value) {
        let els: Vec<Value> = Vec::new();
        proof {
            lemma_model_seq(els@);
            assert(Value::model_seq(els@) =~= Seq::<ValueModel>::empty());
        }
        Value::Tuple(els)
    }

    fn from_structured_value(v: &Value) -> (r: Result<(), DecodeError>) {
        match v {
            Value::Tuple(els) => {
                if els.len() == 0 {
                    proof {
                        lemma_model_seq(els@);
                        assert(Value::model_seq(els@) =~= Seq::<ValueModel>::empty());
                    }
                    Ok(())
                } else {
                    proof {
                        lemma_model_seq(els@);
                    }
                    Err(DecodeError::Shape)
                }
            },
            _ => Err(DecodeError::Shape),
        }
    }

    fn describe_shape() -> TypeDescriptor {
        TypeDescriptor::Tuple(Vec::new())
    }

    proof fn encoded_decodable(&self) {
    }
}

impl Codec for bool {
    open spec fn decode_failure(m: ValueModel) -> DecodeError {
        DecodeError::Shape
    }

    open spec fn encoded(&self) -> ValueModel {
        ValueModel::Bool(*self)
    }

    open spec fn decodable(m: ValueModel) -> bool {
        m is Bool
    }

    fn to_structured_value(&self) -> (v: Value) {
        Value::Bool(*self)
    }

    fn from_structured_value(v: &Value) -> (r: Result<bool, DecodeError>) {
        match v {
            Value::Bool(b) => Ok(*b),
            _ => Err(DecodeError::Shape),
        }
    }

    fn describe_shape() -> TypeDescriptor {
        TypeDescriptor::Bool
    }

    proof fn encoded_decodable(&self) {
    }
}

impl Codec for u8 {
    open spec fn decode_failure(m: ValueModel) -> DecodeError {
        DecodeError::Shape
    }

    open spec fn encoded(&self) -> ValueModel {
        ValueModel::U64(*self as u64)
    }

    open spec fn decodable(m: ValueModel) -> bool {
        m matches ValueModel::U64(n) && n <= u8::MAX
    }

    fn to_structured_value(&self) -> (v: Value) {
        Value::U64(*self as u64)
    }

    fn from_structured_value(v: &Value) -> (r: Result<u8, DecodeError>) {
        match v {
            Value::U64(n) => {
                if *n <= u8::MAX as u64 {
                    Ok(*n as u8)
                } else {
                    Err(DecodeError::Shape)
                }
            },
            _ => Err(DecodeError::Shape),
        }
    }

    fn describe_shape() -> TypeDescriptor {
        TypeDescriptor::U8
    }

    proof fn encoded_decodable(&self) {
    }
}

impl Codec for u16 {
    open spec fn decode_failure(m: ValueModel) -> DecodeError {
        DecodeError::Shape
    }

    open spec fn encoded(&self) -> ValueModel {
        ValueModel::U64(*self as u64)
    }

    open spec fn decodable(m: ValueModel) -> bool {
        m matches ValueModel::U64(n) && n <= u16::MAX
    }

    fn to_structured_value(&self) -> (v: Value) {
        Value::U64(*self as u64)
    }

    fn from_structured_value(v: &Value) -> (r: Result<u16, DecodeError>) {
        match v {
            Value::U64(n) => {
                if *n <= u16::MAX as u64 {
                    Ok(*n as u16)
                } else {
                    Err(DecodeError::Shape)
                }
            },
            _ => Err(DecodeError::Shape),
        }
    }

    fn describe_shape() -> TypeDescriptor {
        TypeDescriptor::U16
    }

    proof fn encoded_decodable(&self) {
    }
}

impl Codec for u32 {
    open spec fn decode_failure(m: ValueModel) -> DecodeError {
        DecodeError::Shape
    }

    open spec fn encoded(&self) -> ValueModel {
        ValueModel::U64(*self as u64)
    }

    open spec fn decodable(m: ValueModel) -> bool {
        m matches ValueModel::U64(n) && n <= u32::MAX
    }

    fn to_structured_value(&self) -> (v: Value) {
        Value::U64(*self as u64)
    }

    fn from_structured_value(v: &Value) -> (r: Result<u32, DecodeError>) {
        match v {
            Value::U64(n) => {
                if *n <= u32::MAX as u64 {
                    Ok(*n as u32)
                } else {
                    Err(DecodeError::Shape)
                }
            },
            _ => Err(DecodeError::Shape),
        }
    }

    fn describe_shape() -> TypeDescriptor {
        TypeDescriptor::U32
    }

    proof fn encoded_decodable(&self) {
    }
}

impl Codec for u64 {
    open spec fn decode_failure(m: ValueModel) -> DecodeError {
        DecodeError::Shape
    }

    open spec fn encoded(&self) -> ValueModel {
        ValueModel::U64(*self)
    }

    open spec fn decodable(m: ValueModel) -> bool {
        m is U64
    }

    fn to_structured_value(&self) -> (v: Value) {
        Value::U64(*self)
    }

    fn from_structured_value(v: &Value) -> (r: Result<u64, DecodeError>) {
        match v {
            Value::U64(n) => Ok(*n),
            _ => Err(DecodeError::Shape),
        }
    }

    fn describe_shape() -> TypeDescriptor {
        TypeDescriptor::U64
    }

    proof fn encoded_decodable(&self) {
    }
}

impl Codec for i32 {
    open spec fn decode_failure(m: ValueModel) -> DecodeError {
        DecodeError::Shape
    }

    open spec fn encoded(&self) -> ValueModel {
        ValueModel::S64(*self as i64)
    }

    open spec fn decodable(m: ValueModel) -> bool {
        m matches ValueModel::S64(n) && i32::MIN <= n <= i32::MAX
    }

    fn to_structured_value(&self) -> (v: Value) {
        Value::S64(*self as i64)
    }

    fn from_structured_value(v: &Value) -> (r: Result<i32, DecodeError>) {
        match v {
            Value::S64(n) => {
                if i32::MIN as i64 <= *n && *n <= i32::MAX as i64 {
                    Ok(*n as i32)
                } else {
                    Err(DecodeError::Shape)
                }
            },
            _ => Err(DecodeError::Shape),
        }
    }

    fn describe_shape() -> TypeDescriptor {
        TypeDescriptor::S32
    }

    proof fn encoded_decodable(&self) {
    }
}

impl Codec for i64 {
    open spec fn decode_failure(m: ValueModel) -> DecodeError {
        DecodeError::Shape
    }

    open spec fn encoded(&self) -> ValueModel {
        ValueModel::S64(*self)
    }

    open spec fn decodable(m: ValueModel) -> bool {
        m is S64
    }

    fn to_structured_value(&self) -> (v: Value) {
        Value::S64(*self)
    }

    fn from_structured_value(v: &Value) -> (r: Result<i64, DecodeError>) {
        match v {
            Value::S64(n) => Ok(*n),
            _ => Err(DecodeError::Shape),
        }
    }

    fn describe_shape() -> TypeDescriptor {
        TypeDescriptor::S64
    }

    proof fn encoded_decodable(&self) {
    }
}

impl Codec for String {
    open spec fn decode_failure(m: ValueModel) -> DecodeError {
        DecodeError::Shape
    }

    open spec fn encoded(&self) -> ValueModel {
        ValueModel::Text(self@)
    }

    open spec fn decodable(m: ValueModel) -> bool {
        m is Text
    }

    fn to_structured_value(&self) -> (v: Value) {
        Value::Text(self.clone())
    }

    fn from_structured_value(v: &Value) -> (r: Result<String, DecodeError>) {
        match v {
            Value::Text(s) => Ok(s.clone()),
            _ => Err(DecodeError::Shape),
        }
    }

    fn describe_shape() -> TypeDescriptor {
        TypeDescriptor::Text
    }

    proof fn encoded_decodable(&self) {
    }
}

impl<T: Codec> Codec for Option<T> {
    open spec fn decode_failure(m: ValueModel) -> DecodeError {
        match m {
            ValueModel::Variant(tag, payload) => if tag == 1 && payload.len() == 1
                && !T::decodable(payload[0]) {
                T::decode_failure(payload[0])
            } else {
                DecodeError::Shape
            },
            _ => DecodeError::Shape,
        }
    }

    open spec fn encoded(&self) -> ValueModel {
        match self {
            None => ValueModel::Variant(0, Seq::empty()),
            Some(x) => ValueModel::Variant(1, seq![x.encoded()]),
        }
    }

    open spec fn decodable(m: ValueModel) -> bool {
        m matches ValueModel::Variant(tag, payload) && ((tag == 0 && payload.len() == 0) || (
        tag == 1 && payload.len() == 1 && T::decodable(payload[0])))
    }

    fn to_structured_value(&self) -> (v: Value) {
        match self {
            None => Value::Variant(0, Vec::new()),
            Some(x) => {
                let mut payload: Vec<Value> = Vec::new();
                payload.push(x.to_structured_value());
                proof {
                    lemma_model_seq(payload@);
                    assert(Value::model_seq(payload@) =~= seq![x.encoded()]);
                }
                Value::Variant(1, payload)
            },
        }
    }

    fn from_structured_value(v: &Value) -> (r: Result<Option<T>, DecodeError>) {
        match v {
            Value::Variant(tag, payload) => {
                proof {
                    lemma_model_seq(payload@);
                }
                if *tag == 0 && payload.len() == 0 {
                    proof {
                        assert(Value::model_seq(payload@) =~= Seq::<ValueModel>::empty());
                    }
                    Ok(None)
                } else if *tag == 1 && payload.len() == 1 {
                    match T::from_structured_value(&payload[0]) {
                        Ok(x) => {
                            proof {
                                assert(Value::model_seq(payload@) =~= seq![x.encoded()]);
                            }
                            Ok(Some(x))
                        },
                        Err(e) => Err(e),
                    }
                } else {
                    Err(DecodeError::Shape)
                }
            },
            _ => Err(DecodeError::Shape),
        }
    }

    fn describe_shape() -> (t: TypeDescriptor) {
        let mut cases: Vec<Vec<TypeDescriptor>> = Vec::new();
        cases.push(Vec::new());
        let mut some_case: Vec<TypeDescriptor> = Vec::new();
        some_case.push(T::describe_shape());
        cases.push(some_case);
        TypeDescriptor::Variant(cases)
    }

    proof fn encoded_decodable(&self) {
        match self {
            None => {},
            Some(x) => {
                T::encoded_decodable(x);
            },
        }
    }
}

impl<T: Codec, E: Codec> Codec for Result<T, E> {
    open spec fn decode_failure(m: ValueModel) -> DecodeError {
        match m {
            ValueModel::Variant(tag, payload) => if tag == 0 && payload.len() == 1
                && !T::decodable(payload[0]) {
                T::decode_failure(payload[0])
            } else if tag == 1 && payload.len() == 1 && !E::decodable(payload[0]) {
                E::decode_failure(payload[0])
            } else {
                DecodeError::Shape
            },
            _ => DecodeError::Shape,
        }
    }

    open spec fn encoded(&self) -> ValueModel {
        match self {
            Ok(x) => ValueModel::Variant(0, seq![x.encoded()]),
            Err(e) => ValueModel::Variant(1, seq![e.encoded()]),
        }
    }

    open spec fn decodable(m: ValueModel) -> bool {
        m matches ValueModel::Variant(tag, payload) && payload.len() == 1 && ((tag == 0
            && T::decodable(payload[0])) || (tag == 1 && E::decodable(payload[0])))
    }

    fn to_structured_value(&self) -> (v: Value) {
        match self {
            Ok(x) => {
                let mut payload: Vec<Value> = Vec::new();
                payload.push(x.to_structured_value());
                proof {
                    lemma_model_seq(payload@);
                    assert(Value::model_seq(payload@) =~= seq![x.encoded()]);
                }
                Value::Variant(0, payload)
            },
            Err(e) => {
                let mut payload: Vec<Value> = Vec::new();
                payload.push(e.to_structured_value());
                proof {
                    lemma_model_seq(payload@);
                    assert(Value::model_seq(payload@) =~= seq![e.encoded()]);
                }
                Value::Variant(1, payload)
            },
        }
    }

    fn from_structured_value(v: &Value) -> (r: Result<Result<T, E>, DecodeError>) {
        match v {
            Value::Variant(tag, payload) => {
                proof {
                    lemma_model_seq(payload@);
                }
                if *tag == 0 && payload.len() == 1 {
                    match T::from_structured_value(&payload[0]) {
                        Ok(x) => {
                            proof {
                                assert(Value::model_seq(payload@) =~= seq![x.encoded()]);
                            }
                            Ok(Ok(x))
                        },
                        Err(e) => Err(e),
                    }
                } else if *tag == 1 && payload.len() == 1 {
                    match E::from_structured_value(&payload[0]) {
                        Ok(e) => {
                            proof {
                                assert(Value::model_seq(payload@) =~= seq![e.encoded()]);
                            }
                            Ok(Err(e))
                        },
                        Err(e) => Err(e),
                    }
                } else {
                    Err(DecodeError::Shape)
                }
            },
            _ => Err(DecodeError::Shape),
        }
    }

    fn describe_shape() -> (t: TypeDescriptor) {
        let mut cases: Vec<Vec<TypeDescriptor>> = Vec::new();
        let mut ok_case: Vec<TypeDescriptor> = Vec::new();
        ok_case.push(T::describe_shape());
        cases.push(ok_case);
        let mut err_case: Vec<TypeDescriptor> = Vec::new();
        err_case.push(E::describe_shape());
        cases.push(err_case);
        TypeDescriptor::Variant(cases)
    }

    proof fn encoded_decodable(&self) {
        match self {
            Ok(x) => {
                T::encoded_decodable(x);
            },
            Err(e) => {
                E::encoded_decodable(e);
            },
        }
    }
}

/// The index of the first element that is not an encoding of `T`.
pub open spec fn first_undecodable<T: Codec>(els: Seq<ValueModel>) -> int
    decreases els,
{
    if els.len() == 0 {
        0
    } else if !T::decodable(els[0]) {
        0
    } else {
        1 + first_undecodable::<T>(els.drop_first())
    }
}

proof fn lemma_first_undecodable<T: Codec>(els: Seq<ValueModel>, i: int)
    requires
        0 <= i < els.len(),
        forall|j: int| 0 <= j < i ==> T::decodable(#[trigger] els[j]),
        !T::decodable(els[i]),
    ensures
        first_undecodable::<T>(els) == i,
    decreases els,
{
    if i > 0 {
        assert(forall|j: int|
            0 <= j < i - 1 ==> (#[trigger] els.drop_first()[j]) == els[j + 1]);
        lemma_first_undecodable::<T>(els.drop_first(), i - 1);
    }
}

impl<T: Codec> Codec for Vec<T> {
    open spec fn decode_failure(m: ValueModel) -> DecodeError {
        match m {
            ValueModel::List(els) => T::decode_failure(els[first_undecodable::<T>(els)]),
            _ => DecodeError::Shape,
        }
    }

    open spec fn encoded(&self) -> ValueModel {
        ValueModel::List(Seq::new(self@.len(), |i: int| self@[i].encoded()))
    }

    open spec fn decodable(m: ValueModel) -> bool {
        m matches ValueModel::List(els) && forall|i: int|
            0 <= i < els.len() ==> T::decodable(#[trigger] els[i])
    }

    fn to_structured_value(&self) -> (v: Value) {
        let mut out: Vec<Value> = Vec::new();
        let mut i: usize = 0;
        while i < self.len()
            invariant
                i <= self@.len(),
                out@.len() == i,
                Value::model_seq(out@) =~= Seq::new(i as nat, |j: int| self@[j].encoded()),
            decreases self@.len() - i,
        {
            let item = self[i].to_structured_value();
            proof {
                lemma_model_seq_push(out@, item);
            }
            out.push(item);
            i += 1;
            proof {
                assert(Value::model_seq(out@) =~= Seq::new(i as nat, |j: int| self@[j].encoded()));
            }
        }
        proof {
            assert(Value::model_seq(out@) =~= Seq::new(self@.len(), |j: int| self@[j].encoded()));
        }
        Value::List(out)
    }

    fn from_structured_value(v: &Value) -> (r: Result<Vec<T>, DecodeError>) {
        match v {
            Value::List(els) => {
                proof {
                    lemma_model_seq(els@);
                }
                let mut out: Vec<T> = Vec::new();
                let mut i: usize = 0;
                while i < els.len()
                    invariant
                        i <= els@.len(),
                        out@.len() == i,
                        v is List && v->List_0 == *els,
                        forall|j: int| #![auto]
                            0 <= j < i ==> T::decodable(els@[j].model()) && out@[j].encoded()
                                == els@[j].model(),
                    decreases els@.len() - i,
                {
                    match T::from_structured_value(&els[i]) {
                        Ok(x) => {
                            out.push(x);
                        },
                        Err(e) => {
                            proof {
                                lemma_model_seq(els@);
                                let ms = Value::model_seq(els@);
                                assert(ms[i as int] == els@[i as int].model());
                                assert(!T::decodable(ms[i as int]));
                                assert(v.model() == ValueModel::List(ms));
                                assert(!Self::decodable(v.model())) by {
                                    if Self::decodable(v.model()) {
                                        assert(0 <= (i as int) && (i as int) < ms.len());
                                        assert(v.model()->List_0 == ms);
                                        assert(T::decodable(v.model()->List_0[i as int]));
                                        assert(T::decodable(ms[i as int]));
                                    }
                                }
                                assert(forall|j: int|
                                    0 <= j < i ==> T::decodable(#[trigger] ms[j]));
                                lemma_first_undecodable::<T>(ms, i as int);
                                assert(e == Self::decode_failure(v.model()));
                            }
                            return Err(e);
                        },
                    }
                    i += 1;
                }
                proof {
                    lemma_model_seq(els@);
                    let ms = Value::model_seq(els@);
                    let es = Seq::new(out@.len(), |j: int| out@[j].encoded());
                    assert(out@.len() == els@.len());
                    assert forall|j: int| 0 <= j < ms.len() implies es[j] == #[trigger] ms[j]
                        && T::decodable(ms[j]) by {
                        assert(ms[j] == els@[j].model());
                        assert(out@[j].encoded() == els@[j].model());
                    }
                    assert(es =~= ms);
                    assert(out.encoded() == ValueModel::List(es));
                    assert(v.model() == ValueModel::List(ms));
                    assert(Self::decodable(v.model()));
                }
                Ok(out)
            },
            _ => Err(DecodeError::Shape),
        }
    }

    fn describe_shape() -> (t: TypeDescriptor) {
        TypeDescriptor::List(Box::new(T::describe_shape()))
    }

    proof fn encoded_decodable(&self) {
        let encs = Seq::new(self@.len(), |j: int| self@[j].encoded());
        assert forall|i: int| 0 <= i < encs.len() implies T::decodable(#[trigger] encs[i]) by {
            T::encoded_decodable(&self@[i]);
        }
    }
}

impl<A: Codec, B: Codec> Codec for (A, B) {
    open spec fn decode_failure(m: ValueModel) -> DecodeError {
        match m {
            ValueModel::Tuple(els) => if els.len() != 2 {
                DecodeError::ExpectedTuple { arity: 2 }
            } else if !A::decodable(els[0]) {
                A::decode_failure(els[0])
            } else {
                B::decode_failure(els[1])
            },
            _ => DecodeError::Shape,
        }
    }

    open spec fn encoded(&self) -> ValueModel {
        ValueModel::Tuple(seq![self.0.encoded(), self.1.encoded()])
    }

    open spec fn decodable(m: ValueModel) -> bool {
        m matches ValueModel::Tuple(els) && els.len() == 2 && A::decodable(els[0])
            && B::decodable(els[1])
    }

    fn to_structured_value(&self) -> (v: Value) {
        let mut els: Vec<Value> = Vec::new();
        els.push(self.0.to_structured_value());
        els.push(self.1.to_structured_value());
        proof {
            lemma_model_seq(els@);
            assert(Value::model_seq(els@) =~= seq![self.0.encoded(), self.1.encoded()]);
        }
        Value::Tuple(els)
    }

    fn from_structured_value(v: &Value) -> (r: Result<(A, B), DecodeError>) {
        match v {
            Value::Tuple(els) => {
                proof {
                    lemma_model_seq(els@);
                }
                if els.len() == 2 {
                    proof {
                        assert(Value::model_seq(els@)[0] == els@[0].model());
                        assert(Value::model_seq(els@)[1] == els@[1].model());
                        assert(v.model()->Tuple_0 == Value::model_seq(els@));
                    }
                    let a = match A::from_structured_value(&els[0]) {
                        Ok(a) => a,
                        Err(e) => {
                            return Err(e);
                        },
                    };
                    let b = match B::from_structured_value(&els[1]) {
                        Ok(b) => b,
                        Err(e) => {
                            return Err(e);
                        },
                    };
                    proof {
                        assert(Value::model_seq(els@) =~= seq![a.encoded(), b.encoded()]);
                    }
                    Ok((a, b))
                } else {
                    Err(DecodeError::ExpectedTuple { arity: 2 })
                }
            },
            _ => Err(DecodeError::Shape),
        }
    }

    fn describe_shape() -> (t: TypeDescriptor) {
        let mut els: Vec<TypeDescriptor> = Vec::new();
        els.push(A::describe_shape());
        els.push(B::describe_shape());
        TypeDescriptor::Tuple(els)
    }

    proof fn encoded_decodable(&self) {
        A::encoded_decodable(&self.0);
        B::encoded_decodable(&self.1);
    }
}

} // verus!
