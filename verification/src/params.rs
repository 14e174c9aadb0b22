//! Typed parameter tuples: fixed-arity, heterogeneous containers that pack
//! the arguments of a durable call into one value. Each arity encodes to an
//! ordered tuple of its slots' encodings and decodes only from a tuple of
//! exactly that arity; an arity mismatch is always an error, never silently
//! truncated or padded. The no-parameter case is a distinct unit-like type
//! with the codec's native empty-record representation.

use vstd::prelude::*;

use crate::codec::Codec;
use crate::value::{lemma_model_seq, DecodeError, TypeDescriptor, Value, ValueModel};

verus! {

/// The empty parameter pack of a durable call that takes no arguments.
#[derive(Debug, Clone, PartialEq)]
pub struct NoParam;

impl NoParam {
    /// Call `func` with no arguments, consuming the (empty) pack.
    pub fn invoke<Func, R>(self, func: Func) -> (r: R) where Func: FnOnce() -> R
        requires
            call_requires(func, ()),
        ensures
            call_ensures(func, (), r),
    {
        func()
    }
}

impl Codec for NoParam {
    open spec fn decode_failure(m: ValueModel) -> DecodeError {
        DecodeError::Shape
    }

    open spec fn encoded(&self) -> ValueModel {
        ValueModel::Record(Seq::empty())
    }

    open spec fn decodable(m: ValueModel) -> bool {
        m matches ValueModel::Record(els) && els.len() == 0
    }

    fn to_structured_value(&self) -> (v: Value) {
        let els: Vec<Value> = Vec::new();
        proof {
            lemma_model_seq(els@);
            assert(Value::model_seq(els@) =~= Seq::<ValueModel>::empty());
        }
        Value::Record(els)
    }

    fn from_structured_value(v: &Value) -> (r: Result<NoParam, DecodeError>) {
        match v {
            Value::Record(els) => {
                if els.len() == 0 {
                    proof {
                        lemma_model_seq(els@);
                        assert(Value::model_seq(els@) =~= Seq::<ValueModel>::empty());
                    }
                    Ok(NoParam)
                } else {
                    Err(DecodeError::Shape)
                }
            },
            _ => Err(DecodeError::Shape),
        }
    }

    fn describe_shape() -> TypeDescriptor {
        TypeDescriptor::Record(Vec::new())
    }

    proof fn encoded_decodable(&self) {
    }
}

/// A single typed call argument, packed for one durable call.
#[derive(Debug, Clone, PartialEq)]
pub struct Param<P1> {
    pub p1: P1,
}

impl<P1> Param<P1> {
    /// Pack the arguments, in call order.
    pub fn new(p1: P1) -> (r: Self)
        ensures
            r == (Param { p1: p1 }),
    {
        Param { p1: p1 }
    }

    /// Call `func` with the slots unpacked as positional arguments, in their
    /// original order, consuming the pack.
    pub fn invoke<Func, R>(self, func: Func) -> (r: R) where Func: FnOnce(P1) -> R
        requires
            call_requires(func, (self.p1,)),
        ensures
            call_ensures(func, (self.p1,), r),
    {
        func(self.p1)
    }
}

impl<P1: Codec> Codec for Param<P1> {
    open spec fn decode_failure(m: ValueModel) -> DecodeError {
        match m {
            ValueModel::Tuple(els) => if els.len() != 1 {
                DecodeError::ExpectedTuple { arity: 1 }
            } else {
                P1::decode_failure(els[0])
            },
            _ => DecodeError::ExpectedTuple { arity: 1 },
        }
    }

    open spec fn encoded(&self) -> ValueModel {
        ValueModel::Tuple(seq![self.p1.encoded()])
    }

    open spec fn decodable(m: ValueModel) -> bool {
        m matches ValueModel::Tuple(els) && els.len() == 1 && P1::decodable(els[0])
    }

    fn to_structured_value(&self) -> (v: Value) {
        let mut els: Vec<Value> = Vec::new();
        els.push(self.p1.to_structured_value());
        proof {
            lemma_model_seq(els@);
            assert(Value::model_seq(els@)[0] == els@[0].model());
            assert(Value::model_seq(els@) =~= seq![self.p1.encoded()]);
        }
        Value::Tuple(els)
    }

    fn from_structured_value(v: &Value) -> (r: Result<Self, DecodeError>)
        ensures
            r matches Ok(x) ==> Self::decodable(v.model()) && x.encoded() == v.model(),
            r is Err ==> !Self::decodable(v.model()),
            r matches Err(e) ==> e == Self::decode_failure(v.model()),
            !(v matches Value::Tuple(els) && els@.len() == 1) ==> r == Err::<Self, DecodeError>(
                DecodeError::ExpectedTuple { arity: 1 },
            ),
    {
        match v {
            Value::Tuple(els) => {
                if els.len() == 1 {
                    let p1 = match P1::from_structured_value(&els[0]) {
                        Ok(x) => x,
                        Err(e) => {
                            proof {
                                lemma_model_seq(els@);
                                assert(Value::model_seq(els@)[0] == els@[0].model());
                                assert(v.model()->Tuple_0 == Value::model_seq(els@));
                            }
                            return Err(e);
                        },
                    };
                    proof {
                        lemma_model_seq(els@);
            assert(Value::model_seq(els@)[0] == els@[0].model());
                        assert(v.model()->Tuple_0 == Value::model_seq(els@));
                        assert(Value::model_seq(els@) =~= seq![p1.encoded()]);
                    }
                    Ok(Param { p1: p1 })
                } else {
                    proof {
                        lemma_model_seq(els@);
                    }
                    Err(DecodeError::ExpectedTuple { arity: 1 })
                }
            },
            _ => Err(DecodeError::ExpectedTuple { arity: 1 }),
        }
    }

    fn describe_shape() -> (t: TypeDescriptor) {
        let mut els: Vec<TypeDescriptor> = Vec::new();
        els.push(P1::describe_shape());
        TypeDescriptor::Tuple(els)
    }

    proof fn encoded_decodable(&self) {
        P1::encoded_decodable(&self.p1);
    }
}

/// An ordered pair of typed call arguments, packed for one durable call.
#[derive(Debug, Clone, PartialEq)]
pub struct Param2<P1, P2> {
    pub p1: P1,
    pub p2: P2,
}

impl<P1, P2> Param2<P1, P2> {
    /// Pack the arguments, in call order.
    pub fn new(p1: P1, p2: P2) -> (r: Self)
        ensures
            r == (Param2 { p1: p1, p2: p2 }),
    {
        Param2 { p1: p1, p2: p2 }
    }

    /// Call `func` with the slots unpacked as positional arguments, in their
    /// original order, consuming the pack.
    pub fn invoke<Func, R>(self, func: Func) -> (r: R) where Func: FnOnce(P1, P2) -> R
        requires
            call_requires(func, (self.p1, self.p2)),
        ensures
            call_ensures(func, (self.p1, self.p2), r),
    {
        func(self.p1, self.p2)
    }
}

impl<P1: Codec, P2: Codec> Codec for Param2<P1, P2> {
    open spec fn decode_failure(m: ValueModel) -> DecodeError {
        match m {
            ValueModel::Tuple(els) => if els.len() != 2 {
                DecodeError::ExpectedTuple { arity: 2 }
            } else if !P1::decodable(els[0]) {
                P1::decode_failure(els[0])
            } else {
                P2::decode_failure(els[1])
            },
            _ => DecodeError::ExpectedTuple { arity: 2 },
        }
    }

    open spec fn encoded(&self) -> ValueModel {
        ValueModel::Tuple(seq![self.p1.encoded(), self.p2.encoded()])
    }

    open spec fn decodable(m: ValueModel) -> bool {
        m matches ValueModel::Tuple(els) && els.len() == 2 && P1::decodable(els[0]) && P2::decodable(els[1])
    }

    fn to_structured_value(&self) -> (v: Value) {
        let mut els: Vec<Value> = Vec::new();
        els.push(self.p1.to_structured_value());
        els.push(self.p2.to_structured_value());
        proof {
            lemma_model_seq(els@);
            assert(Value::model_seq(els@)[0] == els@[0].model());
            assert(Value::model_seq(els@)[1] == els@[1].model());
            assert(Value::model_seq(els@) =~= seq![self.p1.encoded(), self.p2.encoded()]);
        }
        Value::Tuple(els)
    }

    fn from_structured_value(v: &Value) -> (r: Result<Self, DecodeError>)
        ensures
            r matches Ok(x) ==> Self::decodable(v.model()) && x.encoded() == v.model(),
            r is Err ==> !Self::decodable(v.model()),
            r matches Err(e) ==> e == Self::decode_failure(v.model()),
            !(v matches Value::Tuple(els) && els@.len() == 2) ==> r == Err::<Self, DecodeError>(
                DecodeError::ExpectedTuple { arity: 2 },
            ),
    {
        match v {
            Value::Tuple(els) => {
                if els.len() == 2 {
                    let p1 = match P1::from_structured_value(&els[0]) {
                        Ok(x) => x,
                        Err(e) => {
                            proof {
                                lemma_model_seq(els@);
                                assert(Value::model_seq(els@)[0] == els@[0].model());
                                assert(Value::model_seq(els@)[1] == els@[1].model());
                                assert(v.model()->Tuple_0 == Value::model_seq(els@));
                            }
                            return Err(e);
                        },
                    };
                    let p2 = match P2::from_structured_value(&els[1]) {
                        Ok(x) => x,
                        Err(e) => {
                            proof {
                                lemma_model_seq(els@);
                                assert(Value::model_seq(els@)[0] == els@[0].model());
                                assert(Value::model_seq(els@)[1] == els@[1].model());
                                assert(v.model()->Tuple_0 == Value::model_seq(els@));
                            }
                            return Err(e);
                        },
                    };
                    proof {
                        lemma_model_seq(els@);
            assert(Value::model_seq(els@)[0] == els@[0].model());
            assert(Value::model_seq(els@)[1] == els@[1].model());
                        assert(v.model()->Tuple_0 == Value::model_seq(els@));
                        assert(Value::model_seq(els@) =~= seq![p1.encoded(), p2.encoded()]);
                    }
                    Ok(Param2 { p1: p1, p2: p2 })
                } else {
                    proof {
                        lemma_model_seq(els@);
                    }
                    Err(DecodeError::ExpectedTuple { arity: 2 })
                }
            },
            _ => Err(DecodeError::ExpectedTuple { arity: 2 }),
        }
    }

    fn describe_shape() -> (t: TypeDescriptor) {
        let mut els: Vec<TypeDescriptor> = Vec::new();
        els.push(P1::describe_shape());
        els.push(P2::describe_shape());
        TypeDescriptor::Tuple(els)
    }

    proof fn encoded_decodable(&self) {
        P1::encoded_decodable(&self.p1);
        P2::encoded_decodable(&self.p2);
    }
}

/// An ordered, fixed tuple of 3 typed call arguments, packed for one durable call.
#[derive(Debug, Clone, PartialEq)]
pub struct Param3<P1, P2, P3> {
    pub p1: P1,
    pub p2: P2,
    pub p3: P3,
}

impl<P1, P2, P3> Param3<P1, P2, P3> {
    /// Pack the arguments, in call order.
    pub fn new(p1: P1, p2: P2, p3: P3) -> (r: Self)
        ensures
            r == (Param3 { p1: p1, p2: p2, p3: p3 }),
    {
        Param3 { p1: p1, p2: p2, p3: p3 }
    }

    /// Call `func` with the slots unpacked as positional arguments, in their
    /// original order, consuming the pack.
    pub fn invoke<Func, R>(self, func: Func) -> (r: R) where Func: FnOnce(P1, P2, P3) -> R
        requires
            call_requires(func, (self.p1, self.p2, self.p3)),
        ensures
            call_ensures(func, (self.p1, self.p2, self.p3), r),
    {
        func(self.p1, self.p2, self.p3)
    }
}

impl<P1: Codec, P2: Codec, P3: Codec> Codec for Param3<P1, P2, P3> {
    open spec fn decode_failure(m: ValueModel) -> DecodeError {
        match m {
            ValueModel::Tuple(els) => if els.len() != 3 {
                DecodeError::ExpectedTuple { arity: 3 }
            } else if !P1::decodable(els[0]) {
                P1::decode_failure(els[0])
            } else if !P2::decodable(els[1]) {
                P2::decode_failure(els[1])
            } else {
                P3::decode_failure(els[2])
            },
            _ => DecodeError::ExpectedTuple { arity: 3 },
        }
    }

    open spec fn encoded(&self) -> ValueModel {
        ValueModel::Tuple(seq![self.p1.encoded(), self.p2.encoded(), self.p3.encoded()])
    }

    open spec fn decodable(m: ValueModel) -> bool {
        m matches ValueModel::Tuple(els) && els.len() == 3 && P1::decodable(els[0]) && P2::decodable(els[1]) && P3::decodable(els[2])
    }

    fn to_structured_value(&self) -> (v: Value) {
        let mut els: Vec<Value> = Vec::new();
        els.push(self.p1.to_structured_value());
        els.push(self.p2.to_structured_value());
        els.push(self.p3.to_structured_value());
        proof {
            lemma_model_seq(els@);
            assert(Value::model_seq(els@)[0] == els@[0].model());
            assert(Value::model_seq(els@)[1] == els@[1].model());
            assert(Value::model_seq(els@)[2] == els@[2].model());
            assert(Value::model_seq(els@) =~= seq![self.p1.encoded(), self.p2.encoded(), self.p3.encoded()]);
        }
        Value::Tuple(els)
    }

    fn from_structured_value(v: &Value) -> (r: Result<Self, DecodeError>)
        ensures
            r matches Ok(x) ==> Self::decodable(v.model()) && x.encoded() == v.model(),
            r is Err ==> !Self::decodable(v.model()),
            r matches Err(e) ==> e == Self::decode_failure(v.model()),
            !(v matches Value::Tuple(els) && els@.len() == 3) ==> r == Err::<Self, DecodeError>(
                DecodeError::ExpectedTuple { arity: 3 },
            ),
    {
        match v {
            Value::Tuple(els) => {
                if els.len() == 3 {
                    let p1 = match P1::from_structured_value(&els[0]) {
                        Ok(x) => x,
                        Err(e) => {
                            proof {
                                lemma_model_seq(els@);
                                assert(Value::model_seq(els@)[0] == els@[0].model());
                                assert(Value::model_seq(els@)[1] == els@[1].model());
                                assert(Value::model_seq(els@)[2] == els@[2].model());
                                assert(v.model()->Tuple_0 == Value::model_seq(els@));
                            }
                            return Err(e);
                        },
                    };
                    let p2 = match P2::from_structured_value(&els[1]) {
                        Ok(x) => x,
                        Err(e) => {
                            proof {
                                lemma_model_seq(els@);
                                assert(Value::model_seq(els@)[0] == els@[0].model());
                                assert(Value::model_seq(els@)[1] == els@[1].model());
                                assert(Value::model_seq(els@)[2] == els@[2].model());
                                assert(v.model()->Tuple_0 == Value::model_seq(els@));
                            }
                            return Err(e);
                        },
                    };
                    let p3 = match P3::from_structured_value(&els[2]) {
                        Ok(x) => x,
                        Err(e) => {
                            proof {
                                lemma_model_seq(els@);
                                assert(Value::model_seq(els@)[0] == els@[0].model());
                                assert(Value::model_seq(els@)[1] == els@[1].model());
                                assert(Value::model_seq(els@)[2] == els@[2].model());
                                assert(v.model()->Tuple_0 == Value::model_seq(els@));
                            }
                            return Err(e);
                        },
                    };
                    proof {
                        lemma_model_seq(els@);
            assert(Value::model_seq(els@)[0] == els@[0].model());
            assert(Value::model_seq(els@)[1] == els@[1].model());
            assert(Value::model_seq(els@)[2] == els@[2].model());
                        assert(v.model()->Tuple_0 == Value::model_seq(els@));
                        assert(Value::model_seq(els@) =~= seq![p1.encoded(), p2.encoded(), p3.encoded()]);
                    }
                    Ok(Param3 { p1: p1, p2: p2, p3: p3 })
                } else {
                    proof {
                        lemma_model_seq(els@);
                    }
                    Err(DecodeError::ExpectedTuple { arity: 3 })
                }
            },
            _ => Err(DecodeError::ExpectedTuple { arity: 3 }),
        }
    }

    fn describe_shape() -> (t: TypeDescriptor) {
        let mut els: Vec<TypeDescriptor> = Vec::new();
        els.push(P1::describe_shape());
        els.push(P2::describe_shape());
        els.push(P3::describe_shape());
        TypeDescriptor::Tuple(els)
    }

    proof fn encoded_decodable(&self) {
        P1::encoded_decodable(&self.p1);
        P2::encoded_decodable(&self.p2);
        P3::encoded_decodable(&self.p3);
    }
}

/// An ordered, fixed tuple of 4 typed call arguments, packed for one durable call.
#[derive(Debug, Clone, PartialEq)]
pub struct Param4<P1, P2, P3, P4> {
    pub p1: P1,
    pub p2: P2,
    pub p3: P3,
    pub p4: P4,
}

impl<P1, P2, P3, P4> Param4<P1, P2, P3, P4> {
    /// Pack the arguments, in call order.
    pub fn new(p1: P1, p2: P2, p3: P3, p4: P4) -> (r: Self)
        ensures
            r == (Param4 { p1: p1, p2: p2, p3: p3, p4: p4 }),
    {
        Param4 { p1: p1, p2: p2, p3: p3, p4: p4 }
    }

    /// Call `func` with the slots unpacked as positional arguments, in their
    /// original order, consuming the pack.
    pub fn invoke<Func, R>(self, func: Func) -> (r: R) where Func: FnOnce(P1, P2, P3, P4) -> R
        requires
            call_requires(func, (self.p1, self.p2, self.p3, self.p4)),
        ensures
            call_ensures(func, (self.p1, self.p2, self.p3, self.p4), r),
    {
        func(self.p1, self.p2, self.p3, self.p4)
    }
}

impl<P1: Codec, P2: Codec, P3: Codec, P4: Codec> Codec for Param4<P1, P2, P3, P4> {
    open spec fn decode_failure(m: ValueModel) -> DecodeError {
        match m {
            ValueModel::Tuple(els) => if els.len() != 4 {
                DecodeError::ExpectedTuple { arity: 4 }
            } else if !P1::decodable(els[0]) {
                P1::decode_failure(els[0])
            } else if !P2::decodable(els[1]) {
                P2::decode_failure(els[1])
            } else if !P3::decodable(els[2]) {
                P3::decode_failure(els[2])
            } else {
                P4::decode_failure(els[3])
            },
            _ => DecodeError::ExpectedTuple { arity: 4 },
        }
    }

    open spec fn encoded(&self) -> ValueModel {
        ValueModel::Tuple(seq![self.p1.encoded(), self.p2.encoded(), self.p3.encoded(), self.p4.encoded()])
    }

    open spec fn decodable(m: ValueModel) -> bool {
        m matches ValueModel::Tuple(els) && els.len() == 4 && P1::decodable(els[0]) && P2::decodable(els[1]) && P3::decodable(els[2]) && P4::decodable(els[3])
    }

    fn to_structured_value(&self) -> (v: Value) {
        let mut els: Vec<Value> = Vec::new();
        els.push(self.p1.to_structured_value());
        els.push(self.p2.to_structured_value());
        els.push(self.p3.to_structured_value());
        els.push(self.p4.to_structured_value());
        proof {
            lemma_model_seq(els@);
            assert(Value::model_seq(els@)[0] == els@[0].model());
            assert(Value::model_seq(els@)[1] == els@[1].model());
            assert(Value::model_seq(els@)[2] == els@[2].model());
            assert(Value::model_seq(els@)[3] == els@[3].model());
            assert(Value::model_seq(els@) =~= seq![self.p1.encoded(), self.p2.encoded(), self.p3.encoded(), self.p4.encoded()]);
        }
        Value::Tuple(els)
    }

    fn from_structured_value(v: &Value) -> (r: Result<Self, DecodeError>)
        ensures
            r matches Ok(x) ==> Self::decodable(v.model()) && x.encoded() == v.model(),
            r is Err ==> !Self::decodable(v.model()),
            r matches Err(e) ==> e == Self::decode_failure(v.model()),
            !(v matches Value::Tuple(els) && els@.len() == 4) ==> r == Err::<Self, DecodeError>(
                DecodeError::ExpectedTuple { arity: 4 },
            ),
    {
        match v {
            Value::Tuple(els) => {
                if els.len() == 4 {
                    let p1 = match P1::from_structured_value(&els[0]) {
                        Ok(x) => x,
                        Err(e) => {
                            proof {
                                lemma_model_seq(els@);
                                assert(Value::model_seq(els@)[0] == els@[0].model());
                                assert(Value::model_seq(els@)[1] == els@[1].model());
                                assert(Value::model_seq(els@)[2] == els@[2].model());
                                assert(Value::model_seq(els@)[3] == els@[3].model());
                                assert(v.model()->Tuple_0 == Value::model_seq(els@));
                            }
                            return Err(e);
                        },
                    };
                    let p2 = match P2::from_structured_value(&els[1]) {
                        Ok(x) => x,
                        Err(e) => {
                            proof {
                                lemma_model_seq(els@);
                                assert(Value::model_seq(els@)[0] == els@[0].model());
                                assert(Value::model_seq(els@)[1] == els@[1].model());
                                assert(Value::model_seq(els@)[2] == els@[2].model());
                                assert(Value::model_seq(els@)[3] == els@[3].model());
                                assert(v.model()->Tuple_0 == Value::model_seq(els@));
                            }
                            return Err(e);
                        },
                    };
                    let p3 = match P3::from_structured_value(&els[2]) {
                        Ok(x) => x,
                        Err(e) => {
                            proof {
                                lemma_model_seq(els@);
                                assert(Value::model_seq(els@)[0] == els@[0].model());
                                assert(Value::model_seq(els@)[1] == els@[1].model());
                                assert(Value::model_seq(els@)[2] == els@[2].model());
                                assert(Value::model_seq(els@)[3] == els@[3].model());
                                assert(v.model()->Tuple_0 == Value::model_seq(els@));
                            }
                            return Err(e);
                        },
                    };
                    let p4 = match P4::from_structured_value(&els[3]) {
                        Ok(x) => x,
                        Err(e) => {
                            proof {
                                lemma_model_seq(els@);
                                assert(Value::model_seq(els@)[0] == els@[0].model());
                                assert(Value::model_seq(els@)[1] == els@[1].model());
                                assert(Value::model_seq(els@)[2] == els@[2].model());
                                assert(Value::model_seq(els@)[3] == els@[3].model());
                                assert(v.model()->Tuple_0 == Value::model_seq(els@));
                            }
                            return Err(e);
                        },
                    };
                    proof {
                        lemma_model_seq(els@);
            assert(Value::model_seq(els@)[0] == els@[0].model());
            assert(Value::model_seq(els@)[1] == els@[1].model());
            assert(Value::model_seq(els@)[2] == els@[2].model());
            assert(Value::model_seq(els@)[3] == els@[3].model());
                        assert(v.model()->Tuple_0 == Value::model_seq(els@));
                        assert(Value::model_seq(els@) =~= seq![p1.encoded(), p2.encoded(), p3.encoded(), p4.encoded()]);
                    }
                    Ok(Param4 { p1: p1, p2: p2, p3: p3, p4: p4 })
                } else {
                    proof {
                        lemma_model_seq(els@);
                    }
                    Err(DecodeError::ExpectedTuple { arity: 4 })
                }
            },
            _ => Err(DecodeError::ExpectedTuple { arity: 4 }),
        }
    }

    fn describe_shape() -> (t: TypeDescriptor) {
        let mut els: Vec<TypeDescriptor> = Vec::new();
        els.push(P1::describe_shape());
        els.push(P2::describe_shape());
        els.push(P3::describe_shape());
        els.push(P4::describe_shape());
        TypeDescriptor::Tuple(els)
    }

    proof fn encoded_decodable(&self) {
        P1::encoded_decodable(&self.p1);
        P2::encoded_decodable(&self.p2);
        P3::encoded_decodable(&self.p3);
        P4::encoded_decodable(&self.p4);
    }
}

/// An ordered, fixed tuple of 5 typed call arguments, packed for one durable call.
#[derive(Debug, Clone, PartialEq)]
pub struct Param5<P1, P2, P3, P4, P5> {
    pub p1: P1,
    pub p2: P2,
    pub p3: P3,
    pub p4: P4,
    pub p5: P5,
}

impl<P1, P2, P3, P4, P5> Param5<P1, P2, P3, P4, P5> {
    /// Pack the arguments, in call order.
    pub fn new(p1: P1, p2: P2, p3: P3, p4: P4, p5: P5) -> (r: Self)
        ensures
            r == (Param5 { p1: p1, p2: p2, p3: p3, p4: p4, p5: p5 }),
    {
        Param5 { p1: p1, p2: p2, p3: p3, p4: p4, p5: p5 }
    }

    /// Call `func` with the slots unpacked as positional arguments, in their
    /// original order, consuming the pack.
    pub fn invoke<Func, R>(self, func: Func) -> (r: R) where Func: FnOnce(P1, P2, P3, P4, P5) -> R
        requires
            call_requires(func, (self.p1, self.p2, self.p3, self.p4, self.p5)),
        ensures
            call_ensures(func, (self.p1, self.p2, self.p3, self.p4, self.p5), r),
    {
        func(self.p1, self.p2, self.p3, self.p4, self.p5)
    }
}

impl<P1: Codec, P2: Codec, P3: Codec, P4: Codec, P5: Codec> Codec for Param5<P1, P2, P3, P4, P5> {
    open spec fn decode_failure(m: ValueModel) -> DecodeError {
        match m {
            ValueModel::Tuple(els) => if els.len() != 5 {
                DecodeError::ExpectedTuple { arity: 5 }
            } else if !P1::decodable(els[0]) {
                P1::decode_failure(els[0])
            } else if !P2::decodable(els[1]) {
                P2::decode_failure(els[1])
            } else if !P3::decodable(els[2]) {
                P3::decode_failure(els[2])
            } else if !P4::decodable(els[3]) {
                P4::decode_failure(els[3])
            } else {
                P5::decode_failure(els[4])
            },
            _ => DecodeError::ExpectedTuple { arity: 5 },
        }
    }

    open spec fn encoded(&self) -> ValueModel {
        ValueModel::Tuple(seq![self.p1.encoded(), self.p2.encoded(), self.p3.encoded(), self.p4.encoded(), self.p5.encoded()])
    }

    open spec fn decodable(m: ValueModel) -> bool {
        m matches ValueModel::Tuple(els) && els.len() == 5 && P1::decodable(els[0]) && P2::decodable(els[1]) && P3::decodable(els[2]) && P4::decodable(els[3]) && P5::decodable(els[4])
    }

    fn to_structured_value(&self) -> (v: Value) {
        let mut els: Vec<Value> = Vec::new();
        els.push(self.p1.to_structured_value());
        els.push(self.p2.to_structured_value());
        els.push(self.p3.to_structured_value());
        els.push(self.p4.to_structured_value());
        els.push(self.p5.to_structured_value());
        proof {
            lemma_model_seq(els@);
            assert(Value::model_seq(els@)[0] == els@[0].model());
            assert(Value::model_seq(els@)[1] == els@[1].model());
            assert(Value::model_seq(els@)[2] == els@[2].model());
            assert(Value::model_seq(els@)[3] == els@[3].model());
            assert(Value::model_seq(els@)[4] == els@[4].model());
            assert(Value::model_seq(els@) =~= seq![self.p1.encoded(), self.p2.encoded(), self.p3.encoded(), self.p4.encoded(), self.p5.encoded()]);
        }
        Value::Tuple(els)
    }

    fn from_structured_value(v: &Value) -> (r: Result<Self, DecodeError>)
        ensures
            r matches Ok(x) ==> Self::decodable(v.model()) && x.encoded() == v.model(),
            r is Err ==> !Self::decodable(v.model()),
            r matches Err(e) ==> e == Self::decode_failure(v.model()),
            !(v matches Value::Tuple(els) && els@.len() == 5) ==> r == Err::<Self, DecodeError>(
                DecodeError::ExpectedTuple { arity: 5 },
            ),
    {
        match v {
            Value::Tuple(els) => {
                if els.len() == 5 {
                    let p1 = match P1::from_structured_value(&els[0]) {
                        Ok(x) => x,
                        Err(e) => {
                            proof {
                                lemma_model_seq(els@);
                                assert(Value::model_seq(els@)[0] == els@[0].model());
                                assert(Value::model_seq(els@)[1] == els@[1].model());
                                assert(Value::model_seq(els@)[2] == els@[2].model());
                                assert(Value::model_seq(els@)[3] == els@[3].model());
                                assert(Value::model_seq(els@)[4] == els@[4].model());
                                assert(v.model()->Tuple_0 == Value::model_seq(els@));
                            }
                            return Err(e);
                        },
                    };
                    let p2 = match P2::from_structured_value(&els[1]) {
                        Ok(x) => x,
                        Err(e) => {
                            proof {
                                lemma_model_seq(els@);
                                assert(Value::model_seq(els@)[0] == els@[0].model());
                                assert(Value::model_seq(els@)[1] == els@[1].model());
                                assert(Value::model_seq(els@)[2] == els@[2].model());
                                assert(Value::model_seq(els@)[3] == els@[3].model());
                                assert(Value::model_seq(els@)[4] == els@[4].model());
                                assert(v.model()->Tuple_0 == Value::model_seq(els@));
                            }
                            return Err(e);
                        },
                    };
                    let p3 = match P3::from_structured_value(&els[2]) {
                        Ok(x) => x,
                        Err(e) => {
                            proof {
                                lemma_model_seq(els@);
                                assert(Value::model_seq(els@)[0] == els@[0].model());
                                assert(Value::model_seq(els@)[1] == els@[1].model());
                                assert(Value::model_seq(els@)[2] == els@[2].model());
                                assert(Value::model_seq(els@)[3] == els@[3].model());
                                assert(Value::model_seq(els@)[4] == els@[4].model());
                                assert(v.model()->Tuple_0 == Value::model_seq(els@));
                            }
                            return Err(e);
                        },
                    };
                    let p4 = match P4::from_structured_value(&els[3]) {
                        Ok(x) => x,
                        Err(e) => {
                            proof {
                                lemma_model_seq(els@);
                                assert(Value::model_seq(els@)[0] == els@[0].model());
                                assert(Value::model_seq(els@)[1] == els@[1].model());
                                assert(Value::model_seq(els@)[2] == els@[2].model());
                                assert(Value::model_seq(els@)[3] == els@[3].model());
                                assert(Value::model_seq(els@)[4] == els@[4].model());
                                assert(v.model()->Tuple_0 == Value::model_seq(els@));
                            }
                            return Err(e);
                        },
                    };
                    let p5 = match P5::from_structured_value(&els[4]) {
                        Ok(x) => x,
                        Err(e) => {
                            proof {
                                lemma_model_seq(els@);
                                assert(Value::model_seq(els@)[0] == els@[0].model());
                                assert(Value::model_seq(els@)[1] == els@[1].model());
                                assert(Value::model_seq(els@)[2] == els@[2].model());
                                assert(Value::model_seq(els@)[3] == els@[3].model());
                                assert(Value::model_seq(els@)[4] == els@[4].model());
                                assert(v.model()->Tuple_0 == Value::model_seq(els@));
                            }
                            return Err(e);
                        },
                    };
                    proof {
                        lemma_model_seq(els@);
            assert(Value::model_seq(els@)[0] == els@[0].model());
            assert(Value::model_seq(els@)[1] == els@[1].model());
            assert(Value::model_seq(els@)[2] == els@[2].model());
            assert(Value::model_seq(els@)[3] == els@[3].model());
            assert(Value::model_seq(els@)[4] == els@[4].model());
                        assert(v.model()->Tuple_0 == Value::model_seq(els@));
                        assert(Value::model_seq(els@) =~= seq![p1.encoded(), p2.encoded(), p3.encoded(), p4.encoded(), p5.encoded()]);
                    }
                    Ok(Param5 { p1: p1, p2: p2, p3: p3, p4: p4, p5: p5 })
                } else {
                    proof {
                        lemma_model_seq(els@);
                    }
                    Err(DecodeError::ExpectedTuple { arity: 5 })
                }
            },
            _ => Err(DecodeError::ExpectedTuple { arity: 5 }),
        }
    }

    fn describe_shape() -> (t: TypeDescriptor) {
        let mut els: Vec<TypeDescriptor> = Vec::new();
        els.push(P1::describe_shape());
        els.push(P2::describe_shape());
        els.push(P3::describe_shape());
        els.push(P4::describe_shape());
        els.push(P5::describe_shape());
        TypeDescriptor::Tuple(els)
    }

    proof fn encoded_decodable(&self) {
        P1::encoded_decodable(&self.p1);
        P2::encoded_decodable(&self.p2);
        P3::encoded_decodable(&self.p3);
        P4::encoded_decodable(&self.p4);
        P5::encoded_decodable(&self.p5);
    }
}

/// An ordered, fixed tuple of 6 typed call arguments, packed for one durable call.
#[derive(Debug, Clone, PartialEq)]
pub struct Param6<P1, P2, P3, P4, P5, P6> {
    pub p1: P1,
    pub p2: P2,
    pub p3: P3,
    pub p4: P4,
    pub p5: P5,
    pub p6: P6,
}

impl<P1, P2, P3, P4, P5, P6> Param6<P1, P2, P3, P4, P5, P6> {
    /// Pack the arguments, in call order.
    pub fn new(p1: P1, p2: P2, p3: P3, p4: P4, p5: P5, p6: P6) -> (r: Self)
        ensures
            r == (Param6 { p1: p1, p2: p2, p3: p3, p4: p4, p5: p5, p6: p6 }),
    {
        Param6 { p1: p1, p2: p2, p3: p3, p4: p4, p5: p5, p6: p6 }
    }

    /// Call `func` with the slots unpacked as positional arguments, in their
    /// original order, consuming the pack.
    pub fn invoke<Func, R>(self, func: Func) -> (r: R) where Func: FnOnce(P1, P2, P3, P4, P5, P6) -> R
        requires
            call_requires(func, (self.p1, self.p2, self.p3, self.p4, self.p5, self.p6)),
        ensures
            call_ensures(func, (self.p1, self.p2, self.p3, self.p4, self.p5, self.p6), r),
    {
        func(self.p1, self.p2, self.p3, self.p4, self.p5, self.p6)
    }
}

impl<P1: Codec, P2: Codec, P3: Codec, P4: Codec, P5: Codec, P6: Codec> Codec for Param6<P1, P2, P3, P4, P5, P6> {
    open spec fn decode_failure(m: ValueModel) -> DecodeError {
        match m {
            ValueModel::Tuple(els) => if els.len() != 6 {
                DecodeError::ExpectedTuple { arity: 6 }
            } else if !P1::decodable(els[0]) {
                P1::decode_failure(els[0])
            } else if !P2::decodable(els[1]) {
                P2::decode_failure(els[1])
            } else if !P3::decodable(els[2]) {
                P3::decode_failure(els[2])
            } else if !P4::decodable(els[3]) {
                P4::decode_failure(els[3])
            } else if !P5::decodable(els[4]) {
                P5::decode_failure(els[4])
            } else {
                P6::decode_failure(els[5])
            },
            _ => DecodeError::ExpectedTuple { arity: 6 },
        }
    }

    open spec fn encoded(&self) -> ValueModel {
        ValueModel::Tuple(seq![self.p1.encoded(), self.p2.encoded(), self.p3.encoded(), self.p4.encoded(), self.p5.encoded(), self.p6.encoded()])
    }

    open spec fn decodable(m: ValueModel) -> bool {
        m matches ValueModel::Tuple(els) && els.len() == 6 && P1::decodable(els[0]) && P2::decodable(els[1]) && P3::decodable(els[2]) && P4::decodable(els[3]) && P5::decodable(els[4]) && P6::decodable(els[5])
    }

    fn to_structured_value(&self) -> (v: Value) {
        let mut els: Vec<Value> = Vec::new();
        els.push(self.p1.to_structured_value());
        els.push(self.p2.to_structured_value());
        els.push(self.p3.to_structured_value());
        els.push(self.p4.to_structured_value());
        els.push(self.p5.to_structured_value());
        els.push(self.p6.to_structured_value());
        proof {
            lemma_model_seq(els@);
            assert(Value::model_seq(els@)[0] == els@[0].model());
            assert(Value::model_seq(els@)[1] == els@[1].model());
            assert(Value::model_seq(els@)[2] == els@[2].model());
            assert(Value::model_seq(els@)[3] == els@[3].model());
            assert(Value::model_seq(els@)[4] == els@[4].model());
            assert(Value::model_seq(els@)[5] == els@[5].model());
            assert(Value::model_seq(els@) =~= seq![self.p1.encoded(), self.p2.encoded(), self.p3.encoded(), self.p4.encoded(), self.p5.encoded(), self.p6.encoded()]);
        }
        Value::Tuple(els)
    }

    fn from_structured_value(v: &Value) -> (r: Result<Self, DecodeError>)
        ensures
            r matches Ok(x) ==> Self::decodable(v.model()) && x.encoded() == v.model(),
            r is Err ==> !Self::decodable(v.model()),
            r matches Err(e) ==> e == Self::decode_failure(v.model()),
            !(v matches Value::Tuple(els) && els@.len() == 6) ==> r == Err::<Self, DecodeError>(
                DecodeError::ExpectedTuple { arity: 6 },
            ),
    {
        match v {
            Value::Tuple(els) => {
                if els.len() == 6 {
                    let p1 = match P1::from_structured_value(&els[0]) {
                        Ok(x) => x,
                        Err(e) => {
                            proof {
                                lemma_model_seq(els@);
                                assert(Value::model_seq(els@)[0] == els@[0].model());
                                assert(Value::model_seq(els@)[1] == els@[1].model());
                                assert(Value::model_seq(els@)[2] == els@[2].model());
                                assert(Value::model_seq(els@)[3] == els@[3].model());
                                assert(Value::model_seq(els@)[4] == els@[4].model());
                                assert(Value::model_seq(els@)[5] == els@[5].model());
                                assert(v.model()->Tuple_0 == Value::model_seq(els@));
                            }
                            return Err(e);
                        },
                    };
                    let p2 = match P2::from_structured_value(&els[1]) {
                        Ok(x) => x,
                        Err(e) => {
                            proof {
                                lemma_model_seq(els@);
                                assert(Value::model_seq(els@)[0] == els@[0].model());
                                assert(Value::model_seq(els@)[1] == els@[1].model());
                                assert(Value::model_seq(els@)[2] == els@[2].model());
                                assert(Value::model_seq(els@)[3] == els@[3].model());
                                assert(Value::model_seq(els@)[4] == els@[4].model());
                                assert(Value::model_seq(els@)[5] == els@[5].model());
                                assert(v.model()->Tuple_0 == Value::model_seq(els@));
                            }
                            return Err(e);
                        },
                    };
                    let p3 = match P3::from_structured_value(&els[2]) {
                        Ok(x) => x,
                        Err(e) => {
                            proof {
                                lemma_model_seq(els@);
                                assert(Value::model_seq(els@)[0] == els@[0].model());
                                assert(Value::model_seq(els@)[1] == els@[1].model());
                                assert(Value::model_seq(els@)[2] == els@[2].model());
                                assert(Value::model_seq(els@)[3] == els@[3].model());
                                assert(Value::model_seq(els@)[4] == els@[4].model());
                                assert(Value::model_seq(els@)[5] == els@[5].model());
                                assert(v.model()->Tuple_0 == Value::model_seq(els@));
                            }
                            return Err(e);
                        },
                    };
                    let p4 = match P4::from_structured_value(&els[3]) {
                        Ok(x) => x,
                        Err(e) => {
                            proof {
                                lemma_model_seq(els@);
                                assert(Value::model_seq(els@)[0] == els@[0].model());
                                assert(Value::model_seq(els@)[1] == els@[1].model());
                                assert(Value::model_seq(els@)[2] == els@[2].model());
                                assert(Value::model_seq(els@)[3] == els@[3].model());
                                assert(Value::model_seq(els@)[4] == els@[4].model());
                                assert(Value::model_seq(els@)[5] == els@[5].model());
                                assert(v.model()->Tuple_0 == Value::model_seq(els@));
                            }
                            return Err(e);
                        },
                    };
                    let p5 = match P5::from_structured_value(&els[4]) {
                        Ok(x) => x,
                        Err(e) => {
                            proof {
                                lemma_model_seq(els@);
                                assert(Value::model_seq(els@)[0] == els@[0].model());
                                assert(Value::model_seq(els@)[1] == els@[1].model());
                                assert(Value::model_seq(els@)[2] == els@[2].model());
                                assert(Value::model_seq(els@)[3] == els@[3].model());
                                assert(Value::model_seq(els@)[4] == els@[4].model());
                                assert(Value::model_seq(els@)[5] == els@[5].model());
                                assert(v.model()->Tuple_0 == Value::model_seq(els@));
                            }
                            return Err(e);
                        },
                    };
                    let p6 = match P6::from_structured_value(&els[5]) {
                        Ok(x) => x,
                        Err(e) => {
                            proof {
                                lemma_model_seq(els@);
                                assert(Value::model_seq(els@)[0] == els@[0].model());
                                assert(Value::model_seq(els@)[1] == els@[1].model());
                                assert(Value::model_seq(els@)[2] == els@[2].model());
                                assert(Value::model_seq(els@)[3] == els@[3].model());
                                assert(Value::model_seq(els@)[4] == els@[4].model());
                                assert(Value::model_seq(els@)[5] == els@[5].model());
                                assert(v.model()->Tuple_0 == Value::model_seq(els@));
                            }
                            return Err(e);
                        },
                    };
                    proof {
                        lemma_model_seq(els@);
            assert(Value::model_seq(els@)[0] == els@[0].model());
            assert(Value::model_seq(els@)[1] == els@[1].model());
            assert(Value::model_seq(els@)[2] == els@[2].model());
            assert(Value::model_seq(els@)[3] == els@[3].model());
            assert(Value::model_seq(els@)[4] == els@[4].model());
            assert(Value::model_seq(els@)[5] == els@[5].model());
                        assert(v.model()->Tuple_0 == Value::model_seq(els@));
                        assert(Value::model_seq(els@) =~= seq![p1.encoded(), p2.encoded(), p3.encoded(), p4.encoded(), p5.encoded(), p6.encoded()]);
                    }
                    Ok(Param6 { p1: p1, p2: p2, p3: p3, p4: p4, p5: p5, p6: p6 })
                } else {
                    proof {
                        lemma_model_seq(els@);
                    }
                    Err(DecodeError::ExpectedTuple { arity: 6 })
                }
            },
            _ => Err(DecodeError::ExpectedTuple { arity: 6 }),
        }
    }

    fn describe_shape() -> (t: TypeDescriptor) {
        let mut els: Vec<TypeDescriptor> = Vec::new();
        els.push(P1::describe_shape());
        els.push(P2::describe_shape());
        els.push(P3::describe_shape());
        els.push(P4::describe_shape());
        els.push(P5::describe_shape());
        els.push(P6::describe_shape());
        TypeDescriptor::Tuple(els)
    }

    proof fn encoded_decodable(&self) {
        P1::encoded_decodable(&self.p1);
        P2::encoded_decodable(&self.p2);
        P3::encoded_decodable(&self.p3);
        P4::encoded_decodable(&self.p4);
        P5::encoded_decodable(&self.p5);
        P6::encoded_decodable(&self.p6);
    }
}

/// An ordered, fixed tuple of 7 typed call arguments, packed for one durable call.
#[derive(Debug, Clone, PartialEq)]
pub struct Param7<P1, P2, P3, P4, P5, P6, P7> {
    pub p1: P1,
    pub p2: P2,
    pub p3: P3,
    pub p4: P4,
    pub p5: P5,
    pub p6: P6,
    pub p7: P7,
}

impl<P1, P2, P3, P4, P5, P6, P7> Param7<P1, P2, P3, P4, P5, P6, P7> {
    /// Pack the arguments, in call order.
    pub fn new(p1: P1, p2: P2, p3: P3, p4: P4, p5: P5, p6: P6, p7: P7) -> (r: Self)
        ensures
            r == (Param7 { p1: p1, p2: p2, p3: p3, p4: p4, p5: p5, p6: p6, p7: p7 }),
    {
        Param7 { p1: p1, p2: p2, p3: p3, p4: p4, p5: p5, p6: p6, p7: p7 }
    }

    /// Call `func` with the slots unpacked as positional arguments, in their
    /// original order, consuming the pack.
    pub fn invoke<Func, R>(self, func: Func) -> (r: R) where Func: FnOnce(P1, P2, P3, P4, P5, P6, P7) -> R
        requires
            call_requires(func, (self.p1, self.p2, self.p3, self.p4, self.p5, self.p6, self.p7)),
        ensures
            call_ensures(func, (self.p1, self.p2, self.p3, self.p4, self.p5, self.p6, self.p7), r),
    {
        func(self.p1, self.p2, self.p3, self.p4, self.p5, self.p6, self.p7)
    }
}

impl<P1: Codec, P2: Codec, P3: Codec, P4: Codec, P5: Codec, P6: Codec, P7: Codec> Codec for Param7<P1, P2, P3, P4, P5, P6, P7> {
    open spec fn decode_failure(m: ValueModel) -> DecodeError {
        match m {
            ValueModel::Tuple(els) => if els.len() != 7 {
                DecodeError::ExpectedTuple { arity: 7 }
            } else if !P1::decodable(els[0]) {
                P1::decode_failure(els[0])
            } else if !P2::decodable(els[1]) {
                P2::decode_failure(els[1])
            } else if !P3::decodable(els[2]) {
                P3::decode_failure(els[2])
            } else if !P4::decodable(els[3]) {
                P4::decode_failure(els[3])
            } else if !P5::decodable(els[4]) {
                P5::decode_failure(els[4])
            } else if !P6::decodable(els[5]) {
                P6::decode_failure(els[5])
            } else {
                P7::decode_failure(els[6])
            },
            _ => DecodeError::ExpectedTuple { arity: 7 },
        }
    }

    open spec fn encoded(&self) -> ValueModel {
        ValueModel::Tuple(seq![self.p1.encoded(), self.p2.encoded(), self.p3.encoded(), self.p4.encoded(), self.p5.encoded(), self.p6.encoded(), self.p7.encoded()])
    }

    open spec fn decodable(m: ValueModel) -> bool {
        m matches ValueModel::Tuple(els) && els.len() == 7 && P1::decodable(els[0]) && P2::decodable(els[1]) && P3::decodable(els[2]) && P4::decodable(els[3]) && P5::decodable(els[4]) && P6::decodable(els[5]) && P7::decodable(els[6])
    }

    fn to_structured_value(&self) -> (v: Value) {
        let mut els: Vec<Value> = Vec::new();
        els.push(self.p1.to_structured_value());
        els.push(self.p2.to_structured_value());
        els.push(self.p3.to_structured_value());
        els.push(self.p4.to_structured_value());
        els.push(self.p5.to_structured_value());
        els.push(self.p6.to_structured_value());
        els.push(self.p7.to_structured_value());
        proof {
            lemma_model_seq(els@);
            assert(Value::model_seq(els@)[0] == els@[0].model());
            assert(Value::model_seq(els@)[1] == els@[1].model());
            assert(Value::model_seq(els@)[2] == els@[2].model());
            assert(Value::model_seq(els@)[3] == els@[3].model());
            assert(Value::model_seq(els@)[4] == els@[4].model());
            assert(Value::model_seq(els@)[5] == els@[5].model());
            assert(Value::model_seq(els@)[6] == els@[6].model());
            assert(Value::model_seq(els@) =~= seq![self.p1.encoded(), self.p2.encoded(), self.p3.encoded(), self.p4.encoded(), self.p5.encoded(), self.p6.encoded(), self.p7.encoded()]);
        }
        Value::Tuple(els)
    }

    fn from_structured_value(v: &Value) -> (r: Result<Self, DecodeError>)
        ensures
            r matches Ok(x) ==> Self::decodable(v.model()) && x.encoded() == v.model(),
            r is Err ==> !Self::decodable(v.model()),
            r matches Err(e) ==> e == Self::decode_failure(v.model()),
            !(v matches Value::Tuple(els) && els@.len() == 7) ==> r == Err::<Self, DecodeError>(
                DecodeError::ExpectedTuple { arity: 7 },
            ),
    {
        match v {
            Value::Tuple(els) => {
                if els.len() == 7 {
                    let p1 = match P1::from_structured_value(&els[0]) {
                        Ok(x) => x,
                        Err(e) => {
                            proof {
                                lemma_model_seq(els@);
                                assert(Value::model_seq(els@)[0] == els@[0].model());
                                assert(Value::model_seq(els@)[1] == els@[1].model());
                                assert(Value::model_seq(els@)[2] == els@[2].model());
                                assert(Value::model_seq(els@)[3] == els@[3].model());
                                assert(Value::model_seq(els@)[4] == els@[4].model());
                                assert(Value::model_seq(els@)[5] == els@[5].model());
                                assert(Value::model_seq(els@)[6] == els@[6].model());
                                assert(v.model()->Tuple_0 == Value::model_seq(els@));
                            }
                            return Err(e);
                        },
                    };
                    let p2 = match P2::from_structured_value(&els[1]) {
                        Ok(x) => x,
                        Err(e) => {
                            proof {
                                lemma_model_seq(els@);
                                assert(Value::model_seq(els@)[0] == els@[0].model());
                                assert(Value::model_seq(els@)[1] == els@[1].model());
                                assert(Value::model_seq(els@)[2] == els@[2].model());
                                assert(Value::model_seq(els@)[3] == els@[3].model());
                                assert(Value::model_seq(els@)[4] == els@[4].model());
                                assert(Value::model_seq(els@)[5] == els@[5].model());
                                assert(Value::model_seq(els@)[6] == els@[6].model());
                                assert(v.model()->Tuple_0 == Value::model_seq(els@));
                            }
                            return Err(e);
                        },
                    };
                    let p3 = match P3::from_structured_value(&els[2]) {
                        Ok(x) => x,
                        Err(e) => {
                            proof {
                                lemma_model_seq(els@);
                                assert(Value::model_seq(els@)[0] == els@[0].model());
                                assert(Value::model_seq(els@)[1] == els@[1].model());
                                assert(Value::model_seq(els@)[2] == els@[2].model());
                                assert(Value::model_seq(els@)[3] == els@[3].model());
                                assert(Value::model_seq(els@)[4] == els@[4].model());
                                assert(Value::model_seq(els@)[5] == els@[5].model());
                                assert(Value::model_seq(els@)[6] == els@[6].model());
                                assert(v.model()->Tuple_0 == Value::model_seq(els@));
                            }
                            return Err(e);
                        },
                    };
                    let p4 = match P4::from_structured_value(&els[3]) {
                        Ok(x) => x,
                        Err(e) => {
                            proof {
                                lemma_model_seq(els@);
                                assert(Value::model_seq(els@)[0] == els@[0].model());
                                assert(Value::model_seq(els@)[1] == els@[1].model());
                                assert(Value::model_seq(els@)[2] == els@[2].model());
                                assert(Value::model_seq(els@)[3] == els@[3].model());
                                assert(Value::model_seq(els@)[4] == els@[4].model());
                                assert(Value::model_seq(els@)[5] == els@[5].model());
                                assert(Value::model_seq(els@)[6] == els@[6].model());
                                assert(v.model()->Tuple_0 == Value::model_seq(els@));
                            }
                            return Err(e);
                        },
                    };
                    let p5 = match P5::from_structured_value(&els[4]) {
                        Ok(x) => x,
                        Err(e) => {
                            proof {
                                lemma_model_seq(els@);
                                assert(Value::model_seq(els@)[0] == els@[0].model());
                                assert(Value::model_seq(els@)[1] == els@[1].model());
                                assert(Value::model_seq(els@)[2] == els@[2].model());
                                assert(Value::model_seq(els@)[3] == els@[3].model());
                                assert(Value::model_seq(els@)[4] == els@[4].model());
                                assert(Value::model_seq(els@)[5] == els@[5].model());
                                assert(Value::model_seq(els@)[6] == els@[6].model());
                                assert(v.model()->Tuple_0 == Value::model_seq(els@));
                            }
                            return Err(e);
                        },
                    };
                    let p6 = match P6::from_structured_value(&els[5]) {
                        Ok(x) => x,
                        Err(e) => {
                            proof {
                                lemma_model_seq(els@);
                                assert(Value::model_seq(els@)[0] == els@[0].model());
                                assert(Value::model_seq(els@)[1] == els@[1].model());
                                assert(Value::model_seq(els@)[2] == els@[2].model());
                                assert(Value::model_seq(els@)[3] == els@[3].model());
                                assert(Value::model_seq(els@)[4] == els@[4].model());
                                assert(Value::model_seq(els@)[5] == els@[5].model());
                                assert(Value::model_seq(els@)[6] == els@[6].model());
                                assert(v.model()->Tuple_0 == Value::model_seq(els@));
                            }
                            return Err(e);
                        },
                    };
                    let p7 = match P7::from_structured_value(&els[6]) {
                        Ok(x) => x,
                        Err(e) => {
                            proof {
                                lemma_model_seq(els@);
                                assert(Value::model_seq(els@)[0] == els@[0].model());
                                assert(Value::model_seq(els@)[1] == els@[1].model());
                                assert(Value::model_seq(els@)[2] == els@[2].model());
                                assert(Value::model_seq(els@)[3] == els@[3].model());
                                assert(Value::model_seq(els@)[4] == els@[4].model());
                                assert(Value::model_seq(els@)[5] == els@[5].model());
                                assert(Value::model_seq(els@)[6] == els@[6].model());
                                assert(v.model()->Tuple_0 == Value::model_seq(els@));
                            }
                            return Err(e);
                        },
                    };
                    proof {
                        lemma_model_seq(els@);
            assert(Value::model_seq(els@)[0] == els@[0].model());
            assert(Value::model_seq(els@)[1] == els@[1].model());
            assert(Value::model_seq(els@)[2] == els@[2].model());
            assert(Value::model_seq(els@)[3] == els@[3].model());
            assert(Value::model_seq(els@)[4] == els@[4].model());
            assert(Value::model_seq(els@)[5] == els@[5].model());
            assert(Value::model_seq(els@)[6] == els@[6].model());
                        assert(v.model()->Tuple_0 == Value::model_seq(els@));
                        assert(Value::model_seq(els@) =~= seq![p1.encoded(), p2.encoded(), p3.encoded(), p4.encoded(), p5.encoded(), p6.encoded(), p7.encoded()]);
                    }
                    Ok(Param7 { p1: p1, p2: p2, p3: p3, p4: p4, p5: p5, p6: p6, p7: p7 })
                } else {
                    proof {
                        lemma_model_seq(els@);
                    }
                    Err(DecodeError::ExpectedTuple { arity: 7 })
                }
            },
            _ => Err(DecodeError::ExpectedTuple { arity: 7 }),
        }
    }

    fn describe_shape() -> (t: TypeDescriptor) {
        let mut els: Vec<TypeDescriptor> = Vec::new();
        els.push(P1::describe_shape());
        els.push(P2::describe_shape());
        els.push(P3::describe_shape());
        els.push(P4::describe_shape());
        els.push(P5::describe_shape());
        els.push(P6::describe_shape());
        els.push(P7::describe_shape());
        TypeDescriptor::Tuple(els)
    }

    proof fn encoded_decodable(&self) {
        P1::encoded_decodable(&self.p1);
        P2::encoded_decodable(&self.p2);
        P3::encoded_decodable(&self.p3);
        P4::encoded_decodable(&self.p4);
        P5::encoded_decodable(&self.p5);
        P6::encoded_decodable(&self.p6);
        P7::encoded_decodable(&self.p7);
    }
}

/// An ordered, fixed tuple of 8 typed call arguments, packed for one durable call.
#[derive(Debug, Clone, PartialEq)]
pub struct Param8<P1, P2, P3, P4, P5, P6, P7, P8> {
    pub p1: P1,
    pub p2: P2,
    pub p3: P3,
    pub p4: P4,
    pub p5: P5,
    pub p6: P6,
    pub p7: P7,
    pub p8: P8,
}

impl<P1, P2, P3, P4, P5, P6, P7, P8> Param8<P1, P2, P3, P4, P5, P6, P7, P8> {
    /// Pack the arguments, in call order.
    pub fn new(p1: P1, p2: P2, p3: P3, p4: P4, p5: P5, p6: P6, p7: P7, p8: P8) -> (r: Self)
        ensures
            r == (Param8 { p1: p1, p2: p2, p3: p3, p4: p4, p5: p5, p6: p6, p7: p7, p8: p8 }),
    {
        Param8 { p1: p1, p2: p2, p3: p3, p4: p4, p5: p5, p6: p6, p7: p7, p8: p8 }
    }

    /// Call `func` with the slots unpacked as positional arguments, in their
    /// original order, consuming the pack.
    pub fn invoke<Func, R>(self, func: Func) -> (r: R) where Func: FnOnce(P1, P2, P3, P4, P5, P6, P7, P8) -> R
        requires
            call_requires(func, (self.p1, self.p2, self.p3, self.p4, self.p5, self.p6, self.p7, self.p8)),
        ensures
            call_ensures(func, (self.p1, self.p2, self.p3, self.p4, self.p5, self.p6, self.p7, self.p8), r),
    {
        func(self.p1, self.p2, self.p3, self.p4, self.p5, self.p6, self.p7, self.p8)
    }
}

impl<P1: Codec, P2: Codec, P3: Codec, P4: Codec, P5: Codec, P6: Codec, P7: Codec, P8: Codec> Codec for Param8<P1, P2, P3, P4, P5, P6, P7, P8> {
    open spec fn decode_failure(m: ValueModel) -> DecodeError {
        match m {
            ValueModel::Tuple(els) => if els.len() != 8 {
                DecodeError::ExpectedTuple { arity: 8 }
            } else if !P1::decodable(els[0]) {
                P1::decode_failure(els[0])
            } else if !P2::decodable(els[1]) {
                P2::decode_failure(els[1])
            } else if !P3::decodable(els[2]) {
                P3::decode_failure(els[2])
            } else if !P4::decodable(els[3]) {
                P4::decode_failure(els[3])
            } else if !P5::decodable(els[4]) {
                P5::decode_failure(els[4])
            } else if !P6::decodable(els[5]) {
                P6::decode_failure(els[5])
            } else if !P7::decodable(els[6]) {
                P7::decode_failure(els[6])
            } else {
                P8::decode_failure(els[7])
            },
            _ => DecodeError::ExpectedTuple { arity: 8 },
        }
    }

    open spec fn encoded(&self) -> ValueModel {
        ValueModel::Tuple(seq![self.p1.encoded(), self.p2.encoded(), self.p3.encoded(), self.p4.encoded(), self.p5.encoded(), self.p6.encoded(), self.p7.encoded(), self.p8.encoded()])
    }

    open spec fn decodable(m: ValueModel) -> bool {
        m matches ValueModel::Tuple(els) && els.len() == 8 && P1::decodable(els[0]) && P2::decodable(els[1]) && P3::decodable(els[2]) && P4::decodable(els[3]) && P5::decodable(els[4]) && P6::decodable(els[5]) && P7::decodable(els[6]) && P8::decodable(els[7])
    }

    fn to_structured_value(&self) -> (v: Value) {
        let mut els: Vec<Value> = Vec::new();
        els.push(self.p1.to_structured_value());
        els.push(self.p2.to_structured_value());
        els.push(self.p3.to_structured_value());
        els.push(self.p4.to_structured_value());
        els.push(self.p5.to_structured_value());
        els.push(self.p6.to_structured_value());
        els.push(self.p7.to_structured_value());
        els.push(self.p8.to_structured_value());
        proof {
            lemma_model_seq(els@);
            assert(Value::model_seq(els@)[0] == els@[0].model());
            assert(Value::model_seq(els@)[1] == els@[1].model());
            assert(Value::model_seq(els@)[2] == els@[2].model());
            assert(Value::model_seq(els@)[3] == els@[3].model());
            assert(Value::model_seq(els@)[4] == els@[4].model());
            assert(Value::model_seq(els@)[5] == els@[5].model());
            assert(Value::model_seq(els@)[6] == els@[6].model());
            assert(Value::model_seq(els@)[7] == els@[7].model());
            assert(Value::model_seq(els@) =~= seq![self.p1.encoded(), self.p2.encoded(), self.p3.encoded(), self.p4.encoded(), self.p5.encoded(), self.p6.encoded(), self.p7.encoded(), self.p8.encoded()]);
        }
        Value::Tuple(els)
    }

    fn from_structured_value(v: &Value) -> (r: Result<Self, DecodeError>)
        ensures
            r matches Ok(x) ==> Self::decodable(v.model()) && x.encoded() == v.model(),
            r is Err ==> !Self::decodable(v.model()),
            r matches Err(e) ==> e == Self::decode_failure(v.model()),
            !(v matches Value::Tuple(els) && els@.len() == 8) ==> r == Err::<Self, DecodeError>(
                DecodeError::ExpectedTuple { arity: 8 },
            ),
    {
        match v {
            Value::Tuple(els) => {
                if els.len() == 8 {
                    let p1 = match P1::from_structured_value(&els[0]) {
                        Ok(x) => x,
                        Err(e) => {
                            proof {
                                lemma_model_seq(els@);
                                assert(Value::model_seq(els@)[0] == els@[0].model());
                                assert(Value::model_seq(els@)[1] == els@[1].model());
                                assert(Value::model_seq(els@)[2] == els@[2].model());
                                assert(Value::model_seq(els@)[3] == els@[3].model());
                                assert(Value::model_seq(els@)[4] == els@[4].model());
                                assert(Value::model_seq(els@)[5] == els@[5].model());
                                assert(Value::model_seq(els@)[6] == els@[6].model());
                                assert(Value::model_seq(els@)[7] == els@[7].model());
                                assert(v.model()->Tuple_0 == Value::model_seq(els@));
                            }
                            return Err(e);
                        },
                    };
                    let p2 = match P2::from_structured_value(&els[1]) {
                        Ok(x) => x,
                        Err(e) => {
                            proof {
                                lemma_model_seq(els@);
                                assert(Value::model_seq(els@)[0] == els@[0].model());
                                assert(Value::model_seq(els@)[1] == els@[1].model());
                                assert(Value::model_seq(els@)[2] == els@[2].model());
                                assert(Value::model_seq(els@)[3] == els@[3].model());
                                assert(Value::model_seq(els@)[4] == els@[4].model());
                                assert(Value::model_seq(els@)[5] == els@[5].model());
                                assert(Value::model_seq(els@)[6] == els@[6].model());
                                assert(Value::model_seq(els@)[7] == els@[7].model());
                                assert(v.model()->Tuple_0 == Value::model_seq(els@));
                            }
                            return Err(e);
                        },
                    };
                    let p3 = match P3::from_structured_value(&els[2]) {
                        Ok(x) => x,
                        Err(e) => {
                            proof {
                                lemma_model_seq(els@);
                                assert(Value::model_seq(els@)[0] == els@[0].model());
                                assert(Value::model_seq(els@)[1] == els@[1].model());
                                assert(Value::model_seq(els@)[2] == els@[2].model());
                                assert(Value::model_seq(els@)[3] == els@[3].model());
                                assert(Value::model_seq(els@)[4] == els@[4].model());
                                assert(Value::model_seq(els@)[5] == els@[5].model());
                                assert(Value::model_seq(els@)[6] == els@[6].model());
                                assert(Value::model_seq(els@)[7] == els@[7].model());
                                assert(v.model()->Tuple_0 == Value::model_seq(els@));
                            }
                            return Err(e);
                        },
                    };
                    let p4 = match P4::from_structured_value(&els[3]) {
                        Ok(x) => x,
                        Err(e) => {
                            proof {
                                lemma_model_seq(els@);
                                assert(Value::model_seq(els@)[0] == els@[0].model());
                                assert(Value::model_seq(els@)[1] == els@[1].model());
                                assert(Value::model_seq(els@)[2] == els@[2].model());
                                assert(Value::model_seq(els@)[3] == els@[3].model());
                                assert(Value::model_seq(els@)[4] == els@[4].model());
                                assert(Value::model_seq(els@)[5] == els@[5].model());
                                assert(Value::model_seq(els@)[6] == els@[6].model());
                                assert(Value::model_seq(els@)[7] == els@[7].model());
                                assert(v.model()->Tuple_0 == Value::model_seq(els@));
                            }
                            return Err(e);
                        },
                    };
                    let p5 = match P5::from_structured_value(&els[4]) {
                        Ok(x) => x,
                        Err(e) => {
                            proof {
                                lemma_model_seq(els@);
                                assert(Value::model_seq(els@)[0] == els@[0].model());
                                assert(Value::model_seq(els@)[1] == els@[1].model());
                                assert(Value::model_seq(els@)[2] == els@[2].model());
                                assert(Value::model_seq(els@)[3] == els@[3].model());
                                assert(Value::model_seq(els@)[4] == els@[4].model());
                                assert(Value::model_seq(els@)[5] == els@[5].model());
                                assert(Value::model_seq(els@)[6] == els@[6].model());
                                assert(Value::model_seq(els@)[7] == els@[7].model());
                                assert(v.model()->Tuple_0 == Value::model_seq(els@));
                            }
                            return Err(e);
                        },
                    };
                    let p6 = match P6::from_structured_value(&els[5]) {
                        Ok(x) => x,
                        Err(e) => {
                            proof {
                                lemma_model_seq(els@);
                                assert(Value::model_seq(els@)[0] == els@[0].model());
                                assert(Value::model_seq(els@)[1] == els@[1].model());
                                assert(Value::model_seq(els@)[2] == els@[2].model());
                                assert(Value::model_seq(els@)[3] == els@[3].model());
                                assert(Value::model_seq(els@)[4] == els@[4].model());
                                assert(Value::model_seq(els@)[5] == els@[5].model());
                                assert(Value::model_seq(els@)[6] == els@[6].model());
                                assert(Value::model_seq(els@)[7] == els@[7].model());
                                assert(v.model()->Tuple_0 == Value::model_seq(els@));
                            }
                            return Err(e);
                        },
                    };
                    let p7 = match P7::from_structured_value(&els[6]) {
                        Ok(x) => x,
                        Err(e) => {
                            proof {
                                lemma_model_seq(els@);
                                assert(Value::model_seq(els@)[0] == els@[0].model());
                                assert(Value::model_seq(els@)[1] == els@[1].model());
                                assert(Value::model_seq(els@)[2] == els@[2].model());
                                assert(Value::model_seq(els@)[3] == els@[3].model());
                                assert(Value::model_seq(els@)[4] == els@[4].model());
                                assert(Value::model_seq(els@)[5] == els@[5].model());
                                assert(Value::model_seq(els@)[6] == els@[6].model());
                                assert(Value::model_seq(els@)[7] == els@[7].model());
                                assert(v.model()->Tuple_0 == Value::model_seq(els@));
                            }
                            return Err(e);
                        },
                    };
                    let p8 = match P8::from_structured_value(&els[7]) {
                        Ok(x) => x,
                        Err(e) => {
                            proof {
                                lemma_model_seq(els@);
                                assert(Value::model_seq(els@)[0] == els@[0].model());
                                assert(Value::model_seq(els@)[1] == els@[1].model());
                                assert(Value::model_seq(els@)[2] == els@[2].model());
                                assert(Value::model_seq(els@)[3] == els@[3].model());
                                assert(Value::model_seq(els@)[4] == els@[4].model());
                                assert(Value::model_seq(els@)[5] == els@[5].model());
                                assert(Value::model_seq(els@)[6] == els@[6].model());
                                assert(Value::model_seq(els@)[7] == els@[7].model());
                                assert(v.model()->Tuple_0 == Value::model_seq(els@));
                            }
                            return Err(e);
                        },
                    };
                    proof {
                        lemma_model_seq(els@);
            assert(Value::model_seq(els@)[0] == els@[0].model());
            assert(Value::model_seq(els@)[1] == els@[1].model());
            assert(Value::model_seq(els@)[2] == els@[2].model());
            assert(Value::model_seq(els@)[3] == els@[3].model());
            assert(Value::model_seq(els@)[4] == els@[4].model());
            assert(Value::model_seq(els@)[5] == els@[5].model());
            assert(Value::model_seq(els@)[6] == els@[6].model());
            assert(Value::model_seq(els@)[7] == els@[7].model());
                        assert(v.model()->Tuple_0 == Value::model_seq(els@));
                        assert(Value::model_seq(els@) =~= seq![p1.encoded(), p2.encoded(), p3.encoded(), p4.encoded(), p5.encoded(), p6.encoded(), p7.encoded(), p8.encoded()]);
                    }
                    Ok(Param8 { p1: p1, p2: p2, p3: p3, p4: p4, p5: p5, p6: p6, p7: p7, p8: p8 })
                } else {
                    proof {
                        lemma_model_seq(els@);
                    }
                    Err(DecodeError::ExpectedTuple { arity: 8 })
                }
            },
            _ => Err(DecodeError::ExpectedTuple { arity: 8 }),
        }
    }

    fn describe_shape() -> (t: TypeDescriptor) {
        let mut els: Vec<TypeDescriptor> = Vec::new();
        els.push(P1::describe_shape());
        els.push(P2::describe_shape());
        els.push(P3::describe_shape());
        els.push(P4::describe_shape());
        els.push(P5::describe_shape());
        els.push(P6::describe_shape());
        els.push(P7::describe_shape());
        els.push(P8::describe_shape());
        TypeDescriptor::Tuple(els)
    }

    proof fn encoded_decodable(&self) {
        P1::encoded_decodable(&self.p1);
        P2::encoded_decodable(&self.p2);
        P3::encoded_decodable(&self.p3);
        P4::encoded_decodable(&self.p4);
        P5::encoded_decodable(&self.p5);
        P6::encoded_decodable(&self.p6);
        P7::encoded_decodable(&self.p7);
        P8::encoded_decodable(&self.p8);
    }
}

/// An ordered, fixed tuple of 9 typed call arguments, packed for one durable call.
#[derive(Debug, Clone, PartialEq)]
pub struct Param9<P1, P2, P3, P4, P5, P6, P7, P8, P9> {
    pub p1: P1,
    pub p2: P2,
    pub p3: P3,
    pub p4: P4,
    pub p5: P5,
    pub p6: P6,
    pub p7: P7,
    pub p8: P8,
    pub p9: P9,
}

impl<P1, P2, P3, P4, P5, P6, P7, P8, P9> Param9<P1, P2, P3, P4, P5, P6, P7, P8, P9> {
    /// Pack the arguments, in call order.
    pub fn new(p1: P1, p2: P2, p3: P3, p4: P4, p5: P5, p6: P6, p7: P7, p8: P8, p9: P9) -> (r: Self)
        ensures
            r == (Param9 { p1: p1, p2: p2, p3: p3, p4: p4, p5: p5, p6: p6, p7: p7, p8: p8, p9: p9 }),
    {
        Param9 { p1: p1, p2: p2, p3: p3, p4: p4, p5: p5, p6: p6, p7: p7, p8: p8, p9: p9 }
    }

    /// Call `func` with the slots unpacked as positional arguments, in their
    /// original order, consuming the pack.
    pub fn invoke<Func, R>(self, func: Func) -> (r: R) where Func: FnOnce(P1, P2, P3, P4, P5, P6, P7, P8, P9) -> R
        requires
            call_requires(func, (self.p1, self.p2, self.p3, self.p4, self.p5, self.p6, self.p7, self.p8, self.p9)),
        ensures
            call_ensures(func, (self.p1, self.p2, self.p3, self.p4, self.p5, self.p6, self.p7, self.p8, self.p9), r),
    {
        func(self.p1, self.p2, self.p3, self.p4, self.p5, self.p6, self.p7, self.p8, self.p9)
    }
}

impl<P1: Codec, P2: Codec, P3: Codec, P4: Codec, P5: Codec, P6: Codec, P7: Codec, P8: Codec, P9: Codec> Codec for Param9<P1, P2, P3, P4, P5, P6, P7, P8, P9> {
    open spec fn decode_failure(m: ValueModel) -> DecodeError {
        match m {
            ValueModel::Tuple(els) => if els.len() != 9 {
                DecodeError::ExpectedTuple { arity: 9 }
            } else if !P1::decodable(els[0]) {
                P1::decode_failure(els[0])
            } else if !P2::decodable(els[1]) {
                P2::decode_failure(els[1])
            } else if !P3::decodable(els[2]) {
                P3::decode_failure(els[2])
            } else if !P4::decodable(els[3]) {
                P4::decode_failure(els[3])
            } else if !P5::decodable(els[4]) {
                P5::decode_failure(els[4])
            } else if !P6::decodable(els[5]) {
                P6::decode_failure(els[5])
            } else if !P7::decodable(els[6]) {
                P7::decode_failure(els[6])
            } else if !P8::decodable(els[7]) {
                P8::decode_failure(els[7])
            } else {
                P9::decode_failure(els[8])
            },
            _ => DecodeError::ExpectedTuple { arity: 9 },
        }
    }

    open spec fn encoded(&self) -> ValueModel {
        ValueModel::Tuple(seq![self.p1.encoded(), self.p2.encoded(), self.p3.encoded(), self.p4.encoded(), self.p5.encoded(), self.p6.encoded(), self.p7.encoded(), self.p8.encoded(), self.p9.encoded()])
    }

    open spec fn decodable(m: ValueModel) -> bool {
        m matches ValueModel::Tuple(els) && els.len() == 9 && P1::decodable(els[0]) && P2::decodable(els[1]) && P3::decodable(els[2]) && P4::decodable(els[3]) && P5::decodable(els[4]) && P6::decodable(els[5]) && P7::decodable(els[6]) && P8::decodable(els[7]) && P9::decodable(els[8])
    }

    fn to_structured_value(&self) -> (v: Value) {
        let mut els: Vec<Value> = Vec::new();
        els.push(self.p1.to_structured_value());
        els.push(self.p2.to_structured_value());
        els.push(self.p3.to_structured_value());
        els.push(self.p4.to_structured_value());
        els.push(self.p5.to_structured_value());
        els.push(self.p6.to_structured_value());
        els.push(self.p7.to_structured_value());
        els.push(self.p8.to_structured_value());
        els.push(self.p9.to_structured_value());
        proof {
            lemma_model_seq(els@);
            assert(Value::model_seq(els@)[0] == els@[0].model());
            assert(Value::model_seq(els@)[1] == els@[1].model());
            assert(Value::model_seq(els@)[2] == els@[2].model());
            assert(Value::model_seq(els@)[3] == els@[3].model());
            assert(Value::model_seq(els@)[4] == els@[4].model());
            assert(Value::model_seq(els@)[5] == els@[5].model());
            assert(Value::model_seq(els@)[6] == els@[6].model());
            assert(Value::model_seq(els@)[7] == els@[7].model());
            assert(Value::model_seq(els@)[8] == els@[8].model());
            assert(Value::model_seq(els@) =~= seq![self.p1.encoded(), self.p2.encoded(), self.p3.encoded(), self.p4.encoded(), self.p5.encoded(), self.p6.encoded(), self.p7.encoded(), self.p8.encoded(), self.p9.encoded()]);
        }
        Value::Tuple(els)
    }

    fn from_structured_value(v: &Value) -> (r: Result<Self, DecodeError>)
        ensures
            r matches Ok(x) ==> Self::decodable(v.model()) && x.encoded() == v.model(),
            r is Err ==> !Self::decodable(v.model()),
            r matches Err(e) ==> e == Self::decode_failure(v.model()),
            !(v matches Value::Tuple(els) && els@.len() == 9) ==> r == Err::<Self, DecodeError>(
                DecodeError::ExpectedTuple { arity: 9 },
            ),
    {
        match v {
            Value::Tuple(els) => {
                if els.len() == 9 {
                    let p1 = match P1::from_structured_value(&els[0]) {
                        Ok(x) => x,
                        Err(e) => {
                            proof {
                                lemma_model_seq(els@);
                                assert(Value::model_seq(els@)[0] == els@[0].model());
                                assert(Value::model_seq(els@)[1] == els@[1].model());
                                assert(Value::model_seq(els@)[2] == els@[2].model());
                                assert(Value::model_seq(els@)[3] == els@[3].model());
                                assert(Value::model_seq(els@)[4] == els@[4].model());
                                assert(Value::model_seq(els@)[5] == els@[5].model());
                                assert(Value::model_seq(els@)[6] == els@[6].model());
                                assert(Value::model_seq(els@)[7] == els@[7].model());
                                assert(Value::model_seq(els@)[8] == els@[8].model());
                                assert(v.model()->Tuple_0 == Value::model_seq(els@));
                            }
                            return Err(e);
                        },
                    };
                    let p2 = match P2::from_structured_value(&els[1]) {
                        Ok(x) => x,
                        Err(e) => {
                            proof {
                                lemma_model_seq(els@);
                                assert(Value::model_seq(els@)[0] == els@[0].model());
                                assert(Value::model_seq(els@)[1] == els@[1].model());
                                assert(Value::model_seq(els@)[2] == els@[2].model());
                                assert(Value::model_seq(els@)[3] == els@[3].model());
                                assert(Value::model_seq(els@)[4] == els@[4].model());
                                assert(Value::model_seq(els@)[5] == els@[5].model());
                                assert(Value::model_seq(els@)[6] == els@[6].model());
                                assert(Value::model_seq(els@)[7] == els@[7].model());
                                assert(Value::model_seq(els@)[8] == els@[8].model());
                                assert(v.model()->Tuple_0 == Value::model_seq(els@));
                            }
                            return Err(e);
                        },
                    };
                    let p3 = match P3::from_structured_value(&els[2]) {
                        Ok(x) => x,
                        Err(e) => {
                            proof {
                                lemma_model_seq(els@);
                                assert(Value::model_seq(els@)[0] == els@[0].model());
                                assert(Value::model_seq(els@)[1] == els@[1].model());
                                assert(Value::model_seq(els@)[2] == els@[2].model());
                                assert(Value::model_seq(els@)[3] == els@[3].model());
                                assert(Value::model_seq(els@)[4] == els@[4].model());
                                assert(Value::model_seq(els@)[5] == els@[5].model());
                                assert(Value::model_seq(els@)[6] == els@[6].model());
                                assert(Value::model_seq(els@)[7] == els@[7].model());
                                assert(Value::model_seq(els@)[8] == els@[8].model());
                                assert(v.model()->Tuple_0 == Value::model_seq(els@));
                            }
                            return Err(e);
                        },
                    };
                    let p4 = match P4::from_structured_value(&els[3]) {
                        Ok(x) => x,
                        Err(e) => {
                            proof {
                                lemma_model_seq(els@);
                                assert(Value::model_seq(els@)[0] == els@[0].model());
                                assert(Value::model_seq(els@)[1] == els@[1].model());
                                assert(Value::model_seq(els@)[2] == els@[2].model());
                                assert(Value::model_seq(els@)[3] == els@[3].model());
                                assert(Value::model_seq(els@)[4] == els@[4].model());
                                assert(Value::model_seq(els@)[5] == els@[5].model());
                                assert(Value::model_seq(els@)[6] == els@[6].model());
                                assert(Value::model_seq(els@)[7] == els@[7].model());
                                assert(Value::model_seq(els@)[8] == els@[8].model());
                                assert(v.model()->Tuple_0 == Value::model_seq(els@));
                            }
                            return Err(e);
                        },
                    };
                    let p5 = match P5::from_structured_value(&els[4]) {
                        Ok(x) => x,
                        Err(e) => {
                            proof {
                                lemma_model_seq(els@);
                                assert(Value::model_seq(els@)[0] == els@[0].model());
                                assert(Value::model_seq(els@)[1] == els@[1].model());
                                assert(Value::model_seq(els@)[2] == els@[2].model());
                                assert(Value::model_seq(els@)[3] == els@[3].model());
                                assert(Value::model_seq(els@)[4] == els@[4].model());
                                assert(Value::model_seq(els@)[5] == els@[5].model());
                                assert(Value::model_seq(els@)[6] == els@[6].model());
                                assert(Value::model_seq(els@)[7] == els@[7].model());
                                assert(Value::model_seq(els@)[8] == els@[8].model());
                                assert(v.model()->Tuple_0 == Value::model_seq(els@));
                            }
                            return Err(e);
                        },
                    };
                    let p6 = match P6::from_structured_value(&els[5]) {
                        Ok(x) => x,
                        Err(e) => {
                            proof {
                                lemma_model_seq(els@);
                                assert(Value::model_seq(els@)[0] == els@[0].model());
                                assert(Value::model_seq(els@)[1] == els@[1].model());
                                assert(Value::model_seq(els@)[2] == els@[2].model());
                                assert(Value::model_seq(els@)[3] == els@[3].model());
                                assert(Value::model_seq(els@)[4] == els@[4].model());
                                assert(Value::model_seq(els@)[5] == els@[5].model());
                                assert(Value::model_seq(els@)[6] == els@[6].model());
                                assert(Value::model_seq(els@)[7] == els@[7].model());
                                assert(Value::model_seq(els@)[8] == els@[8].model());
                                assert(v.model()->Tuple_0 == Value::model_seq(els@));
                            }
                            return Err(e);
                        },
                    };
                    let p7 = match P7::from_structured_value(&els[6]) {
                        Ok(x) => x,
                        Err(e) => {
                            proof {
                                lemma_model_seq(els@);
                                assert(Value::model_seq(els@)[0] == els@[0].model());
                                assert(Value::model_seq(els@)[1] == els@[1].model());
                                assert(Value::model_seq(els@)[2] == els@[2].model());
                                assert(Value::model_seq(els@)[3] == els@[3].model());
                                assert(Value::model_seq(els@)[4] == els@[4].model());
                                assert(Value::model_seq(els@)[5] == els@[5].model());
                                assert(Value::model_seq(els@)[6] == els@[6].model());
                                assert(Value::model_seq(els@)[7] == els@[7].model());
                                assert(Value::model_seq(els@)[8] == els@[8].model());
                                assert(v.model()->Tuple_0 == Value::model_seq(els@));
                            }
                            return Err(e);
                        },
                    };
                    let p8 = match P8::from_structured_value(&els[7]) {
                        Ok(x) => x,
                        Err(e) => {
                            proof {
                                lemma_model_seq(els@);
                                assert(Value::model_seq(els@)[0] == els@[0].model());
                                assert(Value::model_seq(els@)[1] == els@[1].model());
                                assert(Value::model_seq(els@)[2] == els@[2].model());
                                assert(Value::model_seq(els@)[3] == els@[3].model());
                                assert(Value::model_seq(els@)[4] == els@[4].model());
                                assert(Value::model_seq(els@)[5] == els@[5].model());
                                assert(Value::model_seq(els@)[6] == els@[6].model());
                                assert(Value::model_seq(els@)[7] == els@[7].model());
                                assert(Value::model_seq(els@)[8] == els@[8].model());
                                assert(v.model()->Tuple_0 == Value::model_seq(els@));
                            }
                            return Err(e);
                        },
                    };
                    let p9 = match P9::from_structured_value(&els[8]) {
                        Ok(x) => x,
                        Err(e) => {
                            proof {
                                lemma_model_seq(els@);
                                assert(Value::model_seq(els@)[0] == els@[0].model());
                                assert(Value::model_seq(els@)[1] == els@[1].model());
                                assert(Value::model_seq(els@)[2] == els@[2].model());
                                assert(Value::model_seq(els@)[3] == els@[3].model());
                                assert(Value::model_seq(els@)[4] == els@[4].model());
                                assert(Value::model_seq(els@)[5] == els@[5].model());
                                assert(Value::model_seq(els@)[6] == els@[6].model());
                                assert(Value::model_seq(els@)[7] == els@[7].model());
                                assert(Value::model_seq(els@)[8] == els@[8].model());
                                assert(v.model()->Tuple_0 == Value::model_seq(els@));
                            }
                            return Err(e);
                        },
                    };
                    proof {
                        lemma_model_seq(els@);
            assert(Value::model_seq(els@)[0] == els@[0].model());
            assert(Value::model_seq(els@)[1] == els@[1].model());
            assert(Value::model_seq(els@)[2] == els@[2].model());
            assert(Value::model_seq(els@)[3] == els@[3].model());
            assert(Value::model_seq(els@)[4] == els@[4].model());
            assert(Value::model_seq(els@)[5] == els@[5].model());
            assert(Value::model_seq(els@)[6] == els@[6].model());
            assert(Value::model_seq(els@)[7] == els@[7].model());
            assert(Value::model_seq(els@)[8] == els@[8].model());
                        assert(v.model()->Tuple_0 == Value::model_seq(els@));
                        assert(Value::model_seq(els@) =~= seq![p1.encoded(), p2.encoded(), p3.encoded(), p4.encoded(), p5.encoded(), p6.encoded(), p7.encoded(), p8.encoded(), p9.encoded()]);
                    }
                    Ok(Param9 { p1: p1, p2: p2, p3: p3, p4: p4, p5: p5, p6: p6, p7: p7, p8: p8, p9: p9 })
                } else {
                    proof {
                        lemma_model_seq(els@);
                    }
                    Err(DecodeError::ExpectedTuple { arity: 9 })
                }
            },
            _ => Err(DecodeError::ExpectedTuple { arity: 9 }),
        }
    }

    fn describe_shape() -> (t: TypeDescriptor) {
        let mut els: Vec<TypeDescriptor> = Vec::new();
        els.push(P1::describe_shape());
        els.push(P2::describe_shape());
        els.push(P3::describe_shape());
        els.push(P4::describe_shape());
        els.push(P5::describe_shape());
        els.push(P6::describe_shape());
        els.push(P7::describe_shape());
        els.push(P8::describe_shape());
        els.push(P9::describe_shape());
        TypeDescriptor::Tuple(els)
    }

    proof fn encoded_decodable(&self) {
        P1::encoded_decodable(&self.p1);
        P2::encoded_decodable(&self.p2);
        P3::encoded_decodable(&self.p3);
        P4::encoded_decodable(&self.p4);
        P5::encoded_decodable(&self.p5);
        P6::encoded_decodable(&self.p6);
        P7::encoded_decodable(&self.p7);
        P8::encoded_decodable(&self.p8);
        P9::encoded_decodable(&self.p9);
    }
}

/// An ordered, fixed tuple of 10 typed call arguments, packed for one durable call.
#[derive(Debug, Clone, PartialEq)]
pub struct Param10<P1, P2, P3, P4, P5, P6, P7, P8, P9, P10> {
    pub p1: P1,
    pub p2: P2,
    pub p3: P3,
    pub p4: P4,
    pub p5: P5,
    pub p6: P6,
    pub p7: P7,
    pub p8: P8,
    pub p9: P9,
    pub p10: P10,
}

impl<P1, P2, P3, P4, P5, P6, P7, P8, P9, P10> Param10<P1, P2, P3, P4, P5, P6, P7, P8, P9, P10> {
    /// Pack the arguments, in call order.
    pub fn new(p1: P1, p2: P2, p3: P3, p4: P4, p5: P5, p6: P6, p7: P7, p8: P8, p9: P9, p10: P10) -> (r: Self)
        ensures
            r == (Param10 { p1: p1, p2: p2, p3: p3, p4: p4, p5: p5, p6: p6, p7: p7, p8: p8, p9: p9, p10: p10 }),
    {
        Param10 { p1: p1, p2: p2, p3: p3, p4: p4, p5: p5, p6: p6, p7: p7, p8: p8, p9: p9, p10: p10 }
    }

    /// Call `func` with the slots unpacked as positional arguments, in their
    /// original order, consuming the pack.
    pub fn invoke<Func, R>(self, func: Func) -> (r: R) where Func: FnOnce(P1, P2, P3, P4, P5, P6, P7, P8, P9, P10) -> R
        requires
            call_requires(func, (self.p1, self.p2, self.p3, self.p4, self.p5, self.p6, self.p7, self.p8, self.p9, self.p10)),
        ensures
            call_ensures(func, (self.p1, self.p2, self.p3, self.p4, self.p5, self.p6, self.p7, self.p8, self.p9, self.p10), r),
    {
        func(self.p1, self.p2, self.p3, self.p4, self.p5, self.p6, self.p7, self.p8, self.p9, self.p10)
    }
}

impl<P1: Codec, P2: Codec, P3: Codec, P4: Codec, P5: Codec, P6: Codec, P7: Codec, P8: Codec, P9: Codec, P10: Codec> Codec for Param10<P1, P2, P3, P4, P5, P6, P7, P8, P9, P10> {
    open spec fn decode_failure(m: ValueModel) -> DecodeError {
        match m {
            ValueModel::Tuple(els) => if els.len() != 10 {
                DecodeError::ExpectedTuple { arity: 10 }
            } else if !P1::decodable(els[0]) {
                P1::decode_failure(els[0])
            } else if !P2::decodable(els[1]) {
                P2::decode_failure(els[1])
            } else if !P3::decodable(els[2]) {
                P3::decode_failure(els[2])
            } else if !P4::decodable(els[3]) {
                P4::decode_failure(els[3])
            } else if !P5::decodable(els[4]) {
                P5::decode_failure(els[4])
            } else if !P6::decodable(els[5]) {
                P6::decode_failure(els[5])
            } else if !P7::decodable(els[6]) {
                P7::decode_failure(els[6])
            } else if !P8::decodable(els[7]) {
                P8::decode_failure(els[7])
            } else if !P9::decodable(els[8]) {
                P9::decode_failure(els[8])
            } else {
                P10::decode_failure(els[9])
            },
            _ => DecodeError::ExpectedTuple { arity: 10 },
        }
    }

    open spec fn encoded(&self) -> ValueModel {
        ValueModel::Tuple(seq![self.p1.encoded(), self.p2.encoded(), self.p3.encoded(), self.p4.encoded(), self.p5.encoded(), self.p6.encoded(), self.p7.encoded(), self.p8.encoded(), self.p9.encoded(), self.p10.encoded()])
    }

    open spec fn decodable(m: ValueModel) -> bool {
        m matches ValueModel::Tuple(els) && els.len() == 10 && P1::decodable(els[0]) && P2::decodable(els[1]) && P3::decodable(els[2]) && P4::decodable(els[3]) && P5::decodable(els[4]) && P6::decodable(els[5]) && P7::decodable(els[6]) && P8::decodable(els[7]) && P9::decodable(els[8]) && P10::decodable(els[9])
    }

    fn to_structured_value(&self) -> (v: Value) {
        let mut els: Vec<Value> = Vec::new();
        els.push(self.p1.to_structured_value());
        els.push(self.p2.to_structured_value());
        els.push(self.p3.to_structured_value());
        els.push(self.p4.to_structured_value());
        els.push(self.p5.to_structured_value());
        els.push(self.p6.to_structured_value());
        els.push(self.p7.to_structured_value());
        els.push(self.p8.to_structured_value());
        els.push(self.p9.to_structured_value());
        els.push(self.p10.to_structured_value());
        proof {
            lemma_model_seq(els@);
            assert(Value::model_seq(els@)[0] == els@[0].model());
            assert(Value::model_seq(els@)[1] == els@[1].model());
            assert(Value::model_seq(els@)[2] == els@[2].model());
            assert(Value::model_seq(els@)[3] == els@[3].model());
            assert(Value::model_seq(els@)[4] == els@[4].model());
            assert(Value::model_seq(els@)[5] == els@[5].model());
            assert(Value::model_seq(els@)[6] == els@[6].model());
            assert(Value::model_seq(els@)[7] == els@[7].model());
            assert(Value::model_seq(els@)[8] == els@[8].model());
            assert(Value::model_seq(els@)[9] == els@[9].model());
            assert(Value::model_seq(els@) =~= seq![self.p1.encoded(), self.p2.encoded(), self.p3.encoded(), self.p4.encoded(), self.p5.encoded(), self.p6.encoded(), self.p7.encoded(), self.p8.encoded(), self.p9.encoded(), self.p10.encoded()]);
        }
        Value::Tuple(els)
    }

    fn from_structured_value(v: &Value) -> (r: Result<Self, DecodeError>)
        ensures
            r matches Ok(x) ==> Self::decodable(v.model()) && x.encoded() == v.model(),
            r is Err ==> !Self::decodable(v.model()),
            r matches Err(e) ==> e == Self::decode_failure(v.model()),
            !(v matches Value::Tuple(els) && els@.len() == 10) ==> r == Err::<Self, DecodeError>(
                DecodeError::ExpectedTuple { arity: 10 },
            ),
    {
        match v {
            Value::Tuple(els) => {
                if els.len() == 10 {
                    let p1 = match P1::from_structured_value(&els[0]) {
                        Ok(x) => x,
                        Err(e) => {
                            proof {
                                lemma_model_seq(els@);
                                assert(Value::model_seq(els@)[0] == els@[0].model());
                                assert(Value::model_seq(els@)[1] == els@[1].model());
                                assert(Value::model_seq(els@)[2] == els@[2].model());
                                assert(Value::model_seq(els@)[3] == els@[3].model());
                                assert(Value::model_seq(els@)[4] == els@[4].model());
                                assert(Value::model_seq(els@)[5] == els@[5].model());
                                assert(Value::model_seq(els@)[6] == els@[6].model());
                                assert(Value::model_seq(els@)[7] == els@[7].model());
                                assert(Value::model_seq(els@)[8] == els@[8].model());
                                assert(Value::model_seq(els@)[9] == els@[9].model());
                                assert(v.model()->Tuple_0 == Value::model_seq(els@));
                            }
                            return Err(e);
                        },
                    };
                    let p2 = match P2::from_structured_value(&els[1]) {
                        Ok(x) => x,
                        Err(e) => {
                            proof {
                                lemma_model_seq(els@);
                                assert(Value::model_seq(els@)[0] == els@[0].model());
                                assert(Value::model_seq(els@)[1] == els@[1].model());
                                assert(Value::model_seq(els@)[2] == els@[2].model());
                                assert(Value::model_seq(els@)[3] == els@[3].model());
                                assert(Value::model_seq(els@)[4] == els@[4].model());
                                assert(Value::model_seq(els@)[5] == els@[5].model());
                                assert(Value::model_seq(els@)[6] == els@[6].model());
                                assert(Value::model_seq(els@)[7] == els@[7].model());
                                assert(Value::model_seq(els@)[8] == els@[8].model());
                                assert(Value::model_seq(els@)[9] == els@[9].model());
                                assert(v.model()->Tuple_0 == Value::model_seq(els@));
                            }
                            return Err(e);
                        },
                    };
                    let p3 = match P3::from_structured_value(&els[2]) {
                        Ok(x) => x,
                        Err(e) => {
                            proof {
                                lemma_model_seq(els@);
                                assert(Value::model_seq(els@)[0] == els@[0].model());
                                assert(Value::model_seq(els@)[1] == els@[1].model());
                                assert(Value::model_seq(els@)[2] == els@[2].model());
                                assert(Value::model_seq(els@)[3] == els@[3].model());
                                assert(Value::model_seq(els@)[4] == els@[4].model());
                                assert(Value::model_seq(els@)[5] == els@[5].model());
                                assert(Value::model_seq(els@)[6] == els@[6].model());
                                assert(Value::model_seq(els@)[7] == els@[7].model());
                                assert(Value::model_seq(els@)[8] == els@[8].model());
                                assert(Value::model_seq(els@)[9] == els@[9].model());
                                assert(v.model()->Tuple_0 == Value::model_seq(els@));
                            }
                            return Err(e);
                        },
                    };
                    let p4 = match P4::from_structured_value(&els[3]) {
                        Ok(x) => x,
                        Err(e) => {
                            proof {
                                lemma_model_seq(els@);
                                assert(Value::model_seq(els@)[0] == els@[0].model());
                                assert(Value::model_seq(els@)[1] == els@[1].model());
                                assert(Value::model_seq(els@)[2] == els@[2].model());
                                assert(Value::model_seq(els@)[3] == els@[3].model());
                                assert(Value::model_seq(els@)[4] == els@[4].model());
                                assert(Value::model_seq(els@)[5] == els@[5].model());
                                assert(Value::model_seq(els@)[6] == els@[6].model());
                                assert(Value::model_seq(els@)[7] == els@[7].model());
                                assert(Value::model_seq(els@)[8] == els@[8].model());
                                assert(Value::model_seq(els@)[9] == els@[9].model());
                                assert(v.model()->Tuple_0 == Value::model_seq(els@));
                            }
                            return Err(e);
                        },
                    };
                    let p5 = match P5::from_structured_value(&els[4]) {
                        Ok(x) => x,
                        Err(e) => {
                            proof {
                                lemma_model_seq(els@);
                                assert(Value::model_seq(els@)[0] == els@[0].model());
                                assert(Value::model_seq(els@)[1] == els@[1].model());
                                assert(Value::model_seq(els@)[2] == els@[2].model());
                                assert(Value::model_seq(els@)[3] == els@[3].model());
                                assert(Value::model_seq(els@)[4] == els@[4].model());
                                assert(Value::model_seq(els@)[5] == els@[5].model());
                                assert(Value::model_seq(els@)[6] == els@[6].model());
                                assert(Value::model_seq(els@)[7] == els@[7].model());
                                assert(Value::model_seq(els@)[8] == els@[8].model());
                                assert(Value::model_seq(els@)[9] == els@[9].model());
                                assert(v.model()->Tuple_0 == Value::model_seq(els@));
                            }
                            return Err(e);
                        },
                    };
                    let p6 = match P6::from_structured_value(&els[5]) {
                        Ok(x) => x,
                        Err(e) => {
                            proof {
                                lemma_model_seq(els@);
                                assert(Value::model_seq(els@)[0] == els@[0].model());
                                assert(Value::model_seq(els@)[1] == els@[1].model());
                                assert(Value::model_seq(els@)[2] == els@[2].model());
                                assert(Value::model_seq(els@)[3] == els@[3].model());
                                assert(Value::model_seq(els@)[4] == els@[4].model());
                                assert(Value::model_seq(els@)[5] == els@[5].model());
                                assert(Value::model_seq(els@)[6] == els@[6].model());
                                assert(Value::model_seq(els@)[7] == els@[7].model());
                                assert(Value::model_seq(els@)[8] == els@[8].model());
                                assert(Value::model_seq(els@)[9] == els@[9].model());
                                assert(v.model()->Tuple_0 == Value::model_seq(els@));
                            }
                            return Err(e);
                        },
                    };
                    let p7 = match P7::from_structured_value(&els[6]) {
                        Ok(x) => x,
                        Err(e) => {
                            proof {
                                lemma_model_seq(els@);
                                assert(Value::model_seq(els@)[0] == els@[0].model());
                                assert(Value::model_seq(els@)[1] == els@[1].model());
                                assert(Value::model_seq(els@)[2] == els@[2].model());
                                assert(Value::model_seq(els@)[3] == els@[3].model());
                                assert(Value::model_seq(els@)[4] == els@[4].model());
                                assert(Value::model_seq(els@)[5] == els@[5].model());
                                assert(Value::model_seq(els@)[6] == els@[6].model());
                                assert(Value::model_seq(els@)[7] == els@[7].model());
                                assert(Value::model_seq(els@)[8] == els@[8].model());
                                assert(Value::model_seq(els@)[9] == els@[9].model());
                                assert(v.model()->Tuple_0 == Value::model_seq(els@));
                            }
                            return Err(e);
                        },
                    };
                    let p8 = match P8::from_structured_value(&els[7]) {
                        Ok(x) => x,
                        Err(e) => {
                            proof {
                                lemma_model_seq(els@);
                                assert(Value::model_seq(els@)[0] == els@[0].model());
                                assert(Value::model_seq(els@)[1] == els@[1].model());
                                assert(Value::model_seq(els@)[2] == els@[2].model());
                                assert(Value::model_seq(els@)[3] == els@[3].model());
                                assert(Value::model_seq(els@)[4] == els@[4].model());
                                assert(Value::model_seq(els@)[5] == els@[5].model());
                                assert(Value::model_seq(els@)[6] == els@[6].model());
                                assert(Value::model_seq(els@)[7] == els@[7].model());
                                assert(Value::model_seq(els@)[8] == els@[8].model());
                                assert(Value::model_seq(els@)[9] == els@[9].model());
                                assert(v.model()->Tuple_0 == Value::model_seq(els@));
                            }
                            return Err(e);
                        },
                    };
                    let p9 = match P9::from_structured_value(&els[8]) {
                        Ok(x) => x,
                        Err(e) => {
                            proof {
                                lemma_model_seq(els@);
                                assert(Value::model_seq(els@)[0] == els@[0].model());
                                assert(Value::model_seq(els@)[1] == els@[1].model());
                                assert(Value::model_seq(els@)[2] == els@[2].model());
                                assert(Value::model_seq(els@)[3] == els@[3].model());
                                assert(Value::model_seq(els@)[4] == els@[4].model());
                                assert(Value::model_seq(els@)[5] == els@[5].model());
                                assert(Value::model_seq(els@)[6] == els@[6].model());
                                assert(Value::model_seq(els@)[7] == els@[7].model());
                                assert(Value::model_seq(els@)[8] == els@[8].model());
                                assert(Value::model_seq(els@)[9] == els@[9].model());
                                assert(v.model()->Tuple_0 == Value::model_seq(els@));
                            }
                            return Err(e);
                        },
                    };
                    let p10 = match P10::from_structured_value(&els[9]) {
                        Ok(x) => x,
                        Err(e) => {
                            proof {
                                lemma_model_seq(els@);
                                assert(Value::model_seq(els@)[0] == els@[0].model());
                                assert(Value::model_seq(els@)[1] == els@[1].model());
                                assert(Value::model_seq(els@)[2] == els@[2].model());
                                assert(Value::model_seq(els@)[3] == els@[3].model());
                                assert(Value::model_seq(els@)[4] == els@[4].model());
                                assert(Value::model_seq(els@)[5] == els@[5].model());
                                assert(Value::model_seq(els@)[6] == els@[6].model());
                                assert(Value::model_seq(els@)[7] == els@[7].model());
                                assert(Value::model_seq(els@)[8] == els@[8].model());
                                assert(Value::model_seq(els@)[9] == els@[9].model());
                                assert(v.model()->Tuple_0 == Value::model_seq(els@));
                            }
                            return Err(e);
                        },
                    };
                    proof {
                        lemma_model_seq(els@);
            assert(Value::model_seq(els@)[0] == els@[0].model());
            assert(Value::model_seq(els@)[1] == els@[1].model());
            assert(Value::model_seq(els@)[2] == els@[2].model());
            assert(Value::model_seq(els@)[3] == els@[3].model());
            assert(Value::model_seq(els@)[4] == els@[4].model());
            assert(Value::model_seq(els@)[5] == els@[5].model());
            assert(Value::model_seq(els@)[6] == els@[6].model());
            assert(Value::model_seq(els@)[7] == els@[7].model());
            assert(Value::model_seq(els@)[8] == els@[8].model());
            assert(Value::model_seq(els@)[9] == els@[9].model());
                        assert(v.model()->Tuple_0 == Value::model_seq(els@));
                        assert(Value::model_seq(els@) =~= seq![p1.encoded(), p2.encoded(), p3.encoded(), p4.encoded(), p5.encoded(), p6.encoded(), p7.encoded(), p8.encoded(), p9.encoded(), p10.encoded()]);
                    }
                    Ok(Param10 { p1: p1, p2: p2, p3: p3, p4: p4, p5: p5, p6: p6, p7: p7, p8: p8, p9: p9, p10: p10 })
                } else {
                    proof {
                        lemma_model_seq(els@);
                    }
                    Err(DecodeError::ExpectedTuple { arity: 10 })
                }
            },
            _ => Err(DecodeError::ExpectedTuple { arity: 10 }),
        }
    }

    fn describe_shape() -> (t: TypeDescriptor) {
        let mut els: Vec<TypeDescriptor> = Vec::new();
        els.push(P1::describe_shape());
        els.push(P2::describe_shape());
        els.push(P3::describe_shape());
        els.push(P4::describe_shape());
        els.push(P5::describe_shape());
        els.push(P6::describe_shape());
        els.push(P7::describe_shape());
        els.push(P8::describe_shape());
        els.push(P9::describe_shape());
        els.push(P10::describe_shape());
        TypeDescriptor::Tuple(els)
    }

    proof fn encoded_decodable(&self) {
        P1::encoded_decodable(&self.p1);
        P2::encoded_decodable(&self.p2);
        P3::encoded_decodable(&self.p3);
        P4::encoded_decodable(&self.p4);
        P5::encoded_decodable(&self.p5);
        P6::encoded_decodable(&self.p6);
        P7::encoded_decodable(&self.p7);
        P8::encoded_decodable(&self.p8);
        P9::encoded_decodable(&self.p9);
        P10::encoded_decodable(&self.p10);
    }
}

} // verus!
