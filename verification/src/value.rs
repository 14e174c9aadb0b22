//! The structured value representation used for everything that crosses the
//! durability boundary: a self-describing tree of scalars, lists, tuples,
//! records, variants and handle references, together with a value-free
//! description of a type's shape and the errors decoding can raise.

use vstd::prelude::*;

verus! {

/// A self-describing tree of plain values. Parameters and results of durable
/// calls are turned into this form before they are written to the durability
/// log, and are read back from it on replay.
#[derive(Debug, PartialEq, Eq)]
pub enum Value {
    Bool(bool),
    U64(u64),
    S64(i64),
    Text(String),
    List(Vec<Value>),
    Tuple(Vec<Value>),
    Record(Vec<Value>),
    Variant(u32, Vec<Value>),
    Handle(u64),
}

/// The mathematical shape of a [`Value`]: the same tree with sequences in
/// place of vectors and character sequences in place of strings. Contracts
/// speak of values through this model.
#[verifier::ext_equal]
pub enum ValueModel {
    Bool(bool),
    U64(u64),
    S64(i64),
    Text(Seq<char>),
    List(Seq<ValueModel>),
    Tuple(Seq<ValueModel>),
    Record(Seq<ValueModel>),
    Variant(u32, Seq<ValueModel>),
    Handle(u64),
}

impl Value {
    /// The abstract tree this value stands for.
    pub open spec fn model(self) -> ValueModel
        decreases self,
    {
        match self {
            Value::Bool(b) => ValueModel::Bool(b),
            Value::U64(n) => ValueModel::U64(n),
            Value::S64(n) => ValueModel::S64(n),
            Value::Text(s) => ValueModel::Text(s@),
            Value::List(els) => ValueModel::List(Self::model_seq(els@)),
            Value::Tuple(els) => ValueModel::Tuple(Self::model_seq(els@)),
            Value::Record(els) => ValueModel::Record(Self::model_seq(els@)),
            Value::Variant(tag, payload) => ValueModel::Variant(tag, Self::model_seq(payload@)),
            Value::Handle(h) => ValueModel::Handle(h),
        }
    }

    /// The models of a sequence of values, in order.
    pub open spec fn model_seq(els: Seq<Value>) -> Seq<ValueModel>
        decreases els,
    {
        if els.len() == 0 {
            Seq::empty()
        } else {
            Self::model_seq(els.drop_last()).push(els.last().model())
        }
    }
}

/// The model of a sequence of values is the sequence of their models.
pub proof fn lemma_model_seq(els: Seq<Value>)
    ensures
        Value::model_seq(els).len() == els.len(),
        forall|i: int| 0 <= i < els.len() ==> Value::model_seq(els)[i] == els[i].model(),
    decreases els,
{
    if els.len() > 0 {
        lemma_model_seq(els.drop_last());
        assert(forall|i: int|
            0 <= i < els.len() - 1 ==> els.drop_last()[i] == els[i]);
    }
}

/// Appending one value appends its model.
pub proof fn lemma_model_seq_push(els: Seq<Value>, v: Value)
    ensures
        Value::model_seq(els.push(v)) == Value::model_seq(els).push(v.model()),
{
    assert(els.push(v).drop_last() =~= els);
    assert(els.push(v).last() == v);
}

/// A value-free description of a type's encoded structure, for consumers that
/// validate stored records without deserializing them.
#[derive(Debug, PartialEq, Eq)]
pub enum TypeDescriptor {
    Bool,
    U8,
    U16,
    U32,
    U64,
    S32,
    S64,
    Text,
    List(Box<TypeDescriptor>),
    Tuple(Vec<TypeDescriptor>),
    Record(Vec<TypeDescriptor>),
    Variant(Vec<Vec<TypeDescriptor>>),
    Handle,
}

/// Why decoding a structured value failed.
#[derive(Debug, Clone, PartialEq, Eq)]
pub enum DecodeError {
    /// The value was not a tuple of exactly the expected arity.
    ExpectedTuple { arity: usize },
    /// The value did not have the shape the type requires.
    Shape,
}

} // verus!
