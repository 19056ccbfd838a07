//! The type-erased value vocabulary.
//!
//! An expectation maps one concrete input type to one concrete output type,
//! but all expectations live in a single queue. Values therefore travel
//! through the engine as the tagged union [`Value`]; the tag of a value is
//! recovered with [`Value::type_tag`] and compared against the types an
//! expectation was registered with.

use vstd::prelude::*;

verus! {

/// The concrete types the engine can type-check an invocation against.
#[derive(Clone, Copy, PartialEq, Eq, Structural, Debug)]
pub enum TypeTag {
    Unit,
    Bool,
    Int,
    Text,
}

/// A type-erased value: the single carrier type every expectation accepts
/// and produces. Each variant holds one concrete type of the vocabulary.
#[derive(Debug, PartialEq, Eq)]
pub enum Value {
    Unit,
    Bool(bool),
    Int(i64),
    Text(String),
}

/// The mathematical model of a [`Value`]: integers as `int`, text as its
/// sequence of characters. All contracts speak about this model.
pub enum ValueModel {
    Unit,
    Bool(bool),
    Int(int),
    Text(Seq<char>),
}

/// The type a modelled value inhabits.
pub open spec fn tag_of(v: ValueModel) -> TypeTag {
    match v {
        ValueModel::Unit => TypeTag::Unit,
        ValueModel::Bool(_) => TypeTag::Bool,
        ValueModel::Int(_) => TypeTag::Int,
        ValueModel::Text(_) => TypeTag::Text,
    }
}

impl View for Value {
    type V = ValueModel;

    open spec fn view(&self) -> ValueModel {
        match self {
            Value::Unit => ValueModel::Unit,
            Value::Bool(b) => ValueModel::Bool(*b),
            Value::Int(i) => ValueModel::Int(*i as int),
            Value::Text(s) => ValueModel::Text(s@),
        }
    }
}

impl Value {
    /// The runtime type of this value.
    pub fn type_tag(&self) -> (t: TypeTag)
        ensures
            t == tag_of(self@),
    {
        match self {
            Value::Unit => TypeTag::Unit,
            Value::Bool(_) => TypeTag::Bool,
            Value::Int(_) => TypeTag::Int,
            Value::Text(_) => TypeTag::Text,
        }
    }

    /// An equal copy of this value.
    pub fn dup(&self) -> (r: Value)
        ensures
            r@ == self@,
    {
        match self {
            Value::Unit => Value::Unit,
            Value::Bool(b) => Value::Bool(*b),
            Value::Int(i) => Value::Int(*i),
            Value::Text(s) => Value::Text(s.clone()),
        }
    }
}

} // verus!
