//! Behaviors: the mappings an expectation wraps.
//!
//! A behavior is any value implementing [`Mapping`]: it names the one input
//! type it accepts and the one output type it produces, and maps a well-typed
//! input to its answer. The engine never invokes a behavior on an input of
//! the wrong type. [`ValueFn`] is the ready-made assortment.

use vstd::prelude::*;

use crate::text::int_text;
use crate::value::{tag_of, TypeTag, Value, ValueModel};

verus! {

/// A single-use behavior: a pure mapping from one concrete input type to one
/// concrete output type, spoken of through the type-erased vocabulary.
pub trait Mapping: Sized {
    /// The input type the behavior accepts.
    spec fn in_tag(&self) -> TypeTag;

    /// The output type the behavior produces.
    spec fn out_tag(&self) -> TypeTag;

    /// The answer the behavior gives to a well-typed input.
    spec fn map_spec(&self, v: ValueModel) -> ValueModel;

    /// The input type, at run time.
    fn input_tag(&self) -> (t: TypeTag)
        ensures
            t == self.in_tag(),
    ;

    /// The output type, at run time.
    fn output_tag(&self) -> (t: TypeTag)
        ensures
            t == self.out_tag(),
    ;

    /// Invokes the behavior on a well-typed input.
    fn apply(&self, v: Value) -> (r: Value)
        requires
            tag_of(v@) == self.in_tag(),
        ensures
            r@ == self.map_spec(v@),
            tag_of(r@) == self.out_tag(),
    ;
}

/// Signed 64-bit wrap-around addition, on the mathematical integers.
pub open spec fn add_wrapped(x: int, k: int) -> int {
    if x + k > i64::MAX {
        x + k - 0x1_0000_0000_0000_0000
    } else if x + k < i64::MIN {
        x + k + 0x1_0000_0000_0000_0000
    } else {
        x + k
    }
}

/// Ready-made behaviors over the value vocabulary.
#[derive(Debug, PartialEq, Eq)]
pub enum ValueFn {
    /// Answers the input itself.
    Echo(TypeTag),
    /// Answers a fixed value, whatever the well-typed input was.
    Answer(TypeTag, Value),
    /// Adds a constant to an integer input, wrapping on overflow.
    AddInt(i64),
    /// Renders an integer input as decimal text.
    IntToText,
}

impl Mapping for ValueFn {
    open spec fn in_tag(&self) -> TypeTag {
        match self {
            ValueFn::Echo(t) => *t,
            ValueFn::Answer(t, _) => *t,
            ValueFn::AddInt(_) => TypeTag::Int,
            ValueFn::IntToText => TypeTag::Int,
        }
    }

    open spec fn out_tag(&self) -> TypeTag {
        match self {
            ValueFn::Echo(t) => *t,
            ValueFn::Answer(_, w) => tag_of(w@),
            ValueFn::AddInt(_) => TypeTag::Int,
            ValueFn::IntToText => TypeTag::Text,
        }
    }

    open spec fn map_spec(&self, v: ValueModel) -> ValueModel {
        match self {
            ValueFn::Echo(_) => v,
            ValueFn::Answer(_, w) => w@,
            ValueFn::AddInt(k) => match v {
                ValueModel::Int(x) => ValueModel::Int(add_wrapped(x, *k as int)),
                _ => v,
            },
            ValueFn::IntToText => match v {
                ValueModel::Int(x) => ValueModel::Text(int_text(x)),
                _ => v,
            },
        }
    }

    fn input_tag(&self) -> (t: TypeTag) {
        match self {
            ValueFn::Echo(t) => *t,
            ValueFn::Answer(t, _) => *t,
            ValueFn::AddInt(_) => TypeTag::Int,
            ValueFn::IntToText => TypeTag::Int,
        }
    }

    fn output_tag(&self) -> (t: TypeTag) {
        match self {
            ValueFn::Echo(t) => *t,
            ValueFn::Answer(_, w) => w.type_tag(),
            ValueFn::AddInt(_) => TypeTag::Int,
            ValueFn::IntToText => TypeTag::Text,
        }
    }

    fn apply(&self, v: Value) -> (r: Value) {
        match self {
            ValueFn::Echo(_) => v,
            ValueFn::Answer(_, w) => w.dup(),
            ValueFn::AddInt(k) => match v {
                Value::Int(x) => {
                    let y = x.wrapping_add(*k);
                    proof {
                        assert(y as int == add_wrapped(x as int, *k as int));
                    }
                    Value::Int(y)
                },
                _ => v,
            },
            ValueFn::IntToText => match v {
                Value::Int(x) => Value::Text(crate::text::i64_text(x)),
                _ => v,
            },
        }
    }
}

} // verus!
