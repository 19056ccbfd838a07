//! Failure reporting.
//!
//! Consuming an expectation can fail in exactly two ways, both defects in the
//! test script rather than runtime faults: no expectation is pending, or the
//! pending expectation was registered for another signature. Both carry the
//! signatures involved, so a failure is attributable without a queue dump.

use vstd::prelude::*;

use crate::value::TypeTag;

verus! {

/// The signature of an invocation or of an expectation: the input type it
/// accepts and the output type it produces.
#[derive(Clone, Copy, PartialEq, Eq, Structural, Debug)]
pub struct Signature {
    pub when: TypeTag,
    pub gives: TypeTag,
}

/// Why consuming an expectation failed. `received` is always the signature
/// the caller asked for; `expected` is the one the consumed expectation was
/// registered with.
#[derive(Clone, Copy, PartialEq, Eq, Structural, Debug)]
pub enum MockError {
    NoExpectation { received: Signature },
    TypeMismatch { expected: Signature, received: Signature },
}

/// The name of one type of the vocabulary.
pub open spec fn tag_text(t: TypeTag) -> Seq<char> {
    match t {
        TypeTag::Unit => "Unit"@,
        TypeTag::Bool => "Bool"@,
        TypeTag::Int => "Int"@,
        TypeTag::Text => "Text"@,
    }
}

/// A signature rendered as a function type.
pub open spec fn sig_text(s: Signature) -> Seq<char> {
    "fn("@ + tag_text(s.when) + ") -> "@ + tag_text(s.gives)
}

/// The diagnostic line for a failed consumption: what was expected (a
/// signature, or "nothing") and what the caller asked for.
pub open spec fn error_text(expected: Seq<char>, received: Signature) -> Seq<char> {
    "expect type mismatch: expecting \""@ + expected + "\", received \""@ + sig_text(received)
        + "\""@
}

/// The name of one type of the vocabulary.
pub fn tag_name(t: TypeTag) -> (s: &'static str)
    ensures
        s@ == tag_text(t),
{
    match t {
        TypeTag::Unit => "Unit",
        TypeTag::Bool => "Bool",
        TypeTag::Int => "Int",
        TypeTag::Text => "Text",
    }
}

/// Renders a signature as a function type.
pub fn signature_name(s: Signature) -> (r: String)
    ensures
        r@ == sig_text(s),
{
    let mut r = String::from_str("fn(");
    r.append(tag_name(s.when));
    r.append(") -> ");
    r.append(tag_name(s.gives));
    proof {
        assert(r@ =~= sig_text(s));
    }
    r
}

/// Builds the diagnostic line naming what was expected and what the caller
/// asked for.
pub fn type_error(expected: &str, received: Signature) -> (msg: String)
    ensures
        msg@ == error_text(expected@, received),
{
    let mut msg = String::from_str("expect type mismatch: expecting \"");
    msg.append(expected);
    msg.append("\", received \"");
    msg.append(signature_name(received).as_str());
    msg.append("\"");
    proof {
        assert(msg@ =~= error_text(expected@, received));
    }
    msg
}

impl MockError {
    /// The diagnostic line this error renders to.
    pub open spec fn text(&self) -> Seq<char> {
        match self {
            MockError::NoExpectation { received } => error_text("nothing"@, *received),
            MockError::TypeMismatch { expected, received } => error_text(
                sig_text(*expected),
                *received,
            ),
        }
    }

    /// Renders the error, naming the expected and the received signature.
    pub fn message(&self) -> (s: String)
        ensures
            s@ == self.text(),
    {
        match self {
            MockError::NoExpectation { received } => type_error("nothing", *received),
            MockError::TypeMismatch { expected, received } => {
                let e = signature_name(*expected);
                type_error(e.as_str(), *received)
            },
        }
    }
}

} // verus!
