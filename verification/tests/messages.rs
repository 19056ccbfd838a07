//! Rendering of signatures, diagnostics and decimal text.

use mockdown::error::{signature_name, tag_name, type_error, MockError, Signature};
use mockdown::text::{i64_text, u64_text};
use mockdown::value::{TypeTag, Value};

#[test]
fn tag_names() {
    assert_eq!(tag_name(TypeTag::Unit), "Unit");
    assert_eq!(tag_name(TypeTag::Bool), "Bool");
    assert_eq!(tag_name(TypeTag::Int), "Int");
    assert_eq!(tag_name(TypeTag::Text), "Text");
}

#[test]
fn signature_names() {
    let s = Signature {
        when: TypeTag::Bool,
        gives: TypeTag::Unit,
    };
    assert_eq!(signature_name(s), "fn(Bool) -> Unit");
}

#[test]
fn type_error_message() {
    let received = Signature {
        when: TypeTag::Int,
        gives: TypeTag::Text,
    };
    assert_eq!(
        type_error("nothing", received),
        "expect type mismatch: expecting \"nothing\", received \"fn(Int) -> Text\""
    );
}

#[test]
fn no_expectation_message() {
    let e = MockError::NoExpectation {
        received: Signature {
            when: TypeTag::Unit,
            gives: TypeTag::Bool,
        },
    };
    assert_eq!(
        e.message(),
        "expect type mismatch: expecting \"nothing\", received \"fn(Unit) -> Bool\""
    );
}

#[test]
fn type_mismatch_message() {
    let e = MockError::TypeMismatch {
        expected: Signature {
            when: TypeTag::Text,
            gives: TypeTag::Text,
        },
        received: Signature {
            when: TypeTag::Int,
            gives: TypeTag::Unit,
        },
    };
    assert_eq!(
        e.message(),
        "expect type mismatch: expecting \"fn(Text) -> Text\", received \"fn(Int) -> Unit\""
    );
}

#[test]
fn decimal_text_unsigned() {
    assert_eq!(u64_text(0), "0");
    assert_eq!(u64_text(7), "7");
    assert_eq!(u64_text(1030), "1030");
    assert_eq!(u64_text(u64::MAX), "18446744073709551615");
}

#[test]
fn decimal_text_signed() {
    assert_eq!(i64_text(0), "0");
    assert_eq!(i64_text(42), "42");
    assert_eq!(i64_text(-5), "-5");
    assert_eq!(i64_text(i64::MAX), "9223372036854775807");
    assert_eq!(i64_text(i64::MIN), "-9223372036854775808");
}

#[test]
fn value_tags_and_copies() {
    let v = Value::Text("abc".to_string());
    assert_eq!(v.type_tag(), TypeTag::Text);
    assert_eq!(v.dup(), v);
    assert_eq!(Value::Unit.type_tag(), TypeTag::Unit);
    assert_eq!(Value::Bool(false).type_tag(), TypeTag::Bool);
    assert_eq!(Value::Int(-1).type_tag(), TypeTag::Int);
    assert_eq!(Value::Int(-1).dup(), Value::Int(-1));
}
