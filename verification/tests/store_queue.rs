//! Behavior of the queue primitives and of a bare entry.

use mockdown::error::Signature;
use mockdown::mapping::ValueFn;
use mockdown::store::{Expect, ExpectStore};
use mockdown::value::{TypeTag, Value};

#[test]
fn queue_is_first_registered_first_consumed() {
    let mut s: ExpectStore<ValueFn> = ExpectStore::default();
    assert!(s.is_empty());
    s.add_expect(ValueFn::AddInt(1));
    s.add_expect(ValueFn::IntToText);
    assert!(!s.is_empty());
    let first = s.next_expect().unwrap();
    assert_eq!(first.map, ValueFn::AddInt(1));
    let second = s.next_expect().unwrap();
    assert_eq!(second.map, ValueFn::IntToText);
    assert!(s.next_expect().is_none());
    s.finish();
}

#[test]
fn queue_clear_discards_everything() {
    let mut s: ExpectStore<ValueFn> = ExpectStore::default();
    s.add_expect(ValueFn::Echo(TypeTag::Int));
    s.add_expect(ValueFn::Echo(TypeTag::Text));
    s.clear();
    assert!(s.is_empty());
    s.finish();
}

#[test]
fn entry_checks_both_signature_ends() {
    let e = Expect {
        map: ValueFn::IntToText,
    };
    assert_eq!(
        e.signature(),
        Signature {
            when: TypeTag::Int,
            gives: TypeTag::Text,
        }
    );
    // full match invokes the behavior
    assert_eq!(
        e.on_mock(Value::Int(-3), TypeTag::Text),
        Ok(Value::Text("-3".to_string()))
    );
    // a wrong input or output end answers the entry's own signature
    assert_eq!(
        e.on_mock(Value::Bool(true), TypeTag::Text),
        Err(Signature {
            when: TypeTag::Int,
            gives: TypeTag::Text,
        })
    );
    assert_eq!(
        e.on_mock(Value::Int(1), TypeTag::Unit),
        Err(Signature {
            when: TypeTag::Int,
            gives: TypeTag::Text,
        })
    );
}
