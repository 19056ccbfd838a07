//! Behavior of the thread-scoped registry.

use mockdown::error::MockError;
use mockdown::mapping::ValueFn;
use mockdown::mockdown::Mock;
use mockdown::registry::StaticMock;
use mockdown::value::{TypeTag, Value};

#[test]
fn threads_are_independent() {
    let mut reg: StaticMock<Mock<ValueFn>> = StaticMock::new();
    reg.static_mock(10);
    reg.static_mock(20);
    reg.expect_on(10, ValueFn::Answer(TypeTag::Unit, Value::Int(5)));
    // the expectation registered for thread 10 is invisible to thread 20
    assert!(matches!(
        reg.on_mock(20, Value::Unit, TypeTag::Int),
        Err(MockError::NoExpectation { .. })
    ));
    // while thread 10 still consumes it
    assert_eq!(reg.on_mock(10, Value::Unit, TypeTag::Int), Ok(Value::Int(5)));
}

#[test]
fn static_mock_resets_leftovers() {
    let mut reg: StaticMock<Mock<ValueFn>> = StaticMock::new();
    reg.static_mock(7);
    reg.expect_on(7, ValueFn::Echo(TypeTag::Int));
    // a new test on the same thread starts from a known-empty queue
    reg.static_mock(7);
    assert!(matches!(
        reg.on_mock(7, Value::Int(1), TypeTag::Int),
        Err(MockError::NoExpectation { .. })
    ));
}

#[test]
fn has_thread_tracks_entries() {
    let mut reg: StaticMock<Mock<ValueFn>> = StaticMock::new();
    assert!(!reg.has_thread(1));
    reg.static_mock(1);
    assert!(reg.has_thread(1));
    assert!(!reg.has_thread(2));
}

#[test]
fn expectations_survive_on_mock_routing() {
    let mut reg: StaticMock<Mock<ValueFn>> = StaticMock::new();
    reg.static_mock(3);
    reg.expect_on(3, ValueFn::AddInt(2));
    reg.expect_on(3, ValueFn::IntToText);
    // on_mock performs no implicit reset: both expectations are consumed in order
    assert_eq!(reg.on_mock(3, Value::Int(1), TypeTag::Int), Ok(Value::Int(3)));
    assert_eq!(
        reg.on_mock(3, Value::Int(8), TypeTag::Text),
        Ok(Value::Text("8".to_string()))
    );
}
