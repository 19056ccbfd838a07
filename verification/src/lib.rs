//! A call-expectation mocking engine.
//!
//! A test registers an ordered sequence of "when this input arrives, answer
//! with this output" behaviors; the code under test consumes them strictly in
//! registration order, and every invocation is checked at run time against the
//! concrete input and output types the behavior was registered with.
//!
//! Values cross the type-erasure boundary as the tagged union [`value::Value`];
//! behaviors are values of any type implementing [`mapping::Mapping`], most
//! commonly the ready-made [`mapping::ValueFn`].

pub mod value;
pub mod text;
pub mod error;
pub mod mapping;
pub mod store;
pub mod mockdown;
pub mod registry;
