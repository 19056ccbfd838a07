//! The thread-scoped registry.
//!
//! A process-wide registry hands every thread its own mock instance, so
//! parallel tests sharing one static handle never see each other's
//! expectations. Thread identity is a plain number the caller supplies;
//! entries are created lazily on first access and never removed — isolation
//! between consecutive tests on a reused thread comes from clearing, not
//! from deletion.

use std::collections::HashMap;

use vstd::pervasive::unreached;
use vstd::prelude::*;

use crate::error::MockError;
use crate::mockdown::Mockdown;
use crate::store::{mock_outcome, Expect};
use crate::value::{TypeTag, Value};

verus! {

/// A registry of mock instances, one per thread identity. Its view is the
/// map from thread identity to that thread's instance.
pub struct StaticMock<M: Mockdown> {
    threads: HashMap<u64, M>,
}

impl<M: Mockdown> View for StaticMock<M> {
    type V = Map<u64, M>;

    closed spec fn view(&self) -> Map<u64, M> {
        self.threads@
    }
}

impl<M: Mockdown + Default> StaticMock<M> {
    /// A fresh registry with no thread entries.
    pub fn new() -> (r: Self)
        ensures
            r@ == Map::<u64, M>::empty(),
    {
        StaticMock { threads: HashMap::new() }
    }

    /// Whether a thread already holds an instance.
    pub fn has_thread(&self, thread: u64) -> (b: bool)
        ensures
            b == self@.contains_key(thread),
    {
        self.threads.contains_key(&thread)
    }

    /// Gives a thread its instance for a new test: created on first access,
    /// and always reset to empty, so every test starts from a known-empty
    /// queue whatever a prior test on the same thread left behind. Entries
    /// of other threads are untouched.
    pub fn static_mock(&mut self, thread: u64)
        ensures
            final(self)@.contains_key(thread),
            final(self)@[thread].queue() == Seq::<Expect<M::Fm>>::empty(),
            forall|t: u64|
                t != thread ==> final(self)@.contains_key(t) == old(self)@.contains_key(t),
            forall|t: u64|
                t != thread && old(self)@.contains_key(t) ==> final(self)@[t] == old(self)@[t],
    {
        let entry: M = match self.threads.remove(&thread) {
            Some(m) => m,
            None => M::default(),
        };
        let entry = entry.clear();
        self.threads.insert(thread, entry);
    }

    /// Registers a behavior on a thread's instance, leaving every other
    /// thread's entry untouched. The thread must have been given its
    /// instance by `static_mock` first.
    pub fn expect_on(&mut self, thread: u64, map: M::Fm)
        requires
            old(self)@.contains_key(thread),
        ensures
            final(self)@.contains_key(thread),
            final(self)@[thread].queue() == seq![(Expect { map })] + old(self)@[thread].queue(),
            forall|t: u64|
                t != thread ==> final(self)@.contains_key(t) == old(self)@.contains_key(t),
            forall|t: u64|
                t != thread && old(self)@.contains_key(t) ==> final(self)@[t] == old(self)@[t],
    {
        let entry: M = match self.threads.remove(&thread) {
            Some(m) => m,
            None => unreached(),
        };
        let entry = entry.expect(map);
        self.threads.insert(thread, entry);
    }

    /// Routes a consumption to a thread's instance, without the implicit
    /// reset: expectations registered earlier in the same test stay pending.
    /// Entries of other threads are untouched. The thread must have been
    /// given its instance by `static_mock` first.
    pub fn on_mock(&mut self, thread: u64, args: Value, want: TypeTag) -> (r: Result<
        Value,
        MockError,
    >)
        requires
            old(self)@.contains_key(thread),
        ensures
            final(self)@.contains_key(thread),
            final(self)@[thread].queue() == mock_outcome(
                old(self)@[thread].queue(),
                args@,
                want,
            ).0,
            r matches Ok(v) ==> mock_outcome(old(self)@[thread].queue(), args@, want).1 == Ok::<
                _,
                MockError,
            >(v@),
            r matches Err(e) ==> mock_outcome(old(self)@[thread].queue(), args@, want).1 == Err::<
                crate::value::ValueModel,
                _,
            >(e),
            forall|t: u64|
                t != thread ==> final(self)@.contains_key(t) == old(self)@.contains_key(t),
            forall|t: u64|
                t != thread && old(self)@.contains_key(t) ==> final(self)@[t] == old(self)@[t],
    {
        let mut entry: M = match self.threads.remove(&thread) {
            Some(m) => m,
            None => unreached(),
        };
        let r = entry.on_mock(args, want);
        self.threads.insert(thread, entry);
        r
    }
}

/// Thread isolation: replacing one thread's registry entry — the only way a
/// registration or a consumption ever changes the registry — never changes
/// what another thread's next consumption yields.
pub proof fn lemma_thread_isolation<M: Mockdown>(
    reg: Map<u64, M>,
    a: u64,
    b: u64,
    m: M,
    args: crate::value::ValueModel,
    want: TypeTag,
)
    requires
        a != b,
        reg.contains_key(b),
    ensures
        mock_outcome(reg.insert(a, m)[b].queue(), args, want) == mock_outcome(
            reg[b].queue(),
            args,
            want,
        ),
{
}

} // verus!
