//! The facade a mock object exposes.
//!
//! [`Mockdown`] is the capability test code scripts against: register
//! behaviors with `expect`, consume them with `on_mock`, reset with `clear`.
//! An implementor only hands out its expectation store; the facade methods
//! are provided on top of it. [`Mock`] is the ready-made instance, a handle
//! bundling one expectation queue.

use vstd::prelude::*;

use crate::error::{MockError, Signature};
use crate::mapping::Mapping;
use crate::store::{mock_outcome, Expect, ExpectStore};
use crate::value::{TypeTag, Value};

verus! {

/// The mock facade: registration, consumption and reset of expectations.
/// `expect` and `clear` consume and return the instance, so registrations
/// chain fluently.
pub trait Mockdown: Sized {
    /// The behavior type this mock registers.
    type Fm: Mapping;

    /// The pending expectation queue, most recently registered entry first
    /// and the oldest last.
    spec fn queue(&self) -> Seq<Expect<Self::Fm>>;

    /// The underlying expectation store.
    fn store(&self) -> (s: &ExpectStore<Self::Fm>)
        ensures
            s@ == self.queue(),
    ;

    /// The underlying expectation store, for mutation.
    fn store_mut(&mut self) -> (s: &mut ExpectStore<Self::Fm>)
        ensures
            (*s)@ == old(self).queue(),
            final(self).queue() == (*final(s))@,
    ;

    /// Discards every pending expectation: a per-test reset.
    fn clear(self) -> (r: Self)
        ensures
            r.queue() == Seq::<Expect<Self::Fm>>::empty(),
    {
        let mut this = self;
        this.store_mut().clear();
        this
    }

    /// Registers a behavior behind a fresh type-erased entry. Entries
    /// registered earlier stay ahead of it in consumption order.
    fn expect(self, map: Self::Fm) -> (r: Self)
        ensures
            r.queue() == seq![(Expect { map })] + self.queue(),
    {
        let mut this = self;
        this.store_mut().add_expect(map);
        this
    }

    /// Consumes the next pending expectation against a caller-supplied input
    /// and expected output type, exactly as [`mock_outcome`] describes: the
    /// oldest entry is spent, and the caller receives the behavior's answer
    /// on a full signature match, `NoExpectation` when nothing was pending,
    /// and `TypeMismatch` otherwise.
    fn on_mock(&mut self, args: Value, want: TypeTag) -> (r: Result<Value, MockError>)
        ensures
            final(self).queue() == mock_outcome(old(self).queue(), args@, want).0,
            r matches Ok(v) ==> mock_outcome(old(self).queue(), args@, want).1 == Ok::<
                _,
                MockError,
            >(v@),
            r matches Err(e) ==> mock_outcome(old(self).queue(), args@, want).1 == Err::<
                crate::value::ValueModel,
                _,
            >(e),
    {
        let t = args.type_tag();
        match self.store_mut().next_expect() {
            None => Err(
                MockError::NoExpectation { received: Signature { when: t, gives: want } },
            ),
            Some(e) => match e.on_mock(args, want) {
                Ok(v) => Ok(v),
                Err(expected) => Err(
                    MockError::TypeMismatch {
                        expected,
                        received: Signature { when: t, gives: want },
                    },
                ),
            },
        }
    }
}

/// The ready-made mock instance: a handle bundling one expectation queue.
#[derive(Debug)]
pub struct Mock<M: Mapping> {
    store: ExpectStore<M>,
}

impl<M: Mapping> Default for Mock<M> {
    /// A fresh instance with nothing pending.
    fn default() -> (r: Self)
        ensures
            r.queue() == Seq::<Expect<M>>::empty(),
    {
        Mock { store: Default::default() }
    }
}

impl<M: Mapping> Mock<M> {
    /// Gives the instance up. Allowed only once every expectation has been
    /// consumed or discarded: a pending entry at teardown is a defect in the
    /// test script, refused here at verification time instead of aborting at
    /// run time.
    pub fn finish(self)
        requires
            self.queue().len() == 0,
    {
        let Mock { store } = self;
        store.finish();
    }
}

impl<M: Mapping> Mockdown for Mock<M> {
    type Fm = M;

    closed spec fn queue(&self) -> Seq<Expect<M>> {
        self.store@
    }

    fn store(&self) -> (s: &ExpectStore<M>) {
        &self.store
    }

    fn store_mut(&mut self) -> (s: &mut ExpectStore<M>) {
        &mut self.store
    }
}

} // verus!
