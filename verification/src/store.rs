//! The expectation queue and its type-erased entries.
//!
//! [`Expect`] wraps one registered behavior; [`ExpectStore`] keeps the
//! registered entries in an ordered queue, inserting at the front and
//! consuming from the back, so that consumption order equals registration
//! order — strict first-in, first-out.

use vstd::prelude::*;

use crate::error::{MockError, Signature};
use crate::mapping::Mapping;
use crate::value::{tag_of, TypeTag, Value, ValueModel};

verus! {

/// A type-erased entry: one registered behavior, consumable exactly once
/// against the concrete types it was registered with.
#[derive(Debug, PartialEq, Eq)]
pub struct Expect<M: Mapping> {
    pub map: M,
}

impl<M: Mapping> Expect<M> {
    /// The signature the entry was registered with.
    pub open spec fn sig(&self) -> Signature {
        Signature { when: self.map.in_tag(), gives: self.map.out_tag() }
    }

    /// The signature the entry was registered with, at run time.
    pub fn signature(&self) -> (s: Signature)
        ensures
            s == self.sig(),
    {
        Signature { when: self.map.input_tag(), gives: self.map.output_tag() }
    }

    /// Consumes the entry against a caller-supplied input and expected output
    /// type: both ends of the signature must match exactly, and only on a
    /// full match is the behavior invoked. On a mismatch the answer is the
    /// entry's own signature, so the caller can name both ends.
    pub fn on_mock(&self, args: Value, want: TypeTag) -> (r: Result<Value, Signature>)
        ensures
            r is Ok <==> (self.map.in_tag() == tag_of(args@) && self.map.out_tag() == want),
            r matches Ok(v) ==> v@ == self.map.map_spec(args@) && tag_of(v@) == want,
            r matches Err(s) ==> s == self.sig(),
    {
        let when = self.map.input_tag();
        let gives = self.map.output_tag();
        let t = args.type_tag();
        if when == t && gives == want {
            Ok(self.map.apply(args))
        } else {
            Err(Signature { when, gives })
        }
    }
}

/// The expectation queue: an ordered collection of entries, consumed in
/// registration order. Its view is the sequence of pending entries, the
/// front (most recently registered) first and the oldest last.
#[derive(Debug)]
pub struct ExpectStore<M: Mapping> {
    entries: Vec<Expect<M>>,
}

impl<M: Mapping> View for ExpectStore<M> {
    type V = Seq<Expect<M>>;

    closed spec fn view(&self) -> Seq<Expect<M>> {
        self.entries@
    }
}

impl<M: Mapping> Default for ExpectStore<M> {
    /// A fresh queue with nothing pending.
    fn default() -> (r: Self)
        ensures
            r@ == Seq::<Expect<M>>::empty(),
    {
        ExpectStore { entries: Vec::new() }
    }
}

impl<M: Mapping> ExpectStore<M> {
    /// Registers a behavior. The new entry goes to the front, so entries
    /// registered earlier stay ahead of it in consumption order.
    pub fn add_expect(&mut self, map: M)
        ensures
            final(self)@ == seq![(Expect { map })] + old(self)@,
    {
        self.entries.insert(0, Expect { map });
        proof {
            assert(final(self)@ =~= seq![(Expect { map })] + old(self)@);
        }
    }

    /// Removes and returns the oldest pending entry, or nothing when the
    /// queue is empty.
    pub fn next_expect(&mut self) -> (r: Option<Expect<M>>)
        ensures
            old(self)@.len() == 0 ==> r is None && final(self)@ == old(self)@,
            old(self)@.len() > 0 ==> r == Some(old(self)@.last()) && final(self)@ == old(
                self,
            )@.drop_last(),
    {
        self.entries.pop()
    }

    /// Discards every pending entry unconditionally.
    pub fn clear(&mut self)
        ensures
            final(self)@ == Seq::<Expect<M>>::empty(),
    {
        self.entries.clear();
    }

    /// Whether nothing is pending.
    pub fn is_empty(&self) -> (b: bool)
        ensures
            b == (self@.len() == 0),
    {
        self.entries.len() == 0
    }

    /// Gives the queue up. A queue may only be given up once every
    /// expectation has been consumed or discarded: a pending entry at
    /// teardown is a defect in the test script, and this precondition
    /// refuses it at verification time instead of aborting at run time.
    pub fn finish(self)
        requires
            self@.len() == 0,
    {
    }
}

/// What consuming the next expectation on queue `q` yields for an input
/// `args` and a caller-expected output type `want`: the remaining queue,
/// and either the behavior's answer or the error owed.
///
/// The oldest entry is consumed whether or not its signature matches; a
/// mismatch spends the entry, exactly like a successful consumption.
pub open spec fn mock_outcome<M: Mapping>(
    q: Seq<Expect<M>>,
    args: ValueModel,
    want: TypeTag,
) -> (Seq<Expect<M>>, Result<ValueModel, MockError>) {
    let received = Signature { when: tag_of(args), gives: want };
    if q.len() == 0 {
        (q, Err(MockError::NoExpectation { received }))
    } else {
        let e = q.last();
        let rest = q.drop_last();
        if e.map.in_tag() == tag_of(args) && e.map.out_tag() == want {
            (rest, Ok(e.map.map_spec(args)))
        } else {
            (rest, Err(MockError::TypeMismatch { expected: e.sig(), received }))
        }
    }
}

/// The queue obtained by registering the behaviors `maps` on an empty queue,
/// one `add_expect` at a time, `maps[0]` first.
pub open spec fn register_all<M: Mapping>(maps: Seq<M>) -> Seq<Expect<M>>
    decreases maps.len(),
{
    if maps.len() == 0 {
        Seq::empty()
    } else {
        seq![(Expect { map: maps.last() })] + register_all(maps.drop_last())
    }
}

/// The queue left after `k` consumptions, each removing the oldest entry as
/// `next_expect` and `mock_outcome` do.
pub open spec fn consumed<M: Mapping>(q: Seq<Expect<M>>, k: int) -> Seq<Expect<M>>
    decreases k,
{
    if k <= 0 {
        q
    } else {
        consumed(q, k - 1).drop_last()
    }
}

/// Registration leaves the entries in reverse order, the oldest last.
pub proof fn lemma_register_all<M: Mapping>(maps: Seq<M>)
    ensures
        register_all(maps).len() == maps.len(),
        forall|i: int|
            0 <= i < maps.len() ==> register_all(maps)[i] == (Expect {
                map: maps[maps.len() - 1 - i],
            }),
    decreases maps.len(),
{
    if maps.len() > 0 {
        lemma_register_all(maps.drop_last());
        assert forall|i: int| 0 <= i < maps.len() implies register_all(maps)[i] == (Expect {
            map: maps[maps.len() - 1 - i],
        }) by {
            if i > 0 {
                assert(register_all(maps)[i] == register_all(maps.drop_last())[i - 1]);
            }
        }
    }
}

/// Consuming `k` times keeps exactly the `q.len() - k` youngest entries.
pub proof fn lemma_consumed_take<M: Mapping>(q: Seq<Expect<M>>, k: int)
    requires
        0 <= k <= q.len(),
    ensures
        consumed(q, k) == q.take(q.len() - k),
    decreases k,
{
    if k == 0 {
        assert(consumed(q, 0) =~= q.take(q.len() - 0));
    } else {
        lemma_consumed_take(q, k - 1);
        assert(q.take(q.len() - (k - 1)).drop_last() =~= q.take(q.len() - k));
    }
}

/// First registered, first consumed: after any sequence of registrations on
/// an empty queue, the `k`-th consumption reaches exactly the `k`-th
/// registered behavior — and, when the caller's signature matches it, the
/// outcome is that behavior's answer, with the queue moving on to the
/// `k + 1`-st.
pub proof fn lemma_fifo_order<M: Mapping>(maps: Seq<M>, k: int)
    requires
        0 <= k < maps.len(),
    ensures
        consumed(register_all(maps), k).len() == maps.len() - k,
        consumed(register_all(maps), k).last() == (Expect { map: maps[k] }),
        forall|args: ValueModel, want: TypeTag|
            maps[k].in_tag() == tag_of(args) && maps[k].out_tag() == want
                ==> #[trigger] mock_outcome(consumed(register_all(maps), k), args, want) == (
            consumed(register_all(maps), k + 1),
            Ok::<ValueModel, MockError>(maps[k].map_spec(args)),
            ),
{
    lemma_register_all(maps);
    lemma_consumed_take(register_all(maps), k);
    lemma_consumed_take(register_all(maps), k + 1);
    let q = register_all(maps);
    assert(consumed(q, k).last() == q[maps.len() - k - 1]);
    assert(consumed(q, k).drop_last() =~= q.take(q.len() - (k + 1)));
}

} // verus!
