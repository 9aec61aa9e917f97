//! A handler that can be reached only by calling it on the record.
//!
//! A [`Vault`] knows nothing of its handler's type, nor of what a call is, and
//! it is handed each function to call by value, to be called at most once. So it
//! has no way to call the handler but the one call that it records, and nobody
//! else can reach the handler at all.

use vstd::prelude::*;

verus! {

/// A call of one of the handler's functions: which function it was, by what it
/// may do, and what it was handed and left.
#[verifier::reject_recursive_types(H)]
#[verifier::reject_recursive_types(C)]
pub enum Invocation<H, C: 'static> {
    /// A function that sees a call.
    Read { sees: spec_fn(H, C) -> bool, seen: C },
    /// A function that changes a call.
    Write { does: spec_fn(H, &'static mut C) -> bool, before: C, after: C },
}

/// A handler, and a record of the calls that it got.
#[verifier::reject_recursive_types(H)]
#[verifier::reject_recursive_types(C)]
pub struct Vault<H, C: 'static> {
    handler: H,
    record: Ghost<Seq<Invocation<H, C>>>,
}

impl<H, C: 'static> Vault<H, C> {
    /// The handler.
    pub closed spec fn handler(self) -> H {
        self.handler
    }

    /// The calls that the handler got, in their order.
    pub closed spec fn record(self) -> Seq<Invocation<H, C>> {
        self.record@
    }

    /// A handler that has not been called.
    pub fn new(handler: H) -> (vault: Self)
        ensures
            vault.handler() == handler,
            vault.record() == Seq::<Invocation<H, C>>::empty(),
    {
        Vault { handler, record: Ghost(Seq::empty()) }
    }

    /// Show `call` to the handler's function `f`.
    pub fn read<F: FnOnce(&H, &C)>(&mut self, f: F, call: &C)
        requires
            call_requires(f, (&old(self).handler(), call)),
        ensures
            call_ensures(f, (&old(self).handler(), call), ()),
            final(self).handler() == old(self).handler(),
            final(self).record() == old(self).record().push(
                (Invocation::Read {
                    sees: |h: H, c: C| call_ensures(f, (&h, &c), ()),
                    seen: *call,
                }),
            ),
    {
        let ghost sees = |h: H, c: C| call_ensures(f, (&h, &c), ());
        f(&self.handler, call);
        self.record = Ghost(self.record@.push(Invocation::Read { sees, seen: *call }));
    }

    /// Let the handler's function `f` change `call`.
    pub fn write<F: FnOnce(&H, &mut C)>(&mut self, f: F, call: &mut C)
        requires
            forall|c: &mut C|
                *c == *old(call) ==> #[trigger] call_requires(f, (&old(self).handler(), c)),
        ensures
            exists|c: &mut C|
                #![trigger call_ensures(f, (&old(self).handler(), c), ())]
                {
                    &&& *c == *old(call)
                    &&& *final(c) == *final(call)
                    &&& call_ensures(f, (&old(self).handler(), c), ())
                },
            final(self).handler() == old(self).handler(),
            final(self).record() == old(self).record().push(
                (Invocation::Write {
                    does: |h: H, c: &'static mut C| call_ensures(f, (&h, c), ()),
                    before: *old(call),
                    after: *final(call),
                }),
            ),
    {
        let ghost before = *call;
        let ghost does = |h: H, c: &'static mut C| call_ensures(f, (&h, c), ());
        f(&self.handler, call);
        assert(self.handler == old(self).handler());
        self.record = Ghost(
            self.record@.push(Invocation::Write { does, before, after: *call }),
        );
    }
}

} // verus!
