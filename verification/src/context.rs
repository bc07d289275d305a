//! The process-wide context that must exist before the first window does.

use vstd::prelude::*;

verus! {

/// Whether the process-wide context has been allocated.
///
/// A process keeps one value of this type. The context is allocated by the
/// first call of [`Context::ensure_exists`] and by no later one, and it is
/// never torn down.
pub struct Context {
    created: bool,
}

impl Context {
    /// Whether the context has been allocated.
    pub closed spec fn created_spec(&self) -> bool {
        self.created
    }

    /// The state after one call of `ensure_exists`.
    pub closed spec fn ensured(self) -> Context {
        Context { created: true }
    }

    /// How many allocations `calls` calls of `ensure_exists` in a row make,
    /// the first of them in this state.
    pub open spec fn allocations(self, calls: nat) -> nat
        decreases calls,
    {
        if calls == 0 {
            0
        } else {
            (if self.created_spec() {
                0nat
            } else {
                1nat
            }) + self.ensured().allocations((calls - 1) as nat)
        }
    }

    /// A process at its start: no context yet.
    pub fn new() -> (ctx: Context)
        ensures
            !ctx.created_spec(),
    {
        Context { created: false }
    }

    /// Whether the context has been allocated.
    #[verifier::when_used_as_spec(created_spec)]
    pub fn is_created(&self) -> (created: bool)
        ensures
            created == self.created_spec(),
    {
        self.created
    }

    /// Makes sure the context exists. Returns whether this call is the one
    /// that allocates it: `true` on the first call, `false` on every later one.
    pub fn ensure_exists(&mut self) -> (allocate: bool)
        ensures
            allocate == !old(self).is_created(),
            *final(self) == old(self).ensured(),
            final(self).is_created(),
    {
        let allocate = !self.created;
        self.created = true;
        allocate
    }

    /// After a call the context exists, and a call on an existing context
    /// changes nothing.
    pub proof fn lemma_ensured(self)
        ensures
            self.ensured().is_created(),
            self.is_created() ==> self.ensured() == self,
            self.ensured().ensured() == self.ensured(),
    {
    }

    /// Any number of calls makes one allocation in all where the context did
    /// not exist before the first of them, and none where it did.
    pub proof fn lemma_allocates_once(self, calls: nat)
        ensures
            self.allocations(calls) == (if calls >= 1 && !self.is_created() {
                1nat
            } else {
                0nat
            }),
        decreases calls,
    {
        if calls > 0 {
            self.ensured().lemma_allocates_once((calls - 1) as nat);
        }
    }
}

} // verus!
