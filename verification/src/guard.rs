//! The single-owner guard: a slot holding at most one pending action, consumed
//! by at most one of the release operations, and emptied forever afterwards.

use vstd::prelude::*;

verus! {

/// A single-owner deferred action.
///
/// The guard holds at most one pending action. Exactly one of `destroy`,
/// `destroy_ref`, `cancel`, `cancel_ref` or the implicit end of the owner's
/// scope consumes it; `destroy`, `destroy_ref` and the end of scope run it,
/// the two cancel operations discard it unrun. Once the slot is empty it
/// stays empty, so the action runs at most once over the guard's whole life.
pub struct DeferGuard<F: FnOnce()> {
    action: Option<F>,
}

impl<F: FnOnce()> View for DeferGuard<F> {
    type V = Option<F>;

    closed spec fn view(&self) -> Option<F> {
        self.action
    }
}

impl<F: FnOnce()> DeferGuard<F> {
    /// A pending action may always be called with no arguments; this is what
    /// lets the release paths (and the destructor) invoke it.
    #[verifier::type_invariant]
    spec fn wf(self) -> bool {
        self.action matches Some(f) ==> call_requires(f, ())
    }

    /// Creates a guard with `func` pending.
    #[must_use]
    pub fn new(func: F) -> (g: Self)
        requires
            call_requires(func, ()),
        ensures
            g@ == Some(func),
    {
        DeferGuard { action: Some(func) }
    }

    /// Runs the pending action now, if one is still pending, and consumes the
    /// guard. Returns whether the action ran; `false` means some earlier
    /// operation already consumed it.
    pub fn destroy(self) -> (ran: bool)
        ensures
            ran == (self@ is Some),
            self@ matches Some(f) ==> call_ensures(f, (), ()),
    {
        let mut this = self;
        this.destroy_ref()
    }

    /// Runs the pending action now, if one is still pending, leaving the
    /// guard alive with an empty slot. Returns whether the action ran.
    pub fn destroy_ref(&mut self) -> (ran: bool)
        ensures
            ran == (old(self)@ is Some),
            final(self)@ is None,
            old(self)@ matches Some(f) ==> call_ensures(f, (), ()),
    {
        proof {
            use_type_invariant(&*self);
        }
        let mut taken: Option<F> = None;
        core::mem::swap(&mut taken, &mut self.action);
        match taken {
            Some(f) => {
                f();
                true
            },
            None => false,
        }
    }

    /// Discards the pending action without running it and consumes the guard.
    /// Returns whether an action was still pending.
    pub fn cancel(self) -> (had_action: bool)
        ensures
            had_action == (self@ is Some),
    {
        let mut this = self;
        this.cancel_ref()
    }

    /// Discards the pending action without running it, leaving the guard
    /// alive with an empty slot. Returns whether an action was still pending.
    pub fn cancel_ref(&mut self) -> (had_action: bool)
        ensures
            had_action == (old(self)@ is Some),
            final(self)@ is None,
    {
        let mut taken: Option<F> = None;
        core::mem::swap(&mut taken, &mut self.action);
        match taken {
            Some(_) => true,
            None => false,
        }
    }

    /// Hands the (possibly already consumed) slot to the reference-counted
    /// form. Only the crate's own conversions may rebuild a guard from a raw
    /// slot, so well-formedness of the action is preserved.
    pub(crate) fn into_slot(self) -> (slot: Option<F>)
        ensures
            slot == self@,
            slot matches Some(f) ==> call_requires(f, ()),
    {
        let mut this = self;
        proof {
            use_type_invariant(&this);
        }
        let mut taken: Option<F> = None;
        core::mem::swap(&mut taken, &mut this.action);
        taken
    }

    /// Rebuilds a guard around a raw slot.
    pub(crate) fn from_slot(slot: Option<F>) -> (g: Self)
        requires
            slot matches Some(f) ==> call_requires(f, ()),
        ensures
            g@ == slot,
    {
        DeferGuard { action: slot }
    }
}

impl<F: FnOnce()> Drop for DeferGuard<F> {
    /// Relies on the host running destructors at the end of the owning scope:
    /// the implicit trigger delegates to the verified `destroy_ref`, so a
    /// still-pending action runs exactly there. Unverified because a verified
    /// destructor must be proved not to unwind, and a caller-supplied action
    /// may panic; what happens if it panics while the scope is already
    /// unwinding is the host's affair, not this crate's.
    #[verifier::external_body]
    fn drop(&mut self)
        opens_invariants none
        no_unwind
    {
        self.destroy_ref();
    }
}

} // verus!
