//! The reference-counted guard: one pending action jointly owned by any
//! number of threads, run at most once when the last reference goes away,
//! unless a holder set the shared cancellation flag first.
//!
//! The cell's two pieces of shared mutable state — the reference count inside
//! `Arc` and the `canceled` flag — live outside what the verifier can model,
//! so the functions here state what holds of every outcome of the shared
//! operations, and the `protocol` module proves the cell's state machine
//! (run at most once, cancel wins, unique-owner gating) over a ghost model.

use crate::guard::DeferGuard;
use std::sync::atomic::AtomicBool;
use std::sync::atomic::Ordering;
use std::sync::Arc;
use vstd::prelude::*;

verus! {

/// The shared cell: the cancellation flag and the single action slot. The
/// slot is written only by whoever gains unique ownership of the cell (the
/// last reference's drop, or a successful `try_destroy`/`try_downgrade`), so
/// while any reference is alive it still holds whatever the cell was built
/// with; the flag may be set by any holder at any time.
struct ArcDeferGuardInner<F: FnOnce() + Send> {
    canceled: AtomicBool,
    action: Option<F>,
}

impl<F: FnOnce() + Send> ArcDeferGuardInner<F> {
    /// A pending action may always be called with no arguments.
    #[verifier::type_invariant]
    spec fn wf(self) -> bool {
        self.action matches Some(f) ==> call_requires(f, ())
    }

    /// The terminal step on a uniquely owned cell: empty the slot, and run
    /// the action unless the cancellation flag was set. Returns whether the
    /// action ran; the flag's value is decided by the other holders' past
    /// stores, so nothing ties `ran` to anything but the slot.
    fn finish(&mut self) -> (ran: bool)
        ensures
            final(self).action is None,
            ran ==> (old(self).action matches Some(f) && call_ensures(f, (), ())),
            old(self).action is None ==> !ran,
    {
        proof {
            use_type_invariant(&*self);
        }
        let canceled = self.canceled.load(Ordering::SeqCst);
        let mut taken: Option<F> = None;
        core::mem::swap(&mut taken, &mut self.action);
        if canceled {
            false
        } else {
            match taken {
                Some(f) => {
                    f();
                    true
                },
                None => false,
            }
        }
    }
}

impl<F: FnOnce() + Send> Drop for ArcDeferGuardInner<F> {
    /// Relies on alloc::sync::Arc: the inner cell's destructor runs exactly
    /// once, on whichever thread releases the last reference. It delegates to
    /// the verified `finish`, so the still-pending action runs exactly there
    /// and only when no holder canceled. Unverified because a verified
    /// destructor must be proved not to unwind, and a caller-supplied action
    /// may panic.
    #[verifier::external_body]
    fn drop(&mut self)
        opens_invariants none
        no_unwind
    {
        self.finish();
    }
}

/// Relies on alloc::sync::Arc::try_unwrap: hands the inner value out when the
/// caller holds the only reference to it, and hands the same reference back
/// untouched otherwise.
#[verifier::external_body]
fn arc_try_unwrap<T>(a: Arc<T>) -> (r: Result<T, Arc<T>>)
    ensures
        match r {
            Ok(t) => t == a,
            Err(e) => e == a,
        },
{
    Arc::try_unwrap(a)
}

/// Relies on alloc::sync::Arc::clone: yields another reference to the same
/// cell, raising the reference count by one.
#[verifier::external_body]
fn arc_clone<T>(a: &Arc<T>) -> (r: Arc<T>)
    ensures
        r == *a,
{
    Arc::clone(a)
}

/// A reference-counted deferred action, safe to hand to other threads.
///
/// All clones refer to one shared cell. The action runs at most once: when
/// the last reference is dropped, or on a successful `try_destroy`, and in
/// either case only if no holder canceled first. A unique holder may downgrade
/// the cell back into a plain [`DeferGuard`].
pub struct ArcDeferGuard<F: FnOnce() + Send>(Arc<ArcDeferGuardInner<F>>);

impl<F: FnOnce() + Send> View for ArcDeferGuard<F> {
    type V = Option<F>;

    /// The action the shared cell was built around (already-consumed cells
    /// view as `None`).
    closed spec fn view(&self) -> Option<F> {
        self.0.action
    }
}

impl<F: FnOnce() + Send> Clone for ArcDeferGuard<F> {
    /// Another reference to the same cell.
    fn clone(&self) -> (g: Self)
        ensures
            g == *self,
    {
        ArcDeferGuard(arc_clone(&self.0))
    }
}

impl<F: FnOnce() + Send> ArcDeferGuard<F> {
    /// Creates a shared cell with `func` pending and the cancellation flag
    /// clear, returning its first reference.
    #[must_use]
    pub fn new(func: F) -> (g: Self)
        requires
            call_requires(func, ()),
        ensures
            g@ == Some(func),
    {
        ArcDeferGuard(
            Arc::new(ArcDeferGuardInner { canceled: AtomicBool::new(false), action: Some(func) }),
        )
    }

    /// Creates a shared cell around a possibly already consumed slot; an
    /// empty slot starts the cell canceled, so the cell never runs anything.
    pub(crate) fn new_opt(slot: Option<F>) -> (g: Self)
        requires
            slot matches Some(f) ==> call_requires(f, ()),
        ensures
            g@ == slot,
    {
        let canceled = slot.is_none();
        ArcDeferGuard(
            Arc::new(ArcDeferGuardInner { canceled: AtomicBool::new(canceled), action: slot }),
        )
    }

    /// Passes the reference through by value, so that a closure or thread
    /// visibly takes ownership of it.
    #[must_use]
    pub fn own(self) -> (g: Self)
        ensures
            g == self,
    {
        self
    }

    /// Converts the cell back into a single-owner guard, if the caller holds
    /// the sole reference. The downgraded guard carries the cell's action,
    /// or nothing if the cell was canceled (or built empty); on failure the
    /// reference comes back unchanged.
    pub fn try_downgrade(self) -> (r: Result<DeferGuard<F>, Self>)
        ensures
            r matches Err(g) ==> g == self,
            r matches Ok(g) ==> (g@ == self@ || g@ is None),
    {
        match arc_try_unwrap(self.0) {
            Ok(inner) => {
                let mut inner = inner;
                proof {
                    use_type_invariant(&inner);
                }
                let canceled = inner.canceled.load(Ordering::SeqCst);
                let mut taken: Option<F> = None;
                core::mem::swap(&mut taken, &mut inner.action);
                if canceled {
                    Ok(DeferGuard::from_slot(None))
                } else {
                    Ok(DeferGuard::from_slot(taken))
                }
            },
            Err(a) => Err(ArcDeferGuard(a)),
        }
    }

    /// Runs the action now, if the caller holds the sole reference and no
    /// holder canceled. `Ok` means the cell is consumed, and says whether the
    /// action ran; `Err` hands the reference back unchanged.
    pub fn try_destroy(self) -> (r: Result<bool, Self>)
        ensures
            r matches Err(g) ==> g == self,
            r matches Ok(true) ==> self@ matches Some(f) && call_ensures(f, (), ()),
    {
        match arc_try_unwrap(self.0) {
            Ok(inner) => {
                let mut inner = inner;
                Ok(inner.finish())
            },
            Err(a) => Err(ArcDeferGuard(a)),
        }
    }

    /// Sets the shared cancellation flag and releases this reference. The
    /// flag lives in shared state outside the verified model; the `protocol`
    /// module proves that once it is set, no release path runs the action.
    pub fn cancel(self) {
        self.0.canceled.store(true, Ordering::SeqCst);
    }

    /// Sets the shared cancellation flag, keeping this reference alive; see
    /// [`Self::cancel`].
    pub fn cancel_ref(&self) {
        self.0.canceled.store(true, Ordering::SeqCst);
    }
}

impl<F: FnOnce() + Send> DeferGuard<F> {
    /// Wraps this guard's (possibly already consumed) slot in a fresh shared
    /// cell, so that several threads may own it jointly.
    pub fn upgrade(self) -> (g: ArcDeferGuard<F>)
        ensures
            g@ == self@,
    {
        ArcDeferGuard::new_opt(self.into_slot())
    }
}

} // verus!
