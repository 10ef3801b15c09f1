//! The guards' lifecycle as a state machine, and its laws.
//!
//! A single-owner guard is one bit of state: whether an action is still
//! pending (`g@ is Some`). A shared cell is a reference count, the
//! cancellation flag, and that same pending bit. Each release operation is an
//! event; any interleaving of operations by the holders linearizes into one
//! sequence of events, since the count and the flag are updated with
//! sequentially consistent atomics. The proofs below show, for every event
//! sequence, that an action runs at most once, that a cancellation keeps any
//! later release from running it, and that the unique-owner operations fail
//! without a trace while other references exist.

use vstd::prelude::*;

verus! {

/// An operation that releases a single-owner guard: the explicit calls of the
/// same names on [`crate::DeferGuard`], and `ScopeEnd` for the implicit
/// trigger when the guard's scope ends.
pub enum GuardEvent {
    Destroy,
    DestroyRef,
    Cancel,
    CancelRef,
    ScopeEnd,
}

/// Whether the event runs the action: only the destroy operations and the end
/// of scope do, and only while the action is still pending.
pub open spec fn guard_event_runs(pending: bool, e: GuardEvent) -> bool {
    pending && (e is Destroy || e is DestroyRef || e is ScopeEnd)
}

/// Whether the event reports `true` to its caller: every explicit operation
/// reports whether the action was still pending (the end of scope reports to
/// nobody).
pub open spec fn guard_event_reports(pending: bool, e: GuardEvent) -> bool {
    pending && !(e is ScopeEnd)
}

/// Every event consumes the slot: afterwards nothing is pending, ever again.
pub open spec fn guard_pending_after(pending: bool, e: GuardEvent) -> bool {
    false
}

/// How many events of `events`, applied in order from a guard whose slot is
/// `pending`, run the action.
pub open spec fn guard_run_count(pending: bool, events: Seq<GuardEvent>) -> nat
    decreases events.len(),
{
    if events.len() == 0 {
        0
    } else {
        (if guard_event_runs(pending, events[0]) {
            1nat
        } else {
            0nat
        }) + guard_run_count(guard_pending_after(pending, events[0]), events.drop_first())
    }
}

/// How many events of `events` report `true` to their caller.
pub open spec fn guard_report_count(pending: bool, events: Seq<GuardEvent>) -> nat
    decreases events.len(),
{
    if events.len() == 0 {
        0
    } else {
        (if guard_event_reports(pending, events[0]) {
            1nat
        } else {
            0nat
        }) + guard_report_count(guard_pending_after(pending, events[0]), events.drop_first())
    }
}

/// A guard whose slot is already empty never runs its action and never
/// reports `true` again, whatever is done to it.
pub proof fn lemma_guard_spent_stays_spent(events: Seq<GuardEvent>)
    ensures
        guard_run_count(false, events) == 0,
        guard_report_count(false, events) == 0,
    decreases events.len(),
{
    if events.len() > 0 {
        lemma_guard_spent_stays_spent(events.drop_first());
    }
}

/// Run-once: across any sequence of destroy, cancel and end-of-scope events,
/// a single-owner guard runs its action at most once, and at most one of the
/// explicit operations reports that it consumed the action.
pub proof fn lemma_guard_runs_at_most_once(pending: bool, events: Seq<GuardEvent>)
    ensures
        guard_run_count(pending, events) <= 1,
        guard_report_count(pending, events) <= 1,
{
    if events.len() > 0 {
        lemma_guard_spent_stays_spent(events.drop_first());
    }
}

/// Cancel prevents run: a guard whose first release event is a cancellation
/// never runs its action, and every later event — the eventual destruction
/// included — finds nothing to do.
pub proof fn lemma_guard_cancel_prevents_run(events: Seq<GuardEvent>)
    requires
        events.len() > 0,
        events[0] is Cancel || events[0] is CancelRef,
    ensures
        guard_run_count(true, events) == 0,
{
    lemma_guard_spent_stays_spent(events.drop_first());
}

/// The state of one shared cell: how many references are alive, whether some
/// holder set the cancellation flag, and whether the action is still pending.
pub struct SharedCellState {
    pub refs: nat,
    pub canceled: bool,
    pub pending: bool,
}

/// An operation some holder performs on its reference to the cell: the calls
/// of the same names on [`crate::ArcDeferGuard`], `Share` for cloning the
/// reference, and `DropRef` for letting one reference go out of scope.
pub enum SharedEvent {
    Share,
    Cancel,
    CancelRef,
    DropRef,
    TryDestroy,
    TryDowngrade,
}

/// Whether the event runs the action: only releasing the last reference or
/// destroying through the sole reference does, and only while the action is
/// pending and nobody canceled.
pub open spec fn shared_event_runs(s: SharedCellState, e: SharedEvent) -> bool {
    (e is DropRef || e is TryDestroy) && s.refs == 1 && !s.canceled && s.pending
}

/// The cell's state after the event. A consuming cancellation sets the flag
/// and then releases its reference; the unique-owner operations do nothing at
/// all unless the reference is the only one; whenever the last reference
/// goes, the slot is gone with it — run or discarded.
pub open spec fn shared_step(s: SharedCellState, e: SharedEvent) -> SharedCellState {
    match e {
        SharedEvent::Share => SharedCellState { refs: s.refs + 1, ..s },
        SharedEvent::CancelRef => SharedCellState { canceled: true, ..s },
        SharedEvent::Cancel => if s.refs <= 1 {
            SharedCellState { refs: 0, canceled: true, pending: false }
        } else {
            SharedCellState { refs: (s.refs - 1) as nat, canceled: true, ..s }
        },
        SharedEvent::DropRef => if s.refs <= 1 {
            SharedCellState { refs: 0, pending: false, ..s }
        } else {
            SharedCellState { refs: (s.refs - 1) as nat, ..s }
        },
        SharedEvent::TryDestroy | SharedEvent::TryDowngrade => if s.refs == 1 {
            SharedCellState { refs: 0, pending: false, ..s }
        } else {
            s
        },
    }
}

/// How many events of `events`, applied in order from cell state `s`, run
/// the action.
pub open spec fn shared_run_count(s: SharedCellState, events: Seq<SharedEvent>) -> nat
    decreases events.len(),
{
    if events.len() == 0 {
        0
    } else {
        (if shared_event_runs(s, events[0]) {
            1nat
        } else {
            0nat
        }) + shared_run_count(shared_step(s, events[0]), events.drop_first())
    }
}

/// Once the slot is empty it stays empty, and nothing runs any more.
pub proof fn lemma_shared_spent_stays_spent(s: SharedCellState, events: Seq<SharedEvent>)
    requires
        !s.pending,
    ensures
        shared_run_count(s, events) == 0,
    decreases events.len(),
{
    if events.len() > 0 {
        lemma_shared_spent_stays_spent(shared_step(s, events[0]), events.drop_first());
    }
}

/// Once some holder canceled, the flag never clears, and nothing runs any
/// more: no release — by any holder, in any order — can reach the action.
pub proof fn lemma_shared_canceled_never_runs(s: SharedCellState, events: Seq<SharedEvent>)
    requires
        s.canceled,
    ensures
        shared_run_count(s, events) == 0,
    decreases events.len(),
{
    if events.len() > 0 {
        lemma_shared_canceled_never_runs(shared_step(s, events[0]), events.drop_first());
    }
}

/// Shared run-once: whatever the holders do, in whatever interleaving, the
/// cell's action runs at most once.
pub proof fn lemma_shared_runs_at_most_once(s: SharedCellState, events: Seq<SharedEvent>)
    ensures
        shared_run_count(s, events) <= 1,
    decreases events.len(),
{
    if events.len() > 0 {
        if shared_event_runs(s, events[0]) {
            lemma_shared_spent_stays_spent(shared_step(s, events[0]), events.drop_first());
        } else {
            lemma_shared_runs_at_most_once(shared_step(s, events[0]), events.drop_first());
        }
    }
}

/// Shared run-once under concurrency, exactly once: when every one of the
/// `refs` holders of an uncanceled cell with a pending action drops its
/// reference — in any order — the action runs exactly once, never zero times
/// and never twice.
pub proof fn lemma_shared_all_drops_run_exactly_once(s: SharedCellState, events: Seq<SharedEvent>)
    requires
        s.refs > 0,
        !s.canceled,
        s.pending,
        events.len() == s.refs,
        forall|i: int| 0 <= i < events.len() ==> events[i] is DropRef,
    ensures
        shared_run_count(s, events) == 1,
    decreases events.len(),
{
    if s.refs == 1 {
        lemma_shared_spent_stays_spent(shared_step(s, events[0]), events.drop_first());
    } else {
        lemma_shared_all_drops_run_exactly_once(shared_step(s, events[0]), events.drop_first());
    }
}

/// Cancel wins the race: a cancellation that is linearized before the
/// remaining releases — however many references still exist — keeps the
/// action from ever running.
pub proof fn lemma_shared_cancel_wins(s: SharedCellState, events: Seq<SharedEvent>)
    requires
        events.len() > 0,
        events[0] is Cancel || events[0] is CancelRef,
    ensures
        shared_run_count(s, events) == 0,
{
    lemma_shared_canceled_never_runs(shared_step(s, events[0]), events.drop_first());
}

/// Unique-owner gating: while more than one reference exists, `TryDestroy`
/// and `TryDowngrade` fail without touching the cell at all; through the sole
/// reference they deterministically consume it, and `TryDestroy` runs the
/// action exactly when it is pending and not canceled.
pub proof fn lemma_shared_unique_owner_gating(s: SharedCellState, e: SharedEvent)
    requires
        e is TryDestroy || e is TryDowngrade,
    ensures
        s.refs > 1 ==> shared_step(s, e) == s && !shared_event_runs(s, e),
        s.refs == 1 ==> shared_step(s, e).refs == 0,
        s.refs == 1 && e is TryDestroy ==> shared_event_runs(s, e) == (s.pending && !s.canceled),
        e is TryDowngrade ==> !shared_event_runs(s, e),
{
}

/// What a successful downgrade leaves pending in the single-owner guard it
/// produces: the cell's action, unless the cell was canceled or already spent.
pub open spec fn downgraded_pending(s: SharedCellState) -> bool {
    s.pending && !s.canceled
}

/// Downgrade then trigger: downgrading a cell through its sole reference runs
/// nothing by itself, and the single-owner guard it produces then runs the
/// action exactly once on its first destroy or end of scope — the discarded
/// cancellation flag of an uncanceled cell neither blocks the action nor lets
/// it run twice.
pub proof fn lemma_shared_downgrade_then_trigger(s: SharedCellState, events: Seq<GuardEvent>)
    requires
        s.refs == 1,
        events.len() > 0,
        events[0] is Destroy || events[0] is DestroyRef || events[0] is ScopeEnd,
    ensures
        shared_run_count(s, seq![SharedEvent::TryDowngrade]) == 0,
        guard_run_count(downgraded_pending(s), events) == (if downgraded_pending(s) {
            1nat
        } else {
            0nat
        }),
{
    let downgrade = seq![SharedEvent::TryDowngrade];
    assert(shared_run_count(shared_step(s, downgrade[0]), downgrade.drop_first()) == 0);
    lemma_guard_spent_stays_spent(events.drop_first());
}

} // verus!
