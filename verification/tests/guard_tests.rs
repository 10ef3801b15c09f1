use defer_heavy::DeferGuard;
use std::cell::Cell;
use std::cell::RefCell;
use std::rc::Rc;

#[test]
pub fn test_defer_cancel() {
    let destroyed = Rc::new(RefCell::new(false));
    let des = destroyed.clone();
    let deferred = DeferGuard::new(move || assert_eq!(des.replace(true), false));

    assert_eq!(destroyed.borrow().clone(), false);
    drop(deferred);
    assert_eq!(destroyed.borrow().clone(), true);
}

#[test]
pub fn test_defer_cancel2() {
    let destroyed = Rc::new(RefCell::new(false));
    let des = destroyed.clone();
    let mut deferred = DeferGuard::new(move || assert_eq!(des.replace(true), false));

    assert_eq!(*destroyed.borrow(), false);
    assert_eq!(deferred.cancel_ref(), true);
    drop(deferred);
    assert_eq!(*destroyed.borrow(), false);
}

#[test]
pub fn test_defer() {
    let destroyed = Rc::new(RefCell::new(false));
    {
        let des = destroyed.clone();
        let _deferred = DeferGuard::new(move || assert_eq!(des.replace(true), false));

        assert_eq!(destroyed.borrow().clone(), false);
    }

    assert_eq!(destroyed.borrow().clone(), true);
}

#[test]
pub fn test_defer_muti() {
    let destroyed = Rc::new(RefCell::new(0u8));
    {
        let des = destroyed.clone();
        let _deferred = DeferGuard::new(move || assert_eq!(des.replace(2), 1));

        let des = destroyed.clone();
        let _deferred2 = DeferGuard::new(move || assert_eq!(des.replace(1), 0));

        assert_eq!(destroyed.borrow().clone(), 0);
    }

    assert_eq!(destroyed.borrow().clone(), 2);
}

// Run-once: over any sequence of release calls, the action runs at most once
// and at most one call reports true.
#[test]
fn test_run_once_single_owner() {
    let runs = Rc::new(Cell::new(0u32));
    let r = runs.clone();
    let mut guard = DeferGuard::new(move || r.set(r.get() + 1));

    assert_eq!(guard.destroy_ref(), true);
    assert_eq!(runs.get(), 1);
    assert_eq!(guard.destroy_ref(), false);
    assert_eq!(guard.cancel_ref(), false);
    assert_eq!(runs.get(), 1);
    drop(guard);
    assert_eq!(runs.get(), 1);
}

#[test]
fn test_destroy_runs_and_consumes() {
    let runs = Rc::new(Cell::new(0u32));
    let r = runs.clone();
    let guard = DeferGuard::new(move || r.set(r.get() + 1));
    assert_eq!(guard.destroy(), true);
    assert_eq!(runs.get(), 1);
}

// Cancel prevents run: after a cancel, destruction is a no-op.
#[test]
fn test_cancel_prevents_run() {
    let runs = Rc::new(Cell::new(0u32));
    let r = runs.clone();
    let guard = DeferGuard::new(move || r.set(r.get() + 1));
    assert_eq!(guard.cancel(), true);
    assert_eq!(runs.get(), 0);

    let r = runs.clone();
    let mut guard = DeferGuard::new(move || r.set(r.get() + 1));
    assert_eq!(guard.cancel_ref(), true);
    assert_eq!(guard.destroy_ref(), false);
    drop(guard);
    assert_eq!(runs.get(), 0);
}

// LIFO scope ordering: guards declared in one scope trigger in reverse order
// of declaration when the scope ends.
#[test]
fn test_lifo_scope_ordering() {
    let order: Rc<RefCell<Vec<u8>>> = Rc::new(RefCell::new(Vec::new()));
    {
        let o = order.clone();
        let _g1 = DeferGuard::new(move || o.borrow_mut().push(1));
        let o = order.clone();
        let _g2 = DeferGuard::new(move || o.borrow_mut().push(2));
        let o = order.clone();
        let _g3 = DeferGuard::new(move || o.borrow_mut().push(3));
        assert_eq!(order.borrow().len(), 0);
    }
    assert_eq!(*order.borrow(), vec![3u8, 2, 1]);
}
