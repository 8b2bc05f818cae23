use vstd::prelude::*;
use crate::mutex::{accepts_exclusive, Mutex};
use crate::types::cell::{borrowed, borrowed_mut, cell_new, cell_try_borrow, cell_try_borrow_mut};

verus! {

/// An access through [`Shared`] did not go ahead: another access to the same
/// instance is still running, and one of the two is exclusive.
#[derive(Debug, Clone, Copy, PartialEq, Eq)]
pub struct Aliased;

/// A mutex in a cell: a shared reference is enough for both kinds of access.
///
/// What the cell holds changes behind shared references, so specifications
/// cannot follow the protected value from one access to the next. Each
/// access still goes through the accessors of the mutex inside, and an
/// access that would alias an exclusive one is denied.
///
/// `with` and `with_mut` reach whatever the cell holds, so that any accessor
/// of it can be called through a shared reference; `lock` and `lock_mut` do
/// so for the accessors of the contract.
#[verifier::reject_recursive_types(M)]
pub struct Shared<M> {
    cell: std::cell::RefCell<M>,
}

impl<M> Shared<M> {
    /// Puts `inner` in a cell. Never fails.
    pub fn around(inner: M) -> Self {
        Shared { cell: cell_new(inner) }
    }

    /// Runs `g` on what the cell holds, borrowed for reading. Either the
    /// cell is borrowed exclusively and the access is denied, or `g` runs
    /// once and its result comes back.
    pub fn with<R, G: FnOnce(&M) -> R>(&self, g: G) -> (res: Result<R, Aliased>)
        requires
            forall|inner: &M| call_requires(g, (inner,)),
        ensures
            res matches Ok(value) ==> exists|inner: &M| #[trigger] call_ensures(g, (inner,), value),
    {
        let guard = cell_try_borrow(&self.cell);
        let held = match &guard {
            Some(guard) => Some(borrowed(guard)),
            None => None,
        };
        with_borrowed(held, g)
    }

    /// Runs `g` on what the cell holds, borrowed exclusively. Either the
    /// cell is borrowed and the access is denied, or `g` runs once and its
    /// result comes back.
    pub fn with_mut<R, G: FnOnce(&mut M) -> R>(&self, g: G) -> (res: Result<R, Aliased>)
        requires
            forall|inner: &mut M| call_requires(g, (inner,)),
        ensures
            res matches Ok(value) ==> exists|inner: &mut M| #[trigger]
                call_ensures(g, (inner,), value),
    {
        let mut guard = cell_try_borrow_mut(&self.cell);
        let held = match &mut guard {
            Some(guard) => Some(borrowed_mut(guard)),
            None => None,
        };
        with_mut_borrowed(held, g)
    }
}

/// Runs `g` on what the attempt to borrow the cell gave: what the cell
/// holds, or nothing. With nothing the access is denied and `g` is never
/// called.
pub fn with_borrowed<M, R, G: FnOnce(&M) -> R>(held: Option<&M>, g: G) -> (res: Result<R, Aliased>)
    requires
        held matches Some(inner) ==> call_requires(g, (inner,)),
    ensures
        res is Ok <==> held is Some,
        res matches Ok(value) ==> call_ensures(g, (held->Some_0,), value),
{
    match held {
        Some(inner) => {
            let value = g(inner);
            let res = Ok(value);
            assert(res->Ok_0 == value);
            res
        },
        None => Err(Aliased),
    }
}

/// Runs `g` on what the attempt to borrow the cell exclusively gave: what
/// the cell holds, or nothing. With nothing the access is denied and `g` is
/// never called.
pub fn with_mut_borrowed<M, R, G: FnOnce(&mut M) -> R>(held: Option<&mut M>, g: G) -> (res: Result<
    R,
    Aliased,
>)
    requires
        held matches Some(inner) ==> forall|access: &mut M|
            *access == *inner ==> call_requires(g, (access,)),
    ensures
        res is Ok <==> held is Some,
        res matches Ok(value) ==> exists|access: &mut M|
            {
                &&& *access == *held->Some_0
                &&& *final(access) == *final(held->Some_0)
                &&& #[trigger] call_ensures(g, (access,), value)
            },
{
    match held {
        Some(inner) => {
            let value = g(inner);
            let res = Ok(value);
            assert(res->Ok_0 == value);
            res
        },
        None => Err(Aliased),
    }
}

impl<M: Mutex> Shared<M> {
    /// Wraps `data` in a mutex and the mutex in a cell. Never fails.
    pub fn new(data: M::Data) -> Self {
        Shared { cell: cell_new(M::new(data)) }
    }

    /// Shared access. Either the cell is borrowed exclusively and the access
    /// is denied, or the result is that of `lock` on the mutex inside.
    pub fn lock<R, F: FnOnce(&M::Data) -> R>(&self, pass: M::Pass, f: F) -> (res: Result<R, Aliased>)
        requires
            M::admits(pass),
            forall|seen: &M::Data| call_requires(f, (seen,)),
        ensures
            res matches Ok(value) ==> exists|mutex: M| #[trigger]
                call_ensures(M::lock::<R, F>, (&mutex, pass, f), value),
    {
        let guard = cell_try_borrow(&self.cell);
        let held = match &guard {
            Some(guard) => Some(borrowed(guard)),
            None => None,
        };
        lock_borrowed(held, pass, f)
    }

    /// Exclusive access. Either the cell is borrowed and the access is
    /// denied, or the result is that of `lock_mut` on the mutex inside.
    pub fn lock_mut<R, F: FnOnce(&mut M::Data) -> R>(&self, pass: M::Pass, f: F) -> (res: Result<
        R,
        Aliased,
    >)
        requires
            M::admits(pass),
            forall|slot: &mut M::Data| call_requires(f, (slot,)),
        ensures
            res matches Ok(value) ==> exists|access: &mut M| #[trigger]
                call_ensures(M::lock_mut::<R, F>, (access, pass, f), value),
    {
        let mut guard = cell_try_borrow_mut(&self.cell);
        let held = match &mut guard {
            Some(guard) => Some(borrowed_mut(guard)),
            None => None,
        };
        lock_mut_borrowed(held, pass, f)
    }
}

/// Shared access through what the attempt to borrow the cell gave: the mutex
/// inside, or nothing. With the mutex the result is that of its `lock`; with
/// nothing the access is denied.
pub fn lock_borrowed<M: Mutex, R, F: FnOnce(&M::Data) -> R>(
    held: Option<&M>,
    pass: M::Pass,
    f: F,
) -> (res: Result<R, Aliased>)
    requires
        held matches Some(mutex) ==> M::admits(pass) && call_requires(f, (&mutex.data(),)),
    ensures
        res is Ok <==> held is Some,
        res matches Ok(value) ==> {
            &&& call_ensures(M::lock::<R, F>, (held->Some_0, pass, f), value)
            &&& call_ensures(f, (&held->Some_0.data(),), value)
        },
{
    match held {
        Some(mutex) => {
            let value = mutex.lock(pass, f);
            let res = Ok(value);
            assert(res->Ok_0 == value);
            res
        },
        None => Err(Aliased),
    }
}

/// Exclusive access through what the attempt to borrow the cell gave: the
/// mutex inside, or nothing. With the mutex the result is that of its
/// `lock_mut`, and the mutex holds what the closure left; with nothing the
/// access is denied.
pub fn lock_mut_borrowed<M: Mutex, R, F: FnOnce(&mut M::Data) -> R>(
    held: Option<&mut M>,
    pass: M::Pass,
    f: F,
) -> (res: Result<R, Aliased>)
    requires
        held matches Some(mutex) ==> M::admits(pass) && accepts_exclusive(f, mutex.data()),
    ensures
        res is Ok <==> held is Some,
        res matches Ok(value) ==> {
            &&& exists|access: &mut M|
                {
                    &&& *access == *held->Some_0
                    &&& *final(access) == *final(held->Some_0)
                    &&& #[trigger] call_ensures(M::lock_mut::<R, F>, (access, pass, f), value)
                }
            &&& exists|slot: &mut M::Data|
                {
                    &&& *slot == held->Some_0.data()
                    &&& *final(slot) == final(held->Some_0).data()
                    &&& #[trigger] call_ensures(f, (slot,), value)
                }
        },
{
    match held {
        Some(mutex) => {
            let value = mutex.lock_mut(pass, f);
            let res = Ok(value);
            assert(res->Ok_0 == value);
            res
        },
        None => Err(Aliased),
    }
}

} // verus!
