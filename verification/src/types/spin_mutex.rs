use vstd::prelude::*;
use crate::mutex::accepts_exclusive;
use crate::types::guarded::{shared_access, try_exclusive_access, try_shared_access, Held};

verus! {

/// `Spin` of the spin crate, the way a waiting spinlock passes its time.
/// Nothing here waits; the lock's type names it.
#[verifier::external_type_specification]
#[verifier::external_body]
pub struct ExSpinRelax(::spin::relax::Spin);

/// `SpinMutex` of the spin crate, carried through as it is.
#[verifier::external_type_specification]
#[verifier::external_body]
#[verifier::reject_recursive_types(T)]
#[verifier::reject_recursive_types(R)]
pub struct ExSpinLock<T: ?Sized, R>(::spin::mutex::SpinMutex<T, R>);

/// `SpinMutexGuard` of the spin crate, which releases the lock when it goes
/// out of scope, carried through as it is.
#[verifier::external_type_specification]
#[verifier::external_body]
#[verifier::reject_recursive_types(T)]
#[verifier::reject_recursive_types(R)]
pub struct ExSpinLockGuard<'a, T: ?Sized + 'a, R>(::spin::mutex::SpinMutexGuard<'a, T, R>);

/// `SpinMutex::new` of the spin crate: a new lock. Nothing is claimed of it.
#[verifier::external_body]
fn gate_new() -> ::spin::mutex::SpinMutex<(), ::spin::relax::Spin> {
    ::spin::mutex::SpinMutex::new(())
}

/// `SpinMutex::try_lock` of the spin crate: one attempt to take the lock,
/// without spinning. A guard comes back when it was taken, nothing when it is
/// held; which of the two happens is not claimed.
#[verifier::external_body]
fn gate_try_lock<'a>(gate: &'a ::spin::mutex::SpinMutex<(), ::spin::relax::Spin>) -> Option<
    ::spin::mutex::SpinMutexGuard<'a, (), ::spin::relax::Spin>,
> {
    gate.try_lock()
}

/// A mutex guarded by a spinlock.
///
/// `try_lock` and `try_lock_mut` ask the mutex's own lock, once and without
/// waiting, and hand a refusal back. While an access that took the lock runs
/// the lock is held, so that an access asked for from inside it is refused.
///
/// `try_hold` hands the guard out and `lock` takes it as the pass for one
/// shared access. `lock_mut` asks for `&mut` and nothing else: no other
/// access can be running.
pub struct Mutex<Data> {
    gate: ::spin::mutex::SpinMutex<(), ::spin::relax::Spin>,
    data: Data,
}

impl<Data> Mutex<Data> {
    /// The protected value.
    pub closed spec fn view(&self) -> Data {
        self.data
    }

    /// Wraps `data`. Never fails.
    pub fn new(data: Data) -> (mutex: Self)
        ensures
            mutex@ == data,
    {
        Mutex { gate: gate_new(), data }
    }

    /// Tries to take the lock, once and without spinning. The guard, if one
    /// comes back, is the pass for one shared access; the lock decides
    /// whether one does.
    pub fn try_hold(&self) -> Option<::spin::mutex::SpinMutexGuard<'_, (), ::spin::relax::Spin>> {
        gate_try_lock(&self.gate)
    }

    /// Shared access that asks this mutex's own lock: tries once to take it,
    /// without waiting. With the lock taken the closure runs once on the
    /// protected value, its result comes back and the lock is released;
    /// with the lock held the access is refused and the closure is never
    /// called.
    pub fn try_lock<R, F: FnOnce(&Data) -> R>(&self, f: F) -> (res: Result<R, Held>)
        requires
            call_requires(f, (&self@,)),
        ensures
            res matches Ok(value) ==> call_ensures(f, (&self@,), value),
    {
        try_shared_access(gate_try_lock(&self.gate), &self.data, f)
    }

    /// Exclusive access that asks this mutex's own lock: tries once to take
    /// it, without waiting. With the lock taken the closure runs once with
    /// the protected value in its hands, and what it leaves there is the new
    /// protected value; with the lock held the access is refused, the
    /// closure is never called and the protected value stays as it was.
    pub fn try_lock_mut<R, F: FnOnce(&mut Data) -> R>(&mut self, f: F) -> (res: Result<R, Held>)
        requires
            accepts_exclusive(f, old(self)@),
        ensures
            res matches Ok(value) ==> exists|slot: &mut Data|
                {
                    &&& *slot == old(self)@
                    &&& *final(slot) == final(self)@
                    &&& #[trigger] call_ensures(f, (slot,), value)
                },
            res is Err ==> final(self)@ == old(self)@,
    {
        try_exclusive_access(gate_try_lock(&self.gate), &mut self.data, f)
    }

    /// Shared access under the lock that `hold` keeps: hands back what `f`
    /// returned on the protected value, then releases the lock. `hold` is
    /// meant to be what `try_hold` gave on this same mutex; nothing here can
    /// tell a guard of another lock from it, which `try_lock` rules out.
    pub fn lock<R, F: FnOnce(&Data) -> R>(
        &self,
        hold: ::spin::mutex::SpinMutexGuard<'_, (), ::spin::relax::Spin>,
        f: F,
    ) -> (res: R)
        requires
            call_requires(f, (&self@,)),
        ensures
            call_ensures(f, (&self@,), res),
    {
        shared_access(hold, &self.data, f)
    }

    /// Exclusive access on the strength of `&mut` alone: no other access can
    /// be running, so the lock is not asked. Hands back what `f` returned,
    /// and the protected value is what `f` left in it.
    pub fn lock_mut<R, F: FnOnce(&mut Data) -> R>(&mut self, f: F) -> (res: R)
        requires
            accepts_exclusive(f, old(self)@),
        ensures
            exists|slot: &mut Data|
                {
                    &&& *slot == old(self)@
                    &&& *final(slot) == final(self)@
                    &&& #[trigger] call_ensures(f, (slot,), res)
                },
    {
        f(&mut self.data)
    }
}

} // verus!
