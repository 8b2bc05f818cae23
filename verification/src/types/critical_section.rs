use vstd::prelude::*;
use crate::mutex::accepts_exclusive;
use crate::types::cell::{cell_new, cell_try_borrow_mut};
use crate::types::guarded::{shared_access, try_exclusive_access, try_shared_access, Held};

verus! {

/// `critical_section::with`: enters a critical section, calls `f` once, on
/// `slot`, leaves the critical section and hands back what `f` returned.
#[verifier::external_body]
fn in_critical_section<Slot, R, F: FnOnce(Slot) -> R>(slot: Slot, f: F) -> (res: R)
    requires
        call_requires(f, (slot,)),
    ensures
        call_ensures(f, (slot,), res),
{
    ::critical_section::with(|_cs| f(slot))
}

/// A mutex whose accesses run inside a critical section.
///
/// `try_lock` and `try_lock_mut` enter a critical section, ask the mutex's
/// own guard there and hand a refusal back. While an access that took the
/// guard runs the guard is out, so that an access asked for from inside it
/// is refused.
///
/// `try_hold` hands the guard out and `lock` takes it as the pass for one
/// shared access. `lock_mut` asks for `&mut` and nothing else: no other
/// access can be running.
pub struct Mutex<Data> {
    gate: std::cell::RefCell<()>,
    data: Data,
}

impl<Data> Mutex<Data> {
    /// The protected value.
    pub closed spec fn view(&self) -> Data {
        self.data
    }

    /// Wraps `data`. Never fails.
    pub fn new(data: Data) -> (mutex: Self)
        ensures
            mutex@ == data,
    {
        Mutex { gate: cell_new(()), data }
    }

    /// Tries to mark the mutex as entered. The guard, if one comes back, is
    /// the pass for one shared access; none comes back while another guard
    /// is alive.
    pub fn try_hold(&self) -> Option<std::cell::RefMut<'_, ()>> {
        cell_try_borrow_mut(&self.gate)
    }

    /// Shared access that asks this mutex's own guard, inside a critical
    /// section. With the guard free the closure runs once on the protected
    /// value and its result comes back; with the guard out the access is
    /// refused and the closure is never called.
    pub fn try_lock<R, F: FnOnce(&Data) -> R>(&self, f: F) -> (res: Result<R, Held>)
        requires
            call_requires(f, (&self@,)),
        ensures
            res matches Ok(value) ==> call_ensures(f, (&self@,), value),
    {
        let gate = &self.gate;
        in_critical_section(
            &self.data,
            |data: &Data| -> (res: Result<R, Held>)
                requires
                    call_requires(f, (data,)),
                ensures
                    res matches Ok(value) ==> call_ensures(f, (data,), value),
                {
                    let held = cell_try_borrow_mut(gate);
                    try_shared_access(held, data, f)
                }
        )
    }

    /// Exclusive access that asks this mutex's own guard, inside a critical
    /// section. With the guard free the closure runs once with the
    /// protected value in its hands, and what it leaves there is the new
    /// protected value; with the guard out the access is refused, the
    /// closure is never called and the protected value stays as it was.
    pub fn try_lock_mut<R, F: FnOnce(&mut Data) -> R>(&mut self, f: F) -> (res: Result<R, Held>)
        requires
            accepts_exclusive(f, old(self)@),
        ensures
            res matches Ok(value) ==> exists|slot: &mut Data|
                {
                    &&& *slot == old(self)@
                    &&& *final(slot) == final(self)@
                    &&& #[trigger] call_ensures(f, (slot,), value)
                },
            res is Err ==> final(self)@ == old(self)@,
    {
        let gate = &self.gate;
        let ghost before = self@;
        in_critical_section(
            &mut self.data,
            |data: &mut Data| -> (res: Result<R, Held>)
                requires
                    *data == before,
                ensures
                    res matches Ok(value) ==> exists|slot: &mut Data|
                        {
                            &&& *slot == *old(data)
                            &&& *final(slot) == *final(data)
                            &&& #[trigger] call_ensures(f, (slot,), value)
                        },
                    res is Err ==> *final(data) == *old(data),
                {
                    let held = cell_try_borrow_mut(gate);
                    try_exclusive_access(held, data, f)
                }
        )
    }

    /// Shared access inside a critical section, with `hold` alive: hands
    /// back what `f` returned on the protected value. `hold` is meant to be
    /// what `try_hold` gave on this same mutex; nothing here can tell a
    /// guard of another mutex from it, which `try_lock` rules out.
    pub fn lock<R, F: FnOnce(&Data) -> R>(&self, hold: std::cell::RefMut<'_, ()>, f: F) -> (res: R)
        requires
            call_requires(f, (&self@,)),
        ensures
            call_ensures(f, (&self@,), res),
    {
        in_critical_section(
            &self.data,
            |data: &Data| -> (res: R)
                requires
                    call_requires(f, (data,)),
                ensures
                    call_ensures(f, (data,), res),
                {
                    shared_access(hold, data, f)
                }
        )
    }

    /// Exclusive access inside a critical section, on the strength of `&mut`
    /// alone: no other access can be running, so no guard is asked for.
    /// Hands back what `f` returned, and the protected value is what `f`
    /// left in it.
    pub fn lock_mut<R, F: FnOnce(&mut Data) -> R>(&mut self, f: F) -> (res: R)
        requires
            accepts_exclusive(f, old(self)@),
        ensures
            exists|slot: &mut Data|
                {
                    &&& *slot == old(self)@
                    &&& *final(slot) == final(self)@
                    &&& #[trigger] call_ensures(f, (slot,), res)
                },
    {
        in_critical_section(&mut self.data, f)
    }
}

} // verus!
