use vstd::prelude::*;
use crate::mutex::accepts_exclusive;

verus! {

/// An access did not go ahead because the lock that guards the value could
/// not be taken: an access that is still running holds it, or an access
/// that held it ended in a panic and the lock keeps the mark of that.
#[derive(Debug, Clone, Copy, PartialEq, Eq)]
pub struct Held;

/// Shared access behind a lock that is held. `guard` is what taking the lock
/// gave; the closure runs once on the data while the guard is alive, and the
/// lock is released when this returns. Whoever found the lock taken has no
/// guard and cannot ask.
pub fn shared_access<Guard, Data, R, F: FnOnce(&Data) -> R>(guard: Guard, data: &Data, f: F) -> (res:
    R)
    requires
        call_requires(f, (data,)),
    ensures
        call_ensures(f, (data,), res),
{
    let _held = guard;
    f(data)
}

/// Exclusive access behind a lock that is held. `guard` is what taking the
/// lock gave; the closure runs once with the data in its hands while the
/// guard is alive, and the lock is released when this returns.
pub fn exclusive_access<Guard, Data, R, F: FnOnce(&mut Data) -> R>(
    guard: Guard,
    data: &mut Data,
    f: F,
) -> (res: R)
    requires
        accepts_exclusive(f, *old(data)),
    ensures
        exists|slot: &mut Data|
            {
                &&& *slot == *old(data)
                &&& *final(slot) == *final(data)
                &&& #[trigger] call_ensures(f, (slot,), res)
            },
{
    let _held = guard;
    f(data)
}

/// Shared access by what the attempt to take the lock gave: a guard, or
/// nothing. With a guard the access goes ahead as [`shared_access`] says;
/// with nothing it is refused and the closure is never called.
pub fn try_shared_access<Guard, Data, R, F: FnOnce(&Data) -> R>(
    held: Option<Guard>,
    data: &Data,
    f: F,
) -> (res: Result<R, Held>)
    requires
        held is Some ==> call_requires(f, (data,)),
    ensures
        res is Ok <==> held is Some,
        res matches Ok(value) ==> call_ensures(f, (data,), value),
{
    match held {
        Some(guard) => {
            let value = shared_access(guard, data, f);
            let res = Ok(value);
            assert(res->Ok_0 == value);
            res
        },
        None => Err(Held),
    }
}

/// Exclusive access by what the attempt to take the lock gave: a guard, or
/// nothing. With a guard the access goes ahead as [`exclusive_access`] says;
/// with nothing it is refused, the closure is never called and the data
/// stay as they were.
pub fn try_exclusive_access<Guard, Data, R, F: FnOnce(&mut Data) -> R>(
    held: Option<Guard>,
    data: &mut Data,
    f: F,
) -> (res: Result<R, Held>)
    requires
        held is Some ==> accepts_exclusive(f, *old(data)),
    ensures
        res is Ok <==> held is Some,
        res matches Ok(value) ==> exists|slot: &mut Data|
            {
                &&& *slot == *old(data)
                &&& *final(slot) == *final(data)
                &&& #[trigger] call_ensures(f, (slot,), value)
            },
        res is Err ==> *final(data) == *old(data),
{
    match held {
        Some(guard) => {
            let value = exclusive_access(guard, data, f);
            let res = Ok(value);
            assert(res->Ok_0 == value);
            res
        },
        None => Err(Held),
    }
}

} // verus!
