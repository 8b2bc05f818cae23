use core::fmt::Debug;
use core::marker::PhantomData;
use vstd::prelude::*;
use vstd::std_specs::cmp::PartialEqSpec;
use crate::mutex::accepts_exclusive;

verus! {

/// Reports the execution level that is running right now.
///
/// The answer comes from the platform (a status register, an interrupt
/// number), so nothing is promised of it: two calls may differ.
pub trait ContextInterface<ContextType> where Self: Sized {
    fn get_current_level() -> ContextType;
}

/// An access was attempted from a level other than the one the mutex is
/// dedicated to.
#[derive(Debug, PartialEq, Eq)]
pub struct WrongContext<ContextType> {
    /// The level the mutex is dedicated to.
    pub expected: usize,
    /// The level that was running when the access was attempted.
    pub observed: ContextType,
}

/// Whether `observed` is the level `level`, by the level type's own equality
/// with `usize`.
pub open spec fn level_matches<ContextType: PartialEq<usize>>(
    observed: ContextType,
    level: usize,
) -> bool {
    observed.eq_spec(&level)
}

/// Whether a mutex dedicated to `level` lets in an access from `observed`:
/// the level type's equality with `usize` means what its specification
/// says, and by it `observed` is `level`.
pub open spec fn level_admitted<ContextType: PartialEq<usize>>(
    observed: ContextType,
    level: usize,
) -> bool {
    ContextType::obeys_eq_spec() && level_matches(observed, level)
}

/// What the check of `observed` against `level` gives: the level back where
/// it matches, and both levels where it does not.
pub open spec fn checked<ContextType: PartialEq<usize>>(observed: ContextType, level: usize) -> Result<
    ContextType,
    WrongContext<ContextType>,
> {
    if level_matches(observed, level) {
        Ok(observed)
    } else {
        Err(WrongContext { expected: level, observed })
    }
}

/// Decides whether a mutex dedicated to `level` may be entered from
/// `observed`. `Ok` hands the level back, as the pass for the access; `Err`
/// holds both levels, and no access may be asked for.
pub fn check_level<ContextType: PartialEq<usize>>(observed: ContextType, level: usize) -> (res:
    Result<ContextType, WrongContext<ContextType>>)
    ensures
        ContextType::obeys_eq_spec() ==> res == checked(observed, level),
        res matches Ok(pass) ==> pass == observed,
        res matches Err(refusal) ==> refusal.expected == level && refusal.observed == observed,
{
    if observed != level {
        Err(WrongContext { expected: level, observed })
    } else {
        Ok(observed)
    }
}

/// A mutex for single-core targets whose execution levels never run at the
/// same time. It is dedicated to the level `LEVEL` and may be entered only
/// while that level is running; it never blocks and holds no lock state.
///
/// `Interface` answers which level is running and `ContextType` is the type
/// of its answer; neither is stored. Every mutex of one type enforces the
/// same level.
///
/// `try_lock` and `try_lock_mut` ask which level is running, at every access
/// and before the closure, and hand a refusal back. `lock` and `lock_mut`
/// take the level as a pass: one that `Interface` answered and that
/// [`check_level`] let through. An access from another level is a mistake
/// that nothing here recovers from: with a pass it may not be asked for.
///
/// The mutex keeps no record of an access in progress. Exclusive access asks
/// for `&mut`, so a second access cannot start inside it; a shared access
/// that starts inside another shared access is let through.
pub struct Mutex<Interface, Data, ContextType, const LEVEL: usize> where
    ContextType: Debug + PartialEq<usize>,
    Interface: ContextInterface<ContextType>,
 {
    data: Data,
    _interface: PhantomData<Interface>,
    _context: PhantomData<ContextType>,
}

impl<Interface, Data, ContextType, const LEVEL: usize> Mutex<
    Interface,
    Data,
    ContextType,
    LEVEL,
> where ContextType: Debug + PartialEq<usize>, Interface: ContextInterface<ContextType> {
    /// The protected value.
    pub closed spec fn view(&self) -> Data {
        self.data
    }

    /// Wraps `data`. Never fails and does not ask which level is running.
    pub fn new(data: Data) -> (mutex: Self)
        ensures
            mutex@ == data,
    {
        Mutex { data, _interface: PhantomData, _context: PhantomData }
    }

    /// Asks `Interface` which level is running and has [`check_level`] decide
    /// on it: `Ok` hands that level back, as the pass for one access, and
    /// `Err` holds `LEVEL` and that level.
    pub fn current_pass() -> (res: Result<ContextType, WrongContext<ContextType>>)
        ensures
            exists|observed: ContextType|
                {
                    &&& #[trigger] call_ensures(Interface::get_current_level, (), observed)
                    &&& ContextType::obeys_eq_spec() ==> res == checked(observed, LEVEL)
                    &&& res matches Ok(pass) ==> pass == observed
                    &&& res matches Err(refusal) ==> refusal.expected == LEVEL && refusal.observed
                        == observed
                },
    {
        let observed = Interface::get_current_level();
        check_level(observed, LEVEL)
    }

    /// Shared access from the level that is running now. Asks `Interface`
    /// once, then decides: from `LEVEL` the closure runs once on the
    /// protected value and its result comes back; from any other level the
    /// access is refused with both levels and the closure is never called.
    pub fn try_lock<R, F: FnOnce(&Data) -> R>(&self, f: F) -> (res: Result<
        R,
        WrongContext<ContextType>,
    >)
        requires
            call_requires(f, (&self@,)),
        ensures
            exists|observed: ContextType|
                {
                    &&& #[trigger] call_ensures(Interface::get_current_level, (), observed)
                    &&& ContextType::obeys_eq_spec() ==> (res is Ok <==> level_matches(
                        observed,
                        LEVEL,
                    ))
                    &&& res matches Ok(value) ==> call_ensures(f, (&self@,), value)
                    &&& res matches Err(refusal) ==> refusal.expected == LEVEL && refusal.observed
                        == observed
                },
    {
        let observed = Interface::get_current_level();
        match check_level(observed, LEVEL) {
            Ok(_) => {
                let value = f(&self.data);
                let res = Ok(value);
                assert(res->Ok_0 == value);
                res
            },
            Err(refusal) => Err(refusal),
        }
    }

    /// Exclusive access from the level that is running now. Asks `Interface`
    /// once, then decides: from `LEVEL` the closure runs once with the
    /// protected value in its hands, and what it leaves there is the new
    /// protected value; from any other level the access is refused with both
    /// levels, the closure is never called and the protected value stays as
    /// it was.
    pub fn try_lock_mut<R, F: FnOnce(&mut Data) -> R>(&mut self, f: F) -> (res: Result<
        R,
        WrongContext<ContextType>,
    >)
        requires
            accepts_exclusive(f, old(self)@),
        ensures
            exists|observed: ContextType|
                {
                    &&& #[trigger] call_ensures(Interface::get_current_level, (), observed)
                    &&& ContextType::obeys_eq_spec() ==> (res is Ok <==> level_matches(
                        observed,
                        LEVEL,
                    ))
                    &&& res matches Err(refusal) ==> refusal.expected == LEVEL && refusal.observed
                        == observed
                },
            res matches Ok(value) ==> exists|slot: &mut Data|
                {
                    &&& *slot == old(self)@
                    &&& *final(slot) == final(self)@
                    &&& #[trigger] call_ensures(f, (slot,), value)
                },
            res is Err ==> final(self)@ == old(self)@,
    {
        let observed = Interface::get_current_level();
        match check_level(observed, LEVEL) {
            Ok(_) => {
                let value = f(&mut self.data);
                let res = Ok(value);
                assert(res->Ok_0 == value);
                res
            },
            Err(refusal) => Err(refusal),
        }
    }

    /// Shared access from the level `observed`, which `Interface` answered
    /// and which is `LEVEL`: the closure runs once on the protected value and
    /// its result comes back. A level made up by the caller is no pass.
    pub fn lock<R, F: FnOnce(&Data) -> R>(&self, observed: ContextType, f: F) -> (res: R)
        requires
            call_ensures(Interface::get_current_level, (), observed),
            level_admitted(observed, LEVEL),
            call_requires(f, (&self@,)),
        ensures
            call_ensures(f, (&self@,), res),
    {
        f(&self.data)
    }

    /// Exclusive access from the level `observed`, which `Interface` answered
    /// and which is `LEVEL`: the closure runs once with the protected value
    /// in its hands, its result comes back, and what it leaves there is the
    /// new protected value. A level made up by the caller is no pass.
    pub fn lock_mut<R, F: FnOnce(&mut Data) -> R>(&mut self, observed: ContextType, f: F) -> (res:
        R)
        requires
            call_ensures(Interface::get_current_level, (), observed),
            level_admitted(observed, LEVEL),
            accepts_exclusive(f, old(self)@),
        ensures
            exists|slot: &mut Data|
                {
                    &&& *slot == old(self)@
                    &&& *final(slot) == final(self)@
                    &&& #[trigger] call_ensures(f, (slot,), res)
                },
    {
        f(&mut self.data)
    }
}

impl<Interface, Data, ContextType, const LEVEL: usize> crate::mutex::Mutex for Mutex<
    Interface,
    Data,
    ContextType,
    LEVEL,
> where ContextType: Debug + PartialEq<usize>, Interface: ContextInterface<ContextType> {
    type Data = Data;

    type Pass = ContextType;

    open spec fn data(&self) -> Data {
        self@
    }

    /// The pass is the level the access comes from. It is admitted where
    /// `Interface` answered it and it is `LEVEL`.
    open spec fn admits(pass: ContextType) -> bool {
        call_ensures(Interface::get_current_level, (), pass) && level_admitted(pass, LEVEL)
    }

    fn new(data: Data) -> (mutex: Self) {
        Mutex::new(data)
    }

    fn lock<R, F: FnOnce(&Data) -> R>(&self, pass: ContextType, f: F) -> (res: R) {
        Mutex::lock(self, pass, f)
    }

    fn lock_mut<R, F: FnOnce(&mut Data) -> R>(&mut self, pass: ContextType, f: F) -> (res: R) {
        Mutex::lock_mut(self, pass, f)
    }
}

} // verus!
