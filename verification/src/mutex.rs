use vstd::prelude::*;

verus! {

/// Whether `f` may be called with exclusive access to a slot that holds
/// `before`.
pub open spec fn accepts_exclusive<Data, R, F: FnOnce(&mut Data) -> R>(f: F, before: Data) -> bool {
    forall|slot: &mut Data| *slot == before ==> call_requires(f, (slot,))
}

/// The capability every mutual-exclusion primitive of this crate offers:
/// wrap a value, run a closure with shared access to it, run a closure with
/// exclusive access to it.
///
/// The protected value is visible to specifications as `data()`. An access
/// hands in a pass: what the mutex wants to see before it lets anyone in.
/// Which passes a mutex admits is fixed by its type, the same for every
/// instance, and an access may be asked for only with a pass that is
/// admitted. It then runs the closure once on the protected value and hands
/// back what the closure returned.
pub trait Mutex: Sized {
    /// The protected value.
    type Data;

    /// What an access hands in to be let in.
    type Pass;

    /// The protected value as specifications see it.
    spec fn data(&self) -> Self::Data;

    /// Whether a mutex of this type lets in an access that hands in `pass`.
    spec fn admits(pass: Self::Pass) -> bool;

    /// Wraps `data`. Never fails.
    fn new(data: Self::Data) -> (mutex: Self)
        ensures
            mutex.data() == data,
    ;

    /// Shared access: hands back what `f` returned on the protected value.
    fn lock<R, F: FnOnce(&Self::Data) -> R>(&self, pass: Self::Pass, f: F) -> (res: R)
        requires
            Self::admits(pass),
            call_requires(f, (&self.data(),)),
        ensures
            call_ensures(f, (&self.data(),), res),
    ;

    /// Exclusive access: hands back what `f` returned, and the protected
    /// value is what `f` left in it.
    fn lock_mut<R, F: FnOnce(&mut Self::Data) -> R>(&mut self, pass: Self::Pass, f: F) -> (res: R)
        requires
            Self::admits(pass),
            accepts_exclusive(f, old(self).data()),
        ensures
            exists|slot: &mut Self::Data|
                {
                    &&& *slot == old(self).data()
                    &&& *final(slot) == final(self).data()
                    &&& #[trigger] call_ensures(f, (slot,), res)
                },
    ;
}

/// What the contract of `lock_mut` says of a result of `lock_mut`, whatever
/// was handed to it: a function, a closure.
pub proof fn lemma_lock_mut_outcome<M: Mutex, R, F: FnOnce(&mut M::Data) -> R>(
    access: &mut M,
    pass: M::Pass,
    f: F,
    res: R,
)
    requires
        call_ensures(M::lock_mut::<R, F>, (access, pass, f), res),
    ensures
        exists|slot: &mut M::Data|
            {
                &&& *slot == old(access).data()
                &&& *final(slot) == final(access).data()
                &&& #[trigger] call_ensures(f, (slot,), res)
            },
{
}

/// Round trip: a shared access that hands back what it sees returns the
/// value the mutex was made with.
pub proof fn law_round_trip<M: Mutex, F: FnOnce(&M::Data) -> M::Data>(
    initial: M::Data,
    mutex: M,
    pass: M::Pass,
    read: F,
    res: M::Data,
)
    requires
        call_ensures(M::new, (initial,), mutex),
        forall|seen: &M::Data, out: M::Data| #[trigger]
            call_ensures(read, (seen,), out) ==> out == *seen,
        call_ensures(M::lock::<M::Data, F>, (&mutex, pass, read), res),
    ensures
        res == initial,
{
}

/// Write visibility: after an exclusive access that leaves `written` in the
/// protected value, a shared access that hands back what it sees returns
/// `written`.
pub proof fn law_write_visible<
    M: Mutex,
    R,
    W: FnOnce(&mut M::Data) -> R,
    F: FnOnce(&M::Data) -> M::Data,
>(
    access: &mut M,
    write_pass: M::Pass,
    write: W,
    written: M::Data,
    wrote: R,
    read_pass: M::Pass,
    read: F,
    res: M::Data,
)
    requires
        forall|slot: &mut M::Data, out: R| #[trigger]
            call_ensures(write, (slot,), out) ==> *final(slot) == written,
        call_ensures(M::lock_mut::<R, W>, (access, write_pass, write), wrote),
        forall|seen: &M::Data, out: M::Data| #[trigger]
            call_ensures(read, (seen,), out) ==> out == *seen,
        call_ensures(M::lock::<M::Data, F>, (&*final(access), read_pass, read), res),
    ensures
        res == written,
{
}

} // verus!
