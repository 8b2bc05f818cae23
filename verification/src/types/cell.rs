use vstd::prelude::*;

verus! {

/// `std::cell::RefCell`, carried through as it is.
#[verifier::external_type_specification]
#[verifier::external_body]
#[verifier::reject_recursive_types(T)]
pub struct ExRefCell<T: ?Sized>(std::cell::RefCell<T>);

/// `std::cell::Ref`, the guard of a shared borrow, carried through as it is.
#[verifier::external_type_specification]
#[verifier::external_body]
#[verifier::reject_recursive_types(T)]
pub struct ExRef<'b, T: ?Sized>(std::cell::Ref<'b, T>);

/// `std::cell::RefMut`, the guard of an exclusive borrow, carried through as
/// it is.
#[verifier::external_type_specification]
#[verifier::external_body]
#[verifier::reject_recursive_types(T)]
pub struct ExRefMut<'b, T: ?Sized + 'b>(std::cell::RefMut<'b, T>);

/// `std::cell::RefCell::new`: a new cell around `value`. Nothing is claimed
/// of it: what a cell holds is out of the reach of specifications.
#[verifier::external_body]
pub(crate) fn cell_new<T>(value: T) -> std::cell::RefCell<T> {
    std::cell::RefCell::new(value)
}

/// `std::cell::RefCell::try_borrow`: tries to borrow the cell's value for
/// reading. A guard comes back when it was borrowed, nothing when an
/// exclusive borrow is still out; which of the two happens is not claimed.
#[verifier::external_body]
pub(crate) fn cell_try_borrow<'a, T>(cell: &'a std::cell::RefCell<T>) -> Option<
    std::cell::Ref<'a, T>,
> {
    match cell.try_borrow() {
        Ok(guard) => Some(guard),
        Err(_) => None,
    }
}

/// `std::cell::RefCell::try_borrow_mut`: tries to borrow the cell's value
/// exclusively. A guard comes back when it was borrowed, nothing when a
/// borrow is still out; which of the two happens is not claimed.
#[verifier::external_body]
pub(crate) fn cell_try_borrow_mut<'a, T>(cell: &'a std::cell::RefCell<T>) -> Option<
    std::cell::RefMut<'a, T>,
> {
    match cell.try_borrow_mut() {
        Ok(guard) => Some(guard),
        Err(_) => None,
    }
}

/// `Deref::deref` of `std::cell::Ref`: the borrowed value. Nothing is claimed
/// of it.
#[verifier::external_body]
pub(crate) fn borrowed<'a, 'b, T>(guard: &'a std::cell::Ref<'b, T>) -> &'a T {
    std::ops::Deref::deref(guard)
}

/// `DerefMut::deref_mut` of `std::cell::RefMut`: the borrowed value, for
/// writing. Nothing is claimed of it.
#[verifier::external_body]
pub(crate) fn borrowed_mut<'a, 'b, T>(guard: &'a mut std::cell::RefMut<'b, T>) -> &'a mut T {
    std::ops::DerefMut::deref_mut(guard)
}

} // verus!
