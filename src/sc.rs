use std::rc::Rc;
use vstd::prelude::*;

verus! {

/// An owning handle to a value on the heap, shared with its clones within one
/// thread. The allocation keeps its count without atomic operations; the
/// handle can be neither sent to nor shared with another thread.
pub struct Sc<T: ?Sized> {
    ptr: Rc<T>,
}

/// Relies on `Rc::strong_count`: the number of handles to the allocation,
/// of which `this` is one.
#[verifier::external_body]
fn rc_strong_count<T: ?Sized>(this: &Rc<T>) -> (r: usize)
    ensures
        r >= 1,
{
    Rc::strong_count(this)
}

/// Relies on `Rc::ptr_eq`: whether the two point to the same allocation,
/// which then holds one value.
#[verifier::external_body]
fn rc_ptr_eq<T: ?Sized>(a: &Rc<T>, b: &Rc<T>) -> (r: bool)
    ensures
        r ==> a == b,
{
    Rc::ptr_eq(a, b)
}

impl<T> Sc<T> {
    /// Moves `data` into a new allocation whose count is one.
    pub fn new(data: T) -> (r: Sc<T>)
        ensures
            *r.payload() == data,
    {
        Self::new_with_count(data)
    }

    /// Moves `data` into a new allocation, together with a count of one.
    pub fn new_with_count(data: T) -> (r: Sc<T>)
        ensures
            *r.payload() == data,
    {
        Sc { ptr: Rc::new(data) }
    }
}

impl<T: ?Sized> Sc<T> {
    /// The value that the handle refers to.
    pub closed spec fn payload(&self) -> &T {
        &*self.ptr
    }

    /// The number of handles to this allocation, this one among them.
    pub fn strong_count(&self) -> (r: usize)
        ensures
            r >= 1,
    {
        rc_strong_count(&self.ptr)
    }

    /// Whether `a` and `b` are handles to one allocation.
    pub fn ptr_eq(a: &Sc<T>, b: &Sc<T>) -> (r: bool)
        ensures
            r ==> a.payload() == b.payload(),
    {
        rc_ptr_eq(&a.ptr, &b.ptr)
    }

    /// A handle over a counted allocation that `ptr` owns. `ptr` may have
    /// been widened from a concrete payload to an abstract view of it
    /// (`rc as Rc<dyn View>`): the allocation and its count stay as they are.
    pub fn from_rc(ptr: Rc<T>) -> (r: Sc<T>)
        ensures
            r.payload() == &*ptr,
    {
        Sc { ptr }
    }

    /// Gives up the handle as the counted pointer that it holds, without
    /// touching the count.
    pub fn into_rc(self) -> (r: Rc<T>)
        ensures
            &*r == self.payload(),
    {
        self.ptr
    }
}

impl<T: ?Sized> Clone for Sc<T> {
    /// One more handle to the same allocation: the count goes up by one.
    fn clone(&self) -> (r: Self)
        ensures
            r.payload() == self.payload(),
    {
        Sc { ptr: Rc::clone(&self.ptr) }
    }
}

impl<T: ?Sized> std::ops::Deref for Sc<T> {
    type Target = T;

    fn deref(&self) -> (r: &T)
        ensures
            r == self.payload(),
    {
        &*self.ptr
    }
}

impl<T: ?Sized> AsRef<T> for Sc<T> {
    fn as_ref(&self) -> (r: &T)
        ensures
            r == self.payload(),
    {
        &*self.ptr
    }
}

} // verus!
