use std::sync::Arc;
use vstd::prelude::*;

verus! {

/// An owning handle to a value on the heap, shared with its clones across
/// threads. The allocation keeps its count with atomic operations: a clone
/// adds one with relaxed ordering, a release takes one away with release
/// ordering, and the release that takes it to zero passes an acquire fence
/// before it frees the block, so it sees every write made before the other
/// releases.
///
/// A handle may be sent to or shared with another thread only where the
/// payload itself may be (`T: Send + Sync`). The handle does not claim that
/// for payloads that cannot be shared safely.
pub struct Asc<T: ?Sized> {
    ptr: Arc<T>,
}

/// Relies on `Arc::strong_count`: the number of handles to the allocation,
/// of which `this` is one.
#[verifier::external_body]
fn arc_strong_count<T: ?Sized>(this: &Arc<T>) -> (r: usize)
    ensures
        r >= 1,
{
    Arc::strong_count(this)
}

/// Relies on `Arc::ptr_eq`: whether the two point to the same allocation,
/// which then holds one value.
#[verifier::external_body]
fn arc_ptr_eq<T: ?Sized>(a: &Arc<T>, b: &Arc<T>) -> (r: bool)
    ensures
        r ==> a == b,
{
    Arc::ptr_eq(a, b)
}

impl<T> Asc<T> {
    /// Moves `data` into a new allocation whose count is one.
    pub fn new(data: T) -> (r: Asc<T>)
        ensures
            *r.payload() == data,
    {
        Self::new_with_count(data)
    }

    /// Moves `data` into a new allocation, together with a count of one.
    pub fn new_with_count(data: T) -> (r: Asc<T>)
        ensures
            *r.payload() == data,
    {
        Asc { ptr: Arc::new(data) }
    }
}

impl<T: ?Sized> Asc<T> {
    /// The value that the handle refers to.
    pub closed spec fn payload(&self) -> &T {
        &*self.ptr
    }

    /// The number of handles to this allocation, this one among them.
    pub fn strong_count(&self) -> (r: usize)
        ensures
            r >= 1,
    {
        arc_strong_count(&self.ptr)
    }

    /// Whether `a` and `b` are handles to one allocation.
    pub fn ptr_eq(a: &Asc<T>, b: &Asc<T>) -> (r: bool)
        ensures
            r ==> a.payload() == b.payload(),
    {
        arc_ptr_eq(&a.ptr, &b.ptr)
    }

    /// A handle over a counted allocation that `ptr` owns. `ptr` may have
    /// been widened from a concrete payload to an abstract view of it
    /// (`arc as Arc<dyn View>`): the allocation and its count stay as they are.
    pub fn from_arc(ptr: Arc<T>) -> (r: Asc<T>)
        ensures
            r.payload() == &*ptr,
    {
        Asc { ptr }
    }

    /// Gives up the handle as the atomically counted pointer that it holds, without
    /// touching the count.
    pub fn into_arc(self) -> (r: Arc<T>)
        ensures
            &*r == self.payload(),
    {
        self.ptr
    }
}

impl<T: ?Sized> Clone for Asc<T> {
    /// One more handle to the same allocation: the count goes up by one.
    fn clone(&self) -> (r: Self)
        ensures
            r.payload() == self.payload(),
    {
        Asc { ptr: Arc::clone(&self.ptr) }
    }
}

impl<T: ?Sized> std::ops::Deref for Asc<T> {
    type Target = T;

    fn deref(&self) -> (r: &T)
        ensures
            r == self.payload(),
    {
        &*self.ptr
    }
}

} // verus!
