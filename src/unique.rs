use vstd::prelude::*;

verus! {

/// A typed heap address: the cell that holds one `T`.
///
/// A handle says "this is an address of a `T`, not a `T`"; it is what an
/// owning `Box` hands out when it is disarmed and what it is rebuilt from.
pub struct Unique<T> {
    ptr: std::boxed::Box<T>,
}

impl<T> View for Unique<T> {
    type V = T;

    /// The value stored at the address.
    closed spec fn view(&self) -> T {
        *self.ptr
    }
}

impl<T> Unique<T> {
    /// Wraps a heap cell, with no check on what it holds.
    pub fn new(ptr: std::boxed::Box<T>) -> (r: Self)
        ensures
            r@ == *ptr,
    {
        Unique { ptr }
    }

    /// Mutable access to the value at the address.
    pub fn get_mut_ptr(&mut self) -> (r: &mut T)
        ensures
            *r == old(self)@,
            final(self)@ == *final(r),
    {
        &mut self.ptr
    }

    /// Moves the value out of its cell and releases the cell.
    pub(crate) fn take(self) -> (r: T)
        ensures
            r == self@,
    {
        *self.ptr
    }

    /// Shared access to the value at the address.
    pub fn get_ptr(&self) -> (r: &T)
        ensures
            *r == self@,
    {
        &self.ptr
    }
}

} // verus!
