use vstd::prelude::*;

use crate::heap::{allocate, free};
use crate::unique::Unique;

verus! {

/// A single-owner heap pointer.
///
/// A box is ended by exactly one of: leaving scope, which finalizes the value
/// in place and releases its cell; `unbox`, which moves the value out and
/// releases the cell without finalizing it; `into_raw`, which disarms the box
/// and hands its address to the caller, who rebuilds a box with `fromRaw`.
/// Each of these takes the box by value, so a box is never used after it.
pub struct Box<T> {
    uptr: Unique<T>,
}

impl<T> View for Box<T> {
    type V = T;

    /// The value the box owns.
    closed spec fn view(&self) -> T {
        self.uptr@
    }
}

impl<T> Box<T> {
    /// Allocates a cell and moves `x` into it.
    pub fn new(x: T) -> (r: Box<T>)
        ensures
            r@ == x,
    {
        Box { uptr: allocate(x) }
    }

    /// Shared access to the owned value.
    pub fn as_ref(&self) -> (r: &T)
        ensures
            *r == self@,
    {
        self.uptr.get_ptr()
    }

    /// Mutable access to the owned value; what is written through it is what
    /// the box then owns.
    pub fn as_mut(&mut self) -> (r: &mut T)
        ensures
            *r == old(self)@,
            final(self)@ == *final(r),
    {
        self.uptr.get_mut_ptr()
    }

    /// Disarms the box: its value is neither finalized nor released, and the
    /// address that holds it goes to the caller.
    pub fn into_raw(self) -> (r: Unique<T>)
        ensures
            r@ == self@,
    {
        self.uptr
    }

    /// Rebuilds a box that owns the value at `raw`.
    #[allow(non_snake_case)]
    pub fn fromRaw(raw: Unique<T>) -> (r: Self)
        ensures
            r@ == raw@,
    {
        Box { uptr: raw }
    }

    /// Moves the value out of the box and releases its cell without
    /// finalizing the vacated slot.
    pub fn unbox(self) -> (r: T)
        ensures
            r == self@,
    {
        free(self.into_raw())
    }
}

/// Unboxing a box fresh from `new` gives back the value it was made with.
pub proof fn lemma_unbox_new<T>(v: T, b: Box<T>, r: T)
    requires
        call_ensures(Box::<T>::new, (v,), b),
        call_ensures(Box::<T>::unbox, (b,), r),
    ensures
        r == v,
{
}

/// Disarming a fresh box, rebuilding it from its address and unboxing it
/// gives back the value it was made with.
pub proof fn lemma_raw_round_trip<T>(v: T, b: Box<T>, raw: Unique<T>, b2: Box<T>, r: T)
    requires
        call_ensures(Box::<T>::new, (v,), b),
        call_ensures(Box::<T>::into_raw, (b,), raw),
        call_ensures(Box::<T>::fromRaw, (raw,), b2),
        call_ensures(Box::<T>::unbox, (b2,), r),
    ensures
        r == v,
{
}

} // verus!
