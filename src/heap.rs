use vstd::layout::size_of;
use vstd::prelude::*;

use crate::unique::Unique;

verus! {

/// Whether a block of `count` elements of `T` has a valid layout: its size in
/// bytes fits in an `isize`.
pub open spec fn array_fits<T>(count: nat) -> bool {
    count * size_of::<T>() <= isize::MAX
}

/// Places `x` in a fresh heap cell and returns its address.
pub fn allocate<T>(x: T) -> (r: Unique<T>)
    ensures
        r@ == x,
{
    Unique::new(std::boxed::Box::new(x))
}

/// Releases the cell at `t` and hands back what it held, without finalizing it.
pub fn free<T>(t: Unique<T>) -> (r: T)
    ensures
        r == t@,
{
    t.take()
}

/// A block reserved for `reserved()` elements, of which the first `live().len()`
/// are initialized.
pub struct RawArray<T> {
    items: Vec<T>,
    reserved: usize,
}

impl<T> RawArray<T> {
    /// The initialized prefix of the block.
    pub closed spec fn live(&self) -> Seq<T> {
        self.items@
    }

    /// The number of elements the block was reserved for.
    pub closed spec fn reserved(&self) -> nat {
        self.reserved as nat
    }

    /// The live prefix never outgrows the reservation, and the reservation
    /// has a valid layout.
    pub closed spec fn wf(&self) -> bool {
        &&& self.items@.len() <= self.reserved
        &&& array_fits::<T>(self.reserved as nat)
    }

    /// Writes `v` into the first uninitialized slot.
    pub fn push(&mut self, v: T)
        requires
            old(self).wf(),
            old(self).live().len() < old(self).reserved(),
        ensures
            final(self).wf(),
            final(self).live() == old(self).live().push(v),
            final(self).reserved() == old(self).reserved(),
    {
        self.items.push(v);
    }

    /// The number of initialized elements.
    pub fn len(&self) -> (r: usize)
        ensures
            r == self.live().len(),
    {
        self.items.len()
    }

    /// The number of elements the block was reserved for.
    pub fn capacity(&self) -> (r: usize)
        ensures
            r == self.reserved(),
    {
        self.reserved
    }
}

/// Reserves a block for `res_count` elements of `T`, none of them initialized.
pub fn alloc_array<T>(res_count: usize) -> (r: RawArray<T>)
    requires
        array_fits::<T>(res_count as nat),
    ensures
        r.wf(),
        r.live() == Seq::<T>::empty(),
        r.reserved() == res_count,
{
    RawArray { items: Vec::with_capacity(res_count), reserved: res_count }
}

/// Finalizes the `count` live elements of `arr`, then releases the block of
/// `res_count` elements that it was reserved with.
pub fn free_array<T>(arr: RawArray<T>, count: usize, res_count: usize)
    requires
        arr.wf(),
        count <= res_count,
        count == arr.live().len(),
        res_count == arr.reserved(),
{
    // The live elements are finalized in order as `_items` leaves scope, and
    // the whole reserved block is released with them.
    let RawArray { items: _items, reserved: _ } = arr;
}

/// Releases the block of `count` elements behind `arr` without finalizing
/// anything; the live elements are handed back as values.
pub fn free_array_ptr<T>(arr: RawArray<T>, count: usize) -> (r: Vec<T>)
    requires
        count == arr.reserved(),
    ensures
        r@ == arr.live(),
{
    let RawArray { items, reserved: _ } = arr;
    items
}

/// Moves the live elements of `arr` into a fresh block of `new_count`
/// elements and releases the old one.
pub fn realloc_fallback<T>(arr: RawArray<T>, new_count: usize) -> (r: RawArray<T>)
    requires
        arr.wf(),
        arr.live().len() <= new_count,
        array_fits::<T>(new_count as nat),
    ensures
        r.wf(),
        r.live() == arr.live(),
        r.reserved() == new_count,
{
    let RawArray { mut items, reserved: _ } = arr;
    let mut moved: Vec<T> = Vec::with_capacity(new_count);
    moved.append(&mut items);
    RawArray { items: moved, reserved: new_count }
}

} // verus!
