//! The heap store: one block obtained from an allocator, with the number of
//! live elements in it and the number of elements it has room for.
use crate::allocator::{fits_in_memory, Allocator};
use vstd::prelude::*;

verus! {

/// An owned block of element storage together with its exact capacity.
///
/// The block itself comes from the [`Allocator`] that the caller passes in;
/// every call that allocates, resizes or releases it must be given the same
/// allocator.
pub struct HeapBuffer<T> {
    elems: Vec<T>,
    cap_: usize,
}

impl<T> View for HeapBuffer<T> {
    type V = Seq<T>;

    /// The live elements, in order.
    closed spec fn view(&self) -> Seq<T> {
        self.elems@
    }
}

impl<T> HeapBuffer<T> {
    /// The block the elements are held in.
    pub closed spec fn block(&self) -> Vec<T> {
        self.elems
    }

    /// The number of elements the block has room for.
    pub closed spec fn cap(&self) -> nat {
        self.cap_ as nat
    }

    /// A descriptor of a live block: the length never exceeds the capacity,
    /// and the capacity is positive and spans a valid memory block.
    pub open spec fn wf(&self) -> bool {
        &&& self@.len() <= self.cap()
        &&& self.cap() > 0
        &&& fits_in_memory::<T>(self.cap())
    }

    /// Allocates a block with room for exactly `capacity` elements through
    /// `alloc`, and describes it with length 0.
    pub fn with_capacity<A: Allocator<T>>(capacity: usize, alloc: &A) -> (r: Self)
        requires
            capacity > 0,
            fits_in_memory::<T>(capacity as nat),
        ensures
            r.wf(),
            r@ == Seq::<T>::empty(),
            r.cap() == capacity,
            alloc.allocated(capacity as nat, r.block()),
    {
        let elems = alloc.allocate(capacity);
        HeapBuffer { elems, cap_: capacity }
    }

    /// A descriptor that owns no block: no elements, and `capacity` recorded
    /// as the room it stands for.
    pub(crate) fn unallocated(capacity: usize) -> (r: Self)
        ensures
            r@ == Seq::<T>::empty(),
            r.cap() == capacity,
    {
        HeapBuffer { elems: Vec::new(), cap_: capacity }
    }

    /// Returns the number of elements.
    pub fn len(&self) -> (r: usize)
        ensures
            r == self@.len(),
    {
        self.elems.len()
    }

    /// Forces the length to `new_len`, which may not exceed the current
    /// length: the places past the length hold no elements to take in, and
    /// new elements come in through `push`. Those past `new_len` are
    /// destroyed.
    pub fn set_len(&mut self, new_len: usize)
        requires
            new_len <= old(self)@.len(),
        ensures
            final(self)@ == old(self)@.take(new_len as int),
            final(self).cap() == old(self).cap(),
    {
        self.elems.truncate(new_len);
    }

    /// Returns the number of elements the buffer can hold without
    /// reallocating.
    pub fn capacity(&self) -> (r: usize)
        ensures
            r == self.cap(),
    {
        self.cap_
    }

    /// Resizes the block through `alloc` to room for exactly `new_capacity`
    /// elements, keeping the elements it holds.
    pub fn set_capacity<A: Allocator<T>>(&mut self, new_capacity: usize, alloc: &A)
        requires
            new_capacity > 0,
            old(self)@.len() <= new_capacity,
            fits_in_memory::<T>(new_capacity as nat),
        ensures
            final(self).wf(),
            final(self)@ == old(self)@,
            final(self).cap() == new_capacity,
            alloc.reallocated(old(self).block(), new_capacity as nat, final(self).block()),
    {
        let mut block: Vec<T> = Vec::new();
        core::mem::swap(&mut self.elems, &mut block);
        self.elems = alloc.reallocate(block, new_capacity);
        self.cap_ = new_capacity;
    }

    /// Returns the live elements.
    pub fn as_ptr(&self) -> (r: &[T])
        ensures
            r@ == self@,
    {
        self.elems.as_slice()
    }

    /// Returns the live elements, for writing in place.
    pub fn as_mut_ptr(&mut self) -> (r: &mut [T])
        ensures
            r@ == old(self)@,
            final(self)@ == final(r)@,
            final(self).cap() == old(self).cap(),
    {
        self.elems.as_mut_slice()
    }

    /// Appends `elm` in the first free place.
    pub(crate) fn push(&mut self, elm: T)
        requires
            old(self)@.len() < old(self).cap(),
        ensures
            final(self)@ == old(self)@.push(elm),
            final(self).cap() == old(self).cap(),
    {
        self.elems.push(elm);
    }

    /// Removes the last element and returns it, if there is one.
    pub(crate) fn pop(&mut self) -> (r: Option<T>)
        ensures
            final(self).cap() == old(self).cap(),
            old(self)@.len() == 0 ==> r == None::<T> && final(self)@ == old(self)@,
            old(self)@.len() > 0 ==> r == Some(old(self)@.last()) && final(self)@
                == old(self)@.drop_last(),
    {
        self.elems.pop()
    }

    /// Moves every element of `other`, in order, behind the elements of
    /// `self` in one bulk relocation; `other` is left empty.
    pub(crate) fn relocate_from(&mut self, other: &mut HeapBuffer<T>)
        requires
            old(self)@.len() + old(other)@.len() <= old(self).cap(),
        ensures
            final(self)@ == old(self)@ + old(other)@,
            final(self).cap() == old(self).cap(),
            final(other)@ == Seq::<T>::empty(),
            final(other).cap() == old(other).cap(),
    {
        self.elems.append(&mut other.elems);
    }

    /// Releases the block through `alloc`. Every element must already have
    /// been destroyed; the descriptor owns no block afterwards.
    pub fn pre_drop<A: Allocator<T>>(&mut self, alloc: &A)
        requires
            old(self)@.len() == 0,
        ensures
            final(self)@ == Seq::<T>::empty(),
            final(self).cap() == old(self).cap(),
            alloc.released(old(self).block()),
    {
        let mut block: Vec<T> = Vec::new();
        core::mem::swap(&mut self.elems, &mut block);
        alloc.deallocate(block);
    }
}

} // verus!
