//! The allocation capability that a container is built with.
use vstd::layout::size_of;
use vstd::prelude::*;

verus! {

/// True when `capacity` elements of `T` span a valid memory block: the byte
/// size `capacity * size_of::<T>()` neither overflows nor exceeds
/// `isize::MAX`.
pub open spec fn fits_in_memory<T>(capacity: nat) -> bool {
    capacity * size_of::<T>() <= isize::MAX
}

/// A block that spans a valid memory block still does when it holds fewer
/// elements.
pub proof fn lemma_fits_in_memory_fewer<T>(fewer: nat, capacity: nat)
    requires
        fewer <= capacity,
        fits_in_memory::<T>(capacity),
    ensures
        fits_in_memory::<T>(fewer),
{
    let size = size_of::<T>();
    assert(fewer * size <= capacity * size) by (nonlinear_arith)
        requires
            fewer <= capacity,
    ;
}

/// The capability through which a heap store obtains, resizes and releases
/// its backing block of elements of `T`.
///
/// A block is handed out as an empty `Vec<T>` with room for the requested
/// number of elements; the elements inside a block travel with it through
/// `reallocate`. The three predicates record, for each implementation, that
/// a block went through the matching call. Code that is generic over the
/// allocator knows nothing else of them, so a contract that names one says
/// that the call was made. An implementation that does not define them
/// counts every block.
pub trait Allocator<T> {
    /// `block` is what this allocator handed out for `capacity` elements.
    closed spec fn allocated(&self, capacity: nat, block: Vec<T>) -> bool {
        true
    }

    /// `moved` is what this allocator made of `block` when it was resized to
    /// room for `new_capacity` elements.
    closed spec fn reallocated(&self, block: Vec<T>, new_capacity: nat, moved: Vec<T>) -> bool {
        true
    }

    /// This allocator took `block` back.
    closed spec fn released(&self, block: Vec<T>) -> bool {
        true
    }

    /// Hands out an empty block with room for `capacity` elements.
    fn allocate(&self, capacity: usize) -> (block: Vec<T>)
        requires
            capacity > 0,
            fits_in_memory::<T>(capacity as nat),
        ensures
            block@ == Seq::<T>::empty(),
            self.allocated(capacity as nat, block),
    ;

    /// Resizes `block` to room for at least `new_capacity` elements, keeping
    /// the elements that it holds.
    fn reallocate(&self, block: Vec<T>, new_capacity: usize) -> (moved: Vec<T>)
        requires
            new_capacity > 0,
            block@.len() <= new_capacity,
            fits_in_memory::<T>(new_capacity as nat),
        ensures
            moved@ == block@,
            self.reallocated(block, new_capacity as nat, moved),
    ;

    /// Takes back a block whose elements have all been destroyed.
    fn deallocate(&self, block: Vec<T>)
        requires
            block@.len() == 0,
        ensures
            self.released(block),
    ;
}

/// The allocator of the standard library.
#[derive(Clone, Copy, Debug, Default)]
pub struct System;

impl<T> Allocator<T> for System {
    /// Every block that `Vec::with_capacity` gives back counts.
    open spec fn allocated(&self, capacity: nat, block: Vec<T>) -> bool {
        true
    }

    /// Every resized block counts.
    open spec fn reallocated(&self, block: Vec<T>, new_capacity: nat, moved: Vec<T>) -> bool {
        true
    }

    /// A block is released by being dropped.
    open spec fn released(&self, block: Vec<T>) -> bool {
        true
    }

    fn allocate(&self, capacity: usize) -> (block: Vec<T>) {
        Vec::with_capacity(capacity)
    }

    fn reallocate(&self, block: Vec<T>, new_capacity: usize) -> (moved: Vec<T>) {
        let mut moved = block;
        let len = moved.len();
        reserve_exact(&mut moved, new_capacity - len);
        shrink_to(&mut moved, new_capacity);
        moved
    }

    fn deallocate(&self, block: Vec<T>) {
    }
}

/// Relies on `Vec::reserve_exact`: it makes room for `additional` more
/// elements without touching the elements held. It panics when the new
/// capacity does not fit in `usize` or exceeds `isize::MAX` bytes, which
/// `requires` rules out.
#[verifier::external_body]
fn reserve_exact<T>(v: &mut Vec<T>, additional: usize)
    requires
        old(v)@.len() + additional <= usize::MAX,
        fits_in_memory::<T>((old(v)@.len() + additional) as nat),
    ensures
        final(v)@ == old(v)@,
{
    v.reserve_exact(additional)
}

/// Relies on `Vec::shrink_to`: it lowers the capacity towards `min_capacity`
/// without touching the elements held.
#[verifier::external_body]
fn shrink_to<T>(v: &mut Vec<T>, min_capacity: usize)
    ensures
        final(v)@ == old(v)@,
{
    v.shrink_to(min_capacity)
}

} // verus!
