//! The inline store: the container's own slot, with a one-byte tag that is
//! either the inline length or the mark that the slot now holds a heap store.
use crate::heap_buffer::HeapBuffer;
use vstd::layout::size_of;
use vstd::prelude::*;

verus! {

/// The tag value meaning that the slot holds a heap store (`u8::MAX`).
pub const HEAP_TAG: u8 = 255;

/// The longest inline length the tag can express: every value below
/// [`HEAP_TAG`].
pub const MAX_INLINE_LEN: usize = 254;

/// The bytes of the inline slot that can hold elements: all of it but the
/// tag byte.
pub open spec fn inline_region_size() -> nat {
    if size_of::<StackBuffer<u8>>() > 0 {
        (size_of::<StackBuffer<u8>>() - 1) as nat
    } else {
        0
    }
}

/// How many elements of `T` the inline slot holds: as many as fit in its
/// region, and never more than the tag can count.
pub open spec fn inline_capacity<T>() -> nat {
    if size_of::<T>() == 0 {
        MAX_INLINE_LEN as nat
    } else if inline_region_size() / size_of::<T>() < MAX_INLINE_LEN {
        inline_region_size() / size_of::<T>()
    } else {
        MAX_INLINE_LEN as nat
    }
}

/// A slot large enough to hold a [`HeapBuffer`] in place, plus a tag byte.
///
/// While the tag is below [`HEAP_TAG`] the slot is the inline store and the
/// tag is its length; once the tag is [`HEAP_TAG`] the slot is a heap store
/// and stays one. The two stores share one descriptor: in the inline store
/// it records the inline capacity and holds the elements in a `Vec` of its
/// own, never in a block from the container's allocator.
pub struct StackBuffer<T> {
    slot: HeapBuffer<T>,
    len_: u8,
}

impl<T> View for StackBuffer<T> {
    type V = Seq<T>;

    /// The elements held in the slot, in order.
    open spec fn view(&self) -> Seq<T> {
        self.slot()@
    }
}

impl<T> StackBuffer<T> {
    /// The tag byte.
    pub closed spec fn tag(&self) -> u8 {
        self.len_
    }

    /// What the slot holds, seen as a heap store.
    pub closed spec fn slot(&self) -> HeapBuffer<T> {
        self.slot
    }

    /// True while the slot is the inline store.
    pub open spec fn available(&self) -> bool {
        self.tag() != HEAP_TAG
    }

    /// An inline store in a consistent state: the tag counts the elements,
    /// which never outnumber the inline capacity.
    pub open spec fn wf(&self) -> bool {
        &&& self.available()
        &&& self@.len() == self.tag()
        &&& self@.len() <= inline_capacity::<T>()
        &&& self.slot().cap() == inline_capacity::<T>()
    }

    /// Creates an empty inline store.
    pub fn new() -> (r: Self)
        ensures
            r.wf(),
            r@ == Seq::<T>::empty(),
    {
        StackBuffer { slot: HeapBuffer::unallocated(Self::capacity()), len_: 0 }
    }

    /// Returns the number of elements.
    pub fn len(&self) -> (r: usize)
        requires
            self.wf(),
        ensures
            r == self@.len(),
    {
        self.len_ as usize
    }

    /// Forces the length to `new_len`, which may not exceed the current
    /// length: the places past the length hold no elements to take in, and
    /// new elements come in through `push`. Those past `new_len` are
    /// destroyed.
    pub fn set_len(&mut self, new_len: usize)
        requires
            old(self).wf(),
            new_len <= old(self)@.len(),
        ensures
            final(self).wf(),
            final(self)@ == old(self)@.take(new_len as int),
    {
        self.slot.set_len(new_len);
        self.len_ = new_len as u8;
    }

    /// Returns the max number of the elements `StackBuffer` can hold.
    pub fn capacity() -> (r: usize)
        ensures
            r == inline_capacity::<T>(),
    {
        let slot_size = core::mem::size_of::<StackBuffer<u8>>();
        let region = if slot_size > 0 {
            slot_size - 1
        } else {
            0
        };
        let elem_size = core::mem::size_of::<T>();
        if elem_size == 0 {
            MAX_INLINE_LEN
        } else if region / elem_size < MAX_INLINE_LEN {
            region / elem_size
        } else {
            MAX_INLINE_LEN
        }
    }

    /// Returns the elements held inline.
    pub fn as_ptr(&self) -> (r: &[T])
        requires
            self.wf(),
        ensures
            r@ == self@,
    {
        self.slot.as_ptr()
    }

    /// Returns the elements held inline, for writing in place.
    pub fn as_mut_ptr(&mut self) -> (r: &mut [T])
        requires
            old(self).wf(),
        ensures
            r@ == old(self)@,
            final(self)@ == final(r)@,
            final(self).tag() == old(self).tag(),
            final(self).slot().cap() == old(self).slot().cap(),
    {
        self.slot.as_mut_ptr()
    }

    /// Returns true if `self` can be used as the inline store, or false.
    pub fn is_available(&self) -> (r: bool)
        ensures
            r == self.available(),
    {
        self.len_ != HEAP_TAG
    }

    /// Marks the slot as holding a heap store; there is no way back.
    pub fn disable(&mut self)
        ensures
            !final(self).available(),
            final(self).slot() == old(self).slot(),
    {
        self.len_ = HEAP_TAG;
    }

    /// Appends `elm` in the first free inline place.
    pub(crate) fn push(&mut self, elm: T)
        requires
            old(self).wf(),
            old(self)@.len() < inline_capacity::<T>(),
        ensures
            final(self).wf(),
            final(self)@ == old(self)@.push(elm),
    {
        self.slot.push(elm);
        self.len_ = self.len_ + 1;
    }

    /// Removes the last inline element and returns it, if there is one.
    pub(crate) fn pop(&mut self) -> (r: Option<T>)
        requires
            old(self).wf(),
        ensures
            final(self).wf(),
            old(self)@.len() == 0 ==> r == None::<T> && final(self)@ == old(self)@,
            old(self)@.len() > 0 ==> r == Some(old(self)@.last()) && final(self)@
                == old(self)@.drop_last(),
    {
        let r = self.slot.pop();
        if self.len_ > 0 {
            self.len_ = self.len_ - 1;
        }
        r
    }

    /// Reads the slot as a heap store.
    pub(crate) fn slot_ref(&self) -> (r: &HeapBuffer<T>)
        ensures
            *r == self.slot(),
    {
        &self.slot
    }

    /// Gives write access to the slot as a heap store; the tag is untouched.
    pub(crate) fn slot_mut(&mut self) -> (r: &mut HeapBuffer<T>)
        ensures
            *r == old(self).slot(),
            final(self).slot() == *final(r),
            final(self).tag() == old(self).tag(),
    {
        &mut self.slot
    }
}

} // verus!
