//! The container: one slot that is either the inline store or a heap store,
//! and the allocator it was built with.
use crate::allocator::{fits_in_memory, lemma_fits_in_memory_fewer, Allocator};
use crate::heap_buffer::HeapBuffer;
use crate::stack_buffer::{inline_capacity, StackBuffer, MAX_INLINE_LEN};
use vstd::prelude::*;

verus! {

/// What one `pop` returns from the contents `s`.
pub open spec fn pop_result<T>(s: Seq<T>) -> Option<T> {
    if s.len() == 0 {
        None
    } else {
        Some(s.last())
    }
}

/// The contents left by one `pop` from the contents `s`.
pub open spec fn after_pop<T>(s: Seq<T>) -> Seq<T> {
    if s.len() == 0 {
        s
    } else {
        s.drop_last()
    }
}

/// The contents after pushing the elements of `xs`, first to last, onto `s`.
pub open spec fn after_pushes<T>(s: Seq<T>, xs: Seq<T>) -> Seq<T>
    decreases xs.len(),
{
    if xs.len() == 0 {
        s
    } else {
        after_pushes(s, xs.drop_last()).push(xs.last())
    }
}

/// The values that `n` successive pops return from the contents `s`, in the
/// order they are returned.
pub open spec fn popped<T>(s: Seq<T>, n: nat) -> Seq<Option<T>>
    decreases n,
{
    if n == 0 {
        Seq::empty()
    } else {
        seq![pop_result(s)] + popped(after_pop(s), (n - 1) as nat)
    }
}

/// The contents left by `n` successive pops from the contents `s`.
pub open spec fn after_pops<T>(s: Seq<T>, n: nat) -> Seq<T>
    decreases n,
{
    if n == 0 {
        s
    } else {
        after_pops(after_pop(s), (n - 1) as nat)
    }
}

/// `SoVec` stands for small-optimized vector.
///
/// It behaves like `Vec`. While its elements fit in the inline capacity, it
/// keeps them in its inline store, which asks nothing of its allocator (the
/// store's own `Vec` grows on the global heap); past that capacity it takes
/// a block from its allocator, once, and keeps it. Growth is exact-fit: the
/// capacity becomes exactly what was asked for.
///
/// Dropping a `SoVec` destroys each element once. Its block, if it has one,
/// is freed along with it and is not handed back through
/// `Allocator::deallocate`.
pub struct SoVec<T, A: Allocator<T>> {
    buffer: StackBuffer<T>,
    alloc: A,
}

impl<T, A: Allocator<T>> View for SoVec<T, A> {
    type V = Seq<T>;

    /// The elements, in order.
    closed spec fn view(&self) -> Seq<T> {
        self.buffer@
    }
}

impl<T, A: Allocator<T>> SoVec<T, A> {
    /// True while the elements live in the inline store.
    pub closed spec fn is_inline(&self) -> bool {
        self.buffer.available()
    }

    /// The capacity of the heap store, once there is one.
    pub closed spec fn heap_cap(&self) -> nat {
        self.buffer.slot().cap()
    }

    /// The number of elements the container holds without allocating: the
    /// inline capacity while inline, the heap store's capacity after.
    pub open spec fn cap(&self) -> nat {
        if self.is_inline() {
            inline_capacity::<T>()
        } else {
            self.heap_cap()
        }
    }

    /// The heap store's block, once there is one.
    pub closed spec fn block(&self) -> Vec<T> {
        self.buffer.slot().block()
    }

    /// The allocator the container was built with.
    pub closed spec fn allocator(&self) -> A {
        self.alloc
    }

    /// The tag and the active store agree, and the active store is
    /// consistent.
    pub closed spec fn stores_agree(&self) -> bool {
        if self.is_inline() {
            self.buffer.wf()
        } else {
            self.buffer.slot().wf()
        }
    }

    /// A container in a consistent state: the length never exceeds the
    /// capacity, an inline length fits the tag, and a heap store has a
    /// positive capacity that spans a valid memory block.
    pub open spec fn wf(&self) -> bool {
        &&& self@.len() <= self.cap()
        &&& self.is_inline() ==> self@.len() <= MAX_INLINE_LEN
        &&& !self.is_inline() ==> self.cap() > 0 && fits_in_memory::<T>(self.cap())
        &&& self.stores_agree()
    }

    /// Creates a new empty instance.
    pub fn new(alloc: A) -> (r: Self)
        ensures
            r.wf(),
            r@ == Seq::<T>::empty(),
            r.is_inline(),
            r.cap() == inline_capacity::<T>(),
            r.allocator() == alloc,
    {
        SoVec { buffer: StackBuffer::new(), alloc }
    }

    /// Creates a new empty instance whose capacity is at least `capacity`.
    /// It stays inline when `capacity` fits there; otherwise it takes a
    /// block of exactly `capacity` elements from `alloc`.
    pub fn with_capacity(capacity: usize, alloc: A) -> (r: Self)
        requires
            capacity > inline_capacity::<T>() ==> fits_in_memory::<T>(capacity as nat),
        ensures
            r.wf(),
            r@ == Seq::<T>::empty(),
            r.is_inline() <==> capacity <= inline_capacity::<T>(),
            r.is_inline() ==> r.cap() == inline_capacity::<T>(),
            !r.is_inline() ==> r.cap() == capacity,
            r.cap() >= capacity,
            r.allocator() == alloc,
            !r.is_inline() ==> alloc.allocated(capacity as nat, r.block()),
    {
        let mut ret = Self::new(alloc);
        if StackBuffer::<T>::capacity() < capacity {
            let heap_buffer = HeapBuffer::<T>::with_capacity(capacity, &ret.alloc);
            ret.to_heap(heap_buffer);
        }
        ret
    }

    /// Returns the number of the elements `self` is holding.
    pub fn len(&self) -> (r: usize)
        requires
            self.wf(),
        ensures
            r == self@.len(),
            r <= self.cap(),
            self.is_inline() ==> r <= MAX_INLINE_LEN,
    {
        if self.is_using_stack() {
            self.as_stack().len()
        } else {
            self.as_heap().len()
        }
    }

    /// Returns true if `self` is not holding any element, or false.
    pub fn is_empty(&self) -> (r: bool)
        requires
            self.wf(),
        ensures
            r == (self@.len() == 0),
    {
        self.len() == 0
    }

    /// Forces the length to `new_len`, which may not exceed the current
    /// length: the places past the length hold no elements to take in, and
    /// new elements come in through `push`. Those past `new_len` are
    /// destroyed. Neither the store in use nor the capacity changes.
    pub fn set_len(&mut self, new_len: usize)
        requires
            old(self).wf(),
            new_len <= old(self)@.len(),
        ensures
            final(self).wf(),
            final(self)@ == old(self)@.take(new_len as int),
            final(self).is_inline() == old(self).is_inline(),
            final(self).cap() == old(self).cap(),
            final(self).allocator() == old(self).allocator(),
    {
        if self.is_using_stack() {
            self.as_mut_stack().set_len(new_len);
        } else {
            self.as_mut_heap().set_len(new_len);
        }
    }

    /// Returns the number of the elements `self` can hold without allocating.
    pub fn capacity(&self) -> (r: usize)
        requires
            self.wf(),
        ensures
            r == self.cap(),
            self.is_inline() ==> r == inline_capacity::<T>(),
            !self.is_inline() ==> r > 0,
            r >= self@.len(),
    {
        if self.is_using_stack() {
            StackBuffer::<T>::capacity()
        } else {
            self.as_heap().capacity()
        }
    }

    /// Makes room for `additional` more elements, exactly.
    ///
    /// When `len + additional` already fits, nothing changes. Otherwise the
    /// capacity becomes exactly `len + additional`: an inline container moves
    /// its elements, as they are, into a new block from its allocator and
    /// turns into a heap container; a heap container resizes its block.
    pub fn reserve_exact(&mut self, additional: usize)
        requires
            old(self).wf(),
            old(self)@.len() + additional <= usize::MAX,
            old(self)@.len() + additional > old(self).cap() ==> fits_in_memory::<T>(
                (old(self)@.len() + additional) as nat,
            ),
        ensures
            final(self).wf(),
            final(self)@ == old(self)@,
            final(self).allocator() == old(self).allocator(),
            old(self)@.len() + additional <= old(self).cap() ==> *final(self) == *old(self),
            old(self)@.len() + additional > old(self).cap() ==> !final(self).is_inline()
                && final(self).cap() == old(self)@.len() + additional,
            old(self)@.len() + additional > old(self).cap() && old(self).is_inline() ==> exists|
                b: Vec<T>,
            |
                #![trigger final(self).allocator().allocated((old(self)@.len() + additional) as nat, b)]
                final(self).allocator().allocated((old(self)@.len() + additional) as nat, b),
            old(self)@.len() + additional > old(self).cap() && !old(self).is_inline()
                ==> final(self).allocator().reallocated(
                old(self).block(),
                (old(self)@.len() + additional) as nat,
                final(self).block(),
            ),
    {
        let new_capacity = self.len() + additional;

        if new_capacity <= self.capacity() {
            return ;
        }
        if self.is_using_stack() {
            let mut heap_buffer = HeapBuffer::<T>::with_capacity(new_capacity, &self.alloc);
            let ghost handed_out = heap_buffer.block();
            heap_buffer.relocate_from(self.buffer.slot_mut());
            self.to_heap(heap_buffer);
            assert(self.allocator().allocated(new_capacity as nat, handed_out));
        } else {
            self.buffer.slot_mut().set_capacity(new_capacity, &self.alloc);
        }
    }

    /// Appends `elm` to the end of `self`, which must have room for it.
    pub fn push(&mut self, elm: T)
        requires
            old(self).wf(),
            old(self)@.len() < old(self).cap(),
        ensures
            final(self).wf(),
            final(self)@ == old(self)@.push(elm),
            final(self).is_inline() == old(self).is_inline(),
            final(self).cap() == old(self).cap(),
            final(self).allocator() == old(self).allocator(),
    {
        if self.is_using_stack() {
            self.as_mut_stack().push(elm);
        } else {
            self.as_mut_heap().push(elm);
        }
    }

    /// Removes the last element and returns it if any.
    pub fn pop(&mut self) -> (r: Option<T>)
        requires
            old(self).wf(),
        ensures
            final(self).wf(),
            r == pop_result(old(self)@),
            final(self)@ == after_pop(old(self)@),
            final(self).is_inline() == old(self).is_inline(),
            final(self).cap() == old(self).cap(),
            final(self).allocator() == old(self).allocator(),
    {
        if self.is_using_stack() {
            self.as_mut_stack().pop()
        } else {
            self.as_mut_heap().pop()
        }
    }

    /// Returns the elements of `self`.
    pub fn as_ptr(&self) -> (r: &[T])
        requires
            self.wf(),
        ensures
            r@ == self@,
    {
        if self.is_using_stack() {
            self.as_stack().as_ptr()
        } else {
            self.as_heap().as_ptr()
        }
    }

    /// Returns the elements of `self`, for writing in place.
    pub fn as_mut_ptr(&mut self) -> (r: &mut [T])
        requires
            old(self).wf(),
        ensures
            r@ == old(self)@,
            final(self)@ == final(r)@,
            final(self)@.len() == old(self)@.len() ==> final(self).wf(),
            final(self).is_inline() == old(self).is_inline(),
            final(self).cap() == old(self).cap(),
            final(self).allocator() == old(self).allocator(),
    {
        if self.is_using_stack() {
            self.as_mut_stack().as_mut_ptr()
        } else {
            self.as_mut_heap().as_mut_ptr()
        }
    }

    /// Removes the all elements keeping the allocated capacity, and set the
    /// length 0.
    pub fn clear(&mut self)
        requires
            old(self).wf(),
        ensures
            final(self).wf(),
            final(self)@ == Seq::<T>::empty(),
            final(self).is_inline() == old(self).is_inline(),
            final(self).cap() == old(self).cap(),
            final(self).allocator() == old(self).allocator(),
    {
        self.truncate(0);
    }

    /// Keeps the first `new_len` elements and destroys the rest; when
    /// `new_len` is not below the length, nothing is done. The capacity does
    /// not change.
    pub fn truncate(&mut self, new_len: usize)
        requires
            old(self).wf(),
        ensures
            final(self).wf(),
            new_len >= old(self)@.len() ==> final(self)@ == old(self)@,
            new_len < old(self)@.len() ==> final(self)@ == old(self)@.take(new_len as int),
            final(self).is_inline() == old(self).is_inline(),
            final(self).cap() == old(self).cap(),
            final(self).allocator() == old(self).allocator(),
    {
        if self.len() <= new_len {
            return ;
        }
        self.set_len(new_len);
    }

    /// Lowers the capacity of a heap container to exactly its length, or to
    /// one element when it is empty: a heap store never has capacity 0. An
    /// inline container is left as it is.
    pub fn shrink_to_fit(&mut self)
        requires
            old(self).wf(),
        ensures
            final(self).wf(),
            final(self)@ == old(self)@,
            final(self).is_inline() == old(self).is_inline(),
            final(self).allocator() == old(self).allocator(),
            old(self).is_inline() ==> *final(self) == *old(self),
            !old(self).is_inline() && old(self)@.len() > 0 ==> final(self).cap() == old(self)@.len(),
            !old(self).is_inline() && old(self)@.len() == 0 ==> final(self).cap() == 1,
            !old(self).is_inline() ==> final(self).allocator().reallocated(
                old(self).block(),
                final(self).cap(),
                final(self).block(),
            ),
    {
        if self.is_using_stack() {
            return ;
        } else {
            let len = self.len();
            let new_capacity = if len > 0 {
                len
            } else {
                1
            };
            proof {
                lemma_fits_in_memory_fewer::<T>(new_capacity as nat, self.cap());
            }
            self.buffer.slot_mut().set_capacity(new_capacity, &self.alloc);
        }
    }

    /// Returns true if `self` is using the inline store; otherwise, i.e.
    /// `self` is using a heap store, returns false.
    fn is_using_stack(&self) -> (r: bool)
        ensures
            r == self.is_inline(),
    {
        self.buffer.is_available()
    }

    /// Returns the inline store.
    fn as_stack(&self) -> (r: &StackBuffer<T>)
        requires
            self.is_inline(),
        ensures
            *r == self.buffer,
    {
        &self.buffer
    }

    /// Returns the inline store, for writing.
    fn as_mut_stack(&mut self) -> (r: &mut StackBuffer<T>)
        requires
            old(self).is_inline(),
        ensures
            *r == old(self).buffer,
            final(self).buffer == *final(r),
            final(self).alloc == old(self).alloc,
    {
        &mut self.buffer
    }

    /// Reads the slot as the heap store it holds.
    fn as_heap(&self) -> (r: &HeapBuffer<T>)
        requires
            !self.is_inline(),
        ensures
            *r == self.buffer.slot(),
    {
        self.buffer.slot_ref()
    }

    /// Reads the slot as the heap store it holds, for writing.
    fn as_mut_heap(&mut self) -> (r: &mut HeapBuffer<T>)
        requires
            !old(self).is_inline(),
        ensures
            *r == old(self).buffer.slot(),
            final(self).buffer.slot() == *final(r),
            final(self).buffer.tag() == old(self).buffer.tag(),
            final(self).alloc == old(self).alloc,
    {
        self.buffer.slot_mut()
    }

    /// Overwrites the slot with `new_buffer` and marks it as a heap store.
    /// The elements are not moved here: `new_buffer` must already hold them.
    fn to_heap(&mut self, new_buffer: HeapBuffer<T>)
        requires
            old(self).is_inline(),
        ensures
            final(self).buffer.slot() == new_buffer,
            !final(self).is_inline(),
            final(self).alloc == old(self).alloc,
    {
        *self.buffer.slot_mut() = new_buffer;
        self.buffer.disable();
    }
}

impl<T, A: Allocator<T>> From<A> for SoVec<T, A> {
    /// Creates a new empty instance that uses `alloc`.
    fn from(alloc: A) -> (r: Self) {
        Self::new(alloc)
    }
}

impl<T, A: Allocator<T>> vstd::std_specs::convert::FromSpecImpl<A> for SoVec<T, A> {
    open spec fn obeys_from_spec() -> bool {
        false
    }

    open spec fn from_spec(v: A) -> Self {
        arbitrary()
    }
}

impl<T, A: Allocator<T> + Default> Default for SoVec<T, A> {
    /// Creates a new empty instance with the allocator's default value.
    fn default() -> (r: Self)
        ensures
            r.wf(),
            r@ == Seq::<T>::empty(),
            r.is_inline(),
    {
        Self::new(A::default())
    }
}

impl<T, A: Allocator<T>> AsRef<[T]> for SoVec<T, A> {
    /// Returns the elements.
    fn as_ref(&self) -> &[T] {
        self.buffer.slot_ref().as_ptr()
    }
}

impl<T, A: Allocator<T>> AsMut<[T]> for SoVec<T, A> {
    /// Returns the elements, for writing in place.
    fn as_mut(&mut self) -> &mut [T] {
        self.buffer.slot_mut().as_mut_ptr()
    }
}

/// Pushing the elements of `xs` onto any contents `s` and then popping as
/// many times returns those elements in reverse order, and leaves the
/// contents `s` again, with their length.
pub proof fn lemma_push_then_pop_is_lifo<T>(s: Seq<T>, xs: Seq<T>)
    ensures
        popped(after_pushes(s, xs), xs.len()) == Seq::new(
            xs.len(),
            |i: int| Some(xs[xs.len() - 1 - i]),
        ),
        after_pops(after_pushes(s, xs), xs.len()) == s,
    decreases xs.len(),
{
    if xs.len() > 0 {
        let rest = xs.drop_last();
        let before = after_pushes(s, rest);
        lemma_push_then_pop_is_lifo(s, rest);
        assert(before.push(xs.last()).drop_last() =~= before);
        assert(popped(after_pushes(s, xs), xs.len()) =~= Seq::new(
            xs.len(),
            |i: int| Some(xs[xs.len() - 1 - i]),
        ));
    }
}

} // verus!
