use core::sync::atomic::{AtomicI64, Ordering};
use mouse_sovec::{Allocator, HeapBuffer, System};

/// Wraps `System` and counts allocations against deallocations; both
/// numbers must match when it is dropped.
struct TestAllocator {
    count: AtomicI64,
}

impl TestAllocator {
    fn new() -> Self {
        Self {
            count: AtomicI64::new(0),
        }
    }
}

impl<T> Allocator<T> for TestAllocator {
    fn allocate(&self, capacity: usize) -> Vec<T> {
        self.count.fetch_add(1, Ordering::SeqCst);
        System.allocate(capacity)
    }

    fn reallocate(&self, block: Vec<T>, new_capacity: usize) -> Vec<T> {
        System.reallocate(block, new_capacity)
    }

    fn deallocate(&self, block: Vec<T>) {
        let c = self.count.fetch_sub(1, Ordering::SeqCst);
        if c <= 0 {
            panic!("Calls deallocate() too many times");
        }
        System.deallocate(block)
    }
}

impl Drop for TestAllocator {
    fn drop(&mut self) {
        if self.count.load(Ordering::SeqCst) != 0 {
            panic!("Memory Leak!");
        }
    }
}

#[test]
fn constructor() {
    for i in 1..10 {
        let alloc = TestAllocator::new();
        let mut b = HeapBuffer::<String>::with_capacity(i, &alloc);

        assert_eq!(0, b.len());
        assert!(i <= b.capacity());

        b.pre_drop(&alloc);
    }

    for i in 1..10 {
        let alloc = TestAllocator::new();
        let mut b = HeapBuffer::<u8>::with_capacity(i, &alloc);

        assert_eq!(0, b.len());
        assert!(i <= b.capacity());

        b.pre_drop(&alloc);
    }
}

#[test]
fn set_capacity() {
    for i in 1..10 {
        let alloc = TestAllocator::new();
        let mut b = HeapBuffer::<String>::with_capacity(i, &alloc);

        for j in 1..10 {
            b.set_capacity(j, &alloc);
            assert_eq!(0, b.len());
            assert!(j <= b.capacity());
        }

        b.pre_drop(&alloc);
    }
}

#[test]
fn heap_buffer_capacity_is_exact() {
    let alloc = TestAllocator::new();
    let mut b = HeapBuffer::<u32>::with_capacity(7, &alloc);
    assert_eq!(7, b.capacity());
    b.set_capacity(3, &alloc);
    assert_eq!(3, b.capacity());
    b.set_capacity(12, &alloc);
    assert_eq!(12, b.capacity());
    assert!(b.as_ptr().is_empty());
    b.set_len(0);
    assert_eq!(0, b.as_mut_ptr().len());
    b.pre_drop(&alloc);
}

#[test]
fn system_reallocate_keeps_elements() {
    let block: Vec<u16> = vec![4, 5, 6];
    let grown = System.reallocate(block, 10);
    assert_eq!(vec![4, 5, 6], grown);
    assert!(grown.capacity() >= 10);
    let shrunk = System.reallocate(grown, 3);
    assert_eq!(vec![4, 5, 6], shrunk);
    assert!(shrunk.capacity() >= 3);
}
