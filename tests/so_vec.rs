use core::sync::atomic::{AtomicI64, Ordering};
use mouse_sovec::{Allocator, SoVec, StackBuffer, System};

/// Wraps `System` and counts the blocks it hands out and takes back.
///
/// A container lets its block go when it is dropped, without calling back,
/// so only double releases are checked here.
#[derive(Default)]
struct TestAllocator {
    count: AtomicI64,
}

impl TestAllocator {
    fn new() -> Self {
        Self::default()
    }
}

impl<T> Allocator<T> for TestAllocator {
    fn allocate(&self, capacity: usize) -> Vec<T> {
        self.count.fetch_add(1, Ordering::SeqCst);
        System.allocate(capacity)
    }

    fn reallocate(&self, block: Vec<T>, new_capacity: usize) -> Vec<T> {
        System.reallocate(block, new_capacity)
    }

    fn deallocate(&self, block: Vec<T>) {
        let c = self.count.fetch_sub(1, Ordering::SeqCst);
        if c <= 0 {
            panic!("Calls deallocate() too many times");
        }
        System.deallocate(block)
    }
}

#[test]
fn from() {
    {
        let alloc = TestAllocator::new();
        let v = SoVec::<u8, TestAllocator>::from(alloc);

        assert_eq!(0, v.len());
    }

    {
        let alloc = TestAllocator::new();
        let v = SoVec::<String, TestAllocator>::from(alloc);

        assert_eq!(0, v.len());
    }

    {
        let alloc = TestAllocator::new();
        let v = SoVec::<[u8; 3], TestAllocator>::from(alloc);

        assert_eq!(0, v.len());
    }
}

#[test]
fn with_capacity() {
    for i in 0..(StackBuffer::<u8>::capacity() + 10) {
        let alloc = TestAllocator::new();
        let v = SoVec::<u8, TestAllocator>::with_capacity(i, alloc);

        assert_eq!(0, v.len());
        assert!(i <= v.capacity());
    }

    for i in 0..(StackBuffer::<String>::capacity() + 10) {
        let alloc = TestAllocator::new();
        let v = SoVec::<String, TestAllocator>::with_capacity(i, alloc);

        assert_eq!(0, v.len());
        assert!(i <= v.capacity());
    }
}

#[test]
fn reserve_exact() {
    for i in 0..(StackBuffer::<u8>::capacity() + 10) {
        let alloc = TestAllocator::new();
        let mut v = SoVec::<u8, TestAllocator>::with_capacity(i, alloc);

        for j in 0..(StackBuffer::<u8>::capacity() + 10) {
            v.reserve_exact(j);
            assert_eq!(0, v.len());
            assert!(i <= v.capacity());
            assert!(j <= v.capacity());
        }
    }

    for i in 0..(StackBuffer::<String>::capacity() + 10) {
        let alloc = TestAllocator::new();
        let mut v = SoVec::<String, TestAllocator>::with_capacity(i, alloc);

        for j in 0..(StackBuffer::<String>::capacity() + 10) {
            v.reserve_exact(j);
            assert_eq!(0, v.len());
            assert!(i <= v.capacity());
            assert!(j <= v.capacity());
        }
    }
}

#[test]
fn push() {
    {
        let origin: Vec<u8> = (0..=u8::MAX).collect();

        let mut v = SoVec::<u8, TestAllocator>::default();
        let init_capacity = v.capacity();

        for i in 0..init_capacity {
            v.push(i as u8);
            assert_eq!(&origin[0..=i], v.as_ref());
        }

        for i in init_capacity..=(u8::MAX as usize) {
            v.reserve_exact(1);
            v.push(i as u8);
            assert_eq!(&origin[0..=i], v.as_ref());
        }
    }
    {
        let origin: Vec<String> = (0..=u8::MAX).map(|i| i.to_string()).collect();

        let mut v = SoVec::<String, TestAllocator>::default();
        let init_capacity = v.capacity();

        for i in 0..init_capacity {
            v.push(i.to_string());
            assert_eq!(&origin[0..=i], v.as_ref());
        }

        for i in init_capacity..=3 * init_capacity {
            v.reserve_exact(1);
            v.push(i.to_string());
            assert_eq!(&origin[0..=i], v.as_ref());
        }
    }
}

#[test]
fn pop() {
    {
        let alloc = TestAllocator::new();
        let mut v = SoVec::<u8, TestAllocator>::with_capacity((u8::MAX as usize) + 1, alloc);
        assert_eq!(None, v.pop());

        for i in 0..=u8::MAX {
            v.push(i);
        }

        for i in (0..=u8::MAX).rev() {
            assert_eq!(Some(i), v.pop());
        }

        assert_eq!(None, v.pop());
    }

    {
        let alloc = TestAllocator::new();
        let mut v = SoVec::<String, TestAllocator>::with_capacity((u8::MAX as usize) + 1, alloc);
        assert_eq!(None, v.pop());

        for i in 0..=u8::MAX {
            v.push(i.to_string());
        }

        for i in (0..=u8::MAX).rev() {
            assert_eq!(Some(i.to_string()), v.pop());
        }

        assert_eq!(None, v.pop());
    }
}
