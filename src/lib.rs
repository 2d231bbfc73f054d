//! A small-optimized vector.
//!
//! `SoVec` keeps up to a fixed number of elements in its inline store, which
//! takes nothing from the injected [`Allocator`] (its elements sit in a `Vec`
//! of the store's own), and moves them to a block obtained from that
//! allocator only once the inline capacity is exceeded. The switch from the
//! inline store to the heap store happens at most once and is never undone.
pub mod allocator;
pub mod heap_buffer;
pub mod so_vec;
pub mod stack_buffer;

pub use allocator::{Allocator, System};
pub use heap_buffer::HeapBuffer;
pub use so_vec::SoVec;
pub use stack_buffer::StackBuffer;
