//! Fixed-length arrays allocated directly on the heap.
//!
//! The length `N` is a compile-time constant. The byte layout of `N`
//! elements is checked before any memory is requested, and a layout that
//! the platform cannot hold is reported as a [`LayoutError`] rather than a
//! panic. Exhaustion of the global allocator stays fatal, as it is for every
//! allocation made through the standard library.
pub mod array;
pub mod heap;
pub mod layout;

pub use array::{lemma_write_then_read, written, HeapArray, UninitArray};
pub use heap::{
    all_cloned, all_default, lemma_clones_equal_and_independent, new, new_default, new_uninit,
};
pub use layout::{array_fits, LayoutError};
