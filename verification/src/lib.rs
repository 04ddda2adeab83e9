//! Contracts for pluggable providers of raw memory, and for values that report the memory they
//! occupy.
//!
//! A provider implements [`CustomAllocator`]: it hands out a [`Block`] for a [`Layout`] and takes
//! blocks back. Zeroed allocation, growing and shrinking are given once, in terms of those two
//! operations, and hold for every provider. [`Global`] is the provider that stands on the
//! process's global allocation facility; a reference to a provider is a provider too.
//!
//! A block is an owned value. Whoever holds it may read and write its bytes; handing it to
//! `deallocate`, or to a resizing operation that succeeds, gives it up for good. A resizing
//! operation that fails hands the block back unchanged.
//!
//! [`MemoryConsumption`] stands apart from the rest: a value that implements it reports how
//! much heap memory it occupies.

pub mod allocator;
pub mod block;
pub mod consumption;
pub mod global;
pub mod layout;

pub use allocator::{CustomAllocator, ResizeError};
pub use block::Block;
pub use consumption::MemoryConsumption;
pub use global::Global;
pub use layout::{Layout, LayoutError};
