//! The default platform provider.

use crate::allocator::CustomAllocator;
use crate::block::Block;
use crate::layout::Layout;
use core::convert::Infallible;
use vstd::prelude::*;

verus! {

/// The provider that stands on the process's global allocation facility.
///
/// That facility ends the process when memory runs out, so allocation never reports failure
/// here: the error type has no values.
#[derive(Clone, Copy, Debug)]
pub struct Global;

impl CustomAllocator for Global {
    type Error = Infallible;

    /// Allocates exactly `layout.size()` bytes. Never fails.
    fn allocate(&self, layout: Layout) -> (result: Result<Block, Infallible>)
        ensures
            result matches Ok(block) && block@.len() == layout.size(),
    {
        Ok(Block::new(layout))
    }

    /// Releases the memory of `block`.
    fn deallocate(&self, block: Block, layout: Layout) {
        // The memory goes back as the value goes out of scope.
    }
}

} // verus!
