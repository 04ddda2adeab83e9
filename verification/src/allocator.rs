//! The memory-block interface: two primitives that every provider defines, and the zeroing and
//! resizing operations that follow from them.

use crate::block::Block;
use crate::layout::Layout;
use vstd::prelude::*;

verus! {

/// Why a block could not be moved: the provider's error, together with the block, which is
/// untouched and still the caller's.
#[derive(Debug)]
pub struct ResizeError<E> {
    /// The block that was to be moved, as it was handed in.
    pub block: Block,
    /// The error of the allocation that failed.
    pub error: E,
}

/// What becomes of the outcome `fresh` of an allocation when the block is to be all zero: the
/// same block with every byte zero, or the same error.
pub open spec fn zeroed_outcome<E>(fresh: Result<Block, E>, result: Result<Block, E>) -> bool {
    match fresh {
        Ok(block) => {
            &&& result matches Ok(zeroed)
            &&& zeroed.addr() == block.addr()
            &&& zeroed@ =~= Seq::new(block@.len(), |i: int| 0u8)
        },
        Err(error) => result == Err::<Block, E>(error),
    }
}

/// What becomes of the outcome `fresh` of an allocation when the block is to take over the
/// first `count` bytes of `source`: the same block with those bytes in place of its own first
/// `count`, or the same error.
pub open spec fn carried_outcome<E>(
    source: Block,
    count: int,
    fresh: Result<Block, E>,
    result: Result<Block, E>,
) -> bool {
    match fresh {
        Ok(target) => {
            &&& result matches Ok(carried)
            &&& carried.addr() == target.addr()
            &&& carried@ =~= source@.subrange(0, count) + target@.subrange(
                count,
                target@.len() as int,
            )
        },
        Err(error) => result == Err::<Block, E>(error),
    }
}

/// What a resizing operation makes of `block` and of the outcome `fresh` of the allocation it
/// asked for: the fresh block with the first `count` bytes of `block` carried over, or `block`
/// handed back with the error.
pub open spec fn moved_outcome<E>(
    block: Block,
    count: int,
    fresh: Result<Block, E>,
    result: Result<Block, ResizeError<E>>,
) -> bool {
    match result {
        Ok(moved) => carried_outcome(block, count, fresh, Ok(moved)),
        Err(refused) => {
            &&& refused.block == block
            &&& carried_outcome(block, count, fresh, Err(refused.error))
        },
    }
}

/// The outcome `fresh` of an allocation, with the block, if there is one, set to zero
/// throughout.
pub fn zeroed<E>(fresh: Result<Block, E>) -> (result: Result<Block, E>)
    ensures
        zeroed_outcome(fresh, result),
{
    match fresh {
        Ok(mut block) => {
            block.fill(0);
            Ok(block)
        },
        Err(error) => Err(error),
    }
}

/// The outcome `fresh` of an allocation, with the first `count` bytes of `source` copied into
/// the block, if there is one.
pub fn carried<E>(source: &Block, count: usize, fresh: Result<Block, E>) -> (result: Result<
    Block,
    E,
>)
    requires
        count <= source@.len(),
        fresh matches Ok(target) ==> count <= target@.len(),
    ensures
        carried_outcome(*source, count as int, fresh, result),
{
    match fresh {
        Ok(mut target) => {
            target.copy_prefix_from(source, count);
            Ok(target)
        },
        Err(error) => Err(error),
    }
}

/// A provider of memory blocks.
///
/// A provider defines `allocate` and `deallocate`. The other operations are given in terms of
/// those two; a provider that can do better may define them itself, within the same contracts.
///
/// A block is currently allocated for as long as its value exists: `deallocate` and the
/// resizing operations take the value, so it cannot be used or given back a second time.
pub trait CustomAllocator {
    /// What the provider reports when it cannot allocate. A provider that cannot fail names a
    /// type without values.
    type Error;

    /// Whether the block of `len` bytes at address `addr` came from this provider.
    ///
    /// A provider that tells its own blocks from others says here how. As given, every block
    /// counts.
    open spec fn issued(&self, addr: usize, len: nat) -> bool {
        true
    }

    /// Allocates a block for `layout`: at least `layout.size()` bytes, at an address aligned to
    /// `layout.align()`. The bytes hold unspecified values.
    fn allocate(&self, layout: Layout) -> (result: Result<Block, Self::Error>)
        ensures
            result matches Ok(block) ==> {
                &&& block.fits(layout)
                &&& self.issued(block.addr(), block@.len())
            },
    ;

    /// Takes back `block`, which this provider handed out and which `layout` fits.
    fn deallocate(&self, block: Block, layout: Layout)
        requires
            self.issued(block.addr(), block@.len()),
            block.fits(layout),
    ;

    /// Allocates as `allocate` does, and returns the block with every byte zero, those beyond
    /// `layout.size()` included.
    fn allocate_zeroed(&self, layout: Layout) -> (result: Result<Block, Self::Error>)
        ensures
            result matches Ok(block) ==> {
                &&& block.fits(layout)
                &&& self.issued(block.addr(), block@.len())
                &&& forall|i: int| 0 <= i < block@.len() ==> block@[i] == 0
            },
        default_ensures
            exists|fresh: Result<Block, Self::Error>|
                #[trigger] call_ensures(Self::allocate, (self, layout), fresh) && zeroed_outcome(
                    fresh,
                    result,
                ),
    {
        zeroed(self.allocate(layout))
    }

    /// Moves `block` into a block for `new_layout`, which asks for no fewer bytes than
    /// `old_layout`. The first `old_layout.size()` bytes are kept.
    ///
    /// On success the old block has gone back to the provider. On failure nothing has
    /// happened: the error holds the block as it was.
    fn grow(&self, block: Block, old_layout: Layout, new_layout: Layout) -> (result: Result<
        Block,
        ResizeError<Self::Error>,
    >)
        requires
            self.issued(block.addr(), block@.len()),
            block.fits(old_layout),
            new_layout.size() >= old_layout.size(),
        ensures
            match result {
                Ok(grown) => {
                    &&& grown.fits(new_layout)
                    &&& self.issued(grown.addr(), grown@.len())
                    &&& grown@.subrange(0, old_layout.size() as int) == block@.subrange(
                        0,
                        old_layout.size() as int,
                    )
                },
                Err(refused) => refused.block == block,
            },
        default_ensures
            exists|fresh: Result<Block, Self::Error>|
                #[trigger] call_ensures(Self::allocate, (self, new_layout), fresh) && moved_outcome(
                    block,
                    old_layout.size() as int,
                    fresh,
                    result,
                ),
    {
        match carried(&block, old_layout.size(), self.allocate(new_layout)) {
            Ok(moved) => {
                self.deallocate(block, old_layout);
                Ok(moved)
            },
            Err(error) => Err(ResizeError { block, error }),
        }
    }

    /// Moves `block` as `grow` does, into a block whose bytes from `old_layout.size()` on are
    /// all zero.
    fn grow_zeroed(&self, block: Block, old_layout: Layout, new_layout: Layout) -> (result:
        Result<Block, ResizeError<Self::Error>>)
        requires
            self.issued(block.addr(), block@.len()),
            block.fits(old_layout),
            new_layout.size() >= old_layout.size(),
        ensures
            match result {
                Ok(grown) => {
                    &&& grown.fits(new_layout)
                    &&& self.issued(grown.addr(), grown@.len())
                    &&& grown@.subrange(0, old_layout.size() as int) == block@.subrange(
                        0,
                        old_layout.size() as int,
                    )
                    &&& forall|i: int| old_layout.size() <= i < grown@.len() ==> grown@[i] == 0
                },
                Err(refused) => refused.block == block,
            },
        default_ensures
            exists|fresh: Result<Block, Self::Error>|
                #[trigger] call_ensures(Self::allocate_zeroed, (self, new_layout), fresh)
                    && moved_outcome(block, old_layout.size() as int, fresh, result),
    {
        match carried(&block, old_layout.size(), self.allocate_zeroed(new_layout)) {
            Ok(moved) => {
                self.deallocate(block, old_layout);
                Ok(moved)
            },
            Err(error) => Err(ResizeError { block, error }),
        }
    }

    /// Moves `block` into a block for `new_layout`, which asks for no more bytes than
    /// `old_layout`. The first `new_layout.size()` bytes are kept.
    ///
    /// On success the old block has gone back to the provider. On failure nothing has
    /// happened: the error holds the block as it was.
    fn shrink(&self, block: Block, old_layout: Layout, new_layout: Layout) -> (result: Result<
        Block,
        ResizeError<Self::Error>,
    >)
        requires
            self.issued(block.addr(), block@.len()),
            block.fits(old_layout),
            new_layout.size() <= old_layout.size(),
        ensures
            match result {
                Ok(shrunk) => {
                    &&& shrunk.fits(new_layout)
                    &&& self.issued(shrunk.addr(), shrunk@.len())
                    &&& shrunk@.subrange(0, new_layout.size() as int) == block@.subrange(
                        0,
                        new_layout.size() as int,
                    )
                },
                Err(refused) => refused.block == block,
            },
        default_ensures
            exists|fresh: Result<Block, Self::Error>|
                #[trigger] call_ensures(Self::allocate, (self, new_layout), fresh) && moved_outcome(
                    block,
                    new_layout.size() as int,
                    fresh,
                    result,
                ),
    {
        match carried(&block, new_layout.size(), self.allocate(new_layout)) {
            Ok(moved) => {
                self.deallocate(block, old_layout);
                Ok(moved)
            },
            Err(error) => Err(ResizeError { block, error }),
        }
    }

    /// The provider itself, borrowed: what is asked of the reference is asked of the provider.
    fn by_ref(&self) -> (provider: &Self) where Self: Sized
        ensures
            provider == self,
    {
        self
    }
}

/// A borrowed provider is a provider: each operation is the same operation of the provider
/// behind the reference, with the same outcome.
impl<'a, A: CustomAllocator + ?Sized> CustomAllocator for &'a A {
    type Error = A::Error;

    open spec fn issued(&self, addr: usize, len: nat) -> bool {
        (**self).issued(addr, len)
    }

    fn allocate(&self, layout: Layout) -> (result: Result<Block, A::Error>)
        ensures
            call_ensures(A::allocate, (*self, layout), result),
    {
        (**self).allocate(layout)
    }

    fn deallocate(&self, block: Block, layout: Layout) {
        (**self).deallocate(block, layout)
    }

    fn allocate_zeroed(&self, layout: Layout) -> (result: Result<Block, A::Error>)
        ensures
            call_ensures(A::allocate_zeroed, (*self, layout), result),
    {
        (**self).allocate_zeroed(layout)
    }

    fn grow(&self, block: Block, old_layout: Layout, new_layout: Layout) -> (result: Result<
        Block,
        ResizeError<A::Error>,
    >)
        ensures
            call_ensures(A::grow, (*self, block, old_layout, new_layout), result),
    {
        (**self).grow(block, old_layout, new_layout)
    }

    fn grow_zeroed(&self, block: Block, old_layout: Layout, new_layout: Layout) -> (result:
        Result<Block, ResizeError<A::Error>>)
        ensures
            call_ensures(A::grow_zeroed, (*self, block, old_layout, new_layout), result),
    {
        (**self).grow_zeroed(block, old_layout, new_layout)
    }

    fn shrink(&self, block: Block, old_layout: Layout, new_layout: Layout) -> (result: Result<
        Block,
        ResizeError<A::Error>,
    >)
        ensures
            call_ensures(A::shrink, (*self, block, old_layout, new_layout), result),
    {
        (**self).shrink(block, old_layout, new_layout)
    }
}

} // verus!
