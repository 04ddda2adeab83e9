//! Memory blocks: contiguous byte ranges that a provider hands out and takes back.

use crate::layout::{lemma_align_divides_address_space, lemma_valid_layout, Layout};
use vstd::arithmetic::div_mod::{
    lemma_fundamental_div_mod, lemma_mod_multiples_basic, lemma_sub_mod_noop,
};
use vstd::prelude::*;

verus! {

/// A contiguous range of bytes at a fixed address, owned by whoever holds the value.
///
/// A block is viewed as the sequence of its bytes. Holding the value is what it means for the
/// block to be currently allocated: giving it back to a provider takes the value away.
#[derive(Debug)]
pub struct Block {
    /// The buffer that holds the range, from `start` to its end.
    bytes: Vec<u8>,
    /// Where in `bytes` the range begins.
    start: usize,
    /// The address of the first byte of the range.
    addr: usize,
}

impl View for Block {
    type V = Seq<u8>;

    closed spec fn view(&self) -> Seq<u8> {
        self.bytes@.subrange(self.start as int, self.bytes@.len() as int)
    }
}

/// The address at which the buffer of `bytes` begins, as `Vec::as_ptr` reports it. Nothing is
/// claimed of the number.
#[verifier::external_body]
fn buffer_address(bytes: &Vec<u8>) -> (address: usize) {
    bytes.as_ptr() as usize
}

impl Block {
    #[verifier::type_invariant]
    spec fn well_formed(&self) -> bool {
        self.start <= self.bytes@.len() <= usize::MAX
    }

    /// The address of the first byte.
    pub closed spec fn spec_addr(&self) -> usize {
        self.addr
    }

    /// Whether `layout` describes the block: the block holds at least the bytes that the layout
    /// asks for, at an address that is a multiple of its alignment.
    pub open spec fn spec_fits(&self, layout: Layout) -> bool {
        &&& layout.size() <= self@.len()
        &&& self.addr() as int % layout.align() as int == 0
    }

    /// A fresh block of exactly `layout.size()` bytes at an address aligned to `layout.align()`,
    /// taken from the process's global allocation facility. The bytes hold unspecified values.
    ///
    /// Exhaustion of memory ends the process; the call does not return then.
    pub fn new(layout: Layout) -> (block: Block)
        ensures
            block@.len() == layout.size(),
            block.addr() as int % layout.align() as int == 0,
    {
        let size = layout.size();
        let align = layout.align();
        proof {
            use_type_invariant(&layout);
            lemma_valid_layout(size, align);
            lemma_align_divides_address_space(align);
        }
        // Room to move the start forward to the next multiple of `align`.
        let mut bytes: Vec<u8> = vec![0u8; size + (align - 1)];
        let base = buffer_address(&bytes);
        let excess = base % align;
        let start = if excess == 0 {
            0
        } else {
            align - excess
        };
        bytes.truncate(start + size);
        // An address and the bytes behind it lie within the address space, so the sum does not
        // wrap; its alignment does not depend on that.
        let addr = base.wrapping_add(start);
        proof {
            let a = align as int;
            let q = base as int / a;
            lemma_fundamental_div_mod(base as int, a);
            if excess != 0 {
                assert(base + start == (q + 1) * a) by (nonlinear_arith)
                    requires
                        base == a * q + excess,
                        start == a - excess,
                ;
                lemma_mod_multiples_basic(q + 1, a);
                if base + start > usize::MAX {
                    lemma_sub_mod_noop(
                        base + start,
                        usize::MAX + 1,
                        a,
                    );
                }
            }
        }
        Block { bytes, start, addr }
    }

    /// The number of bytes in the block.
    pub fn len(&self) -> (len: usize)
        ensures
            len == self@.len(),
    {
        proof {
            use_type_invariant(self);
        }
        self.bytes.len() - self.start
    }

    /// The address of the first byte.
    #[verifier::when_used_as_spec(spec_addr)]
    pub fn addr(&self) -> (addr: usize)
        ensures
            addr == self.addr(),
    {
        self.addr
    }

    /// Whether `layout` describes the block.
    #[verifier::when_used_as_spec(spec_fits)]
    pub fn fits(&self, layout: Layout) -> (fits: bool)
        ensures
            fits == self.fits(layout),
    {
        proof {
            use_type_invariant(&layout);
            lemma_valid_layout(layout.size(), layout.align());
        }
        layout.size() <= self.len() && self.addr % layout.align() == 0
    }

    /// The byte at `index`.
    pub fn get(&self, index: usize) -> (value: u8)
        requires
            index < self@.len(),
        ensures
            value == self@[index as int],
    {
        proof {
            use_type_invariant(self);
        }
        self.bytes[self.start + index]
    }

    /// Stores `value` at `index`.
    pub fn set(&mut self, index: usize, value: u8)
        requires
            index < old(self)@.len(),
        ensures
            final(self)@ == old(self)@.update(index as int, value),
            final(self).addr() == old(self).addr(),
    {
        proof {
            use_type_invariant(&*self);
        }
        let position = self.start + index;
        self.bytes[position] = value;
        assert(self@ =~= old(self)@.update(index as int, value));
    }

    /// The bytes of the block.
    pub fn as_slice(&self) -> (bytes: &[u8])
        ensures
            bytes@ == self@,
    {
        proof {
            use_type_invariant(self);
        }
        vstd::slice::slice_subrange(self.bytes.as_slice(), self.start, self.bytes.len())
    }

    /// Stores `value` in every byte of the block.
    pub fn fill(&mut self, value: u8)
        ensures
            final(self)@.len() == old(self)@.len(),
            forall|i: int| 0 <= i < final(self)@.len() ==> final(self)@[i] == value,
            final(self).addr() == old(self).addr(),
    {
        proof {
            use_type_invariant(&*self);
        }
        let total = self.bytes.len();
        let mut position = self.start;
        while position < total
            invariant
                self.start == old(self).start,
                self.addr == old(self).addr,
                self.bytes@.len() == total == old(self).bytes@.len(),
                self.start <= position <= total,
                forall|j: int| self.start <= j < position ==> self.bytes@[j] == value,
            decreases total - position,
        {
            self.bytes[position] = value;
            position += 1;
        }
    }

    /// Copies the first `count` bytes of `source` over the first `count` bytes of the block.
    pub fn copy_prefix_from(&mut self, source: &Block, count: usize)
        requires
            count <= source@.len(),
            count <= old(self)@.len(),
        ensures
            final(self)@ == source@.subrange(0, count as int) + old(self)@.subrange(
                count as int,
                old(self)@.len() as int,
            ),
            final(self).addr() == old(self).addr(),
    {
        proof {
            use_type_invariant(&*self);
            use_type_invariant(source);
        }
        let mut done: usize = 0;
        while done < count
            invariant
                self.start == old(self).start,
                self.addr == old(self).addr,
                self.bytes@.len() == old(self).bytes@.len(),
                source.start + count <= source.bytes@.len() <= usize::MAX,
                self.start + count <= self.bytes@.len() <= usize::MAX,
                done <= count,
                forall|j: int|
                    self.start <= j < self.start + done ==> #[trigger] self.bytes@[j]
                        == source.bytes@[j - self.start + source.start],
                forall|j: int|
                    self.start + done <= j < self.bytes@.len() ==> #[trigger] self.bytes@[j]
                        == old(self).bytes@[j],
            decreases count - done,
        {
            let value = source.bytes[source.start + done];
            self.bytes[self.start + done] = value;
            done += 1;
        }
        assert(self@ =~= source@.subrange(0, count as int) + old(self)@.subrange(
            count as int,
            old(self)@.len() as int,
        ));
    }
}

} // verus!
