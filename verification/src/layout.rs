//! Layout descriptors: the size and alignment of a requested memory block.

use vstd::arithmetic::div_mod::{
    lemma_fundamental_div_mod, lemma_mod_bound, lemma_mod_multiples_basic,
};
use vstd::arithmetic::power2::is_pow2;
use vstd::prelude::*;

verus! {

/// `size` rounded up to the nearest multiple of `align`.
pub open spec fn round_up(size: int, align: int) -> int
    recommends
        align > 0,
{
    ((size + align - 1) / align) * align
}

/// Whether a block of `size` bytes aligned to `align` can be described at all: the alignment is
/// a power of two, and the size rounded up to it does not exceed `isize::MAX`.
pub open spec fn valid_layout(size: usize, align: usize) -> bool {
    &&& is_pow2(align as int)
    &&& round_up(size as int, align as int) <= isize::MAX
}

/// A power of two divides every power of two that is not smaller.
proof fn lemma_pow2_divides(small: int, large: int)
    requires
        is_pow2(small),
        is_pow2(large),
        small <= large,
    ensures
        large % small == 0,
    decreases small,
{
    reveal(is_pow2);
    if small > 1 {
        let half_small = small / 2;
        let half_large = large / 2;
        lemma_pow2_divides(half_small, half_large);
        let factor = half_large / half_small;
        lemma_fundamental_div_mod(half_large, half_small);
        assert(large == factor * small) by (nonlinear_arith)
            requires
                half_large == half_small * factor,
                large == 2 * half_large,
                small == 2 * half_small,
        ;
        lemma_mod_multiples_basic(factor, small);
    }
}

/// The first value beyond `isize` is a power of two, and `usize` reaches twice as far.
proof fn lemma_word_limits()
    ensures
        is_pow2(isize::MAX + 1),
        usize::MAX == 2 * isize::MAX + 1,
{
    vstd::arithmetic::power2::lemma2_to64();
    vstd::arithmetic::power2::lemma2_to64_rest();
    vstd::arithmetic::power2::is_pow2_equiv(isize::MAX + 1);
    vstd::arithmetic::power2::lemma_pow2(31);
    vstd::arithmetic::power2::lemma_pow2(63);
    assert(isize::MAX == 0x7fff_ffff || isize::MAX == 0x7fff_ffff_ffff_ffff);
    if isize::MAX == 0x7fff_ffff {
        assert(vstd::arithmetic::power::pow(2, 31) == isize::MAX + 1);
    } else {
        assert(vstd::arithmetic::power::pow(2, 63) == isize::MAX + 1);
    }
}

/// For a power-of-two alignment, rounding `size` up stays within `isize::MAX` exactly when
/// `size + align - 1` does.
pub proof fn lemma_valid_layout(size: usize, align: usize)
    requires
        is_pow2(align as int),
    ensures
        1 <= align <= isize::MAX + 1,
        valid_layout(size, align) <==> size + align - 1 <= isize::MAX,
{
    let limit = isize::MAX + 1;
    let a = align as int;
    let s = size as int;
    assert(a >= 1) by {
        reveal(is_pow2);
    }
    lemma_word_limits();
    // the alignment divides `limit`
    assert(a <= limit && limit % a == 0) by {
        if a <= limit {
            lemma_pow2_divides(a, limit);
        } else {
            // a power of two above `limit` is at least `2 * limit`, beyond `usize`
            lemma_pow2_divides(limit, a);
            lemma_fundamental_div_mod(a, limit);
            let k = a / limit;
            assert(k >= 2) by (nonlinear_arith)
                requires
                    a == limit * k,
                    a > limit,
                    limit > 0,
            ;
            assert(a >= 2 * limit) by (nonlinear_arith)
                requires
                    a == limit * k,
                    k >= 2,
                    limit > 0,
            ;
        }
    }
    let q = (s + a - 1) / a;
    let rounded = round_up(s, a);
    lemma_fundamental_div_mod(s + a - 1, a);
    lemma_mod_bound(s + a - 1, a);
    assert(rounded == a * q) by (nonlinear_arith)
        requires
            rounded == q * a,
    ;
    assert(s <= rounded <= s + a - 1);
    if rounded <= isize::MAX {
        let k = limit / a;
        lemma_fundamental_div_mod(limit, a);
        assert(limit == a * k);
        assert(q < k) by (nonlinear_arith)
            requires
                a * q < a * k,
                a > 0,
        ;
        assert(rounded <= limit - a) by (nonlinear_arith)
            requires
                rounded == a * q,
                limit == a * k,
                q <= k - 1,
                a > 0,
        ;
    }
}

/// A power-of-two alignment divides the number of addresses that a `usize` can hold.
pub proof fn lemma_align_divides_address_space(align: usize)
    requires
        is_pow2(align as int),
    ensures
        align >= 1,
        (usize::MAX + 1) % (align as int) == 0,
{
    let limit = isize::MAX + 1;
    let a = align as int;
    lemma_valid_layout(0, align);
    lemma_word_limits();
    lemma_pow2_divides(a, limit);
    lemma_fundamental_div_mod(limit, a);
    let k = limit / a;
    assert(usize::MAX + 1 == (2 * k) * a) by (nonlinear_arith)
        requires
            limit == a * k,
            usize::MAX + 1 == 2 * limit,
    ;
    lemma_mod_multiples_basic(2 * k, a);
}

/// Whether `n` is a power of two.
fn is_power_of_two(n: usize) -> (yes: bool)
    ensures
        yes == is_pow2(n as int),
{
    if n == 0 {
        proof {
            reveal(is_pow2);
        }
        return false;
    }
    let mut rest: usize = n;
    while rest % 2 == 0
        invariant
            rest > 0,
            is_pow2(rest as int) == is_pow2(n as int),
        decreases rest,
    {
        proof {
            reveal(is_pow2);
        }
        rest = rest / 2;
    }
    proof {
        reveal(is_pow2);
    }
    rest == 1
}

/// The reason a size and an alignment were refused: together they describe no block.
#[derive(Clone, Copy, Debug, PartialEq, Eq, Structural)]
pub struct LayoutError;

/// The shape of a requested memory block: its size in bytes and the alignment of its address.
///
/// Every value satisfies [`valid_layout`].
#[derive(Clone, Copy, Debug, PartialEq, Eq, Structural)]
pub struct Layout {
    size: usize,
    align: usize,
}

impl Layout {
    /// The size in bytes that the layout asks for.
    pub closed spec fn spec_size(&self) -> usize {
        self.size
    }

    /// The alignment in bytes that the layout asks for.
    pub closed spec fn spec_align(&self) -> usize {
        self.align
    }

    /// What holds of every layout.
    #[verifier::type_invariant]
    pub open spec fn is_valid(&self) -> bool {
        valid_layout(self.size(), self.align())
    }

    /// The layout of `size` bytes aligned to `align`, if there is one.
    pub fn from_size_align(size: usize, align: usize) -> (result: Result<Layout, LayoutError>)
        ensures
            match result {
                Ok(layout) => valid_layout(size, align) && layout.size() == size && layout.align()
                    == align,
                Err(_) => !valid_layout(size, align),
            },
    {
        if !is_power_of_two(align) {
            return Err(LayoutError);
        }
        proof {
            lemma_valid_layout(size, align);
        }
        if size > (isize::MAX as usize) - (align - 1) {
            return Err(LayoutError);
        }
        Ok(Layout { size, align })
    }

    /// The size in bytes that the layout asks for.
    #[verifier::when_used_as_spec(spec_size)]
    pub fn size(&self) -> (size: usize)
        ensures
            size == self.size(),
    {
        self.size
    }

    /// The alignment in bytes that the layout asks for: a power of two.
    #[verifier::when_used_as_spec(spec_align)]
    pub fn align(&self) -> (align: usize)
        ensures
            align == self.align(),
    {
        self.align
    }
}

} // verus!
