//! The product of dimension sizes, as arithmetic on `usize` computes it.

use vstd::arithmetic::div_mod::{lemma_mod_bound, lemma_mul_mod_noop, lemma_small_mod};
use vstd::prelude::*;

verus! {

/// The number of distinct values of `usize`.
pub open spec fn word_modulus() -> int {
    usize::MAX as int + 1
}

/// The product of all of `dims`, as a mathematical integer; 1 for no
/// dimensions.
pub open spec fn dimension_product(dims: Seq<i64>) -> int
    decreases dims.len(),
{
    if dims.len() == 0 {
        1
    } else {
        dimension_product(dims.drop_last()) * (dims.last() as int)
    }
}

/// The product of all of `dims` as a `usize` holds it after multiplications
/// that wrap around: the product modulo [`word_modulus`].
pub open spec fn wrapped_product(dims: Seq<i64>) -> int {
    dimension_product(dims) % word_modulus()
}

/// A dimension cast to `usize` is the dimension modulo [`word_modulus`].
proof fn lemma_cast_to_word(dim: i64)
    ensures
        (dim as usize) as int == (dim as int) % word_modulus(),
{
    let word: usize = dim as usize;
    let full: usize = 0xffff_ffff_ffff_ffffu64 as usize;
    assert((word as u64 == dim as u64 && full as u64 == 0xffff_ffff_ffff_ffffu64) || (word as u64
        == (dim as u64) & 0xffff_ffffu64 && full as u64 == 0xffff_ffffu64)) by (bit_vector)
        requires
            word == dim as usize,
            full == 0xffff_ffff_ffff_ffffu64 as usize,
    ;
    let low: u64 = (dim as u64) & 0xffff_ffffu64;
    assert(low as int == (dim as int) % 0x1_0000_0000) by (bit_vector)
        requires
            low == (dim as u64) & 0xffff_ffffu64,
    ;
    let wide: u64 = dim as u64;
    assert(wide as int == (dim as int) % 0x1_0000_0000_0000_0000) by (bit_vector)
        requires
            wide == dim as u64,
    ;
}

/// Multiplying the wrapped product of all but the last dimension by the last
/// one, cast to `usize`, and wrapping again gives the wrapped product of all.
pub(crate) proof fn lemma_wrapped_product_step(dims: Seq<i64>)
    requires
        dims.len() > 0,
    ensures
        wrapped_product(dims) == (wrapped_product(dims.drop_last()) * (dims.last() as usize))
            % word_modulus(),
        0 <= wrapped_product(dims) <= usize::MAX,
{
    lemma_cast_to_word(dims.last());
    lemma_mul_mod_noop(dimension_product(dims.drop_last()), dims.last() as int, word_modulus());
    lemma_mod_bound(dimension_product(dims), word_modulus());
}

/// Where the product of the dimensions is a value of `usize`, the wrapped
/// product is the product itself.
pub proof fn lemma_wrapped_product_of_fitting_dims(dims: Seq<i64>)
    requires
        0 <= dimension_product(dims) <= usize::MAX,
    ensures
        wrapped_product(dims) == dimension_product(dims),
{
    lemma_small_mod(dimension_product(dims) as nat, word_modulus() as nat);
}

/// A dimension of size zero makes the product, wrapped or not, zero.
pub proof fn lemma_product_with_zero_dimension(dims: Seq<i64>, axis: int)
    requires
        0 <= axis < dims.len(),
        dims[axis] == 0,
    ensures
        dimension_product(dims) == 0,
        wrapped_product(dims) == 0,
    decreases dims.len(),
{
    if axis < dims.len() - 1 {
        lemma_product_with_zero_dimension(dims.drop_last(), axis);
    }
    assert(dimension_product(dims) == 0) by (nonlinear_arith)
        requires
            dimension_product(dims) == dimension_product(dims.drop_last()) * (dims.last() as int),
            dimension_product(dims.drop_last()) == 0 || dims.last() as int == 0,
    ;
}

} // verus!
