//! Sizes and alignment of what is laid out in shared memory.

use vstd::arithmetic::div_mod::{lemma_fundamental_div_mod, lemma_mod_multiples_basic};
use vstd::arithmetic::power2::pow2;
use vstd::bits::{lemma_usize_low_bits_mask_is_mod, low_bits_mask};
use vstd::prelude::*;

verus! {

/// The number of bytes that a cache line holds.
pub const CACHE_LINE: usize = 64;

/// The number of bytes that a pointer-sized integer holds.
pub const USIZE_SIZE: usize = (usize::BITS / 8) as usize;

/// The least multiple of `unit` that is not below `x`.
pub open spec fn round_up(x: int, unit: int) -> int
    recommends
        0 < unit,
{
    (x + unit - 1) / unit * unit
}

/// `round_up` gives a multiple of the unit, not below its argument, and less than one unit above
/// it.
pub proof fn lemma_round_up(x: int, unit: int)
    requires
        0 < unit,
    ensures
        round_up(x, unit) % unit == 0,
        x <= round_up(x, unit) < x + unit,
{
    let t = x + unit - 1;
    lemma_fundamental_div_mod(t, unit);
    lemma_mod_multiples_basic(t / unit, unit);
    assert(unit * (t / unit) == t / unit * unit) by (nonlinear_arith);
}

/// Clearing the bits below a power of two rounds down to a multiple of it.
proof fn lemma_mask_rounds_down(t: usize, y: usize, n: nat)
    requires
        n < usize::BITS,
        y == pow2(n),
        0 < y,
    ensures
        (t & !((y - 1) as usize)) == t as int / y as int * y as int,
{
    let m: usize = (y - 1) as usize;
    assert((t & !m) + (t & m) == t) by (bit_vector);
    lemma_usize_low_bits_mask_is_mod(t, n);
    assert(low_bits_mask(n) as usize == m);
    lemma_fundamental_div_mod(t as int, y as int);
    assert(y as int * (t as int / y as int) == t as int / y as int * y as int) by (nonlinear_arith);
}

/// Rounds `x` up to a multiple of `y`.
///
/// The result is meant for a `y` that is a power of two; of any other `y` only the bits that
/// `y - 1` does not have are kept. A zero argument gives zero.
pub fn align(x: usize, y: usize) -> (aligned: usize)
    requires
        x + y <= usize::MAX + 1,
    ensures
        x == 0 || y == 0 ==> aligned == 0,
        0 < x && 0 < y ==> aligned == ((x + (y - 1)) as usize) & !((y - 1) as usize),
        forall|n: nat| 0 < x && y == #[trigger] pow2(n) && n < usize::BITS ==> aligned == round_up(x as int, y as int),
{
    if x > 0 && y > 0 {
        proof {
            assert forall|n: nat| y == #[trigger] pow2(n) && n < usize::BITS implies
                ((x + (y - 1)) as usize) & !((y - 1) as usize) == round_up(x as int, y as int) by {
                lemma_mask_rounds_down((x + (y - 1)) as usize, y, n);
            }
        }
        (x + (y - 1)) & !(y - 1)
    } else {
        0
    }
}

} // verus!
