//! Page frames handed to domains: requests are rounded up to a power of two
//! frames, and frames are tracked by frame number.

use vstd::prelude::*;
use crate::block::gen_disk::is_pow2;

verus! {

/// Size of a frame in bytes.
pub const FRAME_SIZE: usize = 0x1000;
/// Number of address bits inside a frame.
pub const FRAME_BITS: usize = 12;

/// The smallest power of two not below `n` (one for zero).
pub open spec fn next_pow2(n: int) -> int
    decreases n,
{
    if n <= 1 {
        1
    } else {
        2 * next_pow2((n + 1) / 2)
    }
}

/// `next_pow2(n)` is a power of two, not below `n`, and below `2n` for
/// positive `n`: the smallest power of two not below `n`.
pub proof fn lemma_next_pow2(n: int)
    ensures
        is_pow2(next_pow2(n)),
        next_pow2(n) >= n,
        n >= 1 ==> next_pow2(n) < 2 * n,
    decreases n,
{
    if n > 1 {
        lemma_next_pow2((n + 1) / 2);
        let p = next_pow2((n + 1) / 2);
        assert((2 * p) % 2 == 0);
        assert((2 * p) / 2 == p);
    }
}

/// `usize::next_power_of_two`: the smallest power of two greater than or
/// equal to `n`; `requires` leaves out the values where it overflows.
#[verifier::external_body]
fn usize_next_power_of_two(n: usize) -> (r: usize)
    requires
        next_pow2(n as int) <= usize::MAX,
    ensures
        r == next_pow2(n as int),
{
    n.next_power_of_two()
}

/// The number of frames behind a request to allocate or free `n` pages:
/// `n` rounded up to a power of two. `requires` leaves
/// out the requests where that rounding overflows (`next_power_of_two`
/// panics there in a debug build).
pub fn frame_request(n: usize) -> (r: usize)
    requires
        next_pow2(n as int) <= usize::MAX,
    ensures
        r == next_pow2(n as int),
{
    usize_next_power_of_two(n)
}

/// The number of the frame an address lies in.
pub fn frame_number(addr: usize) -> (r: usize)
    ensures
        r == addr / 4096,
{
    assert(addr >> 12 == addr / 4096) by (bit_vector);
    addr >> FRAME_BITS
}

} // verus!
