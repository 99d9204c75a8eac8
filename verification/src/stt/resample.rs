//! Resampling to the recogniser's rate. The sample arithmetic is floating point
//! and done by the caller; this module fixes, in exact integer arithmetic, how much
//! of a block resampler's zero-padded last block belongs to the signal.
use vstd::prelude::*;

verus! {

proof fn lemma_wide_product(a: usize, b: u32)
    ensures
        (a as int) * (b as int) <= u128::MAX,
        (a as u128) * (b as u128) == (a as int) * (b as int),
{
    assert((a as int) * (b as int) <= 0xffff_ffff_ffff_ffff * 0xffff_ffff) by (nonlinear_arith)
        requires
            0 <= a <= 0xffff_ffff_ffff_ffff,
            0 <= b <= 0xffff_ffff,
    {
    }
}

/// How many of the `produced` outputs of the final, zero-padded block of a block
/// resampler belong to the signal: `remaining` real inputs scaled by
/// `dst_rate / src_rate` (rounded down), and never more than were produced.
pub fn tail_outputs(remaining: usize, src_rate: u32, dst_rate: u32, produced: usize) -> (n: usize)
    requires
        src_rate > 0,
    ensures
        n == (if (remaining * dst_rate) / (src_rate as int) <= produced { (remaining * dst_rate) / (src_rate as int) } else { produced as int }),
{
    proof {
        lemma_wide_product(remaining, dst_rate);
    }
    let p: u128 = (remaining as u128) * (dst_rate as u128);
    let v = p / (src_rate as u128);
    if v <= produced as u128 {
        v as usize
    } else {
        produced
    }
}

} // verus!
