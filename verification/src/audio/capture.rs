//! Captured microphone samples: the recogniser's target format and the reduction
//! of interleaved multi-channel audio to mono.
use vstd::prelude::*;

use crate::audio::vad::{chunk_count, frame_count};

verus! {

/// The sample rate the speech recogniser expects.
pub const TARGET_SAMPLE_RATE: u32 = 16_000;

/// The channel count the speech recogniser expects.
pub const TARGET_CHANNELS: u16 = 1;

/// The first channel of interleaved audio: the first sample of every group of
/// `channels` samples (the last group possibly incomplete).
pub open spec fn first_channel(buf: Seq<i16>, channels: nat) -> Seq<i16> {
    Seq::new(chunk_count(buf.len(), channels), |k: int| buf[k * channels])
}

/// The mono signal of interleaved audio with `channels` channels: with more than
/// one channel, its first channel; otherwise the samples as they are.
pub open spec fn mono_of(buf: Seq<i16>, channels: u16) -> Seq<i16> {
    if channels > 1 {
        first_channel(buf, channels as nat)
    } else {
        buf
    }
}

/// Reduces interleaved audio to mono by keeping the first channel of every frame.
/// Audio declared with zero or one channel is kept as it is.
pub fn downmix_first_channel(buf: &[i16], channels: u16) -> (r: Vec<i16>)
    ensures
        r@ == mono_of(buf@, channels),
{
    let n = buf.len();
    let mut out: Vec<i16> = Vec::new();
    if channels <= 1 {
        let mut i: usize = 0;
        while i < n
            invariant
                n == buf@.len(),
                i <= n,
                out@ == buf@.subrange(0, i as int),
            decreases n - i,
        {
            out.push(buf[i]);
            i = i + 1;
            assert(out@ =~= buf@.subrange(0, i as int));
        }
        assert(buf@.subrange(0, n as int) =~= buf@);
        return out;
    }
    let c = channels as usize;
    let count = frame_count(n, c);
    let mut k: usize = 0;
    while k < count
        invariant
            n == buf@.len(),
            c == channels,
            c > 1,
            count == chunk_count(n as nat, c as nat),
            k <= count,
            out@.len() == k,
            forall|j: int| 0 <= j < k ==> #[trigger] out@[j] == buf@[j * c],
        decreases count - k,
    {
        assert(k * c < n) by (nonlinear_arith)
            requires
                k < count,
                c > 1,
                count as int == (if n % c == 0 { (n / c) as int } else { n / c + 1 }),
        {
        }
        out.push(buf[k * c]);
        k = k + 1;
    }
    assert(out@ =~= first_channel(buf@, c as nat));
    out
}

} // verus!
