//! Voice-activity detection by frame energy with hysteresis: a frame counts as
//! speech when at least three of the last five frames were loud. Whether one frame
//! is loud (its RMS energy above a threshold) is measured outside, on the samples;
//! this module makes every decision that follows from those measurements.
use vstd::prelude::*;

verus! {

/// Frames considered when deciding whether the current one is speech.
pub const WINDOW_FRAMES: usize = 5;

/// Loud frames needed among the last `WINDOW_FRAMES` for speech.
pub const MIN_SPEECH_FRAMES: usize = 3;

/// The number of `true` values in `s`.
pub open spec fn count_true(s: Seq<bool>) -> nat
    decreases s.len(),
{
    if s.len() == 0 {
        0
    } else {
        count_true(s.drop_last()) + if s.last() { 1nat } else { 0nat }
    }
}

/// The last (at most) `WINDOW_FRAMES` values of `s`.
pub open spec fn last_window(s: Seq<bool>) -> Seq<bool> {
    if s.len() > WINDOW_FRAMES {
        s.subrange(s.len() - WINDOW_FRAMES, s.len() as int)
    } else {
        s
    }
}

/// The history after one more frame: appended, and the oldest dropped when the
/// history would exceed the window.
pub open spec fn window_push(h: Seq<bool>, loud: bool) -> Seq<bool> {
    if h.len() + 1 > WINDOW_FRAMES {
        h.push(loud).drop_first()
    } else {
        h.push(loud)
    }
}

/// Whether a history of loudness flags makes the current frame speech.
pub open spec fn is_speech(h: Seq<bool>) -> bool {
    count_true(h) >= MIN_SPEECH_FRAMES
}

/// The history after observing `flags` one by one from history `h`.
pub open spec fn observe_all(h: Seq<bool>, flags: Seq<bool>) -> Seq<bool>
    decreases flags.len(),
{
    if flags.len() == 0 {
        h
    } else {
        window_push(observe_all(h, flags.drop_last()), flags.last())
    }
}

/// The speech decision at frame `i` for a run of frames with loudness `flags`,
/// starting from a fresh detector.
pub open spec fn speech_at(flags: Seq<bool>, i: int) -> bool {
    is_speech(last_window(flags.subrange(0, i + 1)))
}

/// Samples per frame at `sample_rate`: 30 ms worth, rounded down.
pub open spec fn frame_len(sample_rate: u32) -> nat {
    (sample_rate as nat * 30) / 1000
}

/// An energy-threshold voice-activity detector over frames of 30 ms.
pub struct VadDetector {
    frame_size: usize,
    history: Vec<bool>,
}

impl VadDetector {
    #[verifier::type_invariant]
    spec fn wf(self) -> bool {
        self.history.len() <= WINDOW_FRAMES
    }

    /// The loudness of the most recent frames, oldest first.
    pub closed spec fn history(&self) -> Seq<bool> {
        self.history@
    }

    pub closed spec fn spec_frame_size(&self) -> usize {
        self.frame_size
    }

    /// A detector for audio at `sample_rate`, with frames of 30 ms and no history.
    pub fn new(sample_rate: u32) -> (d: VadDetector)
        ensures
            d.spec_frame_size() == frame_len(sample_rate),
            d.history() == Seq::<bool>::empty(),
    {
        let frame_size = ((sample_rate as u64) * 30 / 1000) as usize;
        VadDetector { frame_size, history: Vec::new() }
    }

    /// Samples per frame.
    pub fn frame_size(&self) -> (n: usize)
        ensures
            n == self.spec_frame_size(),
    {
        self.frame_size
    }

    /// Records whether the next frame is loud and returns whether it counts as
    /// speech: at least `MIN_SPEECH_FRAMES` of the last `WINDOW_FRAMES` frames loud.
    pub fn observe(&mut self, loud: bool) -> (speech: bool)
        ensures
            final(self).history() == window_push(old(self).history(), loud),
            final(self).spec_frame_size() == old(self).spec_frame_size(),
            speech == is_speech(final(self).history()),
            final(self).history().len() <= WINDOW_FRAMES,
    {
        proof {
            use_type_invariant(&*self);
        }
        let len = self.history.len();
        let start: usize = if len + 1 > WINDOW_FRAMES { 1 } else { 0 };
        let mut h: Vec<bool> = Vec::new();
        let mut j: usize = start;
        while j < len
            invariant
                len == self.history@.len(),
                len <= WINDOW_FRAMES,
                start <= j <= len,
                h@ == self.history@.subrange(start as int, j as int),
            decreases len - j,
        {
            h.push(self.history[j]);
            j = j + 1;
            assert(h@ =~= self.history@.subrange(start as int, j as int));
        }
        h.push(loud);
        assert(h@ =~= window_push(old(self).history(), loud));
        self.history = h;
        let n = self.history.len();
        let mut count: usize = 0;
        let mut i: usize = 0;
        while i < n
            invariant
                n == self.history@.len(),
                n <= WINDOW_FRAMES,
                i <= n,
                count == count_true(self.history@.subrange(0, i as int)),
                count <= i,
            decreases n - i,
        {
            assert(self.history@.subrange(0, i + 1).drop_last() =~= self.history@.subrange(0, i as int));
            if self.history[i] {
                count = count + 1;
            }
            i = i + 1;
        }
        assert(self.history@.subrange(0, n as int) =~= self.history@);
        count >= MIN_SPEECH_FRAMES
    }
}

/// From a fresh detector, the history after a run of frames is the last
/// `WINDOW_FRAMES` of their loudness flags; so a frame is speech exactly when at
/// least `MIN_SPEECH_FRAMES` of the last `WINDOW_FRAMES` frames (fewer at the
/// start) were loud.
pub proof fn lemma_history_is_last_window(flags: Seq<bool>)
    ensures
        observe_all(Seq::<bool>::empty(), flags) == last_window(flags),
    decreases flags.len(),
{
    if flags.len() > 0 {
        lemma_history_is_last_window(flags.drop_last());
        let p = flags.drop_last();
        if p.len() + 1 > WINDOW_FRAMES {
            assert(last_window(p).push(flags.last()).drop_first() =~= last_window(flags));
        } else {
            assert(last_window(p).push(flags.last()) =~= last_window(flags));
        }
    }
}

proof fn lemma_count_true_bounds(s: Seq<bool>)
    ensures
        count_true(s) <= s.len(),
        (forall|i: int| 0 <= i < s.len() ==> !#[trigger] s[i]) ==> count_true(s) == 0,
        (forall|i: int| 0 <= i < s.len() ==> #[trigger] s[i]) ==> count_true(s) == s.len(),
    decreases s.len(),
{
    if s.len() > 0 {
        lemma_count_true_bounds(s.drop_last());
        assert forall|i: int| 0 <= i < s.drop_last().len() implies #[trigger] s.drop_last()[i] == s[i] by {}
    }
}

proof fn lemma_count_true_append(a: Seq<bool>, b: Seq<bool>)
    ensures
        count_true(a + b) == count_true(a) + count_true(b),
    decreases b.len(),
{
    if b.len() == 0 {
        assert(a + b =~= a);
    } else {
        lemma_count_true_append(a, b.drop_last());
        assert((a + b).drop_last() =~= a + b.drop_last());
    }
}

/// Hysteresis: after three quiet frames in a row the detector reports silence, and
/// after three loud frames in a row it reports speech, whatever came before.
pub proof fn lemma_three_in_a_row(flags: Seq<bool>)
    requires
        flags.len() >= 3,
    ensures
        (!flags[flags.len() - 1] && !flags[flags.len() - 2] && !flags[flags.len() - 3])
            ==> !is_speech(observe_all(Seq::<bool>::empty(), flags)),
        (flags[flags.len() - 1] && flags[flags.len() - 2] && flags[flags.len() - 3])
            ==> is_speech(observe_all(Seq::<bool>::empty(), flags)),
{
    lemma_history_is_last_window(flags);
    let w = last_window(flags);
    let k = w.len() - 3;
    let front = w.subrange(0, k);
    let back = w.subrange(k, w.len() as int);
    assert(w =~= front + back);
    lemma_count_true_append(front, back);
    lemma_count_true_bounds(front);
    lemma_count_true_bounds(back);
    assert(back[0] == flags[flags.len() - 3]);
    assert(back[1] == flags[flags.len() - 2]);
    assert(back[2] == flags[flags.len() - 1]);
}

/// The number of frames that `n_samples` split into, the last possibly shorter.
pub open spec fn chunk_count(n_samples: nat, frame: nat) -> nat {
    if n_samples % frame == 0 { n_samples / frame } else { n_samples / frame + 1 }
}

/// The sample range of frame `i`.
pub open spec fn chunk_range(n_samples: nat, frame: nat, i: nat) -> (usize, usize) {
    let start = i * frame;
    let end = if start + frame <= n_samples { start + frame } else { n_samples };
    (start as usize, end as usize)
}

/// The ranges of those of the first `k` frames that are speech, in order.
pub open spec fn kept_ranges(flags: Seq<bool>, n_samples: nat, frame: nat, k: nat) -> Seq<(usize, usize)>
    decreases k,
{
    if k == 0 {
        Seq::<(usize, usize)>::empty()
    } else {
        let prev = kept_ranges(flags, n_samples, frame, (k - 1) as nat);
        if speech_at(flags, k - 1) {
            prev.push(chunk_range(n_samples, frame, (k - 1) as nat))
        } else {
            prev
        }
    }
}

/// Silence trimming keeps frames in order and invents nothing: every kept range is
/// a non-empty stretch inside the recording, and each ends where or before the
/// next begins.
pub proof fn lemma_kept_ranges_ordered(flags: Seq<bool>, n_samples: nat, frame: nat, k: nat)
    requires
        frame > 0,
        n_samples <= usize::MAX,
        k <= chunk_count(n_samples, frame),
    ensures
        ({
            let r = kept_ranges(flags, n_samples, frame, k);
            &&& forall|j: int| 0 <= j < r.len() ==> (#[trigger] r[j]).0 < r[j].1 && r[j].1 <= n_samples
            &&& forall|j: int, l: int| 0 <= j < l < r.len() ==> (#[trigger] r[j]).1 <= (#[trigger] r[l]).0
            &&& forall|j: int| 0 <= j < r.len() ==> (#[trigger] r[j]).1 <= k * frame
        }),
    decreases k,
{
    if k > 0 {
        lemma_kept_ranges_ordered(flags, n_samples, frame, (k - 1) as nat);
        let i = (k - 1) as nat;
        assert(i * frame < n_samples) by (nonlinear_arith)
            requires
                i < (if n_samples % frame == 0 { n_samples / frame } else { n_samples / frame + 1 }),
                frame > 0,
        {
        }
        assert(k * frame == i * frame + frame) by (nonlinear_arith)
            requires
                k == i + 1,
        {
        }
        let prev = kept_ranges(flags, n_samples, frame, i);
        let cr = chunk_range(n_samples, frame, i);
        assert(cr.0 as int == i * frame);
        assert(cr.0 < cr.1 && cr.1 <= n_samples && cr.1 <= k * frame);
        if speech_at(flags, i as int) {
            let r = prev.push(cr);
            assert(kept_ranges(flags, n_samples, frame, k) == r);
            assert forall|j: int, l: int| 0 <= j < l < r.len() implies (#[trigger] r[j]).1 <= (#[trigger] r[l]).0 by {
                if l == prev.len() {
                    assert(r[j] == prev[j]);
                } else {
                    assert(r[j] == prev[j] && r[l] == prev[l]);
                }
            }
            assert forall|j: int| 0 <= j < r.len() implies (#[trigger] r[j]).1 <= k * frame by {
                if j < prev.len() {
                    assert(r[j] == prev[j]);
                }
            }
            assert forall|j: int| 0 <= j < r.len() implies (#[trigger] r[j]).0 < r[j].1 && r[j].1 <= n_samples by {
                if j < prev.len() {
                    assert(r[j] == prev[j]);
                }
            }
        } else {
            assert(kept_ranges(flags, n_samples, frame, k) == prev);
            assert forall|j: int| 0 <= j < prev.len() implies (#[trigger] prev[j]).1 <= k * frame by {
                assert(prev[j].1 <= i * frame);
            }
        }
    }
}

/// The number of frames of `frame` samples (the last possibly shorter) that
/// `n_samples` samples split into.
pub fn frame_count(n_samples: usize, frame: usize) -> (n: usize)
    requires
        frame > 0,
    ensures
        n == chunk_count(n_samples as nat, frame as nat),
{
    if n_samples % frame == 0 {
        n_samples / frame
    } else {
        assert(n_samples / frame < usize::MAX) by (nonlinear_arith)
            requires
                frame > 0,
                n_samples % frame != 0,
        {
            if frame == 1 {
                assert(n_samples % 1 == 0);
            } else {
                assert(n_samples / frame <= n_samples / 2);
            }
        }
        n_samples / frame + 1
    }
}

/// Which stretches of a recording survive silence trimming: the recording of
/// `n_samples` samples at `sample_rate` is cut into 30 ms frames, `loud[i]` tells
/// whether frame `i` is loud, and a fresh detector run over the frames keeps exactly
/// the frames it reports as speech. The result lists their sample ranges in order.
pub fn speech_chunks(n_samples: usize, sample_rate: u32, loud: &Vec<bool>) -> (r: Vec<(usize, usize)>)
    requires
        frame_len(sample_rate) > 0,
        loud@.len() == chunk_count(n_samples as nat, frame_len(sample_rate)),
    ensures
        r@ == kept_ranges(loud@, n_samples as nat, frame_len(sample_rate), loud@.len()),
{
    let mut vad = VadDetector::new(sample_rate);
    let frame = vad.frame_size();
    let count = loud.len();
    let mut out: Vec<(usize, usize)> = Vec::new();
    let mut i: usize = 0;
    while i < count
        invariant
            frame == frame_len(sample_rate),
            frame > 0,
            count == loud@.len(),
            count == chunk_count(n_samples as nat, frame as nat),
            i <= count,
            vad.history() == last_window(loud@.subrange(0, i as int)),
            out@ == kept_ranges(loud@, n_samples as nat, frame as nat, i as nat),
        decreases count - i,
    {
        proof {
            let p = loud@.subrange(0, i as int);
            let q = loud@.subrange(0, i + 1);
            assert(q.drop_last() =~= p);
            if p.len() + 1 > WINDOW_FRAMES {
                assert(last_window(p).push(q.last()).drop_first() =~= last_window(q));
            } else {
                assert(last_window(p).push(q.last()) =~= last_window(q));
            }
            // frame i starts inside the recording
            assert(i * frame < n_samples) by (nonlinear_arith)
                requires
                    i < count,
                    frame > 0,
                    count as int == (if n_samples % frame == 0 { (n_samples / frame) as int } else { n_samples / frame + 1 }),
            {
            }
        }
        let speech = vad.observe(loud[i]);
        if speech {
            let start = i * frame;
            let end = if n_samples - start >= frame { start + frame } else { n_samples };
            out.push((start, end));
        }
        i = i + 1;
    }
    out
}

} // verus!
