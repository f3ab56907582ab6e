//! Bounded, append-only accumulator of audio samples.
//!
//! The accumulator is the only state shared between the audio producer and
//! the window extractor. It keeps at most `cap()` samples; when a push would
//! exceed the capacity, the oldest samples are discarded so that the most
//! recently pushed audio is always retained, in order.

use vstd::prelude::*;

verus! {

/// A single audio sample, carried as the raw bit pattern of a 32-bit PCM
/// value. The core never interprets sample values.
pub type Sample = u32;

/// The contents retained after appending `pushed` to `contents` in a buffer
/// of capacity `cap`: the last `cap` elements of the concatenation, or all
/// of it if it fits.
pub open spec fn retained(contents: Seq<Sample>, pushed: Seq<Sample>, cap: int) -> Seq<Sample> {
    let all = contents + pushed;
    if all.len() <= cap {
        all
    } else {
        all.skip(all.len() - cap)
    }
}

/// The samples re-seeded into the accumulator after a full window is
/// drained: the last `keep` samples of the snapshot, clamped to the whole
/// snapshot when `keep` exceeds its length.
pub open spec fn kept_tail(snapshot: Seq<Sample>, keep: int) -> Seq<Sample> {
    if keep >= snapshot.len() {
        snapshot
    } else {
        snapshot.skip(snapshot.len() - keep)
    }
}

/// Whether a snapshot of this length fills a transcription window.
pub open spec fn window_full(contents: Seq<Sample>, window_samples: int) -> bool {
    contents.len() >= window_samples
}

/// Bounded ring of audio samples. Oldest samples are evicted on overflow;
/// a write is never rejected.
pub struct SampleAccumulator {
    buf: Vec<Sample>,
    capacity: usize,
}

impl View for SampleAccumulator {
    type V = Seq<Sample>;

    closed spec fn view(&self) -> Seq<Sample> {
        self.buf@
    }
}

impl SampleAccumulator {
    /// The maximum number of samples the accumulator retains.
    pub closed spec fn cap(&self) -> usize {
        self.capacity
    }

    /// The accumulator never holds more than its capacity.
    pub open spec fn wf(&self) -> bool {
        self@.len() <= self.cap()
    }

    /// An empty accumulator with the given capacity.
    pub fn new(capacity: usize) -> (acc: Self)
        ensures
            acc@ == Seq::<Sample>::empty(),
            acc.cap() == capacity,
            acc.wf(),
    {
        SampleAccumulator { buf: Vec::new(), capacity }
    }

    /// The number of samples currently held.
    pub fn len(&self) -> (n: usize)
        ensures
            n == self@.len(),
    {
        self.buf.len()
    }

    /// A copy of the samples currently held, oldest first.
    pub fn contents(&self) -> (s: Vec<Sample>)
        ensures
            s@ == self@,
    {
        let mut s: Vec<Sample> = Vec::new();
        let mut i: usize = 0;
        while i < self.buf.len()
            invariant
                i <= self.buf@.len(),
                s@ == self.buf@.take(i as int),
            decreases self.buf@.len() - i,
        {
            s.push(self.buf[i]);
            i += 1;
        }
        proof {
            assert(s@ =~= self.buf@);
        }
        s
    }

    /// Appends `samples` at the tail; if the result would exceed the
    /// capacity, discards from the head until exactly `cap()` samples
    /// remain. Never rejects a write.
    pub fn push(&mut self, samples: &[Sample])
        ensures
            final(self).cap() == old(self).cap(),
            final(self)@ == retained(old(self)@, samples@, old(self).cap() as int),
            final(self).wf(),
    {
        let ghost all = self.buf@ + samples@;
        let mut i: usize = 0;
        while i < samples.len()
            invariant
                i <= samples.len(),
                self.buf@ == old(self).buf@ + samples@.take(i as int),
                self.capacity == old(self).capacity,
            decreases samples.len() - i,
        {
            self.buf.push(samples[i]);
            i += 1;
        }
        proof {
            assert(samples@.take(samples@.len() as int) =~= samples@);
            assert(self.buf@ =~= all);
        }
        if self.buf.len() > self.capacity {
            let start = self.buf.len() - self.capacity;
            let mut kept: Vec<Sample> = Vec::new();
            let mut j: usize = start;
            while j < self.buf.len()
                invariant
                    start <= j <= self.buf@.len(),
                    self.buf@ == all,
                    kept@ == all.subrange(start as int, j as int),
                decreases self.buf@.len() - j,
            {
                kept.push(self.buf[j]);
                proof {
                    assert(kept@ =~= all.subrange(start as int, j + 1));
                }
                j += 1;
            }
            self.buf = kept;
            proof {
                assert(self.buf@ =~= all.skip(start as int));
            }
        }
    }

    /// Atomically snapshots the whole contents and, when the snapshot fills
    /// a window, re-seeds the accumulator with the snapshot's last
    /// `keep_samples` samples (the cross-window carry-over). A snapshot
    /// that does not fill a window leaves the accumulator untouched, so a
    /// partially filled first window keeps accruing.
    pub fn drain_window(&mut self, window_samples: usize, keep_samples: usize) -> (r: (
        Vec<Sample>,
        bool,
    ))
        requires
            old(self).wf(),
        ensures
            final(self).cap() == old(self).cap(),
            final(self).wf(),
            r.0@ == old(self)@,
            r.1 == window_full(old(self)@, window_samples as int),
            r.1 ==> final(self)@ == kept_tail(old(self)@, keep_samples as int),
            !r.1 ==> final(self)@ == old(self)@,
    {
        let len = self.buf.len();
        let snapshot = self.contents();
        let full = len >= window_samples;
        if full {
            let keep = if keep_samples > len {
                len
            } else {
                keep_samples
            };
            let start = len - keep;
            let mut kept: Vec<Sample> = Vec::new();
            let mut j: usize = start;
            while j < len
                invariant
                    start <= j <= len,
                    len == self.buf@.len(),
                    kept@ == self.buf@.subrange(start as int, j as int),
                decreases len - j,
            {
                kept.push(self.buf[j]);
                proof {
                    assert(kept@ =~= self.buf@.subrange(start as int, j + 1));
                }
                j += 1;
            }
            proof {
                if keep_samples >= self.buf@.len() {
                    assert(kept@ =~= self.buf@);
                } else {
                    assert(kept@ =~= self.buf@.skip(self.buf@.len() - keep_samples as int));
                }
            }
            self.buf = kept;
        }
        (snapshot, full)
    }
}

/// Bounded-accumulator law: whatever was held before and whatever is
/// pushed, the retained contents never exceed the capacity, they are a
/// suffix of everything seen in order, and when more than a full capacity
/// is pushed at once the retained contents are exactly the last `cap`
/// pushed samples.
pub proof fn lemma_bounded_accumulator(contents: Seq<Sample>, pushed: Seq<Sample>, cap: int)
    requires
        contents.len() <= cap,
    ensures
        retained(contents, pushed, cap).len() <= cap,
        retained(contents, pushed, cap).len() == if contents.len() + pushed.len() <= cap {
            contents.len() + pushed.len()
        } else {
            cap as nat
        },
        retained(contents, pushed, cap) == (contents + pushed).skip(
            contents.len() + pushed.len() - retained(contents, pushed, cap).len(),
        ),
        pushed.len() >= cap ==> retained(contents, pushed, cap) == pushed.skip(
            pushed.len() - cap,
        ),
        pushed.len() <= retained(contents, pushed, cap).len() ==> retained(contents, pushed, cap)
            .skip(retained(contents, pushed, cap).len() - pushed.len()) == pushed,
{
    let all = contents + pushed;
    let kept = retained(contents, pushed, cap);
    assert(kept =~= all.skip(all.len() - kept.len()));
    if pushed.len() >= cap {
        assert(kept =~= pushed.skip(pushed.len() - cap));
    }
    if pushed.len() <= kept.len() {
        assert(kept.skip(kept.len() - pushed.len()) =~= pushed);
    }
}

/// Carry-over law: after a full window is drained, the accumulator holds
/// exactly the last `min(keep, snapshot.len())` samples of the snapshot,
/// in order.
pub proof fn lemma_carry_correctness(snapshot: Seq<Sample>, keep: int)
    requires
        0 <= keep,
    ensures
        kept_tail(snapshot, keep).len() == if keep <= snapshot.len() {
            keep as nat
        } else {
            snapshot.len()
        },
        kept_tail(snapshot, keep) == snapshot.skip(
            snapshot.len() - kept_tail(snapshot, keep).len(),
        ),
{
    assert(kept_tail(snapshot, keep) =~= snapshot.skip(
        snapshot.len() - kept_tail(snapshot, keep).len(),
    ));
}

/// Empty-window law: a drain of an empty accumulator reports a non-full
/// window and leaves the accumulator empty; it is well defined, never an
/// error.
pub proof fn lemma_empty_window(window_samples: int, keep_samples: int)
    requires
        window_samples >= 1,
        keep_samples >= 0,
    ensures
        !window_full(Seq::<Sample>::empty(), window_samples),
        kept_tail(Seq::<Sample>::empty(), keep_samples) == Seq::<Sample>::empty(),
{
    assert(kept_tail(Seq::<Sample>::empty(), keep_samples) =~= Seq::<Sample>::empty());
}

} // verus!
