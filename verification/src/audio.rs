//! Audio sink: a growth-bounded queue of interleaved stereo samples.
//!
//! The emulation core pushes one stereo pair per audio tick; the audio
//! device's callback drains the queue at its own rate. The queue stores each
//! sample as the bit pattern of an IEEE 754 single-precision value, so the
//! bound, ordering and drop policy are stated and proved over plain `u32`
//! values; the device boundary converts bit patterns to samples.
//!
//! Backpressure is lossy by design: once the queue holds its configured
//! maximum of stereo pairs, further incoming pairs are discarded (the newest
//! data is sacrificed, never the queued order), so the producer never blocks.

use vstd::prelude::*;

verus! {

/// Bit pattern of the silence sample (0.0) used to pad a drain.
pub const SILENCE_SAMPLE: u32 = 0;

/// Queue contents after one `push_samples` call: the pair is appended when
/// the queue still has room for a complete pair under its bound of
/// `max_pairs` stereo pairs, and dropped otherwise.
pub open spec fn push_pair_model(q: Seq<u32>, max_pairs: nat, left: u32, right: u32) -> Seq<u32> {
    if q.len() + 2 <= 2 * max_pairs {
        q.push(left).push(right)
    } else {
        q
    }
}

/// Queue contents after a whole sequence of `push_samples` calls, applied
/// in order with no drain in between.
pub open spec fn push_trace_model(q: Seq<u32>, max_pairs: nat, pairs: Seq<(u32, u32)>) -> Seq<u32>
    decreases pairs.len(),
{
    if pairs.len() == 0 {
        q
    } else {
        push_trace_model(push_pair_model(q, max_pairs, pairs[0].0, pairs[0].1), max_pairs, pairs.skip(1))
    }
}

/// The ordered sample queue shared between the emulation step (sole
/// producer) and the audio device callback (sole consumer). Samples are
/// interleaved left, right, left, right, in production order.
pub struct SampleQueue {
    samples: Vec<u32>,
    max_pairs: usize,
}

impl View for SampleQueue {
    type V = Seq<u32>;

    closed spec fn view(&self) -> Seq<u32> {
        self.samples@
    }
}

impl SampleQueue {
    /// Configured capacity, in stereo pairs.
    pub closed spec fn bound(&self) -> nat {
        self.max_pairs as nat
    }

    /// The queue never holds more samples than its bound allows, and the
    /// bound is small enough that capacity arithmetic cannot overflow.
    pub open spec fn wf(&self) -> bool {
        &&& self@.len() <= 2 * self.bound()
        &&& self.bound() < 0x4000_0000
    }

    /// An empty queue sized for `bound_ms` milliseconds of audio at
    /// `sample_rate` stereo pairs per second.
    pub fn new(sample_rate: u32, bound_ms: u32) -> (r: Self)
        requires
            sample_rate as int * bound_ms as int / 1000 < 0x4000_0000,
        ensures
            r.wf(),
            r@ == Seq::<u32>::empty(),
            r.bound() == sample_rate as int * bound_ms as int / 1000,
    {
        let max_pairs: usize = ((sample_rate as u64 * bound_ms as u64) / 1000) as usize;
        SampleQueue { samples: Vec::new(), max_pairs }
    }

    /// Number of queued samples (twice the number of complete pairs).
    pub fn queued_samples(&self) -> (r: usize)
        ensures
            r == self@.len(),
    {
        self.samples.len()
    }

    /// Number of queued stereo pairs.
    pub fn queued_pairs(&self) -> (r: usize)
        ensures
            r == self@.len() / 2,
    {
        self.samples.len() / 2
    }

    /// Configured capacity, in stereo pairs.
    pub fn bound_pairs(&self) -> (r: usize)
        ensures
            r == self.bound(),
    {
        self.max_pairs
    }

    /// Whether the queue currently satisfies its well-formedness bound;
    /// lets unverified callers check the producer contract at run time.
    pub fn is_well_formed(&self) -> (r: bool)
        ensures
            r == self.wf(),
    {
        self.max_pairs < 0x4000_0000 && self.samples.len() <= 2 * self.max_pairs
    }

    /// Accept one stereo pair from the core. The pair is appended if a
    /// complete pair still fits under the bound, and silently dropped
    /// otherwise: the producer is never blocked and the queued samples are
    /// never reordered or evicted.
    pub fn push_samples(&mut self, left: u32, right: u32)
        requires
            old(self).wf(),
        ensures
            final(self).wf(),
            final(self).bound() == old(self).bound(),
            final(self)@ == push_pair_model(old(self)@, old(self).bound(), left, right),
            old(self)@.len() + 2 <= 2 * old(self).bound() ==> final(self)@ == old(self)@.push(left).push(right),
            old(self)@.len() + 2 > 2 * old(self).bound() ==> final(self)@ == old(self)@,
    {
        if self.samples.len() + 2 <= 2 * self.max_pairs {
            self.samples.push(left);
            self.samples.push(right);
        }
    }

    /// Drain into an output buffer supplied by the audio device: the queue's
    /// first `min(out.len(), queued)` samples are copied out in FIFO order
    /// and removed, and any unfilled tail of `out` is set to silence, so the
    /// whole buffer is always populated with defined values.
    pub fn fill(&mut self, out: &mut Vec<u32>)
        requires
            old(self).wf(),
        ensures
            final(self).wf(),
            final(self).bound() == old(self).bound(),
            final(out)@.len() == old(out)@.len(),
            final(out)@ == old(self)@.take(drain_count(old(self)@, old(out)@))
                + Seq::new((old(out)@.len() - drain_count(old(self)@, old(out)@)) as nat, |i: int| SILENCE_SAMPLE),
            forall|i: int| 0 <= i < drain_count(old(self)@, old(out)@) ==> final(out)@[i] == old(self)@[i],
            forall|i: int| drain_count(old(self)@, old(out)@) <= i < old(out)@.len()
                ==> final(out)@[i] == SILENCE_SAMPLE,
            final(self)@ == old(self)@.skip(drain_count(old(self)@, old(out)@)),
    {
        let n: usize = if out.len() < self.samples.len() {
            out.len()
        } else {
            self.samples.len()
        };
        let ghost d = drain_count(old(self)@, old(out)@);
        assert(n == d);

        let mut i: usize = 0;
        while i < n
            invariant
                i <= n,
                n == d,
                n <= out@.len(),
                n <= self@.len(),
                self@ == old(self)@,
                out@.len() == old(out)@.len(),
                forall|j: int| 0 <= j < i ==> out@[j] == old(self)@[j],
                forall|j: int| i <= j < out@.len() ==> out@[j] == old(out)@[j],
            decreases n - i,
        {
            let s = self.samples[i];
            out.set(i, s);
            i = i + 1;
        }

        let out_len: usize = out.len();
        let mut j: usize = n;
        while j < out_len
            invariant
                n <= j <= out_len,
                n == d,
                out_len == out@.len(),
                out@.len() == old(out)@.len(),
                self@ == old(self)@,
                n <= self@.len(),
                forall|k: int| 0 <= k < n ==> out@[k] == old(self)@[k],
                forall|k: int| n <= k < j ==> out@[k] == SILENCE_SAMPLE,
            decreases out_len - j,
        {
            out.set(j, SILENCE_SAMPLE);
            j = j + 1;
        }

        let mut rest: Vec<u32> = Vec::new();
        let mut k: usize = n;
        let queued: usize = self.samples.len();
        while k < queued
            invariant
                n <= k <= queued,
                queued == self@.len(),
                self@ == old(self)@,
                rest@.len() == k - n,
                forall|m: int| 0 <= m < rest@.len() ==> rest@[m] == old(self)@[n + m],
            decreases queued - k,
        {
            let s = self.samples[k];
            rest.push(s);
            k = k + 1;
        }
        self.samples = rest;

        proof {
            assert(self@ =~= old(self)@.skip(d));
            assert(out@ =~= old(self)@.take(d)
                + Seq::new((old(out)@.len() - d) as nat, |i: int| SILENCE_SAMPLE));
        }
    }
}

/// Number of samples one `fill` call removes: the queue's whole content, or
/// as much of it as the output buffer can take, whichever is smaller.
pub open spec fn drain_count(q: Seq<u32>, out: Seq<u32>) -> int {
    if out.len() < q.len() {
        out.len() as int
    } else {
        q.len() as int
    }
}

/// Backpressure law: however many pairs the core pushes, and in whatever
/// order, the queue never grows past its bound of stereo pairs.
pub proof fn lemma_push_trace_bounded(q: Seq<u32>, max_pairs: nat, pairs: Seq<(u32, u32)>)
    requires
        q.len() <= 2 * max_pairs,
    ensures
        push_trace_model(q, max_pairs, pairs).len() <= 2 * max_pairs,
    decreases pairs.len(),
{
    if pairs.len() > 0 {
        lemma_push_trace_bounded(push_pair_model(q, max_pairs, pairs[0].0, pairs[0].1), max_pairs, pairs.skip(1));
    }
}

/// At capacity, a push is a no-op: the queue is left exactly as it was, so
/// nothing queued is evicted and nothing new is admitted until a drain
/// reduces occupancy.
pub proof fn lemma_push_at_capacity_is_noop(q: Seq<u32>, max_pairs: nat, left: u32, right: u32)
    requires
        q.len() + 2 > 2 * max_pairs,
    ensures
        push_pair_model(q, max_pairs, left, right) == q,
{
}

/// Stereo integrity under production: a push appends a complete pair or
/// nothing, so a queue of complete stereo pairs stays one.
pub proof fn lemma_push_preserves_pairing(q: Seq<u32>, max_pairs: nat, left: u32, right: u32)
    requires
        q.len() % 2 == 0,
    ensures
        push_pair_model(q, max_pairs, left, right).len() % 2 == 0,
{
}

/// Stereo integrity under consumption: draining into a whole-frame device
/// buffer (stereo frames, so an even sample count) removes an even number
/// of samples, and a queue of complete stereo pairs stays one.
pub proof fn lemma_drain_preserves_pairing(q: Seq<u32>, out: Seq<u32>)
    requires
        q.len() % 2 == 0,
        out.len() % 2 == 0,
    ensures
        q.skip(drain_count(q, out)).len() % 2 == 0,
{
}

} // verus!
