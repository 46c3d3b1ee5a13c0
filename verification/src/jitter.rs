//! Jitter buffer: a bounded queue of samples between the receive path and the
//! playback callback. It gives out silence until it has filled to a minimum
//! depth, and drops its oldest samples rather than grow past its bound.

use std::collections::VecDeque;
use vstd::prelude::*;

verus! {

/// Most samples the buffer holds: 400 ms at 48 kHz.
pub const MAX_SAMPLES: usize = 19200;

/// Depth below which a new buffer gives out silence: 100 ms at 48 kHz.
pub const DEFAULT_MIN_DELAY: u64 = 4800;

/// Samples in one millisecond at 48 kHz.
pub const SAMPLES_PER_MS: u64 = 48;

/// The sample given out while the buffer refills.
pub const SILENCE: i16 = 0;

/// The queue of samples that wait for playback. It never holds more than
/// `MAX_SAMPLES` samples.
pub struct JitterBuffer {
    buffer: VecDeque<i16>,
    min_delay: u64,
}

/// Mathematical value of a jitter buffer: the queued samples, oldest first,
/// and the depth below which it gives out silence.
pub struct JitterView {
    pub samples: Seq<i16>,
    pub min_delay: nat,
}

/// The most recent `MAX_SAMPLES` samples of `s`, or all of `s` if it has
/// fewer.
pub open spec fn most_recent(s: Seq<i16>) -> Seq<i16> {
    if s.len() <= MAX_SAMPLES {
        s
    } else {
        s.subrange(s.len() - MAX_SAMPLES, s.len() as int)
    }
}

impl JitterView {
    /// A new buffer: empty, with the default minimum delay.
    pub open spec fn fresh() -> JitterView {
        JitterView { samples: Seq::empty(), min_delay: DEFAULT_MIN_DELAY as nat }
    }

    /// Whether a pop takes a sample out (otherwise it gives silence and
    /// leaves the queue as it is).
    pub open spec fn gate_open(self) -> bool {
        self.samples.len() >= self.min_delay && self.samples.len() > 0
    }

    /// The buffer after `samples` were pushed: they follow what was queued,
    /// and only the most recent `MAX_SAMPLES` stay.
    pub open spec fn push(self, samples: Seq<i16>) -> JitterView {
        JitterView { samples: most_recent(self.samples + samples), min_delay: self.min_delay }
    }

    /// The sample that a pop returns.
    pub open spec fn front(self) -> i16 {
        if self.gate_open() {
            self.samples[0]
        } else {
            SILENCE
        }
    }

    /// The buffer after a pop.
    pub open spec fn pop(self) -> JitterView {
        if self.gate_open() {
            JitterView { samples: self.samples.skip(1), min_delay: self.min_delay }
        } else {
            self
        }
    }

    /// The buffer with its minimum delay set to `ms` milliseconds.
    pub open spec fn with_min_delay_ms(self, ms: nat) -> JitterView {
        JitterView { samples: self.samples, min_delay: ms * (SAMPLES_PER_MS as nat) }
    }

    /// The buffer after `n` pops in a row.
    pub open spec fn after_pops(self, n: nat) -> JitterView
        decreases n,
    {
        if n == 0 {
            self
        } else {
            self.after_pops((n - 1) as nat).pop()
        }
    }

    /// The samples that `n` pops in a row return, in the order returned.
    pub open spec fn drained(self, n: nat) -> Seq<i16>
        decreases n,
    {
        if n == 0 {
            Seq::empty()
        } else {
            self.drained((n - 1) as nat).push(self.after_pops((n - 1) as nat).front())
        }
    }

    /// How many of `n` pops in a row take a sample out: pops stop taking
    /// samples once the depth falls below the minimum delay.
    pub open spec fn taken(self, n: nat) -> nat {
        if !self.gate_open() {
            0
        } else {
            let floor = if self.min_delay == 0 {
                1
            } else {
                self.min_delay
            };
            let available = (self.samples.len() - floor + 1) as nat;
            if n <= available {
                n
            } else {
                available
            }
        }
    }

    /// The buffer after one operation.
    pub open spec fn apply(self, op: JitterOp) -> JitterView {
        match op {
            JitterOp::Push(samples) => self.push(samples),
            JitterOp::Pop => self.pop(),
        }
    }

    /// The buffer after a run of operations, first to last.
    pub open spec fn run(self, ops: Seq<JitterOp>) -> JitterView
        decreases ops.len(),
    {
        if ops.len() == 0 {
            self
        } else {
            self.run(ops.drop_last()).apply(ops.last())
        }
    }
}

/// One operation on a jitter buffer, as it appears in a run of operations.
pub enum JitterOp {
    Push(Seq<i16>),
    Pop,
}

/// `n` samples of silence.
pub open spec fn silence(n: nat) -> Seq<i16> {
    Seq::new(n, |i: int| SILENCE)
}

/// Number of samples that the pushes of a run of operations carry.
pub open spec fn pushed_total(ops: Seq<JitterOp>) -> nat
    decreases ops.len(),
{
    if ops.len() == 0 {
        0
    } else {
        pushed_total(ops.drop_last()) + match ops.last() {
            JitterOp::Push(samples) => samples.len(),
            JitterOp::Pop => 0,
        }
    }
}

/// A run of operations never queues more than was there and was pushed, and
/// leaves the minimum delay as it was.
pub proof fn lemma_run_depth(v: JitterView, ops: Seq<JitterOp>)
    ensures
        v.run(ops).samples.len() <= v.samples.len() + pushed_total(ops),
        v.run(ops).min_delay == v.min_delay,
    decreases ops.len(),
{
    if ops.len() > 0 {
        lemma_run_depth(v, ops.drop_last());
    }
}

/// The bound holds through every run of operations: a buffer that holds at
/// most `MAX_SAMPLES` samples never holds more.
pub proof fn lemma_run_bounded(v: JitterView, ops: Seq<JitterOp>)
    requires
        v.samples.len() <= MAX_SAMPLES,
    ensures
        v.run(ops).samples.len() <= MAX_SAMPLES,
    decreases ops.len(),
{
    if ops.len() > 0 {
        lemma_run_bounded(v, ops.drop_last());
    }
}

/// Priming: whatever pushes and pops a new buffer has seen, a pop gives
/// silence and takes nothing out as long as fewer samples than the minimum
/// delay were pushed in all.
pub proof fn lemma_priming(ops: Seq<JitterOp>)
    requires
        pushed_total(ops) < DEFAULT_MIN_DELAY,
    ensures
        JitterView::fresh().run(ops).front() == SILENCE,
        JitterView::fresh().run(ops).pop() == JitterView::fresh().run(ops),
{
    lemma_run_depth(JitterView::fresh(), ops);
}

/// Overflow: after a push the buffer holds the last `MAX_SAMPLES` samples of
/// what was queued followed by what was pushed, or all of them if they are
/// fewer, in their order.
pub proof fn lemma_push_keeps_recent(v: JitterView, samples: Seq<i16>)
    ensures
        ({
            let all = v.samples + samples;
            let kept = v.push(samples).samples;
            &&& kept.len() <= MAX_SAMPLES
            &&& kept.len() == if all.len() <= MAX_SAMPLES {
                all.len()
            } else {
                MAX_SAMPLES as nat
            }
            &&& forall|i: int| 0 <= i < kept.len() ==> kept[i] == all[all.len() - kept.len() + i]
        }),
        samples.len() >= MAX_SAMPLES ==> v.push(samples).samples == samples.subrange(
            samples.len() - MAX_SAMPLES,
            samples.len() as int,
        ),
{
    if samples.len() >= MAX_SAMPLES {
        assert(v.push(samples).samples =~= samples.subrange(
            samples.len() - MAX_SAMPLES,
            samples.len() as int,
        ));
    }
}

/// Two pushes in a row leave what one push of both runs of samples leaves.
pub proof fn lemma_push_push(v: JitterView, a: Seq<i16>, b: Seq<i16>)
    ensures
        v.push(a).push(b) == v.push(a + b),
{
    assert(v.push(a).push(b).samples =~= v.push(a + b).samples);
}

/// What `n` pops in a row give: the first `taken(n)` queued samples in the
/// order in which they were pushed, then silence; those samples leave the
/// buffer and the rest stay.
pub proof fn lemma_drained(v: JitterView, n: nat)
    ensures
        v.taken(n) <= n,
        v.taken(n) <= v.samples.len(),
        v.drained(n) == v.samples.take(v.taken(n) as int) + silence((n - v.taken(n)) as nat),
        v.after_pops(n) == (JitterView {
            samples: v.samples.skip(v.taken(n) as int),
            min_delay: v.min_delay,
        }),
    decreases n,
{
    if n == 0 {
        assert(v.drained(0) =~= v.samples.take(0) + silence(0));
        assert(v.samples.skip(0) =~= v.samples);
    } else {
        let m = (n - 1) as nat;
        lemma_drained(v, m);
        let mid = v.after_pops(m);
        assert(mid.samples == v.samples.skip(v.taken(m) as int));
        if v.taken(n) > v.taken(m) {
            assert(mid.gate_open());
            assert(v.taken(m) == m);
            assert(mid.pop().samples =~= v.samples.skip(v.taken(n) as int));
            assert(v.drained(n) =~= v.samples.take(v.taken(n) as int) + silence(0));
        } else {
            assert(!mid.gate_open());
            assert(v.drained(n) =~= v.samples.take(v.taken(n) as int) + silence(
                (n - v.taken(n)) as nat,
            ));
        }
    }
}

/// Ordering: while the depth stays at or above the minimum delay, pops give
/// the queued samples in the order in which they were pushed.
pub proof fn lemma_fifo(v: JitterView, n: nat)
    requires
        n <= v.samples.len(),
        v.samples.len() - n + 1 >= v.min_delay,
    ensures
        v.drained(n) == v.samples.take(n as int),
        v.after_pops(n).samples == v.samples.skip(n as int),
{
    lemma_drained(v, n);
    assert(v.taken(n) == n);
    assert(v.drained(n) =~= v.samples.take(n as int));
}

/// Underrun: a buffer below its minimum delay gives only silence and keeps
/// what it holds, however often it is popped.
pub proof fn lemma_underrun(v: JitterView, n: nat)
    requires
        v.samples.len() < v.min_delay,
    ensures
        v.drained(n) == silence(n),
        v.after_pops(n) == v,
{
    lemma_drained(v, n);
    assert(v.drained(n) =~= silence(n));
    assert(v.samples.skip(0) =~= v.samples);
}

impl View for JitterBuffer {
    type V = JitterView;

    closed spec fn view(&self) -> JitterView {
        JitterView { samples: self.buffer@, min_delay: self.min_delay as nat }
    }
}

/// Appends `samples` to `queue` in order.
fn enqueue(queue: &mut VecDeque<i16>, samples: &[i16])
    ensures
        final(queue)@ == old(queue)@ + samples@,
{
    let n: usize = samples.len();
    let mut i: usize = 0;
    while i < n
        invariant
            n == samples.len(),
            i <= n,
            queue@ == old(queue)@ + samples@.take(i as int),
        decreases n - i,
    {
        queue.push_back(samples[i]);
        assert(samples@.take(i + 1) =~= samples@.take(i as int).push(samples@[i as int]));
        assert(queue@ =~= old(queue)@ + samples@.take(i + 1));
        i = i + 1;
    }
    assert(samples@.take(n as int) =~= samples@);
}

/// Drops samples from the front of `queue` until at most `MAX_SAMPLES` are
/// left.
fn drop_oldest(queue: &mut VecDeque<i16>)
    ensures
        final(queue)@ == most_recent(old(queue)@),
        final(queue)@.len() <= MAX_SAMPLES,
{
    while queue.len() > MAX_SAMPLES
        invariant
            queue@.len() <= old(queue)@.len(),
            queue@ == old(queue)@.subrange(old(queue)@.len() - queue@.len(), old(queue)@.len() as int),
            old(queue)@.len() <= MAX_SAMPLES ==> queue@.len() == old(queue)@.len(),
            old(queue)@.len() > MAX_SAMPLES ==> queue@.len() >= MAX_SAMPLES,
        decreases queue@.len(),
    {
        queue.pop_front();
        assert(queue@ =~= old(queue)@.subrange(
            old(queue)@.len() - queue@.len(),
            old(queue)@.len() as int,
        ));
    }
    assert(queue@ =~= most_recent(old(queue)@));
}

impl JitterBuffer {
    #[verifier::type_invariant]
    spec fn bounded(self) -> bool {
        self.buffer@.len() <= MAX_SAMPLES
    }

    /// An empty buffer with the default minimum delay.
    pub fn new() -> (jb: JitterBuffer)
        ensures
            jb@ == JitterView::fresh(),
    {
        JitterBuffer { buffer: VecDeque::new(), min_delay: DEFAULT_MIN_DELAY }
    }

    /// Appends `samples` in order, then drops from the front whatever exceeds
    /// `MAX_SAMPLES`.
    pub fn push_packet(&mut self, samples: &[i16])
        ensures
            final(self)@ == old(self)@.push(samples@),
            final(self)@.samples.len() <= MAX_SAMPLES,
    {
        let mut queue: VecDeque<i16> = VecDeque::new();
        core::mem::swap(&mut self.buffer, &mut queue);
        enqueue(&mut queue, samples);
        drop_oldest(&mut queue);
        core::mem::swap(&mut self.buffer, &mut queue);
    }

    /// Appends `count` samples of silence, as `push_packet` would. It never
    /// writes more than `MAX_SAMPLES` of them: after that many the buffer
    /// holds nothing else.
    pub fn push_silence(&mut self, count: usize)
        ensures
            final(self)@ == old(self)@.push(silence(count as nat)),
            final(self)@.samples.len() <= MAX_SAMPLES,
    {
        let n: usize = if count < MAX_SAMPLES {
            count
        } else {
            MAX_SAMPLES
        };
        let zeros: Vec<i16> = vec![SILENCE; n];
        assert(zeros@ =~= silence(n as nat));
        self.push_packet(zeros.as_slice());
        assert(old(self)@.push(silence(n as nat)).samples =~= old(self)@.push(
            silence(count as nat),
        ).samples);
    }

    /// Gives silence while the buffer holds fewer samples than its minimum
    /// delay; otherwise removes the oldest sample and returns it.
    pub fn pop_sample(&mut self) -> (s: i16)
        ensures
            s == old(self)@.front(),
            final(self)@ == old(self)@.pop(),
    {
        proof {
            use_type_invariant(&*self);
        }
        if (self.buffer.len() as u64) < self.min_delay {
            return SILENCE;
        }
        let mut queue: VecDeque<i16> = VecDeque::new();
        core::mem::swap(&mut self.buffer, &mut queue);
        let front = queue.pop_front();
        core::mem::swap(&mut self.buffer, &mut queue);
        match front {
            Some(s) => {
                assert(self.buffer@ =~= old(self).buffer@.skip(1));
                s
            },
            None => SILENCE,
        }
    }

    /// Number of queued samples.
    pub fn len(&self) -> (n: usize)
        ensures
            n == self@.samples.len(),
            n <= MAX_SAMPLES,
    {
        proof {
            use_type_invariant(self);
        }
        self.buffer.len()
    }

    /// Whether no sample is queued.
    pub fn is_empty(&self) -> (b: bool)
        ensures
            b == (self@.samples.len() == 0),
    {
        self.buffer.len() == 0
    }

    /// Sets the minimum delay to `delay_ms` milliseconds of samples.
    pub fn set_min_delay_ms(&mut self, delay_ms: u32)
        ensures
            final(self)@ == old(self)@.with_min_delay_ms(delay_ms as nat),
    {
        proof {
            use_type_invariant(&*self);
        }
        self.min_delay = (delay_ms as u64) * SAMPLES_PER_MS;
    }
}

} // verus!
