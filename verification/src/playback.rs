//! Playback path: on each output callback of the host device, every sample
//! slot takes one sample from the jitter buffer.

use crate::format::{sample_to_u16, to_unsigned, unsigned_of};
use crate::jitter::JitterBuffer;
use vstd::prelude::*;

verus! {

/// Fills the slots of `out` in order, each with one pop from `jitter`.
pub fn fill(jitter: &mut JitterBuffer, out: &mut [i16])
    ensures
        final(out)@ == old(jitter)@.drained(old(out)@.len()),
        final(jitter)@ == old(jitter)@.after_pops(old(out)@.len()),
{
    let n: usize = out.len();
    let mut i: usize = 0;
    while i < n
        invariant
            n == out@.len(),
            n == old(out)@.len(),
            i <= n,
            out@.take(i as int) == old(jitter)@.drained(i as nat),
            jitter@ == old(jitter)@.after_pops(i as nat),
        decreases n - i,
    {
        let s: i16 = jitter.pop_sample();
        out[i] = s;
        assert(out@.take(i + 1) =~= out@.take(i as int).push(s));
        i = i + 1;
    }
    assert(out@.take(n as int) =~= out@);
}

/// Fills the slots of `out` in order, each with one pop from `jitter`
/// converted to an unsigned sample.
pub fn fill_u16(jitter: &mut JitterBuffer, out: &mut [u16])
    ensures
        final(out)@ == to_unsigned(old(jitter)@.drained(old(out)@.len())),
        final(jitter)@ == old(jitter)@.after_pops(old(out)@.len()),
{
    let n: usize = out.len();
    let mut i: usize = 0;
    while i < n
        invariant
            n == out@.len(),
            n == old(out)@.len(),
            i <= n,
            out@.take(i as int) == to_unsigned(old(jitter)@.drained(i as nat)),
            jitter@ == old(jitter)@.after_pops(i as nat),
        decreases n - i,
    {
        let s: i16 = jitter.pop_sample();
        out[i] = sample_to_u16(s);
        proof {
            let before = old(jitter)@.drained(i as nat);
            let after = old(jitter)@.drained((i + 1) as nat);
            assert(after == before.push(s));
            assert(to_unsigned(after) =~= to_unsigned(before).push(unsigned_of(s)));
            assert(out@.take(i + 1) =~= out@.take(i as int).push(out@[i as int]));
        }
        i = i + 1;
    }
    assert(out@.take(n as int) =~= out@);
}

} // verus!
