//! Signal level of a run of samples, for the telemetry of each path.

use vstd::prelude::*;

verus! {

/// A run of samples whose peak is below this level counts as silence.
pub const SILENCE_THRESHOLD: u16 = 100;

/// Absolute value of a sample. That of the most negative sample is 32768,
/// which no sample equals.
pub open spec fn magnitude(s: i16) -> nat {
    if s >= 0 {
        s as nat
    } else {
        (-s) as nat
    }
}

/// Largest absolute value among `samples`; 0 if there is none.
pub open spec fn peak(samples: Seq<i16>) -> nat
    decreases samples.len(),
{
    if samples.len() == 0 {
        0
    } else {
        let rest = peak(samples.drop_last());
        if magnitude(samples.last()) > rest {
            magnitude(samples.last())
        } else {
            rest
        }
    }
}

/// The peak bounds every sample, and some sample attains it.
pub proof fn lemma_peak(samples: Seq<i16>)
    ensures
        peak(samples) <= 0x8000,
        forall|i: int| 0 <= i < samples.len() ==> magnitude(#[trigger] samples[i]) <= peak(samples),
        samples.len() > 0 ==> exists|i: int|
            0 <= i < samples.len() && magnitude(#[trigger] samples[i]) == peak(samples),
    decreases samples.len(),
{
    if samples.len() > 0 {
        let rest = samples.drop_last();
        lemma_peak(rest);
        assert forall|i: int| 0 <= i < samples.len() implies magnitude(#[trigger] samples[i])
            <= peak(samples) by {
            if i < rest.len() {
                assert(samples[i] == rest[i]);
            }
        }
        if magnitude(samples.last()) > peak(rest) || rest.len() == 0 {
            assert(magnitude(samples[samples.len() - 1]) == peak(samples));
        } else {
            let i = choose|i: int| 0 <= i < rest.len() && magnitude(#[trigger] rest[i]) == peak(rest);
            assert(samples[i] == rest[i]);
        }
    }
}

/// Absolute value of a sample.
pub fn sample_magnitude(s: i16) -> (m: u16)
    ensures
        m == magnitude(s),
{
    let wide: i32 = s as i32;
    if wide >= 0 {
        wide as u16
    } else {
        (-wide) as u16
    }
}

/// Largest absolute value among `samples`.
pub fn peak_amplitude(samples: &[i16]) -> (p: u16)
    ensures
        p == peak(samples@),
{
    let n: usize = samples.len();
    let mut p: u16 = 0;
    let mut i: usize = 0;
    while i < n
        invariant
            n == samples.len(),
            i <= n,
            p == peak(samples@.take(i as int)),
        decreases n - i,
    {
        let m: u16 = sample_magnitude(samples[i]);
        assert(samples@.take(i + 1).drop_last() =~= samples@.take(i as int));
        if m > p {
            p = m;
        }
        i = i + 1;
    }
    assert(samples@.take(n as int) =~= samples@);
    p
}

/// Whether a run of samples with this peak counts as silence.
pub fn is_silence(peak: u16) -> (quiet: bool)
    ensures
        quiet == (peak < SILENCE_THRESHOLD),
{
    peak < SILENCE_THRESHOLD
}

} // verus!
