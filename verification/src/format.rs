//! Conversion between the 16-bit signed samples of the wire and the integer
//! sample formats of a host audio device.

use vstd::prelude::*;

verus! {

/// Offset between a signed sample and the unsigned sample of the same level.
pub const U16_MIDPOINT: i32 = 32768;

/// Sample format of a host audio device.
#[derive(Clone, Copy, Debug, PartialEq, Eq, Structural)]
pub enum HostFormat {
    F32,
    I16,
    U16,
}

/// The signed sample of the level of the unsigned sample `s`.
pub open spec fn signed_of(s: u16) -> i16 {
    (s - U16_MIDPOINT) as i16
}

/// The unsigned sample of the level of the signed sample `s`.
pub open spec fn unsigned_of(s: i16) -> u16 {
    (s + U16_MIDPOINT) as u16
}

/// A run of unsigned samples as signed samples, one for one.
pub open spec fn to_signed(samples: Seq<u16>) -> Seq<i16> {
    Seq::new(samples.len(), |i: int| signed_of(samples[i]))
}

/// A run of signed samples as unsigned samples, one for one.
pub open spec fn to_unsigned(samples: Seq<i16>) -> Seq<u16> {
    Seq::new(samples.len(), |i: int| unsigned_of(samples[i]))
}

/// The two conversions undo each other.
pub proof fn lemma_signed_unsigned(s: i16, u: u16)
    ensures
        signed_of(unsigned_of(s)) == s,
        unsigned_of(signed_of(u)) == u,
        signed_of(u) as int == u - U16_MIDPOINT,
        unsigned_of(s) as int == s + U16_MIDPOINT,
{
}

/// The two conversions of runs of samples undo each other.
pub proof fn lemma_runs_convert_back(signed: Seq<i16>, unsigned: Seq<u16>)
    ensures
        to_signed(to_unsigned(signed)) == signed,
        to_unsigned(to_signed(unsigned)) == unsigned,
{
    assert(to_signed(to_unsigned(signed)) =~= signed);
    assert(to_unsigned(to_signed(unsigned)) =~= unsigned);
}

/// Converts an unsigned capture sample to a signed one.
pub fn sample_from_u16(s: u16) -> (r: i16)
    ensures
        r == signed_of(s),
        r as int == s - U16_MIDPOINT,
{
    (s as i32 - U16_MIDPOINT) as i16
}

/// Converts a signed sample to an unsigned playback sample.
pub fn sample_to_u16(s: i16) -> (r: u16)
    ensures
        r == unsigned_of(s),
        r as int == s + U16_MIDPOINT,
{
    (s as i32 + U16_MIDPOINT) as u16
}

/// Converts a run of unsigned capture samples, one for one.
pub fn samples_from_u16(data: &[u16]) -> (out: Vec<i16>)
    ensures
        out@ == to_signed(data@),
{
    let n: usize = data.len();
    let mut out: Vec<i16> = Vec::new();
    let mut i: usize = 0;
    while i < n
        invariant
            n == data.len(),
            i <= n,
            out@.len() == i,
            forall|k: int| 0 <= k < i ==> out@[k] == signed_of(data@[k]),
        decreases n - i,
    {
        out.push(sample_from_u16(data[i]));
        i = i + 1;
    }
    assert(out@ =~= to_signed(data@));
    out
}

} // verus!
