//! Wire codec of an audio frame: a 16-bit sequence number followed by 16-bit
//! signed PCM samples, all little-endian. The datagram boundary delimits the
//! frame, so there is no length field.

use vstd::prelude::*;

verus! {

/// Largest datagram the transport reads, in bytes.
pub const MAX_DATAGRAM: usize = 4096;

/// Number of samples in a data frame: 20 ms at 48 kHz mono.
pub const FRAME_SAMPLES: usize = 960;

/// Sequence number reserved for the ping / keepalive frame.
pub const PING_SEQ: u16 = 0;

/// One frame: a sequence number and its samples.
#[derive(Debug, Clone)]
pub struct AudioPacket {
    pub seq: u16,
    pub samples: Vec<i16>,
}

/// Mathematical value of a frame.
pub struct PacketView {
    pub seq: u16,
    pub samples: Seq<i16>,
}

impl View for AudioPacket {
    type V = PacketView;

    open spec fn view(&self) -> PacketView {
        PacketView { seq: self.seq, samples: self.samples@ }
    }
}

/// The 16-bit word that carries sample `s` in two's complement.
pub open spec fn sample_word(s: i16) -> int {
    if s >= 0 {
        s as int
    } else {
        s + 0x1_0000
    }
}

/// The sample that the 16-bit word `w` carries in two's complement.
pub open spec fn word_sample(w: int) -> i16 {
    if w >= 0x8000 {
        (w - 0x1_0000) as i16
    } else {
        w as i16
    }
}

/// Low byte of a 16-bit word.
pub open spec fn low_byte(w: int) -> u8 {
    (w % 256) as u8
}

/// High byte of a 16-bit word.
pub open spec fn high_byte(w: int) -> u8 {
    (w / 256) as u8
}

/// The 16-bit word whose little-endian bytes are `lo`, `hi`.
pub open spec fn le_word(lo: u8, hi: u8) -> int {
    lo + 256 * hi
}

/// Byte `i` of the wire form of the frame `(seq, samples)`.
pub open spec fn wire_byte(seq: u16, samples: Seq<i16>, i: int) -> u8 {
    if i == 0 {
        low_byte(seq as int)
    } else if i == 1 {
        high_byte(seq as int)
    } else if i % 2 == 0 {
        low_byte(sample_word(samples[(i - 2) / 2]))
    } else {
        high_byte(sample_word(samples[(i - 2) / 2]))
    }
}

/// Wire form of a frame: `seq` as two little-endian bytes, then each sample
/// as two little-endian bytes.
pub open spec fn wire_bytes(p: PacketView) -> Seq<u8> {
    Seq::new((2 + 2 * p.samples.len()) as nat, |i: int| wire_byte(p.seq, p.samples, i))
}

/// Sample `i` of the payload of a datagram.
pub open spec fn payload_sample(bytes: Seq<u8>, i: int) -> i16 {
    word_sample(le_word(bytes[2 + 2 * i], bytes[3 + 2 * i]))
}

/// The frame a datagram holds. A datagram shorter than two bytes holds none;
/// a trailing byte that does not complete a sample is not part of the frame.
pub open spec fn parse_wire(bytes: Seq<u8>) -> Option<PacketView> {
    if bytes.len() < 2 {
        None
    } else {
        Some(
            PacketView {
                seq: le_word(bytes[0], bytes[1]) as u16,
                samples: Seq::new(
                    ((bytes.len() - 2) / 2) as nat,
                    |i: int| payload_sample(bytes, i),
                ),
            },
        )
    }
}

/// A 16-bit word is rebuilt from its two bytes.
pub proof fn lemma_word_bytes(w: int)
    requires
        0 <= w < 0x1_0000,
    ensures
        le_word(low_byte(w), high_byte(w)) == w,
{
}

/// A sample is rebuilt from the word that carries it.
pub proof fn lemma_sample_word(s: i16)
    ensures
        0 <= sample_word(s) < 0x1_0000,
        word_sample(sample_word(s)) == s,
{
}

/// Wire size of a frame: two bytes of sequence number and two per sample.
pub proof fn lemma_wire_len(p: PacketView)
    ensures
        wire_bytes(p).len() == 2 + 2 * p.samples.len(),
        p.samples.len() <= 2047 ==> wire_bytes(p).len() <= MAX_DATAGRAM,
        p.samples.len() == FRAME_SAMPLES ==> wire_bytes(p).len() == 1922,
{
}

/// Round trip: reading the wire form of a frame gives the frame back,
/// whatever its sequence number and however many samples it has.
pub proof fn lemma_round_trip(p: PacketView)
    ensures
        parse_wire(wire_bytes(p)) == Some(p),
{
    let bytes = wire_bytes(p);
    let q = parse_wire(bytes)->0;
    lemma_word_bytes(p.seq as int);
    assert(q.samples.len() == p.samples.len());
    assert forall|i: int| 0 <= i < p.samples.len() implies q.samples[i] == p.samples[i] by {
        let w = sample_word(p.samples[i]);
        lemma_sample_word(p.samples[i]);
        lemma_word_bytes(w);
        assert(bytes[2 + 2 * i] == low_byte(w));
        assert(bytes[3 + 2 * i] == high_byte(w));
    }
    assert(q.samples =~= p.samples);
}

/// Truncation: a datagram of odd length, three bytes or more, holds the frame
/// of its whole two-byte chunks; the last byte is not read.
pub proof fn lemma_odd_tail_ignored(bytes: Seq<u8>)
    requires
        bytes.len() >= 3,
        bytes.len() % 2 == 1,
    ensures
        parse_wire(bytes) == parse_wire(bytes.drop_last()),
        parse_wire(bytes)->0.samples.len() == (bytes.len() - 3) / 2,
        forall|i: int|
            0 <= i < (bytes.len() - 3) / 2 ==> parse_wire(bytes)->0.samples[i] == word_sample(
                le_word(bytes[2 + 2 * i], bytes[3 + 2 * i]),
            ),
{
    let a = parse_wire(bytes)->0;
    let b = parse_wire(bytes.drop_last())->0;
    assert(a.samples =~= b.samples);
}

/// Rejection: a datagram of length 0 or 1 holds no frame, and every longer
/// one holds a frame.
pub proof fn lemma_short_rejected(bytes: Seq<u8>)
    ensures
        parse_wire(bytes) is None <==> bytes.len() < 2,
{
}

/// The ping frame is the two zero bytes.
pub proof fn lemma_ping_wire()
    ensures
        wire_bytes(PacketView { seq: PING_SEQ, samples: Seq::empty() }) == seq![0u8, 0u8],
{
    assert(wire_bytes(PacketView { seq: PING_SEQ, samples: Seq::empty() }) =~= seq![0u8, 0u8]);
}

/// Whether `p` is a ping: the reserved sequence number and no sample.
pub open spec fn is_ping(p: PacketView) -> bool {
    p.seq == PING_SEQ && p.samples.len() == 0
}

/// Whether `p` is a data frame: a sequence number other than the ping's
/// and exactly `FRAME_SAMPLES` samples.
pub open spec fn is_data_frame(p: PacketView) -> bool {
    p.seq != PING_SEQ && p.samples.len() == FRAME_SAMPLES
}

/// Appends the little-endian bytes of the 16-bit word `w` to `buf`.
fn push_word(buf: &mut Vec<u8>, w: u32)
    requires
        w < 0x1_0000,
    ensures
        final(buf)@ == old(buf)@.push(low_byte(w as int)).push(high_byte(w as int)),
{
    buf.push((w % 256) as u8);
    buf.push((w / 256) as u8);
}

/// The 16-bit word of a sample, computed without a truncating cast.
fn sample_to_word(s: i16) -> (w: u32)
    ensures
        w == sample_word(s),
        w < 0x1_0000,
{
    let wide: i32 = s as i32;
    if wide >= 0 {
        wide as u32
    } else {
        (wide + 0x1_0000) as u32
    }
}

/// The sample of a 16-bit word given by its two bytes.
fn sample_from_bytes(lo: u8, hi: u8) -> (s: i16)
    ensures
        s == word_sample(le_word(lo, hi)),
{
    let w: i32 = lo as i32 + 256 * (hi as i32);
    if w >= 0x8000 {
        (w - 0x1_0000) as i16
    } else {
        w as i16
    }
}

/// Room to set aside for the wire form of a frame of `samples` samples: its
/// wire size, or nothing where that is more than an allocation can hold.
fn wire_capacity(samples: usize) -> (bytes: usize)
    ensures
        bytes == reserved_bytes(samples as nat),
        bytes <= isize::MAX,
{
    if samples <= (isize::MAX as usize - 2) / 2 {
        2 + 2 * samples
    } else {
        0
    }
}

/// Wire size of a frame of `samples` samples, in bytes.
pub open spec fn wire_size(samples: nat) -> nat {
    2 + 2 * samples
}

/// Room to set aside for the wire form of a frame of `samples` samples: its
/// wire size, or nothing where that is more than an allocation can hold.
pub open spec fn reserved_bytes(samples: nat) -> nat {
    if wire_size(samples) <= isize::MAX {
        wire_size(samples)
    } else {
        0
    }
}

impl AudioPacket {
    /// Writes the frame in wire form.
    pub fn serialize(&self) -> (buf: Vec<u8>)
        ensures
            buf@ == wire_bytes(self@),
    {
        let n: usize = self.samples.len();
        let mut buf: Vec<u8> = Vec::with_capacity(wire_capacity(n));
        push_word(&mut buf, self.seq as u32);
        let mut i: usize = 0;
        while i < n
            invariant
                n == self.samples.len(),
                i <= n,
                buf@.len() == 2 + 2 * i,
                forall|k: int| 0 <= k < buf@.len() ==> buf@[k] == wire_byte(self.seq, self.samples@, k),
            decreases n - i,
        {
            let w: u32 = sample_to_word(self.samples[i]);
            push_word(&mut buf, w);
            i = i + 1;
        }
        assert(buf@ =~= wire_bytes(self@));
        buf
    }

    /// Reads a frame from a datagram: `None` exactly when the datagram is
    /// shorter than two bytes.
    pub fn deserialize(data: &[u8]) -> (result: Option<AudioPacket>)
        ensures
            match result {
                Some(p) => parse_wire(data@) == Some(p@),
                None => parse_wire(data@) is None,
            },
    {
        if data.len() < 2 {
            return None;
        }
        let seq: u16 = (data[0] as u16) + 256 * (data[1] as u16);
        let count: usize = (data.len() - 2) / 2;
        let mut samples: Vec<i16> = Vec::new();
        let mut i: usize = 0;
        while i < count
            invariant
                data@.len() >= 2,
                count == (data@.len() - 2) / 2,
                2 + 2 * count <= data.len(),
                i <= count,
                samples@.len() == i,
                forall|k: int| 0 <= k < i ==> samples@[k] == payload_sample(data@, k),
            decreases count - i,
        {
            samples.push(sample_from_bytes(data[2 + 2 * i], data[3 + 2 * i]));
            i = i + 1;
        }
        let p = AudioPacket { seq, samples };
        assert(p@.samples =~= parse_wire(data@)->0.samples);
        Some(p)
    }
}

} // verus!
