//! Buffering of 16-bit audio samples into fixed-size frames, and their
//! little-endian byte form.

use vstd::prelude::*;

verus! {

#[verifier::external_type_specification]
#[verifier::external_body]
pub struct ExBytes(bytes::Bytes);

/// The bytes a `bytes::Bytes` holds.
pub uninterp spec fn bytes_content(b: bytes::Bytes) -> Seq<u8>;

/// Relies on `From<Vec<u8>> for bytes::Bytes`: the buffer holds the vector's
/// bytes, in order.
#[verifier::external_body]
fn bytes_from_vec(v: Vec<u8>) -> (r: bytes::Bytes)
    ensures
        bytes_content(r) == v@,
{
    bytes::Bytes::from(v)
}

/// The low byte of a sample in two's complement.
pub open spec fn low_byte(x: i16) -> u8 {
    ((x as u16) % 256) as u8
}

/// The high byte of a sample in two's complement.
pub open spec fn high_byte(x: i16) -> u8 {
    ((x as u16) / 256) as u8
}

/// The sample whose little-endian bytes are `lo`, `hi`.
pub open spec fn sample_of(lo: u8, hi: u8) -> i16 {
    (lo as u16 + (hi as u16) * 256) as i16
}

/// The samples, two bytes each, low byte first.
pub open spec fn le_bytes(s: Seq<i16>) -> Seq<u8>
    decreases s.len(),
{
    if s.len() == 0 {
        seq![]
    } else {
        le_bytes(s.drop_last()) + seq![low_byte(s.last()), high_byte(s.last())]
    }
}

/// The samples read from consecutive byte pairs, low byte first; a last odd
/// byte is ignored.
pub open spec fn samples_of(b: Seq<u8>) -> Seq<i16> {
    Seq::new(b.len() / 2, |i: int| sample_of(b[2 * i], b[2 * i + 1]))
}

/// A sample is rebuilt from its two bytes.
pub proof fn lemma_sample_bytes(x: i16)
    ensures
        sample_of(low_byte(x), high_byte(x)) == x,
{
    assert(((((x as u16) % 256) as u8) as u16 + ((((x as u16) / 256) as u8) as u16) * 256) as i16
        == x) by (bit_vector);
}

/// The bytes of a sample sequence: two per sample, low byte first.
pub proof fn lemma_le_bytes_index(s: Seq<i16>)
    ensures
        le_bytes(s).len() == 2 * s.len(),
        forall|i: int|
            0 <= i < s.len() ==> le_bytes(s)[2 * i] == low_byte(#[trigger] s[i]) && le_bytes(
                s,
            )[2 * i + 1] == high_byte(s[i]),
    decreases s.len(),
{
    if s.len() > 0 {
        lemma_le_bytes_index(s.drop_last());
        assert forall|i: int| 0 <= i < s.len() implies le_bytes(s)[2 * i] == low_byte(
            #[trigger] s[i],
        ) && le_bytes(s)[2 * i + 1] == high_byte(s[i]) by {
            if i < s.len() - 1 {
                assert(s.drop_last()[i] == s[i]);
            }
        }
    }
}

/// Reading back the bytes of samples gives the same samples.
pub proof fn lemma_samples_round_trip(s: Seq<i16>)
    ensures
        samples_of(le_bytes(s)) == s,
{
    lemma_le_bytes_index(s);
    assert forall|i: int| 0 <= i < s.len() implies #[trigger] samples_of(le_bytes(s))[i] == s[i] by {
        lemma_sample_bytes(s[i]);
    }
    assert(samples_of(le_bytes(s)) =~= s);
}

/// Collects samples and hands them out in frames of a fixed size.
pub struct AudioProcessor {
    buffer: Vec<i16>,
    frame_size: usize,
}

impl AudioProcessor {
    /// The samples waiting, oldest first.
    pub closed spec fn buffered(&self) -> Seq<i16> {
        self.buffer@
    }

    /// The number of samples in a frame.
    pub closed spec fn frame_size_spec(&self) -> usize {
        self.frame_size
    }

    pub fn new(frame_size: usize) -> (r: Self)
        ensures
            r.buffered() == Seq::<i16>::empty(),
            r.frame_size_spec() == frame_size,
    {
        AudioProcessor { buffer: Vec::new(), frame_size }
    }

    /// Appends samples after those waiting.
    pub fn add_samples(&mut self, samples: &[i16])
        ensures
            final(self).buffered() == old(self).buffered() + samples@,
            final(self).frame_size_spec() == old(self).frame_size_spec(),
    {
        let ghost start = self.buffer@;
        let mut i: usize = 0;
        while i < samples.len()
            invariant
                i <= samples@.len(),
                self.buffer@ == start + samples@.subrange(0, i as int),
                self.frame_size == old(self).frame_size,
                start == old(self).buffer@,
            decreases samples@.len() - i,
        {
            self.buffer.push(samples[i]);
            i = i + 1;
            assert(self.buffer@ =~= start + samples@.subrange(0, i as int));
        }
        assert(samples@.subrange(0, samples@.len() as int) =~= samples@);
    }

    /// Takes the oldest frame out when enough samples wait.
    pub fn next_frame(&mut self) -> (r: Option<Vec<i16>>)
        ensures
            final(self).frame_size_spec() == old(self).frame_size_spec(),
            old(self).buffered().len() >= old(self).frame_size_spec() ==> (r matches Some(f)
                && f@ == old(self).buffered().take(old(self).frame_size_spec() as int)
                && final(self).buffered() == old(self).buffered().skip(
                old(self).frame_size_spec() as int,
            )),
            old(self).buffered().len() < old(self).frame_size_spec() ==> r is None
                && final(self).buffered() == old(self).buffered(),
    {
        if self.buffer.len() >= self.frame_size {
            let mut rest = self.buffer.split_off(self.frame_size);
            std::mem::swap(&mut self.buffer, &mut rest);
            Some(rest)
        } else {
            None
        }
    }

    /// Drops every waiting sample.
    pub fn clear(&mut self)
        ensures
            final(self).buffered() == Seq::<i16>::empty(),
            final(self).frame_size_spec() == old(self).frame_size_spec(),
    {
        self.buffer.clear();
    }

    /// The number of waiting samples.
    pub fn buffer_size(&self) -> (r: usize)
        ensures
            r == self.buffered().len(),
    {
        self.buffer.len()
    }

    /// The samples as bytes, two per sample, low byte first.
    pub fn samples_to_bytes(samples: &[i16]) -> (r: bytes::Bytes)
        ensures
            bytes_content(r) == le_bytes(samples@),
    {
        let mut out: Vec<u8> = Vec::new();
        let mut i: usize = 0;
        while i < samples.len()
            invariant
                i <= samples@.len(),
                out@ == le_bytes(samples@.subrange(0, i as int)),
            decreases samples@.len() - i,
        {
            let u = #[verifier::truncate] (samples[i] as u16);
            out.push((u % 256) as u8);
            out.push((u / 256) as u8);
            assert(samples@.subrange(0, i + 1).drop_last() =~= samples@.subrange(0, i as int));
            i = i + 1;
            assert(out@ =~= le_bytes(samples@.subrange(0, i as int)));
        }
        assert(samples@.subrange(0, samples@.len() as int) =~= samples@);
        bytes_from_vec(out)
    }

    /// The samples of consecutive byte pairs, low byte first; a last odd byte
    /// is ignored.
    pub fn bytes_to_samples(bytes: &[u8]) -> (r: Vec<i16>)
        ensures
            r@ == samples_of(bytes@),
    {
        let n = bytes.len() / 2;
        let mut out: Vec<i16> = Vec::new();
        let mut i: usize = 0;
        let mut j: usize = 0;
        while i < n
            invariant
                n == bytes@.len() / 2,
                i <= n,
                j == 2 * i,
                out@ == samples_of(bytes@).take(i as int),
            decreases n - i,
        {
            let lo = bytes[j];
            let hi = bytes[j + 1];
            out.push(#[verifier::truncate] ((lo as u16 + (hi as u16) * 256) as i16));
            i = i + 1;
            j = j + 2;
            assert(out@ =~= samples_of(bytes@).take(i as int));
        }
        assert(out@ =~= samples_of(bytes@));
        out
    }
}

/// The control server of the voice gateway; it holds no state yet.
pub struct VoiceGatewayServer {}

impl VoiceGatewayServer {
    pub fn new() -> (r: Self) {
        VoiceGatewayServer {  }
    }
}

} // verus!
