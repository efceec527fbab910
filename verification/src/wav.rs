//! The WAV/RIFF container for 16-bit integer PCM.
//!
//! `wav_bytes` states, byte for byte, what a finished file holds: a
//! 44-byte canonical header (RIFF chunk, 16-byte PCM format block,
//! data chunk header) followed by the samples, two little-endian bytes
//! each.  `WavEncoder` is the stream writer built on it: it
//! accumulates samples under a fixed `WavSpec` and renders the
//! complete container, with the header's size fields consistent with
//! the data length, when the recording is finalized.

use vstd::prelude::*;

verus! {

/// Greatest number of 16-bit samples one file can carry: the RIFF
/// chunk size field must fit in 32 bits.
pub const MAX_SAMPLES: u32 = 2147483629;

/// Shape of the output file: 16-bit integer PCM at this channel count
/// and sample rate.
#[derive(Clone, Copy, PartialEq, Eq, Structural, Debug)]
pub struct WavSpec {
    pub channels: u16,
    pub sample_rate: u32,
}

impl WavSpec {
    /// A spec the container can carry: at least one channel, a
    /// positive rate, a block align that fits in 16 bits and a byte
    /// rate that fits in 32.
    pub open spec fn wf(self) -> bool {
        &&& 1 <= self.channels <= 0x7FFF
        &&& 1 <= self.sample_rate
        &&& self.sample_rate * self.channels * 2 <= 0xFFFF_FFFF
    }

    pub fn is_wf(&self) -> (r: bool)
        ensures
            r == self.wf(),
    {
        proof {
            assert((self.sample_rate as int) * (self.channels as int) <= 0xFFFF_FFFF * 0xFFFF)
                by (nonlinear_arith)
                requires
                    self.sample_rate <= 0xFFFF_FFFF,
                    self.channels <= 0xFFFF,
            ;
        }
        self.channels >= 1 && self.channels <= 0x7FFF && self.sample_rate >= 1
            && (self.sample_rate as u64) * (self.channels as u64) * 2 <= 0xFFFF_FFFF
    }
}

/// The two bytes of a 16-bit word, least significant first.
pub open spec fn u16_le(x: u16) -> Seq<u8> {
    seq![(x & 0xFF) as u8, (x >> 8) as u8]
}

/// The four bytes of a 32-bit word, least significant first.
pub open spec fn u32_le(x: u32) -> Seq<u8> {
    seq![
        (x & 0xFF) as u8,
        ((x >> 8) & 0xFF) as u8,
        ((x >> 16) & 0xFF) as u8,
        ((x >> 24) & 0xFF) as u8,
    ]
}

/// A signed sample is stored as its two's-complement 16-bit word.
pub open spec fn i16_le(s: i16) -> Seq<u8> {
    u16_le(s as u16)
}

/// The data chunk payload: every sample in order, two bytes each.
pub open spec fn sample_data(samples: Seq<i16>) -> Seq<u8>
    decreases samples.len(),
{
    if samples.len() == 0 {
        Seq::empty()
    } else {
        sample_data(samples.drop_last()) + i16_le(samples.last())
    }
}

/// The 44-byte canonical header of a file holding `n` samples.
pub open spec fn wav_header(spec: WavSpec, n: nat) -> Seq<u8>
    recommends
        spec.wf(),
        n <= MAX_SAMPLES,
{
    seq![0x52u8, 0x49u8, 0x46u8, 0x46u8]  // "RIFF"
     + u32_le((36 + 2 * n) as u32)  // RIFF chunk size
     + seq![0x57u8, 0x41u8, 0x56u8, 0x45u8]  // "WAVE"
     + seq![0x66u8, 0x6Du8, 0x74u8, 0x20u8]  // "fmt "
     + u32_le(16)  // format block size
     + u16_le(1)  // PCM, integer samples
     + u16_le(spec.channels) + u32_le(spec.sample_rate) + u32_le(
        (spec.sample_rate * spec.channels * 2) as u32,
    )  // byte rate
     + u16_le((spec.channels * 2) as u16)  // block align
     + u16_le(16)  // bits per sample
     + seq![0x64u8, 0x61u8, 0x74u8, 0x61u8]  // "data"
     + u32_le((2 * n) as u32)  // data chunk size
}

/// The complete file: header, then the data chunk payload.
pub open spec fn wav_bytes(spec: WavSpec, samples: Seq<i16>) -> Seq<u8>
    recommends
        spec.wf(),
        samples.len() <= MAX_SAMPLES,
{
    wav_header(spec, samples.len()) + sample_data(samples)
}

/// The 16-bit word two little-endian bytes store.
pub open spec fn u16_from_le(b0: u8, b1: u8) -> u16 {
    (b0 as u16) | ((b1 as u16) << 8)
}

/// The 32-bit word four little-endian bytes store.
pub open spec fn u32_from_le(b0: u8, b1: u8, b2: u8, b3: u8) -> u32 {
    (b0 as u32) | ((b1 as u32) << 8) | ((b2 as u32) << 16) | ((b3 as u32) << 24)
}

/// The signed sample two little-endian bytes store.
pub open spec fn i16_from_le(b0: u8, b1: u8) -> i16 {
    u16_from_le(b0, b1) as i16
}

proof fn lemma_u16_le_inverse(x: u16)
    ensures
        u16_from_le((x & 0xFF) as u8, (x >> 8) as u8) == x,
{
    assert((((x & 0xFF) as u8) as u16) | ((((x >> 8) as u8) as u16) << 8) == x) by (bit_vector);
}

proof fn lemma_u32_le_inverse(x: u32)
    ensures
        u32_from_le(
            (x & 0xFF) as u8,
            ((x >> 8) & 0xFF) as u8,
            ((x >> 16) & 0xFF) as u8,
            ((x >> 24) & 0xFF) as u8,
        ) == x,
{
    assert((((x & 0xFF) as u8) as u32) | ((((x >> 8) & 0xFF) as u8) as u32) << 8 | ((((x >> 16)
        & 0xFF) as u8) as u32) << 16 | ((((x >> 24) & 0xFF) as u8) as u32) << 24 == x)
        by (bit_vector);
}

proof fn lemma_i16_le_inverse(s: i16)
    ensures
        i16_from_le(i16_le(s)[0], i16_le(s)[1]) == s,
{
    lemma_u16_le_inverse(s as u16);
    assert(((s as u16) as i16) == s) by (bit_vector);
}

proof fn lemma_sample_data_len(samples: Seq<i16>)
    ensures
        sample_data(samples).len() == 2 * samples.len(),
    decreases samples.len(),
{
    if samples.len() > 0 {
        lemma_sample_data_len(samples.drop_last());
    }
}

proof fn lemma_sample_data_index(samples: Seq<i16>, j: int)
    requires
        0 <= j < samples.len(),
    ensures
        sample_data(samples).len() == 2 * samples.len(),
        sample_data(samples)[2 * j] == i16_le(samples[j])[0],
        sample_data(samples)[2 * j + 1] == i16_le(samples[j])[1],
    decreases samples.len(),
{
    lemma_sample_data_len(samples);
    lemma_sample_data_len(samples.drop_last());
    if j == samples.len() - 1 {
        assert(samples.last() == samples[j]);
    } else {
        lemma_sample_data_index(samples.drop_last(), j);
        assert(samples.drop_last()[j] == samples[j]);
    }
}

/// Reading back a finished file recovers the recording: the header
/// reports the channel count, the sample rate, 16 bits per sample and
/// the exact data length, and the data chunk decodes, two bytes at a
/// time, to the appended samples in order.
pub proof fn lemma_wav_round_trip(spec: WavSpec, samples: Seq<i16>)
    requires
        spec.wf(),
        samples.len() <= MAX_SAMPLES,
    ensures
        ({
            let b = wav_bytes(spec, samples);
            &&& b.len() == 44 + 2 * samples.len()
            &&& u16_from_le(b[22], b[23]) == spec.channels
            &&& u32_from_le(b[24], b[25], b[26], b[27]) == spec.sample_rate
            &&& u16_from_le(b[34], b[35]) == 16
            &&& u32_from_le(b[40], b[41], b[42], b[43]) == 2 * samples.len()
            &&& forall|j: int|
                0 <= j < samples.len() ==> i16_from_le(b[44 + 2 * j], b[45 + 2 * j]) == samples[j]
        }),
{
    let b = wav_bytes(spec, samples);
    lemma_sample_data_len(samples);
    lemma_u16_le_inverse(spec.channels);
    lemma_u32_le_inverse(spec.sample_rate);
    lemma_u16_le_inverse(16);
    lemma_u32_le_inverse((2 * samples.len()) as u32);
    assert(u32_from_le(b[40], b[41], b[42], b[43]) == (2 * samples.len()) as u32);
    assert forall|j: int| 0 <= j < samples.len() implies i16_from_le(
        b[44 + 2 * j],
        b[45 + 2 * j],
    ) == samples[j] by {
        lemma_sample_data_index(samples, j);
        lemma_i16_le_inverse(samples[j]);
    }
}

fn push_u16_le(out: &mut Vec<u8>, x: u16)
    ensures
        final(out)@ == old(out)@ + u16_le(x),
{
    proof {
        assert(x & 0xFF < 256 && x >> 8 < 256) by (bit_vector);
    }
    out.push((x & 0xFF) as u8);
    out.push((x >> 8) as u8);
    proof {
        assert(out@ =~= old(out)@ + u16_le(x));
    }
}

fn push_u32_le(out: &mut Vec<u8>, x: u32)
    ensures
        final(out)@ == old(out)@ + u32_le(x),
{
    proof {
        assert(x & 0xFF < 256 && (x >> 8) & 0xFF < 256 && (x >> 16) & 0xFF < 256 && (x >> 24)
            & 0xFF < 256) by (bit_vector);
    }
    out.push((x & 0xFF) as u8);
    out.push(((x >> 8) & 0xFF) as u8);
    out.push(((x >> 16) & 0xFF) as u8);
    out.push(((x >> 24) & 0xFF) as u8);
    proof {
        assert(out@ =~= old(out)@ + u32_le(x));
    }
}

proof fn lemma_sample_data_step(samples: Seq<i16>, i: int)
    requires
        0 <= i < samples.len(),
    ensures
        sample_data(samples.take(i + 1)) == sample_data(samples.take(i)) + i16_le(samples[i]),
{
    let t = samples.take(i + 1);
    assert(t.drop_last() =~= samples.take(i));
    assert(t.last() == samples[i]);
}

/// The stream writer's verified core: samples accumulate under the
/// spec fixed at `open`; `finalize` renders the finished container.
/// Rendering reads the writer without mutating it, so a finished file
/// can never be corrupted by a later call; the recorder lifecycle
/// discards the writer on stop, which keeps any sample fed after that
/// out of the finalized recording.
pub struct WavEncoder {
    spec: WavSpec,
    samples: Vec<i16>,
}

impl WavEncoder {
    /// The spec fixed when the writer was opened.
    pub closed spec fn spec(self) -> WavSpec {
        self.spec
    }

    /// The samples appended so far, in order.
    pub closed spec fn samples(self) -> Seq<i16> {
        self.samples@
    }

    /// Every appended sample conforms to the spec written at creation,
    /// and the data chunk has room left in the size fields.
    pub open spec fn wf(self) -> bool {
        self.spec().wf() && self.samples().len() <= MAX_SAMPLES
    }

    /// Open a writer for a fresh recording under `spec`.
    pub fn open(spec: WavSpec) -> (r: Self)
        requires
            spec.wf(),
        ensures
            r.wf(),
            r.spec() == spec,
            r.samples() == Seq::<i16>::empty(),
    {
        WavEncoder { spec, samples: Vec::new() }
    }

    /// How many samples the data chunk holds so far.
    pub fn sample_count(&self) -> (r: usize)
        ensures
            r == self.samples().len(),
    {
        self.samples.len()
    }

    /// Append one 16-bit sample to the data chunk.
    pub fn append(&mut self, sample: i16)
        requires
            old(self).wf(),
            old(self).samples().len() < MAX_SAMPLES,
        ensures
            final(self).wf(),
            final(self).spec() == old(self).spec(),
            final(self).samples() == old(self).samples().push(sample),
    {
        self.samples.push(sample);
    }

    /// Render the finished file.  The header's two size fields are
    /// written from the total data length, so they are consistent with
    /// the samples that follow.
    pub fn finalize(&self) -> (r: Vec<u8>)
        requires
            self.wf(),
        ensures
            r@ == wav_bytes(self.spec(), self.samples()),
    {
        let n: u32 = self.samples.len() as u32;
        let data_len: u32 = 2 * n;
        let riff_len: u32 = 36 + data_len;
        proof {
            assert((self.spec.sample_rate as int) * (self.spec.channels as int) * 2 <= 0xFFFF_FFFF
                ==> (self.spec.sample_rate as int) * (self.spec.channels as int) <= 0x7FFF_FFFF);
        }
        let byte_rate: u32 = self.spec.sample_rate * (self.spec.channels as u32) * 2;
        let block_align: u16 = self.spec.channels * 2;
        let mut out: Vec<u8> = Vec::new();
        out.push(0x52);
        out.push(0x49);
        out.push(0x46);
        out.push(0x46);
        push_u32_le(&mut out, riff_len);
        out.push(0x57);
        out.push(0x41);
        out.push(0x56);
        out.push(0x45);
        out.push(0x66);
        out.push(0x6D);
        out.push(0x74);
        out.push(0x20);
        push_u32_le(&mut out, 16);
        push_u16_le(&mut out, 1);
        push_u16_le(&mut out, self.spec.channels);
        push_u32_le(&mut out, self.spec.sample_rate);
        push_u32_le(&mut out, byte_rate);
        push_u16_le(&mut out, block_align);
        push_u16_le(&mut out, 16);
        out.push(0x64);
        out.push(0x61);
        out.push(0x74);
        out.push(0x61);
        push_u32_le(&mut out, data_len);
        proof {
            assert(out@ =~= wav_header(self.spec(), self.samples().len()));
            assert(self.samples().take(0) =~= Seq::<i16>::empty());
        }
        let mut i: usize = 0;
        while i < self.samples.len()
            invariant
                self.wf(),
                i <= self.samples().len(),
                out@ == wav_header(self.spec(), self.samples().len()) + sample_data(
                    self.samples().take(i as int),
                ),
            decreases self.samples().len() - i,
        {
            let s: i16 = self.samples[i];
            proof {
                lemma_sample_data_step(self.samples(), i as int);
            }
            push_u16_le(&mut out, #[verifier::truncate] (s as u16));
            i = i + 1;
        }
        proof {
            assert(self.samples().take(self.samples().len() as int) =~= self.samples());
        }
        out
    }
}

} // verus!
