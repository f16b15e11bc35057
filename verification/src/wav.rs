//! PCM WAV encoding: the derived header specification, per-format sample
//! encoding, and an in-memory writer that accumulates encoded samples and
//! finalizes them into a complete WAV byte image.
//!
//! The container layout is the classic 44-byte RIFF/WAVE header with a
//! 16-byte `fmt ` chunk (format tag 1 for integer PCM, 3 for IEEE float),
//! followed by the raw little-endian sample data. Eight-bit samples are
//! stored offset-biased (unsigned), as the WAV format requires.

use vstd::arithmetic::div_mod::lemma_mod_multiples_vanish;
use vstd::prelude::*;

use crate::device::{SampleFormat, StreamConfig};

verus! {

/// The header's sample-format tag: integer PCM or IEEE float.
#[derive(Clone, Copy, Debug, PartialEq, Eq, Structural)]
pub enum SampleKind {
    Integer,
    Float,
}

/// Everything the WAV header is built from: channel count, sample rate,
/// bits per sample, and the integer/float tag. Derived deterministically
/// from the negotiated `StreamConfig`.
#[derive(Clone, Copy, Debug, PartialEq, Eq, Structural)]
pub struct WavSpec {
    pub channels: u16,
    pub sample_rate: u32,
    pub bits_per_sample: u16,
    pub sample_kind: SampleKind,
}

/// Little-endian bytes of a 16-bit value.
pub open spec fn u16_le_bytes(n: u16) -> Seq<u8> {
    seq![(n % 256) as u8, (n / 256) as u8]
}

/// Little-endian bytes of a 32-bit value.
pub open spec fn u32_le_bytes(n: u32) -> Seq<u8> {
    seq![
        (n % 256) as u8,
        ((n / 256) % 256) as u8,
        ((n / 65536) % 256) as u8,
        ((n / 16777216) % 256) as u8,
    ]
}

/// An 8-bit sample as stored in a WAV file: offset-biased to unsigned.
pub open spec fn to_biased_u8(s: i8) -> u8 {
    (s + 128) as u8
}

/// The two's-complement 16-bit pattern of a signed sample.
pub open spec fn to_u16_twos(s: i16) -> u16 {
    if s >= 0 {
        s as u16
    } else {
        (s + 0x10000) as u16
    }
}

/// The two's-complement 32-bit pattern of a signed sample.
pub open spec fn to_u32_twos(s: i32) -> u32 {
    if s >= 0 {
        s as u32
    } else {
        (s + 0x1_0000_0000) as u32
    }
}

/// Stored bytes of one 8-bit integer sample.
pub open spec fn encode_int8(s: i8) -> Seq<u8> {
    seq![to_biased_u8(s)]
}

/// Stored bytes of one 16-bit integer sample.
pub open spec fn encode_int16(s: i16) -> Seq<u8> {
    u16_le_bytes(to_u16_twos(s))
}

/// Stored bytes of one 32-bit integer sample.
pub open spec fn encode_int32(s: i32) -> Seq<u8> {
    u32_le_bytes(to_u32_twos(s))
}

/// Stored bytes of one 32-bit float sample, given as its IEEE 754 bit pattern.
pub open spec fn encode_float32(bits: u32) -> Seq<u8> {
    u32_le_bytes(bits)
}

/// Stored bytes of a sequence of 8-bit integer samples.
pub open spec fn int8_data(s: Seq<i8>) -> Seq<u8>
    decreases s.len(),
{
    if s.len() == 0 {
        Seq::empty()
    } else {
        int8_data(s.drop_last()) + encode_int8(s.last())
    }
}

/// Stored bytes of a sequence of 16-bit integer samples.
pub open spec fn int16_data(s: Seq<i16>) -> Seq<u8>
    decreases s.len(),
{
    if s.len() == 0 {
        Seq::empty()
    } else {
        int16_data(s.drop_last()) + encode_int16(s.last())
    }
}

/// Stored bytes of a sequence of 32-bit integer samples.
pub open spec fn int32_data(s: Seq<i32>) -> Seq<u8>
    decreases s.len(),
{
    if s.len() == 0 {
        Seq::empty()
    } else {
        int32_data(s.drop_last()) + encode_int32(s.last())
    }
}

/// Stored bytes of a sequence of 32-bit float samples (bit patterns).
pub open spec fn float32_data(s: Seq<u32>) -> Seq<u8>
    decreases s.len(),
{
    if s.len() == 0 {
        Seq::empty()
    } else {
        float32_data(s.drop_last()) + encode_float32(s.last())
    }
}

pub proof fn lemma_int8_data_len(s: Seq<i8>)
    ensures
        int8_data(s).len() == s.len(),
    decreases s.len(),
{
    if s.len() > 0 {
        lemma_int8_data_len(s.drop_last());
    }
}

pub proof fn lemma_int16_data_len(s: Seq<i16>)
    ensures
        int16_data(s).len() == 2 * s.len(),
    decreases s.len(),
{
    if s.len() > 0 {
        lemma_int16_data_len(s.drop_last());
    }
}

pub proof fn lemma_int32_data_len(s: Seq<i32>)
    ensures
        int32_data(s).len() == 4 * s.len(),
    decreases s.len(),
{
    if s.len() > 0 {
        lemma_int32_data_len(s.drop_last());
    }
}

pub proof fn lemma_float32_data_len(s: Seq<u32>)
    ensures
        float32_data(s).len() == 4 * s.len(),
    decreases s.len(),
{
    if s.len() > 0 {
        lemma_float32_data_len(s.drop_last());
    }
}

/// One buffer of captured samples, tagged by format. Float samples are
/// carried as their IEEE 754 bit patterns; for the matched source/target
/// pairs the encoder performs, this loses nothing.
pub enum SampleBuffer {
    Int8(Vec<i8>),
    Int16(Vec<i16>),
    Int32(Vec<i32>),
    Float32(Vec<u32>),
}

impl SampleBuffer {
    /// The sample format this buffer carries.
    pub open spec fn spec_format(self) -> SampleFormat {
        match self {
            SampleBuffer::Int8(_) => SampleFormat::Int8,
            SampleBuffer::Int16(_) => SampleFormat::Int16,
            SampleBuffer::Int32(_) => SampleFormat::Int32,
            SampleBuffer::Float32(_) => SampleFormat::Float32,
        }
    }

    /// Number of samples in the buffer.
    pub open spec fn spec_len(self) -> nat {
        match self {
            SampleBuffer::Int8(v) => v@.len(),
            SampleBuffer::Int16(v) => v@.len(),
            SampleBuffer::Int32(v) => v@.len(),
            SampleBuffer::Float32(v) => v@.len(),
        }
    }

    /// The exact bytes this buffer contributes to the data chunk.
    pub open spec fn spec_data(self) -> Seq<u8> {
        match self {
            SampleBuffer::Int8(v) => int8_data(v@),
            SampleBuffer::Int16(v) => int16_data(v@),
            SampleBuffer::Int32(v) => int32_data(v@),
            SampleBuffer::Float32(v) => float32_data(v@),
        }
    }

    pub fn format(&self) -> (r: SampleFormat)
        ensures
            r == self.spec_format(),
    {
        match self {
            SampleBuffer::Int8(_) => SampleFormat::Int8,
            SampleBuffer::Int16(_) => SampleFormat::Int16,
            SampleBuffer::Int32(_) => SampleFormat::Int32,
            SampleBuffer::Float32(_) => SampleFormat::Float32,
        }
    }

    pub fn len(&self) -> (n: usize)
        ensures
            n == self.spec_len(),
    {
        match self {
            SampleBuffer::Int8(v) => v.len(),
            SampleBuffer::Int16(v) => v.len(),
            SampleBuffer::Int32(v) => v.len(),
            SampleBuffer::Float32(v) => v.len(),
        }
    }

    /// The data bytes are exactly sample count times sample size.
    pub proof fn lemma_data_len(&self)
        ensures
            self.spec_data().len() == self.spec_len() * self.spec_format().spec_sample_size(),
    {
        match self {
            SampleBuffer::Int8(v) => {
                lemma_int8_data_len(v@);
                assert(self.spec_format().spec_sample_size() == 1);
                assert(self.spec_data().len() == self.spec_len() * self.spec_format().spec_sample_size());
            },
            SampleBuffer::Int16(v) => {
                lemma_int16_data_len(v@);
                assert(self.spec_format().spec_sample_size() == 2);
                assert(self.spec_data().len() == self.spec_len() * self.spec_format().spec_sample_size());
            },
            SampleBuffer::Int32(v) => {
                lemma_int32_data_len(v@);
                assert(self.spec_format().spec_sample_size() == 4);
                assert(self.spec_data().len() == self.spec_len() * self.spec_format().spec_sample_size());
            },
            SampleBuffer::Float32(v) => {
                lemma_float32_data_len(v@);
                assert(self.spec_format().spec_sample_size() == 4);
                assert(self.spec_data().len() == self.spec_len() * self.spec_format().spec_sample_size());
            },
        }
    }
}

fn extend_int8(data: &mut Vec<u8>, samples: &Vec<i8>)
    ensures
        final(data)@ == old(data)@ + int8_data(samples@),
{
    let n = samples.len();
    let mut i: usize = 0;
    while i < n
        invariant
            n == samples@.len(),
            0 <= i <= n,
            data@ == old(data)@ + int8_data(samples@.take(i as int)),
        decreases n - i,
    {
        let s = samples[i];
        let b: u8 = ((s as i16) + 128) as u8;
        data.push(b);
        proof {
            assert(samples@.take(i + 1 as int).drop_last() =~= samples@.take(i as int));
            assert(data@ =~= old(data)@ + int8_data(samples@.take(i + 1 as int)));
        }
        i += 1;
    }
    proof {
        assert(samples@.take(n as int) =~= samples@);
    }
}

fn push_u16_le(data: &mut Vec<u8>, n: u16)
    ensures
        final(data)@ == old(data)@ + u16_le_bytes(n),
{
    data.push((n % 256) as u8);
    data.push((n / 256) as u8);
    proof {
        assert(data@ =~= old(data)@ + u16_le_bytes(n));
    }
}

fn push_u32_le(data: &mut Vec<u8>, n: u32)
    ensures
        final(data)@ == old(data)@ + u32_le_bytes(n),
{
    data.push((n % 256) as u8);
    data.push(((n / 256) % 256) as u8);
    data.push(((n / 65536) % 256) as u8);
    data.push(((n / 16777216) % 256) as u8);
    proof {
        assert(data@ =~= old(data)@ + u32_le_bytes(n));
    }
}

fn extend_int16(data: &mut Vec<u8>, samples: &Vec<i16>)
    ensures
        final(data)@ == old(data)@ + int16_data(samples@),
{
    let n = samples.len();
    let mut i: usize = 0;
    while i < n
        invariant
            n == samples@.len(),
            0 <= i <= n,
            data@ == old(data)@ + int16_data(samples@.take(i as int)),
        decreases n - i,
    {
        let s = samples[i];
        let u: u16 = if s >= 0 {
            s as u16
        } else {
            ((s as i32) + 0x10000) as u16
        };
        assert(u == to_u16_twos(s));
        push_u16_le(data, u);
        proof {
            assert(samples@.take(i + 1 as int).drop_last() =~= samples@.take(i as int));
            assert(data@ =~= old(data)@ + int16_data(samples@.take(i + 1 as int)));
        }
        i += 1;
    }
    proof {
        assert(samples@.take(n as int) =~= samples@);
    }
}

fn extend_int32(data: &mut Vec<u8>, samples: &Vec<i32>)
    ensures
        final(data)@ == old(data)@ + int32_data(samples@),
{
    let n = samples.len();
    let mut i: usize = 0;
    while i < n
        invariant
            n == samples@.len(),
            0 <= i <= n,
            data@ == old(data)@ + int32_data(samples@.take(i as int)),
        decreases n - i,
    {
        let s = samples[i];
        let u: u32 = if s >= 0 {
            s as u32
        } else {
            ((s as i64) + 0x1_0000_0000) as u32
        };
        assert(u == to_u32_twos(s));
        push_u32_le(data, u);
        proof {
            assert(samples@.take(i + 1 as int).drop_last() =~= samples@.take(i as int));
            assert(data@ =~= old(data)@ + int32_data(samples@.take(i + 1 as int)));
        }
        i += 1;
    }
    proof {
        assert(samples@.take(n as int) =~= samples@);
    }
}

fn extend_float32(data: &mut Vec<u8>, samples: &Vec<u32>)
    ensures
        final(data)@ == old(data)@ + float32_data(samples@),
{
    let n = samples.len();
    let mut i: usize = 0;
    while i < n
        invariant
            n == samples@.len(),
            0 <= i <= n,
            data@ == old(data)@ + float32_data(samples@.take(i as int)),
        decreases n - i,
    {
        let bits = samples[i];
        push_u32_le(data, bits);
        proof {
            assert(samples@.take(i + 1 as int).drop_last() =~= samples@.take(i as int));
            assert(data@ =~= old(data)@ + float32_data(samples@.take(i + 1 as int)));
        }
        i += 1;
    }
    proof {
        assert(samples@.take(n as int) =~= samples@);
    }
}

/// The sample encoder's dispatch table: each supported format is encoded by
/// its matched encoder; conversion is exact for these matched pairs.
pub fn encode_samples(buf: &SampleBuffer) -> (r: Vec<u8>)
    ensures
        r@ == buf.spec_data(),
{
    let mut out: Vec<u8> = Vec::new();
    match buf {
        SampleBuffer::Int8(v) => extend_int8(&mut out, v),
        SampleBuffer::Int16(v) => extend_int16(&mut out, v),
        SampleBuffer::Int32(v) => extend_int32(&mut out, v),
        SampleBuffer::Float32(v) => extend_float32(&mut out, v),
    }
    proof {
        assert(out@ =~= buf.spec_data());
    }
    out
}

impl WavSpec {
    /// A header this writer can emit: positive channel count and rate, a
    /// recognised sample width, float only at 32 bits, and frame size and
    /// byte rate that fit their 16- and 32-bit header fields.
    pub open spec fn valid(self) -> bool {
        &&& 1 <= self.channels
        &&& 1 <= self.sample_rate
        &&& (self.bits_per_sample == 8 || self.bits_per_sample == 16 || self.bits_per_sample
            == 32)
        &&& (self.sample_kind is Float ==> self.bits_per_sample == 32)
        &&& self.spec_block_align_int() <= u16::MAX
        &&& self.sample_rate * self.spec_block_align_int() <= u32::MAX
    }

    /// Bytes per single sample.
    pub open spec fn spec_bytes_per_sample(self) -> int {
        self.bits_per_sample as int / 8
    }

    /// Bytes per frame (one sample for each channel), unbounded.
    pub open spec fn spec_block_align_int(self) -> int {
        self.channels * self.spec_bytes_per_sample()
    }

    /// Bytes per frame as stored in the header.
    pub open spec fn spec_block_align(self) -> u16 {
        self.spec_block_align_int() as u16
    }

    /// Bytes per second as stored in the header.
    pub open spec fn spec_byte_rate(self) -> u32 {
        (self.sample_rate * self.spec_block_align_int()) as u32
    }

    /// The header's format tag: 1 for integer PCM, 3 for IEEE float.
    pub open spec fn spec_format_tag(self) -> u16 {
        if self.sample_kind is Float {
            3
        } else {
            1
        }
    }

    /// The one capture format whose samples belong in a file with this header.
    pub open spec fn spec_expected_format(self) -> SampleFormat {
        match self.sample_kind {
            SampleKind::Integer => {
                if self.bits_per_sample == 8 {
                    SampleFormat::Int8
                } else if self.bits_per_sample == 16 {
                    SampleFormat::Int16
                } else if self.bits_per_sample == 32 {
                    SampleFormat::Int32
                } else {
                    SampleFormat::Unsupported
                }
            },
            SampleKind::Float => {
                if self.bits_per_sample == 32 {
                    SampleFormat::Float32
                } else {
                    SampleFormat::Unsupported
                }
            },
        }
    }

    pub fn expected_format(&self) -> (r: SampleFormat)
        ensures
            r == self.spec_expected_format(),
    {
        match self.sample_kind {
            SampleKind::Integer => {
                if self.bits_per_sample == 8 {
                    SampleFormat::Int8
                } else if self.bits_per_sample == 16 {
                    SampleFormat::Int16
                } else if self.bits_per_sample == 32 {
                    SampleFormat::Int32
                } else {
                    SampleFormat::Unsupported
                }
            },
            SampleKind::Float => {
                if self.bits_per_sample == 32 {
                    SampleFormat::Float32
                } else {
                    SampleFormat::Unsupported
                }
            },
        }
    }

    /// For a valid header the expected format's sample size is the header's
    /// sample width in bytes.
    pub proof fn lemma_expected_sample_size(self)
        requires
            self.valid(),
        ensures
            self.spec_expected_format().spec_sample_size() == self.spec_bytes_per_sample(),
            self.spec_expected_format().spec_is_supported(),
    {
    }
}

/// The header's integer/float tag for a capture sample format: float maps
/// to `Float`, every integer format to `Integer`.
pub open spec fn spec_sample_kind(format: SampleFormat) -> SampleKind {
    if format.spec_is_float() {
        SampleKind::Float
    } else {
        SampleKind::Integer
    }
}

pub fn sample_format(format: SampleFormat) -> (r: SampleKind)
    ensures
        r == spec_sample_kind(format),
{
    if format.is_float() {
        SampleKind::Float
    } else {
        SampleKind::Integer
    }
}

/// The WAV header spec a stream configuration determines: same channel
/// count and rate, sample width in bits (sample size times eight), and the
/// integer/float tag of the sample format.
pub open spec fn spec_wav_spec(c: StreamConfig) -> WavSpec {
    WavSpec {
        channels: c.channels,
        sample_rate: c.sample_rate,
        bits_per_sample: (c.sample_format.spec_sample_size() * 8) as u16,
        sample_kind: spec_sample_kind(c.sample_format),
    }
}

pub fn wav_spec_from_config(config: &StreamConfig) -> (r: WavSpec)
    ensures
        r == spec_wav_spec(*config),
{
    let bits: u16 = (config.sample_format.sample_size() * 8) as u16;
    WavSpec {
        channels: config.channels,
        sample_rate: config.sample_rate,
        bits_per_sample: bits,
        sample_kind: sample_format(config.sample_format),
    }
}

/// A usable configuration in a supported format derives a valid WAV spec,
/// and that spec expects exactly the configuration's sample format.
pub proof fn lemma_derived_spec_valid(c: StreamConfig)
    requires
        c.spec_usable(),
        c.sample_format.spec_is_supported(),
    ensures
        spec_wav_spec(c).valid(),
        spec_wav_spec(c).spec_expected_format() == c.sample_format,
{
    let s = spec_wav_spec(c);
    let sz = c.sample_format.spec_sample_size() as int;
    assert(s.spec_bytes_per_sample() == sz);
    assert(c.sample_rate * c.channels * sz == c.sample_rate * (c.channels * sz))
        by (nonlinear_arith);
}

/// The 44-byte RIFF/WAVE header for spec `s` over `data_len` bytes of
/// sample data.
pub open spec fn header_bytes(s: WavSpec, data_len: u32) -> Seq<u8> {
    seq![82u8, 73u8, 70u8, 70u8]  // "RIFF"
     + u32_le_bytes((36 + data_len) as u32) + seq![87u8, 65u8, 86u8, 69u8]  // "WAVE"
     + seq![102u8, 109u8, 116u8, 32u8]  // "fmt "
     + u32_le_bytes(16u32) + u16_le_bytes(s.spec_format_tag()) + u16_le_bytes(s.channels)
        + u32_le_bytes(s.sample_rate) + u32_le_bytes(s.spec_byte_rate()) + u16_le_bytes(
        s.spec_block_align(),
    ) + u16_le_bytes(s.bits_per_sample) + seq![100u8, 97u8, 116u8, 97u8]  // "data"
     + u32_le_bytes(data_len)
}

/// The complete finalized file image: header, then sample data.
pub open spec fn wav_bytes(s: WavSpec, data: Seq<u8>) -> Seq<u8> {
    header_bytes(s, data.len() as u32) + data
}

fn push_byte4(data: &mut Vec<u8>, a: u8, b: u8, c: u8, d: u8)
    ensures
        final(data)@ == old(data)@ + seq![a, b, c, d],
{
    data.push(a);
    data.push(b);
    data.push(c);
    data.push(d);
    proof {
        assert(data@ =~= old(data)@ + seq![a, b, c, d]);
    }
}

fn build_header(s: &WavSpec, data_len: u32) -> (r: Vec<u8>)
    requires
        s.valid(),
        data_len <= u32::MAX - 36,
    ensures
        r@ == header_bytes(*s, data_len),
{
    let mut v: Vec<u8> = Vec::new();
    push_byte4(&mut v, 82, 73, 70, 70);
    push_u32_le(&mut v, 36 + data_len);
    push_byte4(&mut v, 87, 65, 86, 69);
    push_byte4(&mut v, 102, 109, 116, 32);
    push_u32_le(&mut v, 16);
    let tag: u16 = match s.sample_kind {
        SampleKind::Float => 3,
        SampleKind::Integer => 1,
    };
    push_u16_le(&mut v, tag);
    push_u16_le(&mut v, s.channels);
    push_u32_le(&mut v, s.sample_rate);
    let block: u16 = s.channels * (s.bits_per_sample / 8);
    assert(block == s.spec_block_align());
    let byte_rate: u32 = s.sample_rate * (block as u32);
    assert(byte_rate == s.spec_byte_rate());
    push_u32_le(&mut v, byte_rate);
    push_u16_le(&mut v, block);
    push_u16_le(&mut v, s.bits_per_sample);
    push_byte4(&mut v, 100, 97, 116, 97);
    push_u32_le(&mut v, data_len);
    proof {
        assert(v@ == header_bytes(*s, data_len));
    }
    v
}

/// The in-memory WAV writer: it accumulates the encoded data chunk for a
/// fixed header spec and finalizes into a complete file image. The
/// underlying file itself is written by the unverified edge from the bytes
/// `finalize` returns.
pub struct WavBuffer {
    pub wav_spec: WavSpec,
    pub data: Vec<u8>,
}

impl WavBuffer {
    /// Well-formed writer state: a valid header spec, whole samples only,
    /// and a total file size that still fits the header's 32-bit fields.
    pub open spec fn wf(self) -> bool {
        &&& self.wav_spec.valid()
        &&& self.data@.len() as int % self.wav_spec.spec_bytes_per_sample() == 0
        &&& 44 + self.data@.len() <= u32::MAX
    }

    /// A buffer is accepted when its format matches the header spec and the
    /// grown file still fits the header's size fields.
    pub open spec fn accepts(self, buf: SampleBuffer) -> bool {
        &&& buf.spec_format() == self.wav_spec.spec_expected_format()
        &&& 44 + self.data@.len() + buf.spec_data().len() <= u32::MAX
    }

    /// Opens a fresh writer for the given header spec, with no samples yet.
    pub fn new(wav_spec: WavSpec) -> (r: WavBuffer)
        requires
            wav_spec.valid(),
        ensures
            r.wf(),
            r.wav_spec == wav_spec,
            r.data@ == Seq::<u8>::empty(),
    {
        let r = WavBuffer { wav_spec, data: Vec::new() };
        proof {
            let bps = r.wav_spec.spec_bytes_per_sample();
            assert(0 as int % bps == 0) by (nonlinear_arith)
                requires
                    bps >= 1,
            ;
        }
        r
    }

    /// Appends one buffer of captured samples. The whole buffer is encoded
    /// and appended when it is accepted; otherwise the writer is unchanged
    /// and the buffer is dropped.
    pub fn append(&mut self, buf: &SampleBuffer) -> (accepted: bool)
        requires
            old(self).wf(),
        ensures
            final(self).wf(),
            final(self).wav_spec == old(self).wav_spec,
            accepted == old(self).accepts(*buf),
            accepted ==> final(self).data@ == old(self).data@ + buf.spec_data(),
            !accepted ==> final(self).data@ == old(self).data@,
    {
        proof {
            buf.lemma_data_len();
            self.wav_spec.lemma_expected_sample_size();
        }
        let fmt = buf.format();
        if fmt != self.wav_spec.expected_format() {
            return false;
        }
        let n = buf.len();
        let sz = fmt.sample_size();
        if n > (u32::MAX as usize) {
            proof {
                assert(buf.spec_data().len() >= buf.spec_len()) by (nonlinear_arith)
                    requires
                        buf.spec_data().len() == buf.spec_len()
                            * buf.spec_format().spec_sample_size(),
                        buf.spec_format().spec_sample_size() >= 1,
                ;
            }
            return false;
        }
        proof {
            assert((n as int) * (sz as int) <= 0xffff_ffff * 4) by (nonlinear_arith)
                requires
                    n <= 0xffff_ffff,
                    0 <= sz <= 4,
            ;
        }
        let add_len: u64 = (n as u64) * (sz as u64);
        if 44 + (self.data.len() as u64) + add_len > u32::MAX as u64 {
            return false;
        }
        let mut enc = encode_samples(buf);
        self.data.append(&mut enc);
        proof {
            let szi = old(self).wav_spec.spec_bytes_per_sample();
            lemma_mod_multiples_vanish(buf.spec_len() as int, old(self).data@.len() as int, szi);
            assert(szi * buf.spec_len() == buf.spec_len() * szi) by (nonlinear_arith);
        }
        true
    }

    /// Closes the writer: emits the header for the accumulated data length
    /// and returns the complete WAV file image.
    pub fn finalize(self) -> (r: Vec<u8>)
        requires
            self.wf(),
        ensures
            r@ == wav_bytes(self.wav_spec, self.data@),
    {
        let data_len: u32 = self.data.len() as u32;
        let mut out = build_header(&self.wav_spec, data_len);
        let mut d = self.data;
        out.append(&mut d);
        out
    }
}

/// The 16-bit little-endian value stored at offset `i` of `b`.
pub open spec fn le16_at(b: Seq<u8>, i: int) -> int {
    b[i] + 256 * b[i + 1]
}

/// The 32-bit little-endian value stored at offset `i` of `b`.
pub open spec fn le32_at(b: Seq<u8>, i: int) -> int {
    b[i] + 256 * b[i + 1] + 65536 * b[i + 2] + 16777216 * b[i + 3]
}

/// The channel count a WAV header stores.
pub open spec fn header_channels(b: Seq<u8>) -> int {
    le16_at(b, 22)
}

/// The sample rate a WAV header stores.
pub open spec fn header_sample_rate(b: Seq<u8>) -> int {
    le32_at(b, 24)
}

/// The bits-per-sample a WAV header stores.
pub open spec fn header_bits_per_sample(b: Seq<u8>) -> int {
    le16_at(b, 34)
}

/// The sample-format tag a WAV header stores: 1 for integer PCM, 3 for
/// IEEE float.
pub open spec fn header_format_tag(b: Seq<u8>) -> int {
    le16_at(b, 20)
}

/// A structurally sound single-chunk PCM WAV image: the RIFF/WAVE/fmt/data
/// magic values in place, a recognised format tag and sample width, float
/// tagged only at 32 bits, positive channel count and rate, both size
/// fields consistent with the actual byte length, and a data chunk that
/// holds whole samples only.
pub open spec fn wav_well_formed(b: Seq<u8>) -> bool {
    &&& b.len() >= 44
    &&& b[0] == 82 && b[1] == 73 && b[2] == 70 && b[3] == 70
    &&& b[8] == 87 && b[9] == 65 && b[10] == 86 && b[11] == 69
    &&& b[12] == 102 && b[13] == 109 && b[14] == 116 && b[15] == 32
    &&& le32_at(b, 16) == 16
    &&& (header_format_tag(b) == 1 || header_format_tag(b) == 3)
    &&& header_channels(b) >= 1
    &&& header_sample_rate(b) >= 1
    &&& (header_bits_per_sample(b) == 8 || header_bits_per_sample(b) == 16
        || header_bits_per_sample(b) == 32)
    &&& (header_format_tag(b) == 3 ==> header_bits_per_sample(b) == 32)
    &&& b[36] == 100 && b[37] == 97 && b[38] == 116 && b[39] == 97
    &&& le32_at(b, 4) == b.len() - 8
    &&& le32_at(b, 40) == b.len() - 44
    &&& (b.len() - 44) % (header_bits_per_sample(b) / 8) == 0
}

/// Reassembling a 16-bit value from its little-endian bytes gives it back.
proof fn lemma_le16_roundtrip(n: u16)
    ensures
        u16_le_bytes(n)[0] + 256 * u16_le_bytes(n)[1] == n,
{
}

/// Reassembling a 32-bit value from its little-endian bytes gives it back.
proof fn lemma_le32_roundtrip(n: u32)
    ensures
        u32_le_bytes(n)[0] + 256 * u32_le_bytes(n)[1] + 65536 * u32_le_bytes(n)[2] + 16777216
            * u32_le_bytes(n)[3] == n,
{
    assert(n == 256 * (n / 256) + n % 256);
    assert(n / 256 == 256 * (n / 65536) + (n / 256) % 256) by (nonlinear_arith);
    assert(n / 65536 == 256 * (n / 16777216) + (n / 65536) % 256) by (nonlinear_arith);
    assert(n / 16777216 < 256);
}

/// The header stores exactly the spec it was derived from: channel count,
/// sample rate, bits per sample, and the integer/float format tag all
/// round-trip into the parsed header fields.
pub proof fn lemma_header_fields(s: WavSpec, data: Seq<u8>)
    requires
        s.valid(),
        44 + data.len() <= u32::MAX,
    ensures
        header_channels(wav_bytes(s, data)) == s.channels,
        header_sample_rate(wav_bytes(s, data)) == s.sample_rate,
        header_bits_per_sample(wav_bytes(s, data)) == s.bits_per_sample,
        header_format_tag(wav_bytes(s, data)) == s.spec_format_tag(),
{
    let n = data.len() as u32;
    let h = header_bytes(s, n);
    let b = wav_bytes(s, data);
    assert(h.len() == 44);
    assert(forall|i: int| 0 <= i < 44 ==> b[i] == h[i]);
    lemma_le16_roundtrip(s.channels);
    lemma_le16_roundtrip(s.bits_per_sample);
    lemma_le16_roundtrip(s.spec_format_tag());
    lemma_le32_roundtrip(s.sample_rate);
    assert(h[22] == u16_le_bytes(s.channels)[0]);
    assert(h[23] == u16_le_bytes(s.channels)[1]);
    assert(h[34] == u16_le_bytes(s.bits_per_sample)[0]);
    assert(h[35] == u16_le_bytes(s.bits_per_sample)[1]);
    assert(h[20] == u16_le_bytes(s.spec_format_tag())[0]);
    assert(h[21] == u16_le_bytes(s.spec_format_tag())[1]);
    assert(h[24] == u32_le_bytes(s.sample_rate)[0]);
    assert(h[25] == u32_le_bytes(s.sample_rate)[1]);
    assert(h[26] == u32_le_bytes(s.sample_rate)[2]);
    assert(h[27] == u32_le_bytes(s.sample_rate)[3]);
}

/// A successful run's header stores exactly the negotiated configuration:
/// the channel count, the sample rate, the sample format's width in bits,
/// and the float tag exactly for the float format.
pub proof fn lemma_header_matches_negotiated(c: StreamConfig, data: Seq<u8>)
    requires
        c.spec_usable(),
        c.sample_format.spec_is_supported(),
        44 + data.len() <= u32::MAX,
    ensures
        header_channels(wav_bytes(spec_wav_spec(c), data)) == c.channels,
        header_sample_rate(wav_bytes(spec_wav_spec(c), data)) == c.sample_rate,
        header_bits_per_sample(wav_bytes(spec_wav_spec(c), data)) == 8 * c.sample_format.spec_sample_size(),
        header_format_tag(wav_bytes(spec_wav_spec(c), data)) == (if c.sample_format.spec_is_float() { 3int } else { 1int }),
{
    lemma_derived_spec_valid(c);
    lemma_header_fields(spec_wav_spec(c), data);
}

/// Every finalized image this writer can produce is a structurally sound
/// WAV file, whatever interleaving of appended buffers produced its data:
/// the header is intact and both size fields match the data actually
/// present, so no race on the sample source can truncate or corrupt it.
pub proof fn lemma_wav_well_formed(s: WavSpec, data: Seq<u8>)
    requires
        s.valid(),
        44 + data.len() <= u32::MAX,
        data.len() as int % s.spec_bytes_per_sample() == 0,
    ensures
        wav_well_formed(wav_bytes(s, data)),
{
    let n = data.len() as u32;
    let h = header_bytes(s, n);
    let b = wav_bytes(s, data);
    assert(h.len() == 44);
    assert(forall|i: int| 0 <= i < 44 ==> b[i] == h[i]);
    lemma_header_fields(s, data);
    lemma_le32_roundtrip((36 + n) as u32);
    lemma_le32_roundtrip(16);
    lemma_le32_roundtrip(n);
    assert(h[4] == u32_le_bytes((36 + n) as u32)[0]);
    assert(h[5] == u32_le_bytes((36 + n) as u32)[1]);
    assert(h[6] == u32_le_bytes((36 + n) as u32)[2]);
    assert(h[7] == u32_le_bytes((36 + n) as u32)[3]);
    assert(le32_at(b, 4) == 36 + n);
    assert(h[16] == u32_le_bytes(16u32)[0]);
    assert(h[17] == u32_le_bytes(16u32)[1]);
    assert(h[18] == u32_le_bytes(16u32)[2]);
    assert(h[19] == u32_le_bytes(16u32)[3]);
    assert(h[40] == u32_le_bytes(n)[0]);
    assert(h[41] == u32_le_bytes(n)[1]);
    assert(h[42] == u32_le_bytes(n)[2]);
    assert(h[43] == u32_le_bytes(n)[3]);
    assert(le32_at(b, 40) == n);
    assert(header_bits_per_sample(b) / 8 == s.spec_bytes_per_sample());
}

} // verus!
