//! Typed media frames decoded from an output buffer's raw byte region.
//!
//! An audio region is an array of samples in the encoding the output
//! format names: 16-bit signed little-endian integers or 32-bit
//! little-endian IEEE-754 values. Float samples are carried as their bit
//! patterns so that the verified core never computes on floats; a trailing
//! partial sample is dropped. A video frame is either an opaque marker for
//! a hardware-backed buffer that renders itself, or the raw byte region.

use vstd::prelude::*;

verus! {

/// The `pcm-encoding` value naming 16-bit signed integer samples.
pub const ENCODING_PCM_16BIT: usize = 2;

/// The `pcm-encoding` value naming 32-bit float samples.
pub const ENCODING_PCM_FLOAT: usize = 4;

/// The 16-bit value held little-endian by two bytes.
pub open spec fn spec_u16_le(lo: u8, hi: u8) -> u16 {
    ((hi as u16) * 256 + lo as u16) as u16
}

/// The signed 16-bit sample held little-endian by two bytes.
pub open spec fn spec_i16_le(lo: u8, hi: u8) -> i16 {
    spec_u16_le(lo, hi) as i16
}

/// The 32-bit bit pattern held little-endian by four bytes.
pub open spec fn spec_u32_le(b0: u8, b1: u8, b2: u8, b3: u8) -> u32 {
    (b0 as u32 + (b1 as u32) * 0x100 + (b2 as u32) * 0x1_0000 + (b3 as u32) * 0x100_0000) as u32
}

/// The 16-bit signed samples a byte region holds, the trailing partial
/// sample dropped.
pub open spec fn spec_s16_samples(data: Seq<u8>) -> Seq<i16> {
    Seq::new((data.len() / 2) as nat, |k: int| spec_i16_le(data[2 * k], data[2 * k + 1]))
}

/// The 32-bit sample bit patterns a byte region holds, the trailing
/// partial sample dropped.
pub open spec fn spec_f32_bits_samples(data: Seq<u8>) -> Seq<u32> {
    Seq::new(
        (data.len() / 4) as nat,
        |k: int| spec_u32_le(data[4 * k], data[4 * k + 1], data[4 * k + 2], data[4 * k + 3]),
    )
}

/// Decodes a byte region as 16-bit signed little-endian samples.
pub fn decode_s16(data: &Vec<u8>) -> (r: Vec<i16>)
    ensures
        r@ == spec_s16_samples(data@),
{
    let n = data.len() / 2;
    let mut r: Vec<i16> = Vec::new();
    let mut k: usize = 0;
    while k < n
        invariant
            data@.len() <= usize::MAX,
            n == data@.len() / 2,
            k <= n,
            r@.len() == k,
            forall|j: int| 0 <= j < k ==> r@[j] == spec_i16_le(data@[2 * j], data@[2 * j + 1]),
        decreases n - k,
    {
        proof {
            assert(2 * (k as int) + 1 < data@.len()) by {
                assert(data@.len() == 2 * (data@.len() / 2) + data@.len() % 2);
            }
        }
        let lo = data[2 * k];
        let hi = data[2 * k + 1];
        let word: u16 = (hi as u16) * 256 + (lo as u16);
        let sample: i16 = #[verifier::truncate] (word as i16);
        r.push(sample);
        k = k + 1;
    }
    proof {
        assert(r@ =~= spec_s16_samples(data@));
    }
    r
}

/// Decodes a byte region as 32-bit little-endian sample bit patterns.
pub fn decode_f32_bits(data: &Vec<u8>) -> (r: Vec<u32>)
    ensures
        r@ == spec_f32_bits_samples(data@),
{
    let n = data.len() / 4;
    let mut r: Vec<u32> = Vec::new();
    let mut k: usize = 0;
    while k < n
        invariant
            data@.len() <= usize::MAX,
            n == data@.len() / 4,
            k <= n,
            r@.len() == k,
            forall|j: int|
                0 <= j < k ==> r@[j] == spec_u32_le(
                    data@[4 * j],
                    data@[4 * j + 1],
                    data@[4 * j + 2],
                    data@[4 * j + 3],
                ),
        decreases n - k,
    {
        proof {
            assert(4 * (k as int) + 3 < data@.len()) by {
                assert(data@.len() == 4 * (data@.len() / 4) + data@.len() % 4);
            }
        }
        let b0 = data[4 * k];
        let b1 = data[4 * k + 1];
        let b2 = data[4 * k + 2];
        let b3 = data[4 * k + 3];
        let bits: u32 = (b0 as u32) + (b1 as u32) * 0x100 + (b2 as u32) * 0x1_0000 + (b3 as u32)
            * 0x100_0000;
        r.push(bits);
        k = k + 1;
    }
    proof {
        assert(r@ =~= spec_f32_bits_samples(data@));
    }
    r
}

/// An owned copy of a byte vector.
pub(crate) fn copy_bytes(src: &Vec<u8>) -> (r: Vec<u8>)
    ensures
        r@ == src@,
{
    let mut r: Vec<u8> = Vec::new();
    let mut i: usize = 0;
    while i < src.len()
        invariant
            i <= src.len(),
            r@ =~= src@.take(i as int),
        decreases src.len() - i,
    {
        r.push(src[i]);
        proof {
            assert(r@ =~= src@.take(i as int + 1));
        }
        i = i + 1;
    }
    proof {
        assert(src@.take(src@.len() as int) =~= src@);
    }
    r
}

/// How many sample values a region holds, all channels together.
pub open spec fn spec_value_count_of(f: SampleFormatSpec) -> int {
    match f {
        SampleFormatSpec::S16(v) => v.len() as int,
        SampleFormatSpec::F32Bits(v) => v.len() as int,
    }
}

/// The number of per-channel sample frames a region holds.
pub open spec fn spec_samples_of(f: SampleFormatSpec, channels: u32) -> int {
    spec_value_count_of(f) / channels as int
}

/// An audio sample region in one of the supported encodings.
#[derive(Debug)]
pub enum SampleFormat {
    /// 16-bit signed integer samples.
    S16(Vec<i16>),
    /// 32-bit float samples, carried as IEEE-754 bit patterns.
    F32Bits(Vec<u32>),
}

/// The mathematical value of a `SampleFormat`.
#[verifier::ext_equal]
pub enum SampleFormatSpec {
    S16(Seq<i16>),
    F32Bits(Seq<u32>),
}

impl View for SampleFormat {
    type V = SampleFormatSpec;

    open spec fn view(&self) -> SampleFormatSpec {
        match self {
            SampleFormat::S16(v) => SampleFormatSpec::S16(v@),
            SampleFormat::F32Bits(v) => SampleFormatSpec::F32Bits(v@),
        }
    }
}

impl SampleFormat {
    /// How many sample values the region holds, all channels together.
    pub open spec fn spec_value_count(&self) -> int {
        spec_value_count_of(self@)
    }

    /// The number of per-channel sample frames the region holds.
    pub open spec fn spec_samples(&self, channels: u32) -> int {
        spec_samples_of(self@, channels)
    }

    /// The number of per-channel sample frames the region holds.
    pub fn samples(&self, channels: u32) -> (r: usize)
        requires
            channels >= 1,
        ensures
            r == self.spec_samples(channels),
    {
        match self {
            SampleFormat::S16(v) => v.len() / (channels as usize),
            SampleFormat::F32Bits(v) => v.len() / (channels as usize),
        }
    }

    /// The size in bytes of one sample value in this encoding.
    pub fn sample_size(&self) -> (r: usize)
        ensures
            self@ is S16 ==> r == 2,
            self@ is F32Bits ==> r == 4,
    {
        match self {
            SampleFormat::S16(_) => 2,
            SampleFormat::F32Bits(_) => 4,
        }
    }

    /// The size in bytes of one frame: one sample value per channel.
    pub fn frame_size(&self, channels: u32) -> (r: usize)
        requires
            channels <= 0x1fff_ffff,
        ensures
            self@ is S16 ==> r == 2 * channels,
            self@ is F32Bits ==> r == 4 * channels,
    {
        self.sample_size() * (channels as usize)
    }
}

/// A decoded audio frame: its sample region and channel count.
#[derive(Debug)]
pub struct AudioFrame {
    format: SampleFormat,
    channels: u32,
}

/// The mathematical value of an `AudioFrame`.
#[verifier::ext_equal]
pub struct AudioFrameSpec {
    pub format: SampleFormatSpec,
    pub channels: u32,
}

impl View for AudioFrame {
    type V = AudioFrameSpec;

    closed spec fn view(&self) -> AudioFrameSpec {
        AudioFrameSpec { format: self.format@, channels: self.channels }
    }
}

impl AudioFrame {
    /// An audio frame always names at least one channel.
    pub open spec fn wf(&self) -> bool {
        self@.channels >= 1
    }

    /// Builds an audio frame over a sample region.
    pub fn new(format: SampleFormat, channels: u32) -> (r: AudioFrame)
        requires
            channels >= 1,
        ensures
            r@.format == format@,
            r@.channels == channels,
            r.wf(),
    {
        AudioFrame { format, channels }
    }

    /// The number of channels interleaved in the region.
    pub fn channels(&self) -> (r: u32)
        ensures
            r == self@.channels,
    {
        self.channels
    }

    /// The sample region.
    pub fn format(&self) -> (r: &SampleFormat)
        ensures
            r@ == self@.format,
    {
        &self.format
    }

    /// The number of per-channel sample frames in the region.
    pub fn nb_samples(&self) -> (r: usize)
        requires
            self.wf(),
        ensures
            r == spec_samples_of(self@.format, self@.channels),
    {
        self.format.samples(self.channels)
    }
}

/// A raw video frame: the byte region of a CPU-visible output buffer;
/// pixel interpretation is an external collaborator's responsibility.
#[derive(Debug)]
pub struct RawVideoFrame {
    buffer: Vec<u8>,
}

impl View for RawVideoFrame {
    type V = Seq<u8>;

    closed spec fn view(&self) -> Seq<u8> {
        self.buffer@
    }
}

impl RawVideoFrame {
    /// Wraps a byte region as a raw video frame.
    pub(crate) fn new(buffer: Vec<u8>) -> (r: RawVideoFrame)
        ensures
            r@ == buffer@,
    {
        RawVideoFrame { buffer }
    }

    /// The raw byte region.
    pub fn data(&self) -> (r: &Vec<u8>)
        ensures
            r@ == self@,
    {
        &self.buffer
    }
}

/// A decoded video frame.
#[derive(Debug)]
pub enum VideoFrame {
    /// A hardware-backed frame held by the render target; it has no
    /// CPU-visible bytes and renders itself at release.
    Hardware,
    /// A CPU-visible frame with its raw byte region.
    RawFrame(RawVideoFrame),
}

/// The mathematical value of a `VideoFrame`.
#[verifier::ext_equal]
pub enum VideoFrameSpec {
    Hardware,
    RawFrame(Seq<u8>),
}

impl View for VideoFrame {
    type V = VideoFrameSpec;

    open spec fn view(&self) -> VideoFrameSpec {
        match self {
            VideoFrame::Hardware => VideoFrameSpec::Hardware,
            VideoFrame::RawFrame(f) => VideoFrameSpec::RawFrame(f@),
        }
    }
}

/// A decoded frame: audio or video.
#[derive(Debug)]
pub enum Frame {
    Audio(AudioFrame),
    Video(VideoFrame),
}

/// The mathematical value of a `Frame`.
#[verifier::ext_equal]
pub enum FrameSpec {
    Audio(AudioFrameSpec),
    Video(VideoFrameSpec),
}

impl View for Frame {
    type V = FrameSpec;

    open spec fn view(&self) -> FrameSpec {
        match self {
            Frame::Audio(a) => FrameSpec::Audio(a@),
            Frame::Video(v) => FrameSpec::Video(v@),
        }
    }
}

/// The view of an optional frame.
pub open spec fn frame_view(o: Option<Frame>) -> Option<FrameSpec> {
    match o {
        Some(f) => Some(f@),
        None => None,
    }
}

} // verus!
