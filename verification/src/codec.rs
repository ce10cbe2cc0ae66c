//! Codec sessions: one open encode/decode channel with explicit buffer
//! acquisition, submission and release.
//!
//! The session owns a model codec device: a fixed set of input and output
//! buffer slots and an internal queue of submitted samples. Acquiring a
//! buffer lends a slot out as an exclusively owned handle; the handle can
//! end its life only by being given back to the session, which is also
//! what submits (input) or releases (output) the buffer — so a handle is
//! returned exactly once, and the contracts account for every slot.
//!
//! A flush invalidates all handles issued before it: the session tracks a
//! generation counter, stamps every handle with it, and rejects a stale
//! release defensively.

use vstd::prelude::*;
use vstd::pervasive::VecAdditionalExecFns;
use crate::error::MediaStatus;
use crate::format::{MediaFormat, MediaValueSpec, spec_get_i32, spec_get_string};
use crate::native_window::NativeWindow;
use crate::samples::{
    copy_bytes, decode_f32_bits, decode_s16, frame_view, spec_f32_bits_samples, spec_s16_samples,
    AudioFrame, AudioFrameSpec, Frame, FrameSpec, RawVideoFrame, SampleFormat, SampleFormatSpec,
    VideoFrame, VideoFrameSpec, ENCODING_PCM_16BIT, ENCODING_PCM_FLOAT,
};
use crate::text::{contains_seq, str_contains};

verus! {

/// Number of input buffer slots a configured session exposes.
pub const INPUT_SLOT_COUNT: usize = 4;

/// Number of output buffer slots a configured session exposes.
pub const OUTPUT_SLOT_COUNT: usize = 4;

/// Input buffer capacity used when the format names none.
pub const DEFAULT_INPUT_CAPACITY: usize = 4096;

/// Largest input buffer capacity a format may request: sizes must fit the
/// signed 32-bit `size` field of `BufferInfo`.
pub const MAX_INPUT_CAPACITY: usize = 0x7fff_ffff;

/// Metadata of one output buffer: where its bytes lie, when it is to be
/// presented, and its flags.
#[derive(Clone, Copy, Debug, PartialEq, Eq, Structural)]
pub struct BufferInfo {
    pub offset: i32,
    pub size: i32,
    pub presentation_time_us: i64,
    pub flags: u32,
}

impl Default for BufferInfo {
    /// All-zero metadata.
    fn default() -> (r: BufferInfo)
        ensures
            r.offset == 0,
            r.size == 0,
            r.presentation_time_us == 0,
            r.flags == 0,
    {
        BufferInfo { offset: 0, size: 0, presentation_time_us: 0, flags: 0 }
    }
}

/// Flags a sample buffer can carry.
#[derive(Clone, Copy, Debug, PartialEq, Eq, Structural)]
pub enum BufferFlag {
    CodecConfig,
    EndOfStream,
    PartialFrame,
    Encode,
}

impl BufferFlag {
    /// The bit this flag occupies.
    pub open spec fn spec_value(self) -> i32 {
        match self {
            BufferFlag::CodecConfig => 2,
            BufferFlag::EndOfStream => 4,
            BufferFlag::PartialFrame => 8,
            BufferFlag::Encode => 1,
        }
    }

    /// The bit this flag occupies.
    pub fn value(&self) -> (r: i32)
        ensures
            r == self.spec_value(),
    {
        match self {
            BufferFlag::CodecConfig => 2,
            BufferFlag::EndOfStream => 4,
            BufferFlag::PartialFrame => 8,
            BufferFlag::Encode => 1,
        }
    }

    /// The flag a bit value stands for, if any.
    pub fn from_value(value: i32) -> (r: Option<BufferFlag>)
        ensures
            value == 2 ==> r == Some(BufferFlag::CodecConfig),
            value == 4 ==> r == Some(BufferFlag::EndOfStream),
            value == 8 ==> r == Some(BufferFlag::PartialFrame),
            value == 1 ==> r == Some(BufferFlag::Encode),
            !(value == 1 || value == 2 || value == 4 || value == 8) ==> r is None,
    {
        if value == 2 {
            Some(BufferFlag::CodecConfig)
        } else if value == 4 {
            Some(BufferFlag::EndOfStream)
        } else if value == 8 {
            Some(BufferFlag::PartialFrame)
        } else if value == 1 {
            Some(BufferFlag::Encode)
        } else {
            None
        }
    }

    /// Whether this flag's bit is set in `flag`.
    pub fn is_contained_in(&self, flag: i32) -> (r: bool)
        ensures
            r == ((flag & self.spec_value()) > 0),
    {
        (flag & self.value()) > 0
    }

    /// Sets this flag's bit in `flag`.
    pub fn add_to_flag(&self, flag: &mut i32)
        ensures
            *final(flag) == (*old(flag) | self.spec_value()),
    {
        *flag = *flag | self.value();
    }
}

/// Out-of-band conditions a dequeue can report instead of a buffer index.
#[derive(Clone, Copy, Debug, PartialEq, Eq, Structural)]
pub enum InfoFlag {
    OutputBuffersChanged,
    OutputFormatChanged,
    TryAgainLater,
}

impl InfoFlag {
    /// The negative sentinel this condition is reported as.
    pub open spec fn spec_value(self) -> i32 {
        match self {
            InfoFlag::OutputBuffersChanged => -3i32,
            InfoFlag::OutputFormatChanged => -2i32,
            InfoFlag::TryAgainLater => -1i32,
        }
    }

    /// The negative sentinel this condition is reported as.
    pub fn value(&self) -> (r: i32)
        ensures
            r == self.spec_value(),
    {
        match self {
            InfoFlag::OutputBuffersChanged => -3,
            InfoFlag::OutputFormatChanged => -2,
            InfoFlag::TryAgainLater => -1,
        }
    }

    /// The condition a sentinel stands for, if any.
    pub fn from_value(value: i32) -> (r: Option<InfoFlag>)
        ensures
            value == -3 ==> r == Some(InfoFlag::OutputBuffersChanged),
            value == -2 ==> r == Some(InfoFlag::OutputFormatChanged),
            value == -1 ==> r == Some(InfoFlag::TryAgainLater),
            !(value == -3 || value == -2 || value == -1) ==> r is None,
    {
        if value == -3 {
            Some(InfoFlag::OutputBuffersChanged)
        } else if value == -2 {
            Some(InfoFlag::OutputFormatChanged)
        } else if value == -1 {
            Some(InfoFlag::TryAgainLater)
        } else {
            None
        }
    }

    /// Whether this condition's bits are all set in `flag`.
    pub fn is_contained_in(&self, flag: i32) -> (r: bool)
        ensures
            r == ((flag & self.spec_value()) > 0),
    {
        (flag & self.value()) > 0
    }

    /// Sets this condition's bits in `flag`.
    pub fn add_to_flag(&self, flag: &mut i32)
        ensures
            *final(flag) == (*old(flag) | self.spec_value()),
    {
        *flag = *flag | self.value();
    }
}

/// Modes protected sample data can be wrapped in.
#[derive(Debug, Clone, Copy, PartialEq, Eq, Structural)]
pub enum CryptoInfoMode {
    Clear,
    AesCtr,
    AesWv,
    AesCbc,
}

impl CryptoInfoMode {
    /// The numeric code of this mode.
    pub fn code(&self) -> (r: i32)
        ensures
            *self is Clear ==> r == 0,
            *self is AesCtr ==> r == 1,
            *self is AesWv ==> r == 2,
            *self is AesCbc ==> r == 3,
    {
        match self {
            CryptoInfoMode::Clear => 0,
            CryptoInfoMode::AesCtr => 1,
            CryptoInfoMode::AesWv => 2,
            CryptoInfoMode::AesCbc => 3,
        }
    }
}

/// An encrypt/skip block pattern for protected sample data.
#[derive(Debug, Clone, Copy, PartialEq, Eq, Structural)]
pub struct CryptoInfoPattern {
    pub encrypt_blocks: i32,
    pub skip_blocks: i32,
}

/// The states of a codec session.
#[derive(Clone, Copy, Debug, PartialEq, Eq, Structural)]
pub enum CodecState {
    Created,
    Configured,
    Started,
    Stopped,
}

/// How many slots of a lent-flag sequence are lent out.
pub open spec fn count_lent(s: Seq<bool>) -> int
    decreases s.len(),
{
    if s.len() == 0 {
        0
    } else {
        count_lent(s.drop_last()) + if s.last() {
            1int
        } else {
            0int
        }
    }
}

/// The lent count lies between zero and the slot count.
pub proof fn lemma_count_lent_bounds(s: Seq<bool>)
    ensures
        0 <= count_lent(s) <= s.len(),
    decreases s.len(),
{
    if s.len() > 0 {
        lemma_count_lent_bounds(s.drop_last());
    }
}

/// Changing one slot changes the lent count by exactly that slot's move.
pub proof fn lemma_count_lent_update(s: Seq<bool>, i: int, b: bool)
    requires
        0 <= i < s.len(),
    ensures
        count_lent(s.update(i, b)) == count_lent(s) - (if s[i] {
            1int
        } else {
            0int
        }) + (if b {
            1int
        } else {
            0int
        }),
    decreases s.len(),
{
    if s.len() > 0 {
        if i == s.len() - 1 {
            assert(s.update(i, b).drop_last() =~= s.drop_last());
        } else {
            assert(s.update(i, b).drop_last() =~= s.drop_last().update(i, b));
            lemma_count_lent_update(s.drop_last(), i, b);
        }
    }
}

/// A sequence with a free slot is not fully lent.
pub proof fn lemma_count_lent_not_full(s: Seq<bool>, i: int)
    requires
        0 <= i < s.len(),
        !s[i],
    ensures
        count_lent(s) < s.len(),
    decreases s.len(),
{
    if i == s.len() - 1 {
        lemma_count_lent_bounds(s.drop_last());
    } else {
        lemma_count_lent_not_full(s.drop_last(), i);
    }
}

/// A sequence with every slot lent is fully lent.
pub proof fn lemma_count_lent_all(s: Seq<bool>)
    requires
        forall|i: int| 0 <= i < s.len() ==> s[i],
    ensures
        count_lent(s) == s.len(),
    decreases s.len(),
{
    if s.len() > 0 {
        lemma_count_lent_all(s.drop_last());
    }
}

/// A sequence with no slot lent counts zero.
pub proof fn lemma_count_lent_none(s: Seq<bool>)
    requires
        forall|i: int| 0 <= i < s.len() ==> !s[i],
    ensures
        count_lent(s) == 0,
    decreases s.len(),
{
    if s.len() > 0 {
        lemma_count_lent_none(s.drop_last());
    }
}

/// A zero-filled byte vector of length `n`.
fn make_bytes(n: usize) -> (r: Vec<u8>)
    ensures
        r@ == Seq::new(n as nat, |i: int| 0u8),
{
    let mut r: Vec<u8> = Vec::new();
    let mut i: usize = 0;
    while i < n
        invariant
            i <= n,
            r@ =~= Seq::new(i as nat, |j: int| 0u8),
        decreases n - i,
    {
        r.push(0u8);
        proof {
            assert(r@ =~= Seq::new(i as nat + 1, |j: int| 0u8));
        }
        i = i + 1;
    }
    proof {
        assert(r@ =~= Seq::new(n as nat, |j: int| 0u8));
    }
    r
}

/// An all-free lent-flag vector of length `n`.
pub(crate) fn make_free_flags(n: usize) -> (r: Vec<bool>)
    ensures
        r@ == Seq::new(n as nat, |i: int| false),
{
    let mut r: Vec<bool> = Vec::new();
    let mut i: usize = 0;
    while i < n
        invariant
            i <= n,
            r@ =~= Seq::new(i as nat, |j: int| false),
        decreases n - i,
    {
        r.push(false);
        proof {
            assert(r@ =~= Seq::new(i as nat + 1, |j: int| false));
        }
        i = i + 1;
    }
    proof {
        assert(r@ =~= Seq::new(n as nat, |j: int| false));
    }
    r
}

/// Marks every slot free.
fn clear_flags(v: &mut Vec<bool>)
    ensures
        final(v)@ == Seq::new(old(v)@.len(), |i: int| false),
{
    let n = v.len();
    let mut i: usize = 0;
    while i < n
        invariant
            i <= n,
            v@.len() == n,
            forall|k: int| 0 <= k < i ==> !v@[k],
        decreases n - i,
    {
        v.set(i, false);
        i = i + 1;
    }
    proof {
        assert(v@ =~= Seq::new(v@.len(), |i: int| false));
    }
}

/// The first `n` bytes of a vector, as an owned copy.
fn take_prefix(src: &Vec<u8>, n: usize) -> (r: Vec<u8>)
    requires
        n <= src@.len(),
    ensures
        r@ == src@.take(n as int),
{
    let mut r: Vec<u8> = Vec::new();
    let mut i: usize = 0;
    while i < n
        invariant
            i <= n,
            n <= src@.len(),
            r@ =~= src@.take(i as int),
        decreases n - i,
    {
        r.push(src[i]);
        proof {
            assert(r@ =~= src@.take(i as int + 1));
        }
        i = i + 1;
    }
    r
}

/// An exclusively owned input buffer slot, lent out by a codec session.
///
/// The handle carries the slot's backing memory; giving it back through
/// `MediaCodec::queue_input` submits the first `write_size` bytes, with
/// the presentation time and flags set on the handle, as one sample.
#[derive(Debug)]
pub struct CodecInputBuffer {
    data: Vec<u8>,
    write_size: usize,
    index: usize,
    time: u64,
    flags: u32,
    generation: u64,
}

impl CodecInputBuffer {
    /// The backing bytes.
    pub closed spec fn spec_data(&self) -> Seq<u8> {
        self.data@
    }

    /// How many leading bytes hold sample data.
    pub closed spec fn spec_write_size(&self) -> usize {
        self.write_size
    }

    /// The slot this handle was lent from.
    pub closed spec fn spec_index(&self) -> usize {
        self.index
    }

    /// The presentation time set on this handle, in microseconds.
    pub closed spec fn spec_time(&self) -> u64 {
        self.time
    }

    /// The sample flags set on this handle.
    pub closed spec fn spec_flags(&self) -> u32 {
        self.flags
    }

    /// The session generation this handle was issued under.
    pub closed spec fn spec_generation(&self) -> u64 {
        self.generation
    }

    /// The written prefix never exceeds the capacity, and the time fits
    /// the signed 64-bit microsecond field of `BufferInfo`.
    pub open spec fn wf(&self) -> bool {
        &&& self.spec_write_size() <= self.spec_data().len()
        &&& self.spec_time() <= i64::MAX as u64
    }

    /// A fresh handle over zeroed backing memory.
    pub(crate) fn new(index: usize, data: Vec<u8>, generation: u64) -> (r: CodecInputBuffer)
        ensures
            r.spec_index() == index,
            r.spec_data() == data@,
            r.spec_generation() == generation,
            r.spec_write_size() == 0,
            r.spec_time() == 0,
            r.spec_flags() == 0,
            r.wf(),
    {
        CodecInputBuffer { data, write_size: 0, index, time: 0, flags: 0, generation }
    }

    /// This buffer's slot index; it identifies the slot being returned.
    pub fn index(&self) -> (r: usize)
        ensures
            r == self.spec_index(),
    {
        self.index
    }

    /// The capacity of this buffer, in bytes.
    pub fn size(&self) -> (r: usize)
        ensures
            r == self.spec_data().len(),
    {
        self.data.len()
    }

    /// The presentation time set on this buffer; zero until set.
    pub fn time(&self) -> (r: u64)
        ensures
            r == self.spec_time(),
    {
        self.time
    }

    /// How many leading bytes hold sample data.
    pub fn write_size(&self) -> (r: usize)
        ensures
            r == self.spec_write_size(),
    {
        self.write_size
    }

    /// The sample flags set on this buffer; zero until set.
    pub fn flags(&self) -> (r: u32)
        ensures
            r == self.spec_flags(),
    {
        self.flags
    }

    /// The backing bytes.
    pub fn buffer(&self) -> (r: &Vec<u8>)
        ensures
            r@ == self.spec_data(),
    {
        &self.data
    }

    /// Sets the presentation time, in microseconds.
    pub fn set_time(&mut self, time: u64)
        requires
            time <= i64::MAX as u64,
        ensures
            final(self).spec_time() == time,
            final(self).spec_data() == old(self).spec_data(),
            final(self).spec_write_size() == old(self).spec_write_size(),
            final(self).spec_index() == old(self).spec_index(),
            final(self).spec_flags() == old(self).spec_flags(),
            final(self).spec_generation() == old(self).spec_generation(),
            old(self).wf() ==> final(self).wf(),
    {
        self.time = time;
    }

    /// Sets the sample flags.
    pub fn set_flags(&mut self, flags: u32)
        ensures
            final(self).spec_flags() == flags,
            final(self).spec_data() == old(self).spec_data(),
            final(self).spec_write_size() == old(self).spec_write_size(),
            final(self).spec_index() == old(self).spec_index(),
            final(self).spec_time() == old(self).spec_time(),
            final(self).spec_generation() == old(self).spec_generation(),
            old(self).wf() ==> final(self).wf(),
    {
        self.flags = flags;
    }

    /// Declares how many leading bytes hold sample data.
    pub fn set_write_size(&mut self, write_size: usize)
        requires
            write_size <= old(self).spec_data().len(),
        ensures
            final(self).spec_write_size() == write_size,
            final(self).spec_data() == old(self).spec_data(),
            final(self).spec_index() == old(self).spec_index(),
            final(self).spec_time() == old(self).spec_time(),
            final(self).spec_flags() == old(self).spec_flags(),
            final(self).spec_generation() == old(self).spec_generation(),
            old(self).wf() ==> final(self).wf(),
    {
        self.write_size = write_size;
    }

    /// Copies `bytes` to the front of the buffer and records their length
    /// as the written size. Fails, changing nothing, when the bytes do not
    /// fit the capacity.
    pub fn write_data(&mut self, bytes: &Vec<u8>) -> (r: bool)
        ensures
            bytes@.len() > old(self).spec_data().len() ==> !r && *final(self) == *old(self),
            bytes@.len() <= old(self).spec_data().len() ==> {
                &&& r
                &&& final(self).spec_data() == bytes@ + old(self).spec_data().skip(
                    bytes@.len() as int,
                )
                &&& final(self).spec_write_size() == bytes@.len()
                &&& final(self).spec_index() == old(self).spec_index()
                &&& final(self).spec_time() == old(self).spec_time()
                &&& final(self).spec_flags() == old(self).spec_flags()
                &&& final(self).spec_generation() == old(self).spec_generation()
            },
            old(self).wf() ==> final(self).wf(),
    {
        let n = bytes.len();
        if n > self.data.len() {
            return false;
        }
        let mut i: usize = 0;
        while i < n
            invariant
                i <= n,
                n == bytes@.len(),
                n <= self.data@.len(),
                self.data@.len() == old(self).spec_data().len(),
                forall|k: int| 0 <= k < i ==> self.data@[k] == bytes@[k],
                forall|k: int| i <= k < self.data@.len() ==> self.data@[k] == old(self).spec_data()[k],
                self.write_size == old(self).spec_write_size(),
                self.index == old(self).spec_index(),
                self.time == old(self).spec_time(),
                self.flags == old(self).spec_flags(),
                self.generation == old(self).spec_generation(),
            decreases n - i,
        {
            self.data.set(i, bytes[i]);
            i = i + 1;
        }
        self.write_size = n;
        proof {
            assert(self.data@ =~= bytes@ + old(self).spec_data().skip(bytes@.len() as int));
        }
        true
    }
}

/// One sample submitted to the device and not yet drained as output.
#[derive(Debug)]
pub(crate) struct PendingSample {
    pub(crate) data: Vec<u8>,
    pub(crate) time: u64,
    pub(crate) flags: u32,
}

/// The mathematical value of a pending sample.
#[verifier::ext_equal]
pub struct PendingSampleSpec {
    pub data: Seq<u8>,
    pub time: u64,
    pub flags: u32,
}

impl View for PendingSample {
    type V = PendingSampleSpec;

    closed spec fn view(&self) -> PendingSampleSpec {
        PendingSampleSpec { data: self.data@, time: self.time, flags: self.flags }
    }
}

/// The frame a region of output bytes holds, classified by the output
/// format: an `"audio"` mime yields samples in the encoding the
/// `pcm-encoding` key names (16-bit signed integers or 32-bit floats,
/// little-endian; anything else is no frame, not an error); a `"video"`
/// mime yields an opaque self-rendering marker when hardware-backed and
/// the raw region when CPU-visible; anything else yields no frame. A
/// non-positive channel count yields no frame either.
pub open spec fn spec_frame(
    fmt: Map<Seq<char>, MediaValueSpec>,
    using_buffers: bool,
    data: Seq<u8>,
) -> Option<FrameSpec> {
    match spec_get_string(fmt, "mime"@) {
        None => None,
        Some(mime) => if contains_seq(mime, "audio"@) {
            match (spec_get_i32(fmt, "pcm-encoding"@), spec_get_i32(fmt, "channel-count"@)) {
                (Some(enc), Some(ch)) => if ch <= 0 {
                    None
                } else if enc == ENCODING_PCM_16BIT as i32 {
                    if using_buffers {
                        Some(
                            FrameSpec::Audio(
                                AudioFrameSpec {
                                    format: SampleFormatSpec::S16(spec_s16_samples(data)),
                                    channels: ch as u32,
                                },
                            ),
                        )
                    } else {
                        None
                    }
                } else if enc == ENCODING_PCM_FLOAT as i32 {
                    if using_buffers {
                        Some(
                            FrameSpec::Audio(
                                AudioFrameSpec {
                                    format: SampleFormatSpec::F32Bits(spec_f32_bits_samples(data)),
                                    channels: ch as u32,
                                },
                            ),
                        )
                    } else {
                        None
                    }
                } else {
                    None
                },
                _ => None,
            }
        } else if contains_seq(mime, "video"@) {
            if !using_buffers {
                Some(FrameSpec::Video(VideoFrameSpec::Hardware))
            } else {
                Some(FrameSpec::Video(VideoFrameSpec::RawFrame(data)))
            }
        } else {
            None
        }
    }
}

/// Whether classifying the region drops a trailing partial sample: the
/// data-quality warning of the audio path.
pub open spec fn spec_frame_warning(
    fmt: Map<Seq<char>, MediaValueSpec>,
    using_buffers: bool,
    data: Seq<u8>,
) -> bool {
    match spec_get_string(fmt, "mime"@) {
        None => false,
        Some(mime) => {
            &&& contains_seq(mime, "audio"@)
            &&& using_buffers
            &&& match (spec_get_i32(fmt, "pcm-encoding"@), spec_get_i32(fmt, "channel-count"@)) {
                (Some(enc), Some(ch)) => ch > 0 && ((enc == ENCODING_PCM_16BIT as i32 && data.len()
                    % 2 != 0) || (enc == ENCODING_PCM_FLOAT as i32 && data.len() % 4 != 0)),
                _ => false,
            }
        },
    }
}

/// An exclusively owned output buffer slot, drained from a codec session.
///
/// For a decoder this is a raw frame; for an encoder an encoded packet.
/// Giving it back through `MediaCodec::release_output` returns the slot;
/// whether the frame is to be presented then is the render intent set on
/// the handle.
#[derive(Debug)]
pub struct CodecOutputBuffer {
    info: BufferInfo,
    index: usize,
    using_buffers: bool,
    data: Vec<u8>,
    format: MediaFormat,
    render: bool,
    generation: u64,
}

impl CodecOutputBuffer {
    /// The buffer's metadata.
    pub closed spec fn spec_info(&self) -> BufferInfo {
        self.info
    }

    /// The slot this handle was lent from.
    pub closed spec fn spec_index(&self) -> usize {
        self.index
    }

    /// Whether the buffer carries CPU-visible bytes rather than living in
    /// a hardware buffer behind a render target.
    pub closed spec fn spec_using_buffers(&self) -> bool {
        self.using_buffers
    }

    /// The CPU-visible bytes; empty when hardware-backed.
    pub closed spec fn spec_data(&self) -> Seq<u8> {
        self.data@
    }

    /// The output format snapshot taken when the buffer was drained.
    pub closed spec fn spec_format(&self) -> Map<Seq<char>, MediaValueSpec> {
        self.format@
    }

    /// The render intent set on this handle.
    pub closed spec fn spec_render(&self) -> bool {
        self.render
    }

    /// The session generation this handle was issued under.
    pub closed spec fn spec_generation(&self) -> u64 {
        self.generation
    }

    /// The metadata is consistent with the bytes the handle carries.
    pub open spec fn wf(&self) -> bool {
        &&& self.spec_info().offset == 0
        &&& self.spec_info().size >= 0
        &&& (self.spec_using_buffers() ==> self.spec_data().len() == self.spec_info().size as int)
        &&& (!self.spec_using_buffers() ==> self.spec_data().len() == 0)
    }

    /// A freshly drained output buffer with no render intent.
    pub(crate) fn new(
        info: BufferInfo,
        index: usize,
        using_buffers: bool,
        data: Vec<u8>,
        format: MediaFormat,
        generation: u64,
    ) -> (r: CodecOutputBuffer)
        ensures
            r.spec_info() == info,
            r.spec_index() == index,
            r.spec_using_buffers() == using_buffers,
            r.spec_data() == data@,
            r.spec_format() == format@,
            !r.spec_render(),
            r.spec_generation() == generation,
    {
        CodecOutputBuffer { info, index, using_buffers, data, format, render: false, generation }
    }

    /// The buffer's metadata.
    pub fn info(&self) -> (r: &BufferInfo)
        ensures
            *r == self.spec_info(),
    {
        &self.info
    }

    /// This buffer's slot index; it identifies the slot being returned.
    pub fn index(&self) -> (r: usize)
        ensures
            r == self.spec_index(),
    {
        self.index
    }

    /// Whether the buffer carries CPU-visible bytes.
    pub fn using_buffers(&self) -> (r: bool)
        ensures
            r == self.spec_using_buffers(),
    {
        self.using_buffers
    }

    /// The output format snapshot this buffer was drained under.
    pub fn format(&self) -> (r: &MediaFormat)
        ensures
            r@ == self.spec_format(),
    {
        &self.format
    }

    /// The CPU-visible bytes, or nothing for a hardware-backed buffer.
    pub fn buffer_data(&self) -> (r: Option<&Vec<u8>>)
        ensures
            self.spec_using_buffers() ==> (r matches Some(v) && v@ == self.spec_data()),
            !self.spec_using_buffers() ==> r is None,
    {
        if self.using_buffers {
            Some(&self.data)
        } else {
            None
        }
    }

    /// The render intent set on this handle.
    pub fn render(&self) -> (r: bool)
        ensures
            r == self.spec_render(),
    {
        self.render
    }

    /// Sets whether this buffer is to be presented when released. Only a
    /// hardware-backed buffer behind a render target is ever presented.
    pub fn set_render(&mut self, render: bool)
        ensures
            final(self).spec_render() == render,
            final(self).spec_info() == old(self).spec_info(),
            final(self).spec_index() == old(self).spec_index(),
            final(self).spec_using_buffers() == old(self).spec_using_buffers(),
            final(self).spec_data() == old(self).spec_data(),
            final(self).spec_format() == old(self).spec_format(),
            final(self).spec_generation() == old(self).spec_generation(),
            old(self).wf() ==> final(self).wf(),
    {
        self.render = render;
    }

    /// Classifies this buffer as a typed frame by the output format, as
    /// `spec_frame` states; `None` is "no frame available", not an error.
    pub fn frame(&self) -> (r: Option<Frame>)
        ensures
            frame_view(r) == spec_frame(self.spec_format(), self.spec_using_buffers(), self.spec_data()),
    {
        let mime = match self.format.get_string("mime") {
            Some(m) => m,
            None => {
                return None;
            },
        };
        let is_audio: bool;
        if str_contains(mime.as_str(), "audio") {
            is_audio = true;
        } else if str_contains(mime.as_str(), "video") {
            is_audio = false;
        } else {
            return None;
        }
        if is_audio {
            let encoding = match self.format.get_i32("pcm-encoding") {
                Some(e) => e,
                None => {
                    return None;
                },
            };
            let channels = match self.format.get_i32("channel-count") {
                Some(c) => c,
                None => {
                    return None;
                },
            };
            if channels <= 0 {
                return None;
            }
            if encoding == 2 {
                if !self.using_buffers {
                    return None;
                }
                let samples = decode_s16(&self.data);
                Some(Frame::Audio(AudioFrame::new(SampleFormat::S16(samples), channels as u32)))
            } else if encoding == 4 {
                if !self.using_buffers {
                    return None;
                }
                let samples = decode_f32_bits(&self.data);
                Some(
                    Frame::Audio(AudioFrame::new(SampleFormat::F32Bits(samples), channels as u32)),
                )
            } else {
                None
            }
        } else {
            if !self.using_buffers {
                Some(Frame::Video(VideoFrame::Hardware))
            } else {
                Some(Frame::Video(VideoFrame::RawFrame(RawVideoFrame::new(copy_bytes(&self.data)))))
            }
        }
    }

    /// Whether classifying this buffer drops a trailing partial sample:
    /// the data-quality warning that accompanies an audio region whose
    /// byte length is not a multiple of the sample width.
    pub fn frame_truncation_warning(&self) -> (r: bool)
        ensures
            r == spec_frame_warning(
                self.spec_format(),
                self.spec_using_buffers(),
                self.spec_data(),
            ),
    {
        let mime = match self.format.get_string("mime") {
            Some(m) => m,
            None => {
                return false;
            },
        };
        if !str_contains(mime.as_str(), "audio") {
            return false;
        }
        if !self.using_buffers {
            return false;
        }
        let encoding = match self.format.get_i32("pcm-encoding") {
            Some(e) => e,
            None => {
                return false;
            },
        };
        let channels = match self.format.get_i32("channel-count") {
            Some(c) => c,
            None => {
                return false;
            },
        };
        if channels <= 0 {
            return false;
        }
        if encoding == 2 {
            self.data.len() % 2 != 0
        } else if encoding == 4 {
            self.data.len() % 4 != 0
        } else {
            false
        }
    }
}

/// The input capacity a format asks for through its `max-input-size` key;
/// the default when the key is absent or non-positive.
pub open spec fn spec_capacity_of(m: Map<Seq<char>, MediaValueSpec>) -> usize {
    match spec_get_i32(m, "max-input-size"@) {
        Some(v) => if 1 <= v {
            v as usize
        } else {
            DEFAULT_INPUT_CAPACITY
        },
        None => DEFAULT_INPUT_CAPACITY,
    }
}

/// The generation that follows `g`, wrapping at the top of the range.
pub open spec fn spec_next_generation(g: u64) -> u64 {
    if g == u64::MAX {
        0
    } else {
        (g + 1) as u64
    }
}

/// A codec session: one open encode/decode channel over a model device.
#[derive(Debug)]
pub struct MediaCodec {
    state: CodecState,
    using_buffers: bool,
    input_lent: Vec<bool>,
    output_lent: Vec<bool>,
    input_capacity: usize,
    pending: Vec<PendingSample>,
    format: MediaFormat,
    surface: Option<NativeWindow>,
    generation: u64,
}

impl MediaCodec {
    /// The session's state.
    pub closed spec fn spec_state(&self) -> CodecState {
        self.state
    }

    /// Whether the session hands out CPU-visible buffers (no render
    /// target was attached at configure time).
    pub closed spec fn spec_using_buffers(&self) -> bool {
        self.using_buffers
    }

    /// Which input slots are lent out.
    pub closed spec fn spec_input_lent(&self) -> Seq<bool> {
        self.input_lent@
    }

    /// Which output slots are lent out.
    pub closed spec fn spec_output_lent(&self) -> Seq<bool> {
        self.output_lent@
    }

    /// The capacity of each input buffer, in bytes.
    pub closed spec fn spec_capacity(&self) -> usize {
        self.input_capacity
    }

    /// The samples submitted and not yet drained, oldest first.
    pub closed spec fn spec_pending(&self) -> Seq<PendingSampleSpec> {
        self.pending@.map_values(|p: PendingSample| p@)
    }

    /// The negotiated format's map.
    pub closed spec fn spec_format(&self) -> Map<Seq<char>, MediaValueSpec> {
        self.format@
    }

    /// The render target attached at configure time, if any.
    pub closed spec fn spec_surface(&self) -> Option<NativeWindow> {
        self.surface
    }

    /// The session generation: bumped by a flush or stop, so that handles
    /// issued before are rejected when given back.
    pub closed spec fn spec_generation(&self) -> u64 {
        self.generation
    }

    /// A session's slots exist once it is configured; every pending
    /// sample fits the input capacity and carries a presentation time
    /// that fits a signed 64-bit microsecond count.
    pub open spec fn wf(&self) -> bool {
        &&& (self.spec_state() is Created ==> {
            &&& self.spec_input_lent().len() == 0
            &&& self.spec_output_lent().len() == 0
            &&& self.spec_pending().len() == 0
        })
        &&& (!(self.spec_state() is Created) ==> {
            &&& self.spec_input_lent().len() == INPUT_SLOT_COUNT
            &&& self.spec_output_lent().len() == OUTPUT_SLOT_COUNT
            &&& 1 <= self.spec_capacity() <= MAX_INPUT_CAPACITY
        })
        &&& (forall|i: int|
            0 <= i < self.spec_pending().len() ==> {
                &&& (#[trigger] self.spec_pending()[i]).data.len() <= self.spec_capacity()
                &&& self.spec_pending()[i].time <= i64::MAX as u64
            })
    }
}

/// What every session operation leaves untouched unless it says
/// otherwise: state, buffer mode, capacity, format, render target and
/// generation.
pub open spec fn spec_session_core_unchanged(pre: MediaCodec, post: MediaCodec) -> bool {
    &&& post.spec_state() == pre.spec_state()
    &&& post.spec_using_buffers() == pre.spec_using_buffers()
    &&& post.spec_capacity() == pre.spec_capacity()
    &&& post.spec_format() == pre.spec_format()
    &&& post.spec_surface() == pre.spec_surface()
    &&& post.spec_generation() == pre.spec_generation()
}

/// A successful input acquisition: the first free input slot is lent out,
/// and the handle is fresh — zeroed backing memory of the session's
/// capacity, nothing written, the current generation.
pub open spec fn dequeue_input_ok(pre: MediaCodec, post: MediaCodec, b: CodecInputBuffer) -> bool {
    let i = b.spec_index() as int;
    &&& pre.spec_state() is Started
    &&& 0 <= i < pre.spec_input_lent().len()
    &&& !pre.spec_input_lent()[i]
    &&& (forall|k: int| 0 <= k < i ==> pre.spec_input_lent()[k])
    &&& post.spec_input_lent() == pre.spec_input_lent().update(i, true)
    &&& post.spec_output_lent() == pre.spec_output_lent()
    &&& post.spec_pending() == pre.spec_pending()
    &&& spec_session_core_unchanged(pre, post)
    &&& b.spec_data() == Seq::new(pre.spec_capacity() as nat, |j: int| 0u8)
    &&& b.spec_write_size() == 0
    &&& b.spec_time() == 0
    &&& b.spec_flags() == 0
    &&& b.spec_generation() == pre.spec_generation()
}

/// When a session accepts a returned input handle: it must be running,
/// the handle current, its slot lent, and the written prefix within the
/// capacity.
pub open spec fn queue_input_accepts(c: MediaCodec, b: CodecInputBuffer) -> bool {
    &&& c.spec_state() is Started
    &&& b.spec_generation() == c.spec_generation()
    &&& b.spec_index() < c.spec_input_lent().len()
    &&& c.spec_input_lent()[b.spec_index() as int]
    &&& b.spec_write_size() <= c.spec_capacity()
}

/// A successful input submission: the slot is returned and the written
/// prefix is queued as one sample with the handle's time and flags.
pub open spec fn queue_input_ok(pre: MediaCodec, post: MediaCodec, b: CodecInputBuffer) -> bool {
    &&& queue_input_accepts(pre, b)
    &&& post.spec_input_lent() == pre.spec_input_lent().update(b.spec_index() as int, false)
    &&& post.spec_output_lent() == pre.spec_output_lent()
    &&& post.spec_pending() == pre.spec_pending().push(
        (PendingSampleSpec {
            data: b.spec_data().take(b.spec_write_size() as int),
            time: b.spec_time(),
            flags: b.spec_flags(),
        }),
    )
    &&& spec_session_core_unchanged(pre, post)
}

/// A successful output drain: the oldest submitted sample leaves the
/// queue through the first free output slot, its metadata set from the
/// sample; the handle carries the bytes only when the session uses
/// CPU-visible buffers.
pub open spec fn dequeue_output_ok(pre: MediaCodec, post: MediaCodec, b: CodecOutputBuffer) -> bool {
    let j = b.spec_index() as int;
    let s = pre.spec_pending()[0];
    &&& pre.spec_state() is Started
    &&& pre.spec_pending().len() > 0
    &&& 0 <= j < pre.spec_output_lent().len()
    &&& !pre.spec_output_lent()[j]
    &&& (forall|k: int| 0 <= k < j ==> pre.spec_output_lent()[k])
    &&& post.spec_output_lent() == pre.spec_output_lent().update(j, true)
    &&& post.spec_input_lent() == pre.spec_input_lent()
    &&& post.spec_pending() == pre.spec_pending().drop_first()
    &&& spec_session_core_unchanged(pre, post)
    &&& b.spec_info() == (BufferInfo {
        offset: 0,
        size: s.data.len() as i32,
        presentation_time_us: s.time as i64,
        flags: s.flags,
    })
    &&& b.spec_using_buffers() == pre.spec_using_buffers()
    &&& b.spec_data() == (if pre.spec_using_buffers() {
        s.data
    } else {
        Seq::<u8>::empty()
    })
    &&& b.spec_format() == pre.spec_format()
    &&& !b.spec_render()
    &&& b.spec_generation() == pre.spec_generation()
}

/// When a session accepts a returned output handle.
pub open spec fn release_output_accepts(c: MediaCodec, b: CodecOutputBuffer) -> bool {
    &&& c.spec_state() is Started
    &&& b.spec_generation() == c.spec_generation()
    &&& b.spec_index() < c.spec_output_lent().len()
    &&& c.spec_output_lent()[b.spec_index() as int]
}

/// A successful output release: the slot is returned; everything else is
/// untouched.
pub open spec fn release_output_ok(pre: MediaCodec, post: MediaCodec, b: CodecOutputBuffer) -> bool {
    &&& release_output_accepts(pre, b)
    &&& post.spec_output_lent() == pre.spec_output_lent().update(b.spec_index() as int, false)
    &&& post.spec_input_lent() == pre.spec_input_lent()
    &&& post.spec_pending() == pre.spec_pending()
    &&& spec_session_core_unchanged(pre, post)
}

/// A fresh session: created, nothing configured, generation zero.
pub open spec fn spec_fresh_session(c: MediaCodec) -> bool {
    &&& c.spec_state() is Created
    &&& !c.spec_using_buffers()
    &&& c.spec_input_lent().len() == 0
    &&& c.spec_output_lent().len() == 0
    &&& c.spec_pending().len() == 0
    &&& c.spec_format() == Map::<Seq<char>, MediaValueSpec>::empty()
    &&& c.spec_surface() is None
    &&& c.spec_generation() == 0
    &&& c.wf()
}

impl MediaCodec {
    /// A fresh session. The model device exists for every codec name; the
    /// name picks an implementation only on a real device.
    pub fn new(_name: &str) -> (r: Option<MediaCodec>)
        ensures
            r matches Some(c) && spec_fresh_session(c),
    {
        Some(Self::fresh())
    }

    /// A fresh decoding session for a mime type.
    pub fn create_decoder(_mime_type: &str) -> (r: Option<MediaCodec>)
        ensures
            r matches Some(c) && spec_fresh_session(c),
    {
        Some(Self::fresh())
    }

    /// A fresh encoding session for a mime type.
    pub fn create_encoder(_mime_type: &str) -> (r: Option<MediaCodec>)
        ensures
            r matches Some(c) && spec_fresh_session(c),
    {
        Some(Self::fresh())
    }

    /// The fresh session every creation path returns.
    fn fresh() -> (r: MediaCodec)
        ensures
            spec_fresh_session(r),
    {
        let empty_format = MediaFormat::empty();
        let r = MediaCodec {
            state: CodecState::Created,
            using_buffers: false,
            input_lent: Vec::new(),
            output_lent: Vec::new(),
            input_capacity: 0,
            pending: Vec::new(),
            format: empty_format,
            surface: None,
            generation: 0,
        };
        r
    }

    /// Configures the session: stores the format snapshot, attaches the
    /// render target if one is given (the session then works in hardware
    /// buffers), sizes the input buffers from the format's
    /// `max-input-size` key, and readies the slots. Only a freshly
    /// created session can be configured. The `flags` argument is the
    /// device's configure flags; the model device has no use for them.
    pub fn init(
        &mut self,
        format: &MediaFormat,
        surface: Option<NativeWindow>,
        _flags: u32,
    ) -> (r: Result<(), MediaStatus>)
        requires
            old(self).wf(),
        ensures
            final(self).wf(),
            r is Ok <==> old(self).spec_state() is Created,
            match r {
                Ok(_) => {
                    &&& final(self).spec_state() is Configured
                    &&& final(self).spec_using_buffers() == (surface is None)
                    &&& final(self).spec_surface() == surface
                    &&& final(self).spec_format() == format@
                    &&& final(self).spec_capacity() == spec_capacity_of(format@)
                    &&& final(self).spec_input_lent() == Seq::new(
                        INPUT_SLOT_COUNT as nat,
                        |i: int| false,
                    )
                    &&& final(self).spec_output_lent() == Seq::new(
                        OUTPUT_SLOT_COUNT as nat,
                        |i: int| false,
                    )
                    &&& final(self).spec_pending().len() == 0
                    &&& final(self).spec_generation() == old(self).spec_generation()
                },
                Err(e) => {
                    &&& *final(self) == *old(self)
                    &&& e == MediaStatus::ErrorInvalidOperation
                },
            },
    {
        match self.state {
            CodecState::Created => {},
            _ => {
                return Err(MediaStatus::ErrorInvalidOperation);
            },
        }
        self.using_buffers = surface.is_none();
        self.surface = surface;
        let capacity = match format.get_i32("max-input-size") {
            Some(v) => if v >= 1 {
                v as usize
            } else {
                DEFAULT_INPUT_CAPACITY
            },
            None => DEFAULT_INPUT_CAPACITY,
        };
        self.input_capacity = capacity;
        self.format = format.clone();
        self.input_lent = make_free_flags(INPUT_SLOT_COUNT);
        self.output_lent = make_free_flags(OUTPUT_SLOT_COUNT);
        self.pending = Vec::new();
        self.state = CodecState::Configured;
        Ok(())
    }

    /// Starts the session; only a configured session can start.
    pub fn start(&mut self) -> (r: Result<(), MediaStatus>)
        requires
            old(self).wf(),
        ensures
            final(self).wf(),
            r is Ok <==> old(self).spec_state() is Configured,
            match r {
                Ok(_) => {
                    &&& final(self).spec_state() is Started
                    &&& final(self).spec_input_lent() == old(self).spec_input_lent()
                    &&& final(self).spec_output_lent() == old(self).spec_output_lent()
                    &&& final(self).spec_pending() == old(self).spec_pending()
                    &&& final(self).spec_using_buffers() == old(self).spec_using_buffers()
                    &&& final(self).spec_capacity() == old(self).spec_capacity()
                    &&& final(self).spec_format() == old(self).spec_format()
                    &&& final(self).spec_surface() == old(self).spec_surface()
                    &&& final(self).spec_generation() == old(self).spec_generation()
                },
                Err(e) => {
                    &&& *final(self) == *old(self)
                    &&& e == MediaStatus::ErrorInvalidOperation
                },
            },
    {
        match self.state {
            CodecState::Configured => {},
            _ => {
                return Err(MediaStatus::ErrorInvalidOperation);
            },
        }
        self.state = CodecState::Started;
        Ok(())
    }

    /// Stops the session. Every slot is reclaimed, the submitted samples
    /// are discarded, and the generation is bumped so that outstanding
    /// handles are rejected when given back. Only a started session can
    /// stop.
    pub fn stop(&mut self) -> (r: Result<(), MediaStatus>)
        requires
            old(self).wf(),
        ensures
            final(self).wf(),
            r is Ok <==> old(self).spec_state() is Started,
            match r {
                Ok(_) => {
                    &&& final(self).spec_state() is Stopped
                    &&& final(self).spec_input_lent() == Seq::new(
                        old(self).spec_input_lent().len(),
                        |i: int| false,
                    )
                    &&& final(self).spec_output_lent() == Seq::new(
                        old(self).spec_output_lent().len(),
                        |i: int| false,
                    )
                    &&& final(self).spec_pending().len() == 0
                    &&& final(self).spec_generation() == spec_next_generation(
                        old(self).spec_generation(),
                    )
                    &&& final(self).spec_using_buffers() == old(self).spec_using_buffers()
                    &&& final(self).spec_capacity() == old(self).spec_capacity()
                    &&& final(self).spec_format() == old(self).spec_format()
                    &&& final(self).spec_surface() == old(self).spec_surface()
                },
                Err(e) => {
                    &&& *final(self) == *old(self)
                    &&& e == MediaStatus::ErrorInvalidOperation
                },
            },
    {
        match self.state {
            CodecState::Started => {},
            _ => {
                return Err(MediaStatus::ErrorInvalidOperation);
            },
        }
        clear_flags(&mut self.input_lent);
        clear_flags(&mut self.output_lent);
        self.pending.clear();
        self.generation = if self.generation == u64::MAX {
            0
        } else {
            self.generation + 1
        };
        self.state = CodecState::Stopped;
        proof {
            assert(self.pending@.map_values(|p: PendingSample| p@) =~= Seq::<
                PendingSampleSpec,
            >::empty());
        }
        Ok(())
    }

    /// Flushes the session: every slot is reclaimed, the submitted
    /// samples are discarded, and the generation is bumped so that every
    /// buffer index issued before the flush is rejected when given back.
    /// The session keeps running. Only a started session can flush.
    pub fn flush(&mut self) -> (r: Result<(), MediaStatus>)
        requires
            old(self).wf(),
        ensures
            final(self).wf(),
            r is Ok <==> old(self).spec_state() is Started,
            match r {
                Ok(_) => {
                    &&& final(self).spec_state() is Started
                    &&& final(self).spec_input_lent() == Seq::new(
                        old(self).spec_input_lent().len(),
                        |i: int| false,
                    )
                    &&& final(self).spec_output_lent() == Seq::new(
                        old(self).spec_output_lent().len(),
                        |i: int| false,
                    )
                    &&& final(self).spec_pending().len() == 0
                    &&& final(self).spec_generation() == spec_next_generation(
                        old(self).spec_generation(),
                    )
                    &&& final(self).spec_using_buffers() == old(self).spec_using_buffers()
                    &&& final(self).spec_capacity() == old(self).spec_capacity()
                    &&& final(self).spec_format() == old(self).spec_format()
                    &&& final(self).spec_surface() == old(self).spec_surface()
                },
                Err(e) => {
                    &&& *final(self) == *old(self)
                    &&& e == MediaStatus::ErrorInvalidOperation
                },
            },
    {
        match self.state {
            CodecState::Started => {},
            _ => {
                return Err(MediaStatus::ErrorInvalidOperation);
            },
        }
        clear_flags(&mut self.input_lent);
        clear_flags(&mut self.output_lent);
        self.pending.clear();
        self.generation = if self.generation == u64::MAX {
            0
        } else {
            self.generation + 1
        };
        proof {
            assert(self.pending@.map_values(|p: PendingSample| p@) =~= Seq::<
                PendingSampleSpec,
            >::empty());
        }
        Ok(())
    }

    /// The session's output format: a snapshot of the format it was
    /// configured with, once it has one.
    pub fn output_format(&self) -> (r: Option<MediaFormat>)
        ensures
            match r {
                Some(f) => !(self.spec_state() is Created) && f@ == self.spec_format(),
                None => self.spec_state() is Created,
            },
    {
        match self.state {
            CodecState::Created => None,
            _ => Some(self.format.clone()),
        }
    }

    /// Replaces the render target. Fails when the session was not
    /// configured with a render target originally.
    pub fn set_output_surface(&mut self, window: NativeWindow) -> (r: bool)
        ensures
            r == !old(self).spec_using_buffers(),
            !old(self).spec_using_buffers() ==> final(self).spec_surface() == Some(window),
            old(self).spec_using_buffers() ==> *final(self) == *old(self),
            final(self).spec_state() == old(self).spec_state(),
            final(self).spec_using_buffers() == old(self).spec_using_buffers(),
            final(self).spec_input_lent() == old(self).spec_input_lent(),
            final(self).spec_output_lent() == old(self).spec_output_lent(),
            final(self).spec_pending() == old(self).spec_pending(),
            final(self).spec_capacity() == old(self).spec_capacity(),
            final(self).spec_format() == old(self).spec_format(),
            final(self).spec_generation() == old(self).spec_generation(),
            old(self).wf() ==> final(self).wf(),
    {
        if self.using_buffers {
            return false;
        }
        self.surface = Some(window);
        proof {
            assert(self.spec_pending() == old(self).spec_pending());
            assert(self.spec_state() == old(self).spec_state());
            assert(self.spec_input_lent() == old(self).spec_input_lent());
            assert(self.spec_capacity() == old(self).spec_capacity());
        }
        true
    }

    /// Acquires a free input buffer slot as an exclusively owned handle.
    /// `ErrorWouldBlock` reports a starved slot queue — transient, not a
    /// failure; on a session that is not running the call is an invalid
    /// operation.
    pub fn dequeue_input(&mut self) -> (r: Result<CodecInputBuffer, MediaStatus>)
        requires
            old(self).wf(),
        ensures
            final(self).wf(),
            r is Ok <==> (old(self).spec_state() is Started && count_lent(
                old(self).spec_input_lent(),
            ) < old(self).spec_input_lent().len()),
            match r {
                Ok(b) => dequeue_input_ok(*old(self), *final(self), b) && b.wf(),
                Err(e) => *final(self) == *old(self) && (if old(self).spec_state() is Started {
                    e == MediaStatus::ErrorWouldBlock
                } else {
                    e == MediaStatus::ErrorInvalidOperation
                }),
            },
    {
        match self.state {
            CodecState::Started => {},
            _ => {
                return Err(MediaStatus::ErrorInvalidOperation);
            },
        }
        let n = self.input_lent.len();
        let mut i: usize = 0;
        while i < n
            invariant
                *self == *old(self),
                old(self).wf(),
                old(self).spec_state() is Started,
                i <= n,
                n == self.input_lent@.len(),
                forall|k: int| 0 <= k < i ==> self.input_lent@[k],
            decreases n - i,
        {
            if !self.input_lent[i] {
                proof {
                    lemma_count_lent_not_full(self.input_lent@, i as int);
                }
                self.input_lent.set(i, true);
                let data = make_bytes(self.input_capacity);
                let b = CodecInputBuffer::new(i, data, self.generation);
                proof {
                    assert(self.spec_input_lent() == old(self).spec_input_lent().update(
                        i as int,
                        true,
                    ));
                    assert(self.spec_pending() == old(self).spec_pending());
                    assert(self.spec_state() == old(self).spec_state());
                    assert(self.spec_capacity() == old(self).spec_capacity());
                    assert(self.spec_format() == old(self).spec_format());
                }
                return Ok(b);
            }
            i = i + 1;
        }
        proof {
            lemma_count_lent_all(self.input_lent@);
        }
        Err(MediaStatus::ErrorWouldBlock)
    }

    /// Gives an input handle back to the session, which submits its
    /// written prefix as one sample: releasing is the submission. A
    /// handle from another generation (issued before a flush or stop) is
    /// rejected defensively, as is a slot that is not out.
    pub fn queue_input(&mut self, buffer: CodecInputBuffer) -> (r: Result<(), MediaStatus>)
        requires
            old(self).wf(),
            buffer.wf(),
        ensures
            final(self).wf(),
            r is Ok <==> queue_input_accepts(*old(self), buffer),
            match r {
                Ok(_) => queue_input_ok(*old(self), *final(self), buffer),
                Err(e) => *final(self) == *old(self) && (if !(old(self).spec_state() is Started)
                    || buffer.spec_generation() != old(self).spec_generation()
                    || buffer.spec_index() >= old(self).spec_input_lent().len() || !old(
                    self,
                ).spec_input_lent()[buffer.spec_index() as int] {
                    e == MediaStatus::ErrorInvalidOperation
                } else {
                    e == MediaStatus::ErrorInvalidParameter
                }),
            },
    {
        match self.state {
            CodecState::Started => {},
            _ => {
                return Err(MediaStatus::ErrorInvalidOperation);
            },
        }
        if buffer.generation != self.generation {
            return Err(MediaStatus::ErrorInvalidOperation);
        }
        if buffer.index >= self.input_lent.len() {
            return Err(MediaStatus::ErrorInvalidOperation);
        }
        if !self.input_lent[buffer.index] {
            return Err(MediaStatus::ErrorInvalidOperation);
        }
        if buffer.write_size > self.input_capacity {
            return Err(MediaStatus::ErrorInvalidParameter);
        }
        self.input_lent.set(buffer.index, false);
        let ghost pending_pre = self.pending@;
        let sample_data = take_prefix(&buffer.data, buffer.write_size);
        self.pending.push(
            PendingSample { data: sample_data, time: buffer.time, flags: buffer.flags },
        );
        proof {
            assert(self.spec_pending() =~= old(self).spec_pending().push(
                (PendingSampleSpec {
                    data: buffer.spec_data().take(buffer.spec_write_size() as int),
                    time: buffer.spec_time(),
                    flags: buffer.spec_flags(),
                }),
            ));
            assert(self.spec_input_lent() == old(self).spec_input_lent().update(
                buffer.spec_index() as int,
                false,
            ));
            assert(self.spec_state() == old(self).spec_state());
            assert(self.spec_capacity() == old(self).spec_capacity());
            assert(self.spec_format() == old(self).spec_format());
            assert(self.spec_output_lent() == old(self).spec_output_lent());
        }
        Ok(())
    }

    /// Drains the oldest submitted sample as an output buffer through a
    /// free output slot. `ErrorWouldBlock` reports that nothing is ready
    /// or that every output slot is out — transient, not a failure.
    pub fn dequeue_output(&mut self) -> (r: Result<CodecOutputBuffer, MediaStatus>)
        requires
            old(self).wf(),
        ensures
            final(self).wf(),
            r is Ok <==> (old(self).spec_state() is Started && old(self).spec_pending().len() > 0
                && count_lent(old(self).spec_output_lent()) < old(
                self,
            ).spec_output_lent().len()),
            match r {
                Ok(b) => dequeue_output_ok(*old(self), *final(self), b) && b.wf(),
                Err(e) => *final(self) == *old(self) && (if old(self).spec_state() is Started {
                    e == MediaStatus::ErrorWouldBlock
                } else {
                    e == MediaStatus::ErrorInvalidOperation
                }),
            },
    {
        match self.state {
            CodecState::Started => {},
            _ => {
                return Err(MediaStatus::ErrorInvalidOperation);
            },
        }
        if self.pending.len() == 0 {
            return Err(MediaStatus::ErrorWouldBlock);
        }
        let n = self.output_lent.len();
        let mut j: usize = 0;
        while j < n
            invariant
                *self == *old(self),
                old(self).wf(),
                old(self).spec_state() is Started,
                self.pending@.len() > 0,
                j <= n,
                n == self.output_lent@.len(),
                forall|k: int| 0 <= k < j ==> self.output_lent@[k],
            decreases n - j,
        {
            if !self.output_lent[j] {
                proof {
                    lemma_count_lent_not_full(self.output_lent@, j as int);
                    assert(self.spec_pending()[0] == self.pending@[0]@);
                    assert(self.spec_pending()[0].time <= i64::MAX as u64);
                    assert(self.spec_pending()[0].data.len() <= self.spec_capacity());
                }
                self.output_lent.set(j, true);
                let ghost pending_pre = self.pending@;
                let sample = self.pending.remove(0);
                let size: i32 = sample.data.len() as i32;
                let time: i64 = sample.time as i64;
                let info = BufferInfo {
                    offset: 0,
                    size,
                    presentation_time_us: time,
                    flags: sample.flags,
                };
                let data = if self.using_buffers {
                    sample.data
                } else {
                    Vec::new()
                };
                let format = self.format.clone();
                let b = CodecOutputBuffer::new(
                    info,
                    j,
                    self.using_buffers,
                    data,
                    format,
                    self.generation,
                );
                proof {
                    assert(self.spec_pending() =~= old(self).spec_pending().drop_first());
                    assert(self.spec_output_lent() == old(self).spec_output_lent().update(
                        j as int,
                        true,
                    ));
                    assert(self.spec_input_lent() == old(self).spec_input_lent());
                    assert(self.spec_state() == old(self).spec_state());
                    assert(self.spec_capacity() == old(self).spec_capacity());
                    assert(self.spec_format() == old(self).spec_format());
                }
                return Ok(b);
            }
            j = j + 1;
        }
        proof {
            lemma_count_lent_all(self.output_lent@);
        }
        Err(MediaStatus::ErrorWouldBlock)
    }

    /// Gives an output handle back to the session, returning its slot.
    /// On a real device the frame is presented now when the handle's
    /// render intent is set and a render target is attached; presenting
    /// is the platform's work and leaves no trace in the model. A stale
    /// or unknown handle is rejected defensively.
    pub fn release_output(&mut self, buffer: CodecOutputBuffer) -> (r: Result<(), MediaStatus>)
        requires
            old(self).wf(),
        ensures
            final(self).wf(),
            r is Ok <==> release_output_accepts(*old(self), buffer),
            match r {
                Ok(_) => release_output_ok(*old(self), *final(self), buffer),
                Err(e) => *final(self) == *old(self) && e == MediaStatus::ErrorInvalidOperation,
            },
    {
        match self.state {
            CodecState::Started => {},
            _ => {
                return Err(MediaStatus::ErrorInvalidOperation);
            },
        }
        if buffer.generation != self.generation {
            return Err(MediaStatus::ErrorInvalidOperation);
        }
        if buffer.index >= self.output_lent.len() {
            return Err(MediaStatus::ErrorInvalidOperation);
        }
        if !self.output_lent[buffer.index] {
            return Err(MediaStatus::ErrorInvalidOperation);
        }
        self.output_lent.set(buffer.index, false);
        proof {
            assert(self.spec_output_lent() == old(self).spec_output_lent().update(
                buffer.spec_index() as int,
                false,
            ));
            assert(self.spec_input_lent() == old(self).spec_input_lent());
            assert(self.spec_pending() == old(self).spec_pending());
            assert(self.spec_state() == old(self).spec_state());
            assert(self.spec_capacity() == old(self).spec_capacity());
        }
        Ok(())
    }

    /// The session's state.
    pub fn state(&self) -> (r: CodecState)
        ensures
            r == self.spec_state(),
    {
        self.state
    }

    /// Whether the session hands out CPU-visible buffers.
    pub fn using_buffers(&self) -> (r: bool)
        ensures
            r == self.spec_using_buffers(),
    {
        self.using_buffers
    }

    /// The capacity of each input buffer, in bytes.
    pub fn input_capacity(&self) -> (r: usize)
        ensures
            r == self.spec_capacity(),
    {
        self.input_capacity
    }

    /// The session generation.
    pub fn generation(&self) -> (r: u64)
        ensures
            r == self.spec_generation(),
    {
        self.generation
    }

    /// How many input slots are lent out.
    pub fn lent_input_count(&self) -> (r: usize)
        ensures
            r as int == count_lent(self.spec_input_lent()),
    {
        count_lent_exec(&self.input_lent)
    }

    /// How many output slots are lent out.
    pub fn lent_output_count(&self) -> (r: usize)
        ensures
            r as int == count_lent(self.spec_output_lent()),
    {
        count_lent_exec(&self.output_lent)
    }

    /// How many submitted samples wait to be drained.
    pub fn pending_output_count(&self) -> (r: usize)
        ensures
            r == self.spec_pending().len(),
    {
        self.pending.len()
    }
}

/// Acquiring a buffer and releasing it back without writing data submits
/// a zero-length sample, and the lent-slot count returns to its value
/// before the acquisition: handle release is leak-free.
pub proof fn lemma_release_without_write(
    c0: MediaCodec,
    c1: MediaCodec,
    c2: MediaCodec,
    b: CodecInputBuffer,
)
    requires
        dequeue_input_ok(c0, c1, b),
        queue_input_ok(c1, c2, b),
    ensures
        c2.spec_input_lent() == c0.spec_input_lent(),
        count_lent(c2.spec_input_lent()) == count_lent(c0.spec_input_lent()),
        c2.spec_pending() == c0.spec_pending().push(
            (PendingSampleSpec { data: Seq::<u8>::empty(), time: 0, flags: 0 }),
        ),
{
    let i = b.spec_index() as int;
    assert(c2.spec_input_lent() =~= c0.spec_input_lent());
    assert(b.spec_data().take(0) =~= Seq::<u8>::empty());
    assert(c2.spec_pending() =~= c0.spec_pending().push(
        (PendingSampleSpec { data: Seq::<u8>::empty(), time: 0, flags: 0 }),
    ));
}

/// How many flags of a vector are set.
fn count_lent_exec(v: &Vec<bool>) -> (r: usize)
    ensures
        r as int == count_lent(v@),
{
    let n = v.len();
    let mut count: usize = 0;
    let mut i: usize = 0;
    proof {
        assert(v@.take(0) =~= Seq::<bool>::empty());
    }
    while i < n
        invariant
            i <= n,
            n == v@.len(),
            count <= i,
            count as int == count_lent(v@.take(i as int)),
        decreases n - i,
    {
        proof {
            assert(v@.take(i as int + 1).drop_last() =~= v@.take(i as int));
            assert(v@.take(i as int + 1).last() == v@[i as int]);
        }
        if v[i] {
            count = count + 1;
        }
        i = i + 1;
    }
    proof {
        assert(v@.take(n as int) =~= v@);
    }
    count
}

} // verus!
