//! Mux sessions: assembly of encoded tracks into an output container,
//! with the ordering rules the container collaborator demands.
//!
//! Tracks are added first; `start` then applies the stored geodata and
//! orientation atomically and opens the session; samples can be written
//! only while it is open; `stop` consumes the session — it cannot be
//! restarted. Out-of-range geodata and unsupported orientation hints are
//! silently ignored, last valid value wins. Writing the container bytes
//! to their destination is the caller's (unverified) concern; the session
//! records every accepted sample in order.

use vstd::prelude::*;
use crate::codec::BufferInfo;
use crate::error::MediaStatus;
use crate::format::{MediaFormat, MediaValueSpec};

verus! {

/// Container formats a mux session can assemble.
#[derive(Clone, Copy, Debug, PartialEq, Eq, Structural)]
pub enum OutputFormat {
    Mpeg4,
    Webm,
    ThreeGpp,
}

/// The states of a mux session.
#[derive(Clone, Copy, Debug, PartialEq, Eq, Structural)]
pub enum MuxerState {
    Uninitialized,
    Started,
}

/// Largest latitude a session stores, in micro-degrees (inclusive).
pub const LATITUDE_MAX_MICRO: i32 = 90_000_000;

/// Largest longitude a session stores, in micro-degrees (inclusive).
pub const LONGITUDE_MAX_MICRO: i32 = 180_000_000;

/// The largest number of tracks a session accepts.
pub const MAX_MUX_TRACKS: usize = 0x7fff_ffff;

/// One sample accepted by `write_sample_data`.
#[derive(Debug)]
pub(crate) struct WrittenSample {
    pub(crate) track_index: usize,
    pub(crate) data: Vec<u8>,
    pub(crate) info: BufferInfo,
}

/// The mathematical value of a written sample.
#[verifier::ext_equal]
pub struct WrittenSampleSpec {
    pub track_index: usize,
    pub data: Seq<u8>,
    pub info: BufferInfo,
}

impl View for WrittenSample {
    type V = WrittenSampleSpec;

    closed spec fn view(&self) -> WrittenSampleSpec {
        WrittenSampleSpec { track_index: self.track_index, data: self.data@, info: self.info }
    }
}

/// A mux session.
#[derive(Debug)]
pub struct MediaMuxer {
    output_format: OutputFormat,
    latitude_micro: i32,
    longitude_micro: i32,
    orientation_hint: i32,
    track_formats: Vec<MediaFormat>,
    state: MuxerState,
    written: Vec<WrittenSample>,
}

impl MediaMuxer {
    /// The container format this session assembles.
    pub closed spec fn spec_output_format(&self) -> OutputFormat {
        self.output_format
    }

    /// The stored latitude, in micro-degrees.
    pub closed spec fn spec_latitude_micro(&self) -> i32 {
        self.latitude_micro
    }

    /// The stored longitude, in micro-degrees.
    pub closed spec fn spec_longitude_micro(&self) -> i32 {
        self.longitude_micro
    }

    /// The stored orientation hint, in degrees clockwise.
    pub closed spec fn spec_orientation_hint(&self) -> i32 {
        self.orientation_hint
    }

    /// The formats of the added tracks, in order.
    pub closed spec fn spec_track_formats(&self) -> Seq<Map<Seq<char>, MediaValueSpec>> {
        self.track_formats@.map_values(|f: MediaFormat| f@)
    }

    /// The session's state.
    pub closed spec fn spec_state(&self) -> MuxerState {
        self.state
    }

    /// The samples accepted so far, in write order.
    pub closed spec fn spec_written(&self) -> Seq<WrittenSampleSpec> {
        self.written@.map_values(|s: WrittenSample| s@)
    }

    /// The stored geodata and hint are within their ranges and the track
    /// count within the session's space.
    pub open spec fn wf(&self) -> bool {
        &&& -LATITUDE_MAX_MICRO <= self.spec_latitude_micro() <= LATITUDE_MAX_MICRO
        &&& -LONGITUDE_MAX_MICRO <= self.spec_longitude_micro() <= LONGITUDE_MAX_MICRO
        &&& (self.spec_orientation_hint() == 0 || self.spec_orientation_hint() == 90
            || self.spec_orientation_hint() == 180 || self.spec_orientation_hint() == 270)
        &&& self.spec_track_formats().len() <= MAX_MUX_TRACKS
    }

    /// A new session for a container format: no tracks, geodata and
    /// orientation at zero, not yet started. Where the container goes —
    /// a file descriptor on a real device — is its owner's business.
    pub fn new(output_format: OutputFormat) -> (r: Option<MediaMuxer>)
        ensures
            r matches Some(m) && {
                &&& m.wf()
                &&& m.spec_output_format() == output_format
                &&& m.spec_latitude_micro() == 0
                &&& m.spec_longitude_micro() == 0
                &&& m.spec_orientation_hint() == 0
                &&& m.spec_track_formats().len() == 0
                &&& m.spec_state() is Uninitialized
                &&& m.spec_written().len() == 0
            },
    {
        let m = MediaMuxer {
            output_format,
            latitude_micro: 0,
            longitude_micro: 0,
            orientation_hint: 0,
            track_formats: Vec::new(),
            state: MuxerState::Uninitialized,
            written: Vec::new(),
        };
        proof {
            assert(m.spec_track_formats() =~= Seq::<Map<Seq<char>, MediaValueSpec>>::empty());
            assert(m.spec_written() =~= Seq::<WrittenSampleSpec>::empty());
        }
        Some(m)
    }

    /// Stores the geodata, in micro-degrees. An out-of-range coordinate
    /// is silently ignored — the prior value stays; the range bounds are
    /// inclusive. Each coordinate is judged on its own.
    pub fn set_location(&mut self, latitude_micro: i32, longitude_micro: i32)
        requires
            old(self).wf(),
        ensures
            final(self).wf(),
            final(self).spec_latitude_micro() == (if -LATITUDE_MAX_MICRO <= latitude_micro
                <= LATITUDE_MAX_MICRO {
                latitude_micro
            } else {
                old(self).spec_latitude_micro()
            }),
            final(self).spec_longitude_micro() == (if -LONGITUDE_MAX_MICRO <= longitude_micro
                <= LONGITUDE_MAX_MICRO {
                longitude_micro
            } else {
                old(self).spec_longitude_micro()
            }),
            final(self).spec_orientation_hint() == old(self).spec_orientation_hint(),
            final(self).spec_track_formats() == old(self).spec_track_formats(),
            final(self).spec_state() == old(self).spec_state(),
            final(self).spec_written() == old(self).spec_written(),
            final(self).spec_output_format() == old(self).spec_output_format(),
    {
        if -LATITUDE_MAX_MICRO <= latitude_micro && latitude_micro <= LATITUDE_MAX_MICRO {
            self.latitude_micro = latitude_micro;
        }
        if -LONGITUDE_MAX_MICRO <= longitude_micro && longitude_micro <= LONGITUDE_MAX_MICRO {
            self.longitude_micro = longitude_micro;
        }
        proof {
            assert(self.spec_track_formats() =~= old(self).spec_track_formats());
            assert(self.spec_written() =~= old(self).spec_written());
        }
    }

    /// Stores the orientation hint for playback, in degrees clockwise.
    /// Only 0, 90, 180 and 270 are supported; any other angle is ignored
    /// — the prior hint stays.
    pub fn set_orientation_hint(&mut self, degrees: i32)
        requires
            old(self).wf(),
        ensures
            final(self).wf(),
            final(self).spec_orientation_hint() == (if degrees == 0 || degrees == 90 || degrees
                == 180 || degrees == 270 {
                degrees
            } else {
                old(self).spec_orientation_hint()
            }),
            final(self).spec_latitude_micro() == old(self).spec_latitude_micro(),
            final(self).spec_longitude_micro() == old(self).spec_longitude_micro(),
            final(self).spec_track_formats() == old(self).spec_track_formats(),
            final(self).spec_state() == old(self).spec_state(),
            final(self).spec_written() == old(self).spec_written(),
            final(self).spec_output_format() == old(self).spec_output_format(),
    {
        if degrees == 0 || degrees == 90 || degrees == 180 || degrees == 270 {
            self.orientation_hint = degrees;
        }
        proof {
            assert(self.spec_track_formats() =~= old(self).spec_track_formats());
            assert(self.spec_written() =~= old(self).spec_written());
        }
    }

    /// Adds a track with the given format, keeping the descriptor, and
    /// returns the new track's index. Tracks can be added only before
    /// the session starts.
    pub fn add_track(&mut self, format: MediaFormat) -> (r: Result<isize, MediaStatus>)
        requires
            old(self).wf(),
        ensures
            final(self).wf(),
            r is Ok <==> (old(self).spec_state() is Uninitialized && old(
                self,
            ).spec_track_formats().len() < MAX_MUX_TRACKS),
            match r {
                Ok(index) => {
                    &&& index == old(self).spec_track_formats().len() as isize
                    &&& final(self).spec_track_formats() == old(self).spec_track_formats().push(
                        format@,
                    )
                    &&& final(self).spec_state() == old(self).spec_state()
                    &&& final(self).spec_written() == old(self).spec_written()
                    &&& final(self).spec_latitude_micro() == old(self).spec_latitude_micro()
                    &&& final(self).spec_longitude_micro() == old(self).spec_longitude_micro()
                    &&& final(self).spec_orientation_hint() == old(self).spec_orientation_hint()
                    &&& final(self).spec_output_format() == old(self).spec_output_format()
                },
                Err(e) => *final(self) == *old(self) && (if old(self).spec_state() is Started {
                    e == MediaStatus::ErrorInvalidOperation
                } else {
                    e == MediaStatus::ErrorInsufficientResource
                }),
            },
    {
        match self.state {
            MuxerState::Uninitialized => {},
            MuxerState::Started => {
                return Err(MediaStatus::ErrorInvalidOperation);
            },
        }
        if self.track_formats.len() >= MAX_MUX_TRACKS {
            return Err(MediaStatus::ErrorInsufficientResource);
        }
        let index = self.track_formats.len();
        let ghost pre = self.track_formats@;
        self.track_formats.push(format);
        proof {
            assert(self.spec_track_formats() =~= pre.map_values(|f: MediaFormat| f@).push(
                self.track_formats@.last()@,
            ));
            assert(self.spec_written() =~= old(self).spec_written());
        }
        Ok(index as isize)
    }

    /// How many tracks have been added.
    pub fn track_count(&self) -> (r: usize)
        ensures
            r == self.spec_track_formats().len(),
    {
        self.track_formats.len()
    }

    /// The retained format of one track.
    pub fn format(&self, index: usize) -> (r: Option<&MediaFormat>)
        ensures
            index < self.spec_track_formats().len() ==> (r matches Some(f) && f@
                == self.spec_track_formats()[index as int]),
            index >= self.spec_track_formats().len() ==> r is None,
    {
        if index >= self.track_formats.len() {
            return None;
        }
        Some(&self.track_formats[index])
    }

    /// Starts the session: applies the stored geodata and orientation
    /// atomically and opens it for writing. Idempotent once started;
    /// fails when no track has been added.
    pub fn start(&mut self) -> (r: Result<(), MediaStatus>)
        requires
            old(self).wf(),
        ensures
            final(self).wf(),
            start_result(*old(self), *final(self), r),
    {
        match self.state {
            MuxerState::Started => {
                return Ok(());
            },
            MuxerState::Uninitialized => {},
        }
        if self.track_formats.len() == 0 {
            return Err(MediaStatus::ErrorInvalidOperation);
        }
        self.state = MuxerState::Started;
        proof {
            assert(self.spec_track_formats() =~= old(self).spec_track_formats());
            assert(self.spec_written() =~= old(self).spec_written());
        }
        Ok(())
    }

    /// Stops the session and consumes it: a stopped session cannot be
    /// restarted. Stopping a session that never started is a no-op
    /// success.
    pub fn stop(self) -> (r: Result<(), MediaStatus>)
        ensures
            r == Ok::<(), MediaStatus>(()),
    {
        Ok(())
    }

    /// Writes one encoded sample for a track. The session must have been
    /// started; the track must exist; the metadata's region must lie
    /// within the given bytes. The caller keeps samples of each track in
    /// non-decreasing presentation-time order; that ordering contract is
    /// the caller's and is not enforced here.
    pub fn write_sample_data(
        &mut self,
        track_index: usize,
        data: &[u8],
        buffer_info: &BufferInfo,
    ) -> (r: Result<(), MediaStatus>)
        requires
            old(self).wf(),
        ensures
            final(self).wf(),
            r is Ok <==> (old(self).spec_state() is Started && track_index < old(
                self,
            ).spec_track_formats().len() && 0 <= buffer_info.offset && 0 <= buffer_info.size
                && buffer_info.offset + buffer_info.size <= data@.len()),
            match r {
                Ok(_) => {
                    &&& final(self).spec_written() == old(self).spec_written().push(
                        (WrittenSampleSpec {
                            track_index,
                            data: data@.subrange(
                                buffer_info.offset as int,
                                buffer_info.offset + buffer_info.size,
                            ),
                            info: *buffer_info,
                        }),
                    )
                    &&& final(self).spec_track_formats() == old(self).spec_track_formats()
                    &&& final(self).spec_state() == old(self).spec_state()
                    &&& final(self).spec_latitude_micro() == old(self).spec_latitude_micro()
                    &&& final(self).spec_longitude_micro() == old(self).spec_longitude_micro()
                    &&& final(self).spec_orientation_hint() == old(self).spec_orientation_hint()
                    &&& final(self).spec_output_format() == old(self).spec_output_format()
                },
                Err(e) => *final(self) == *old(self) && (if !(old(self).spec_state() is Started) {
                    e == MediaStatus::ErrorInvalidOperation
                } else {
                    e == MediaStatus::ErrorInvalidParameter
                }),
            },
    {
        match self.state {
            MuxerState::Uninitialized => {
                return Err(MediaStatus::ErrorInvalidOperation);
            },
            MuxerState::Started => {},
        }
        if track_index >= self.track_formats.len() {
            return Err(MediaStatus::ErrorInvalidParameter);
        }
        if buffer_info.offset < 0 || buffer_info.size < 0 {
            return Err(MediaStatus::ErrorInvalidParameter);
        }
        let offset = buffer_info.offset as usize;
        let size = buffer_info.size as usize;
        if offset > data.len() || size > data.len() - offset {
            return Err(MediaStatus::ErrorInvalidParameter);
        }
        let region = copy_slice_range(data, offset, offset + size);
        let ghost pre = self.written@;
        self.written.push(
            WrittenSample { track_index, data: region, info: *buffer_info },
        );
        proof {
            assert(self.spec_written() =~= pre.map_values(|s: WrittenSample| s@).push(
                self.written@.last()@,
            ));
            assert(self.spec_track_formats() =~= old(self).spec_track_formats());
        }
        Ok(())
    }

    /// How many samples have been accepted.
    pub fn written_count(&self) -> (r: usize)
        ensures
            r == self.spec_written().len(),
    {
        self.written.len()
    }

    /// The track of one accepted sample.
    pub fn written_track(&self, index: usize) -> (r: Option<usize>)
        ensures
            index < self.spec_written().len() ==> r == Some(
                self.spec_written()[index as int].track_index,
            ),
            index >= self.spec_written().len() ==> r is None,
    {
        if index >= self.written.len() {
            return None;
        }
        Some(self.written[index].track_index)
    }

    /// The bytes of one accepted sample.
    pub fn written_data(&self, index: usize) -> (r: Option<&Vec<u8>>)
        ensures
            index < self.spec_written().len() ==> (r matches Some(v) && v@
                == self.spec_written()[index as int].data),
            index >= self.spec_written().len() ==> r is None,
    {
        if index >= self.written.len() {
            return None;
        }
        Some(&self.written[index].data)
    }

    /// The metadata of one accepted sample.
    pub fn written_info(&self, index: usize) -> (r: Option<BufferInfo>)
        ensures
            index < self.spec_written().len() ==> r == Some(
                self.spec_written()[index as int].info,
            ),
            index >= self.spec_written().len() ==> r is None,
    {
        if index >= self.written.len() {
            return None;
        }
        Some(self.written[index].info)
    }

    /// The session's state.
    pub fn state(&self) -> (r: MuxerState)
        ensures
            r == self.spec_state(),
    {
        self.state
    }

    /// The stored latitude, in micro-degrees.
    pub fn latitude_micro(&self) -> (r: i32)
        ensures
            r == self.spec_latitude_micro(),
    {
        self.latitude_micro
    }

    /// The stored longitude, in micro-degrees.
    pub fn longitude_micro(&self) -> (r: i32)
        ensures
            r == self.spec_longitude_micro(),
    {
        self.longitude_micro
    }

    /// The stored orientation hint, in degrees clockwise.
    pub fn orientation_hint(&self) -> (r: i32)
        ensures
            r == self.spec_orientation_hint(),
    {
        self.orientation_hint
    }
}

/// What `start` does: a started session stays as it is and reports
/// success; a session without tracks fails as an invalid operation; any
/// other session starts, everything else unchanged.
pub open spec fn start_result(
    pre: MediaMuxer,
    post: MediaMuxer,
    r: Result<(), MediaStatus>,
) -> bool {
    if pre.spec_state() is Started {
        r == Ok::<(), MediaStatus>(()) && post == pre
    } else if pre.spec_track_formats().len() == 0 {
        r == Err::<(), MediaStatus>(MediaStatus::ErrorInvalidOperation) && post == pre
    } else {
        &&& r == Ok::<(), MediaStatus>(())
        &&& post.spec_state() is Started
        &&& post.spec_track_formats() == pre.spec_track_formats()
        &&& post.spec_written() == pre.spec_written()
        &&& post.spec_latitude_micro() == pre.spec_latitude_micro()
        &&& post.spec_longitude_micro() == pre.spec_longitude_micro()
        &&& post.spec_orientation_hint() == pre.spec_orientation_hint()
        &&& post.spec_output_format() == pre.spec_output_format()
    }
}

/// Starting a session with at least one track succeeds, and a second
/// start is idempotent: it succeeds and changes nothing.
pub proof fn lemma_start_idempotent(
    m0: MediaMuxer,
    m1: MediaMuxer,
    m2: MediaMuxer,
    r1: Result<(), MediaStatus>,
    r2: Result<(), MediaStatus>,
)
    requires
        m0.spec_track_formats().len() >= 1,
        start_result(m0, m1, r1),
        start_result(m1, m2, r2),
    ensures
        r1 == Ok::<(), MediaStatus>(()),
        r2 == Ok::<(), MediaStatus>(()),
        m2 == m1,
{
}

/// The bytes of a slice between two positions, as an owned copy.
fn copy_slice_range(data: &[u8], start: usize, end: usize) -> (r: Vec<u8>)
    requires
        start <= end <= data@.len(),
    ensures
        r@ == data@.subrange(start as int, end as int),
{
    let mut r: Vec<u8> = Vec::new();
    let mut i: usize = start;
    while i < end
        invariant
            start <= i <= end,
            end <= data@.len(),
            r@ =~= data@.subrange(start as int, i as int),
        decreases end - i,
    {
        r.push(data[i]);
        proof {
            assert(r@ =~= data@.subrange(start as int, i as int + 1));
        }
        i = i + 1;
    }
    r
}

} // verus!
