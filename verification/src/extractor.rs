//! Demux sessions: track discovery, selection, and sequential sample
//! delivery from a multiplexed source.
//!
//! The source itself — a container file or stream — is an external
//! collaborator; what the coordination layer consumes of it is plain
//! data: the per-track formats and the ordered samples. `MediaSource`
//! holds that data, and `MediaExtractor` owns iteration over it: the
//! cursor moves over the samples of the selected tracks only, and
//! `read_next` copies the current sample into an input buffer and
//! advances.

use vstd::prelude::*;
use crate::codec::CodecInputBuffer;
use crate::format::{MediaFormat, MediaValueSpec};

verus! {

/// One compressed access unit of one track.
#[derive(Debug)]
pub(crate) struct MediaSample {
    pub(crate) track_index: usize,
    pub(crate) data: Vec<u8>,
    pub(crate) time: i64,
    pub(crate) flags: u32,
}

/// The mathematical value of a sample.
#[verifier::ext_equal]
pub struct MediaSampleSpec {
    pub track_index: usize,
    pub data: Seq<u8>,
    pub time: i64,
    pub flags: u32,
}

impl View for MediaSample {
    type V = MediaSampleSpec;

    closed spec fn view(&self) -> MediaSampleSpec {
        MediaSampleSpec {
            track_index: self.track_index,
            data: self.data@,
            time: self.time,
            flags: self.flags,
        }
    }
}

/// The largest number of tracks a source may hold: track indices must fit
/// the signed 32-bit track sentinel.
pub const MAX_TRACKS: usize = 0x7fff_ffff;

/// A demultiplexed source as plain data: per-track formats and the
/// ordered samples. Opening and parsing the container is the demuxer
/// collaborator's work; its outcome is handed in here.
#[derive(Debug)]
pub struct MediaSource {
    tracks: Vec<MediaFormat>,
    samples: Vec<MediaSample>,
}

impl MediaSource {
    /// The per-track format maps.
    pub closed spec fn spec_tracks(&self) -> Seq<Map<Seq<char>, MediaValueSpec>> {
        self.tracks@.map_values(|f: MediaFormat| f@)
    }

    /// The samples, in delivery order.
    pub closed spec fn spec_samples(&self) -> Seq<MediaSampleSpec> {
        self.samples@.map_values(|s: MediaSample| s@)
    }

    /// Every sample names an existing track and a non-negative time, and
    /// the track count fits the signed 32-bit sentinel space.
    pub open spec fn wf(&self) -> bool {
        &&& self.spec_tracks().len() <= MAX_TRACKS
        &&& forall|i: int|
            0 <= i < self.spec_samples().len() ==> {
                &&& (#[trigger] self.spec_samples()[i]).track_index < self.spec_tracks().len()
                &&& self.spec_samples()[i].time >= 0
            }
    }

    /// An empty source.
    pub fn new() -> (r: MediaSource)
        ensures
            r.wf(),
            r.spec_tracks().len() == 0,
            r.spec_samples().len() == 0,
    {
        let r = MediaSource { tracks: Vec::new(), samples: Vec::new() };
        proof {
            assert(r.spec_tracks() =~= Seq::<Map<Seq<char>, MediaValueSpec>>::empty());
            assert(r.spec_samples() =~= Seq::<MediaSampleSpec>::empty());
        }
        r
    }

    /// Adds a track and returns its index; fails only when the track
    /// space is exhausted.
    pub fn add_track(&mut self, format: MediaFormat) -> (r: Option<usize>)
        requires
            old(self).wf(),
        ensures
            final(self).wf(),
            old(self).spec_tracks().len() < MAX_TRACKS ==> r == Some(
                old(self).spec_tracks().len() as usize,
            ) && final(self).spec_tracks() == old(self).spec_tracks().push(format@) && final(self).spec_samples() == old(self).spec_samples(),
            old(self).spec_tracks().len() >= MAX_TRACKS ==> r is None && *final(self) == *old(self),
    {
        if self.tracks.len() >= MAX_TRACKS {
            return None;
        }
        let index = self.tracks.len();
        let ghost pre = self.tracks@;
        self.tracks.push(format);
        proof {
            assert(self.spec_tracks() =~= pre.map_values(|f: MediaFormat| f@).push(
                self.tracks@.last()@,
            ));
            assert(self.spec_samples() =~= old(self).spec_samples());
        }
        Some(index)
    }

    /// Adds a sample for a track; fails, changing nothing, when the track
    /// does not exist or the time is negative.
    pub fn add_sample(&mut self, track_index: usize, data: Vec<u8>, time: i64, flags: u32) -> (r:
        bool)
        requires
            old(self).wf(),
        ensures
            final(self).wf(),
            r == (track_index < old(self).spec_tracks().len() && time >= 0),
            r ==> final(self).spec_samples() == old(self).spec_samples().push(
                (MediaSampleSpec { track_index, data: data@, time, flags }),
            ) && final(self).spec_tracks() == old(self).spec_tracks(),
            !r ==> *final(self) == *old(self),
    {
        if track_index >= self.tracks.len() {
            return false;
        }
        if time < 0 {
            return false;
        }
        let ghost pre = self.samples@;
        self.samples.push(MediaSample { track_index, data, time, flags });
        proof {
            assert(self.spec_samples() =~= pre.map_values(|s: MediaSample| s@).push(
                self.samples@.last()@,
            ));
            assert(self.spec_tracks() =~= old(self).spec_tracks());
            assert forall|i: int| 0 <= i < self.spec_samples().len() implies {
                &&& (#[trigger] self.spec_samples()[i]).track_index < self.spec_tracks().len()
                &&& self.spec_samples()[i].time >= 0
            } by {
                if i < old(self).spec_samples().len() {
                    assert(self.spec_samples()[i] == old(self).spec_samples()[i]);
                }
            }
        }
        true
    }

    /// How many tracks the source holds.
    pub fn track_count(&self) -> (r: usize)
        ensures
            r == self.spec_tracks().len(),
    {
        self.tracks.len()
    }

    /// How many samples the source holds.
    pub fn sample_count(&self) -> (r: usize)
        ensures
            r == self.spec_samples().len(),
    {
        self.samples.len()
    }
}

/// The first sample at or after position `i` whose track is selected.
pub open spec fn find_selected(
    samples: Seq<MediaSampleSpec>,
    selected: Seq<bool>,
    i: int,
) -> Option<int>
    decreases samples.len() - i,
{
    if i < 0 || i >= samples.len() {
        None
    } else if samples[i].track_index < selected.len() && selected[samples[i].track_index as int] {
        Some(i)
    } else {
        find_selected(samples, selected, i + 1)
    }
}

/// A found position lies in range, its sample's track is selected, and
/// nothing before it (from the scan start) is on a selected track.
pub proof fn lemma_find_selected_some(
    samples: Seq<MediaSampleSpec>,
    selected: Seq<bool>,
    i: int,
    j: int,
)
    requires
        find_selected(samples, selected, i) == Some(j),
    ensures
        i <= j < samples.len(),
        samples[j].track_index < selected.len(),
        selected[samples[j].track_index as int],
        forall|k: int|
            i <= k < j ==> !((#[trigger] samples[k]).track_index < selected.len()
                && selected[samples[k].track_index as int]),
    decreases samples.len() - i,
{
    if 0 <= i < samples.len() {
        if samples[i].track_index < selected.len() && selected[samples[i].track_index as int] {
        } else {
            lemma_find_selected_some(samples, selected, i + 1, j);
        }
    }
}

/// A demux session: owns iteration over a multiplexed source.
#[derive(Debug)]
pub struct MediaExtractor {
    tracks: Vec<MediaFormat>,
    samples: Vec<MediaSample>,
    selected: Vec<bool>,
    cursor: usize,
    has_next: bool,
}

impl MediaExtractor {
    /// The per-track format maps.
    pub closed spec fn spec_tracks(&self) -> Seq<Map<Seq<char>, MediaValueSpec>> {
        self.tracks@.map_values(|f: MediaFormat| f@)
    }

    /// The samples, in delivery order.
    pub closed spec fn spec_samples(&self) -> Seq<MediaSampleSpec> {
        self.samples@.map_values(|s: MediaSample| s@)
    }

    /// Which tracks are selected.
    pub closed spec fn spec_selected(&self) -> Seq<bool> {
        self.selected@
    }

    /// The position iteration has reached.
    pub closed spec fn spec_cursor(&self) -> usize {
        self.cursor
    }

    /// The `hasNext` flag: optimistically true on open, updated by each
    /// successful read.
    pub closed spec fn spec_has_next(&self) -> bool {
        self.has_next
    }

    /// The position of the current sample: the first sample at or after
    /// the cursor whose track is selected.
    pub open spec fn spec_current(&self) -> Option<int> {
        find_selected(self.spec_samples(), self.spec_selected(), self.spec_cursor() as int)
    }

    /// One selection flag per track; the cursor stays within the sample
    /// space; the samples are well formed as in the source.
    pub open spec fn wf(&self) -> bool {
        &&& self.spec_selected().len() == self.spec_tracks().len()
        &&& self.spec_tracks().len() <= MAX_TRACKS
        &&& self.spec_cursor() <= self.spec_samples().len()
        &&& forall|i: int|
            0 <= i < self.spec_samples().len() ==> {
                &&& (#[trigger] self.spec_samples()[i]).track_index < self.spec_tracks().len()
                &&& self.spec_samples()[i].time >= 0
            }
    }

    /// Opens iteration over a source: no track selected, the cursor at
    /// the first sample, `has_next` optimistically true.
    pub fn from_source(source: MediaSource) -> (r: MediaExtractor)
        requires
            source.wf(),
        ensures
            r.wf(),
            r.spec_tracks() == source.spec_tracks(),
            r.spec_samples() == source.spec_samples(),
            r.spec_selected() == Seq::new(source.spec_tracks().len(), |i: int| false),
            r.spec_cursor() == 0,
            r.spec_has_next(),
    {
        let track_count = source.tracks.len();
        let mut selected: Vec<bool> = Vec::new();
        let mut i: usize = 0;
        while i < track_count
            invariant
                i <= track_count,
                selected@ =~= Seq::new(i as nat, |j: int| false),
            decreases track_count - i,
        {
            selected.push(false);
            proof {
                assert(selected@ =~= Seq::new(i as nat + 1, |j: int| false));
            }
            i = i + 1;
        }
        let r = MediaExtractor {
            tracks: source.tracks,
            samples: source.samples,
            selected,
            cursor: 0,
            has_next: true,
        };
        proof {
            assert(r.spec_tracks() =~= source.spec_tracks());
            assert(r.spec_samples() =~= source.spec_samples());
        }
        r
    }

    /// How many tracks the source holds.
    pub fn track_count(&self) -> (r: usize)
        ensures
            r == self.spec_tracks().len(),
    {
        self.tracks.len()
    }

    /// The position of the current sample, found by scanning from the
    /// cursor over the selected tracks.
    fn find_current(&self) -> (r: Option<usize>)
        requires
            self.wf(),
        ensures
            match r {
                Some(i) => self.spec_current() == Some(i as int),
                None => self.spec_current() is None,
            },
    {
        let n = self.samples.len();
        let mut i: usize = self.cursor;
        while i < n
            invariant
                self.wf(),
                self.spec_cursor() <= i,
                i <= n,
                n == self.spec_samples().len(),
                find_selected(self.spec_samples(), self.spec_selected(), self.spec_cursor() as int)
                    == find_selected(self.spec_samples(), self.spec_selected(), i as int),
            decreases n - i,
        {
            let t = self.samples[i].track_index;
            if t < self.selected.len() {
                if self.selected[t] {
                    return Some(i);
                }
            }
            i = i + 1;
        }
        None
    }

    /// The track of the current sample, or a negative sentinel when no
    /// more samples are available right now on the selected tracks.
    pub fn track_index(&self) -> (r: i32)
        requires
            self.wf(),
        ensures
            match self.spec_current() {
                Some(i) => r == self.spec_samples()[i].track_index as i32,
                None => r == -1i32,
            },
    {
        match self.find_current() {
            Some(i) => {
                proof {
                    lemma_find_selected_some(
                        self.spec_samples(),
                        self.spec_selected(),
                        self.spec_cursor() as int,
                        i as int,
                    );
                    assert(self.spec_samples()[i as int] == self.samples@[i as int]@);
                }
                self.samples[i].track_index as i32
            },
            None => -1,
        }
    }

    /// The format of one track, as an owned copy.
    pub fn track_format(&self, index: usize) -> (r: MediaFormat)
        requires
            self.wf(),
            index < self.spec_tracks().len(),
        ensures
            r@ == self.spec_tracks()[index as int],
    {
        self.tracks[index].clone()
    }

    /// Selects a track for delivery; an index beyond the tracks does
    /// nothing.
    pub fn select_track(&mut self, index: usize)
        requires
            old(self).wf(),
        ensures
            final(self).wf(),
            index < old(self).spec_selected().len() ==> final(self).spec_selected() == old(self).spec_selected().update(index as int, true),
            index >= old(self).spec_selected().len() ==> final(self).spec_selected() == old(self).spec_selected(),
            final(self).spec_tracks() == old(self).spec_tracks(),
            final(self).spec_samples() == old(self).spec_samples(),
            final(self).spec_cursor() == old(self).spec_cursor(),
            final(self).spec_has_next() == old(self).spec_has_next(),
    {
        if index < self.selected.len() {
            self.selected.set(index, true);
        }
    }

    /// Unselects a track; an index beyond the tracks does nothing.
    pub fn unselect_track(&mut self, index: usize)
        requires
            old(self).wf(),
        ensures
            final(self).wf(),
            index < old(self).spec_selected().len() ==> final(self).spec_selected() == old(self).spec_selected().update(index as int, false),
            index >= old(self).spec_selected().len() ==> final(self).spec_selected() == old(self).spec_selected(),
            final(self).spec_tracks() == old(self).spec_tracks(),
            final(self).spec_samples() == old(self).spec_samples(),
            final(self).spec_cursor() == old(self).spec_cursor(),
            final(self).spec_has_next() == old(self).spec_has_next(),
    {
        if index < self.selected.len() {
            self.selected.set(index, false);
        }
    }

    /// The flags of the current sample; zero when none is available.
    pub fn sample_flags(&self) -> (r: u32)
        requires
            self.wf(),
        ensures
            match self.spec_current() {
                Some(i) => r == self.spec_samples()[i].flags,
                None => r == 0,
            },
    {
        match self.find_current() {
            Some(i) => {
                proof {
                    lemma_find_selected_some(
                        self.spec_samples(),
                        self.spec_selected(),
                        self.spec_cursor() as int,
                        i as int,
                    );
                    assert(self.spec_samples()[i as int] == self.samples@[i as int]@);
                }
                self.samples[i].flags
            },
            None => 0,
        }
    }

    /// The presentation time of the current sample, in microseconds; a
    /// negative sentinel when none is available.
    pub fn sample_time(&self) -> (r: i64)
        requires
            self.wf(),
        ensures
            match self.spec_current() {
                Some(i) => r == self.spec_samples()[i].time,
                None => r == -1i64,
            },
    {
        match self.find_current() {
            Some(i) => {
                proof {
                    lemma_find_selected_some(
                        self.spec_samples(),
                        self.spec_selected(),
                        self.spec_cursor() as int,
                        i as int,
                    );
                    assert(self.spec_samples()[i as int] == self.samples@[i as int]@);
                }
                self.samples[i].time
            },
            None => -1,
        }
    }

    /// Whether iteration expects more samples: optimistically true on
    /// open, and updated by each successful `read_next`.
    pub fn has_next(&self) -> (r: bool)
        ensures
            r == self.spec_has_next(),
    {
        self.has_next
    }

    /// Copies the current sample into the buffer — its bytes to the
    /// front, its length as the written size, its time and flags onto the
    /// handle — then advances the cursor past it and updates `has_next`.
    ///
    /// Returns `false`, changing nothing, when no sample could be copied:
    /// the source is exhausted on the selected tracks, the sample is
    /// empty, or the destination capacity is insufficient for it — the
    /// contract does not distinguish these for the caller, who must stop
    /// pulling on this track for the sweep.
    pub fn read_next(&mut self, buffer: &mut CodecInputBuffer) -> (r: bool)
        requires
            old(self).wf(),
            old(buffer).wf(),
        ensures
            final(self).wf(),
            final(buffer).wf(),
            match old(self).spec_current() {
                None => !r && *final(self) == *old(self) && *final(buffer) == *old(buffer),
                Some(i) => {
                    let smp = old(self).spec_samples()[i];
                    if smp.data.len() == 0 || smp.data.len() > old(buffer).spec_data().len() {
                        !r && *final(self) == *old(self) && *final(buffer) == *old(buffer)
                    } else {
                        &&& r
                        &&& final(buffer).spec_data() == smp.data + old(buffer).spec_data().skip(
                            smp.data.len() as int,
                        )
                        &&& final(buffer).spec_write_size() == smp.data.len()
                        &&& final(buffer).spec_time() == smp.time as u64
                        &&& final(buffer).spec_flags() == smp.flags
                        &&& final(buffer).spec_index() == old(buffer).spec_index()
                        &&& final(buffer).spec_generation() == old(buffer).spec_generation()
                        &&& final(self).spec_cursor() == i + 1
                        &&& final(self).spec_has_next() == (find_selected(
                            old(self).spec_samples(),
                            old(self).spec_selected(),
                            i + 1,
                        ) is Some)
                        &&& final(self).spec_tracks() == old(self).spec_tracks()
                        &&& final(self).spec_samples() == old(self).spec_samples()
                        &&& final(self).spec_selected() == old(self).spec_selected()
                    }
                },
            },
    {
        let cur = self.find_current();
        let i = match cur {
            Some(i) => i,
            None => {
                return false;
            },
        };
        proof {
            lemma_find_selected_some(
                self.spec_samples(),
                self.spec_selected(),
                self.spec_cursor() as int,
                i as int,
            );
            assert(self.spec_samples()[i as int] == self.samples@[i as int]@);
        }
        let total = self.samples.len();
        let sample = &self.samples[i];
        if sample.data.len() == 0 {
            return false;
        }
        if sample.data.len() > buffer.size() {
            return false;
        }
        let time = sample.time;
        let flags = sample.flags;
        buffer.write_data(&sample.data);
        buffer.set_time(time as u64);
        buffer.set_flags(flags);
        self.cursor = i + 1;
        let next = self.find_current();
        self.has_next = match next {
            Some(_) => true,
            None => false,
        };
        true
    }
}

} // verus!
