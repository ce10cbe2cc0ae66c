//! The pipeline coordinator: drives a demux session and one codec
//! session per track, moving compressed samples in and decoded frames
//! out until the source is exhausted on the selected tracks.
//!
//! One coordinating thread drives the loop. For the track the demuxer
//! stands on, the coordinator acquires input buffers, lets the demuxer
//! fill them, and gives each one back — the release is the submission,
//! and a buffer is given back on every path, filled or not. It then
//! drains every ready output buffer of that codec: each is classified as
//! a typed frame, handed to the frame queue, marked to render when a
//! render target is attached, and released. A fill failure stops the
//! pulling on that track; the loop ends when no sample is available on
//! any selected track, or when the track the demuxer stands on can no
//! longer accept samples.
//!
//! The coordinator's contract is the leak-freedom guarantee: after a
//! run, every codec session has every input and output slot back and no
//! sample stuck inside — every acquired buffer handle was released
//! exactly once.

use vstd::prelude::*;
use crate::codec::{count_lent, make_free_flags, lemma_count_lent_update, MediaCodec};
use crate::extractor::{lemma_find_selected_some, MediaExtractor};
use crate::samples::{Frame, FrameSpec};

verus! {

/// The FIFO of decoded frames the coordinator pushes into; a playback
/// callback pops from the front.
#[derive(Debug)]
pub struct FrameQueue {
    frames: Vec<Frame>,
}

impl FrameQueue {
    /// The queued frames, oldest first.
    pub closed spec fn spec_frames(&self) -> Seq<FrameSpec> {
        self.frames@.map_values(|f: Frame| f@)
    }

    /// An empty queue.
    pub fn new() -> (r: FrameQueue)
        ensures
            r.spec_frames().len() == 0,
    {
        let r = FrameQueue { frames: Vec::new() };
        proof {
            assert(r.spec_frames() =~= Seq::<FrameSpec>::empty());
        }
        r
    }

    /// Appends a frame at the back.
    pub fn push(&mut self, frame: Frame)
        ensures
            final(self).spec_frames() == old(self).spec_frames().push(frame@),
    {
        let ghost pre = self.frames@;
        self.frames.push(frame);
        proof {
            assert(self.spec_frames() =~= pre.map_values(|f: Frame| f@).push(
                self.frames@.last()@,
            ));
        }
    }

    /// Takes the oldest frame, if any.
    pub fn pop(&mut self) -> (r: Option<Frame>)
        ensures
            old(self).spec_frames().len() == 0 ==> r is None && *final(self) == *old(self),
            old(self).spec_frames().len() > 0 ==> (r matches Some(f) && f@ == old(
                self,
            ).spec_frames()[0] && final(self).spec_frames() == old(self).spec_frames().drop_first()),
    {
        if self.frames.len() == 0 {
            return None;
        }
        proof {
            assert(self.spec_frames()[0] == self.frames@[0]@);
        }
        let ghost pre = self.frames@;
        let frame = self.frames.remove(0);
        proof {
            assert(self.spec_frames() =~= pre.map_values(|f: Frame| f@).drop_first());
        }
        Some(frame)
    }

    /// How many frames wait in the queue.
    pub fn len(&self) -> (r: usize)
        ensures
            r == self.spec_frames().len(),
    {
        self.frames.len()
    }
}

/// Why a pipeline run ended.
#[derive(Clone, Copy, Debug, PartialEq, Eq, Structural)]
pub enum PipelineEnd {
    /// No sample is available any more on any selected track.
    Exhausted,
    /// The demuxer stands on a sample that its track's codec could not
    /// take (the fill failed and the cursor cannot move past it).
    Stalled,
}

/// Whether the demuxer stands on a sample that its track's codec cannot
/// take: the current sample is empty, or larger than that codec's input
/// buffer capacity. This is the only way a run can stall.
pub open spec fn stalled_on_current(extractor: MediaExtractor, codecs: Seq<MediaCodec>) -> bool {
    match extractor.spec_current() {
        Some(i) => {
            let smp = extractor.spec_samples()[i];
            &&& smp.track_index < codecs.len()
            &&& (smp.data.len() == 0 || smp.data.len() > codecs[smp.track_index as int].spec_capacity())
        },
        None => false,
    }
}

/// Pulls samples of track `t` into the codec while the demuxer stands on
/// that track: acquire a buffer, let the demuxer fill it, give it back —
/// the release is the submission, and the buffer is given back filled or
/// not. Returns whether a fill failed, which ends the pulling on this
/// track for the sweep; a fill fails exactly when the demuxer stands on
/// a sample of this track that is empty or beyond the codec's capacity.
fn pump_inputs(extractor: &mut MediaExtractor, codec: &mut MediaCodec, t: usize) -> (fill_failed:
    bool)
    requires
        old(extractor).wf(),
        old(codec).wf(),
        old(codec).spec_state() is Started,
        count_lent(old(codec).spec_input_lent()) == 0,
        t < old(extractor).spec_tracks().len(),
        match old(extractor).spec_current() {
            Some(i) => old(extractor).spec_samples()[i].track_index == t,
            None => false,
        },
    ensures
        final(extractor).wf(),
        final(codec).wf(),
        final(codec).spec_state() is Started,
        count_lent(final(codec).spec_input_lent()) == 0,
        final(codec).spec_output_lent() == old(codec).spec_output_lent(),
        final(codec).spec_generation() == old(codec).spec_generation(),
        final(codec).spec_using_buffers() == old(codec).spec_using_buffers(),
        final(codec).spec_capacity() == old(codec).spec_capacity(),
        final(codec).spec_format() == old(codec).spec_format(),
        final(codec).spec_surface() == old(codec).spec_surface(),
        final(extractor).spec_tracks() == old(extractor).spec_tracks(),
        final(extractor).spec_samples() == old(extractor).spec_samples(),
        final(extractor).spec_selected() == old(extractor).spec_selected(),
        final(extractor).spec_cursor() >= old(extractor).spec_cursor(),
        !fill_failed ==> final(extractor).spec_cursor() > old(extractor).spec_cursor(),
        fill_failed ==> (match final(extractor).spec_current() {
            Some(i) => {
                &&& final(extractor).spec_samples()[i].track_index == t
                &&& (final(extractor).spec_samples()[i].data.len() == 0
                    || final(extractor).spec_samples()[i].data.len() > final(codec).spec_capacity())
            },
            None => false,
        }),
{
    let t_i32: i32 = t as i32;
    let mut fill_failed: bool = false;
    loop
        invariant_except_break
            !fill_failed,
            extractor.spec_cursor() > old(extractor).spec_cursor() || (match extractor.spec_current() {
                Some(i) => extractor.spec_samples()[i].track_index == t,
                None => false,
            }),
        invariant
            extractor.wf(),
            codec.wf(),
            codec.spec_state() is Started,
            count_lent(codec.spec_input_lent()) == 0,
            codec.spec_output_lent() == old(codec).spec_output_lent(),
            codec.spec_generation() == old(codec).spec_generation(),
            codec.spec_using_buffers() == old(codec).spec_using_buffers(),
            codec.spec_capacity() == old(codec).spec_capacity(),
            codec.spec_format() == old(codec).spec_format(),
            codec.spec_surface() == old(codec).spec_surface(),
            extractor.spec_tracks() == old(extractor).spec_tracks(),
            extractor.spec_samples() == old(extractor).spec_samples(),
            extractor.spec_selected() == old(extractor).spec_selected(),
            extractor.spec_cursor() >= old(extractor).spec_cursor(),
            t < extractor.spec_tracks().len(),
            t_i32 == t as i32,
        ensures
            extractor.wf(),
            codec.wf(),
            codec.spec_state() is Started,
            count_lent(codec.spec_input_lent()) == 0,
            codec.spec_output_lent() == old(codec).spec_output_lent(),
            codec.spec_generation() == old(codec).spec_generation(),
            codec.spec_using_buffers() == old(codec).spec_using_buffers(),
            codec.spec_capacity() == old(codec).spec_capacity(),
            codec.spec_format() == old(codec).spec_format(),
            codec.spec_surface() == old(codec).spec_surface(),
            extractor.spec_tracks() == old(extractor).spec_tracks(),
            extractor.spec_samples() == old(extractor).spec_samples(),
            extractor.spec_selected() == old(extractor).spec_selected(),
            extractor.spec_cursor() >= old(extractor).spec_cursor(),
            !fill_failed ==> extractor.spec_cursor() > old(extractor).spec_cursor(),
            fill_failed ==> (match extractor.spec_current() {
                Some(i) => {
                    &&& extractor.spec_samples()[i].track_index == t
                    &&& (extractor.spec_samples()[i].data.len() == 0
                        || extractor.spec_samples()[i].data.len() > codec.spec_capacity())
                },
                None => false,
            }),
        decreases extractor.spec_samples().len() - extractor.spec_cursor(),
    {
        let idx = extractor.track_index();
        if idx != t_i32 {
            proof {
                if extractor.spec_cursor() <= old(extractor).spec_cursor() {
                    match extractor.spec_current() {
                        Some(i) => {
                            assert(idx == extractor.spec_samples()[i].track_index as i32);
                        },
                        None => {
                            assert(false);
                        },
                    }
                }
            }
            break;
        }
        proof {
            lemma_find_selected_some(
                extractor.spec_samples(),
                extractor.spec_selected(),
                extractor.spec_cursor() as int,
                extractor.spec_current()->Some_0,
            );
        }
        let ghost lent_pre = codec.spec_input_lent();
        let mut buffer = match codec.dequeue_input() {
            Ok(b) => b,
            Err(_) => {
                proof {
                    assert(false);
                }
                break;
            },
        };
        let filled = extractor.read_next(&mut buffer);
        if !filled {
            proof {
                match extractor.spec_current() {
                    Some(i) => {
                        assert(extractor.spec_samples()[i].track_index == t);
                        assert(extractor.spec_samples()[i].data.len() == 0
                            || extractor.spec_samples()[i].data.len() > codec.spec_capacity());
                    },
                    None => {
                        assert(false);
                    },
                }
            }
            fill_failed = true;
        }
        match codec.queue_input(buffer) {
            Ok(_) => {},
            Err(_) => {
                proof {
                    assert(false);
                }
            },
        }
        proof {
            assert(codec.spec_input_lent() =~= lent_pre);
        }
        if fill_failed {
            break;
        }
    }
    fill_failed
}

/// Drains every ready output buffer of the codec: classify it as a
/// typed frame, hand the frame to the queue, mark it to render when a
/// render target is attached, and release it — every drained handle is
/// released within the sweep.
fn drain_outputs(codec: &mut MediaCodec, frames: &mut FrameQueue)
    requires
        old(codec).wf(),
        old(codec).spec_state() is Started,
        count_lent(old(codec).spec_output_lent()) == 0,
    ensures
        final(codec).wf(),
        final(codec).spec_state() is Started,
        count_lent(final(codec).spec_output_lent()) == 0,
        final(codec).spec_pending().len() == 0,
        final(codec).spec_input_lent() == old(codec).spec_input_lent(),
        final(codec).spec_generation() == old(codec).spec_generation(),
        final(codec).spec_using_buffers() == old(codec).spec_using_buffers(),
        final(codec).spec_capacity() == old(codec).spec_capacity(),
        final(codec).spec_format() == old(codec).spec_format(),
        final(codec).spec_surface() == old(codec).spec_surface(),
        final(frames).spec_frames().len() >= old(frames).spec_frames().len(),
{
    loop
        invariant
            codec.wf(),
            codec.spec_state() is Started,
            count_lent(codec.spec_output_lent()) == 0,
            codec.spec_input_lent() == old(codec).spec_input_lent(),
            codec.spec_generation() == old(codec).spec_generation(),
            codec.spec_using_buffers() == old(codec).spec_using_buffers(),
            codec.spec_capacity() == old(codec).spec_capacity(),
            codec.spec_format() == old(codec).spec_format(),
            codec.spec_surface() == old(codec).spec_surface(),
            frames.spec_frames().len() >= old(frames).spec_frames().len(),
        ensures
            codec.wf(),
            codec.spec_state() is Started,
            count_lent(codec.spec_output_lent()) == 0,
            codec.spec_pending().len() == 0,
            codec.spec_input_lent() == old(codec).spec_input_lent(),
            codec.spec_generation() == old(codec).spec_generation(),
            codec.spec_using_buffers() == old(codec).spec_using_buffers(),
            codec.spec_capacity() == old(codec).spec_capacity(),
            codec.spec_format() == old(codec).spec_format(),
            codec.spec_surface() == old(codec).spec_surface(),
            frames.spec_frames().len() >= old(frames).spec_frames().len(),
        decreases codec.spec_pending().len(),
    {
        let ghost lent_pre = codec.spec_output_lent();
        let mut buffer = match codec.dequeue_output() {
            Ok(b) => b,
            Err(_) => {
                break;
            },
        };
        match buffer.frame() {
            Some(f) => {
                frames.push(f);
            },
            None => {},
        }
        if !codec.using_buffers() {
            buffer.set_render(true);
        }
        match codec.release_output(buffer) {
            Ok(_) => {},
            Err(_) => {
                proof {
                    assert(false);
                }
            },
        }
        proof {
            assert(codec.spec_output_lent() =~= lent_pre);
        }
    }
}

/// Drives the demux session and one codec session per track until no
/// sample is available on any selected track (`Exhausted`), or until the
/// demuxer stands on a sample its track's codec already failed to take
/// (`Stalled`) — the open question of capacity-starved tracks ends the
/// run rather than spinning. A stalled end is a genuine stall: the
/// demuxer then stands on a sample that is empty or larger than its
/// track codec's input capacity, and an exhausted end means no current
/// sample remains, so neither outcome can be reported idly.
///
/// The leak-freedom guarantee of the run is the contract: afterwards,
/// every codec has every input and output slot back, and no submitted
/// sample is stuck inside — every buffer handle the coordinator acquired
/// was given back exactly once.
pub fn run_pipeline(
    extractor: &mut MediaExtractor,
    codecs: &mut Vec<MediaCodec>,
    frames: &mut FrameQueue,
) -> (r: PipelineEnd)
    requires
        old(extractor).wf(),
        old(codecs)@.len() == old(extractor).spec_tracks().len(),
        forall|t: int|
            0 <= t < old(codecs)@.len() ==> {
                &&& (#[trigger] old(codecs)@[t]).wf()
                &&& old(codecs)@[t].spec_state() is Started
                &&& count_lent(old(codecs)@[t].spec_input_lent()) == 0
                &&& count_lent(old(codecs)@[t].spec_output_lent()) == 0
                &&& old(codecs)@[t].spec_pending().len() == 0
            },
    ensures
        final(extractor).wf(),
        final(extractor).spec_tracks() == old(extractor).spec_tracks(),
        final(extractor).spec_samples() == old(extractor).spec_samples(),
        final(extractor).spec_selected() == old(extractor).spec_selected(),
        final(codecs)@.len() == old(codecs)@.len(),
        forall|t: int|
            0 <= t < final(codecs)@.len() ==> {
                &&& (#[trigger] final(codecs)@[t]).wf()
                &&& final(codecs)@[t].spec_state() is Started
                &&& count_lent(final(codecs)@[t].spec_input_lent()) == 0
                &&& count_lent(final(codecs)@[t].spec_output_lent()) == 0
                &&& final(codecs)@[t].spec_pending().len() == 0
            },
        final(frames).spec_frames().len() >= old(frames).spec_frames().len(),
        r is Exhausted ==> final(extractor).spec_current() is None,
        r is Stalled ==> final(extractor).spec_current() is Some,
        r is Stalled ==> stalled_on_current(*final(extractor), final(codecs)@),
{
    let track_count = codecs.len();
    let mut done: Vec<bool> = make_free_flags(track_count);
    proof {
        crate::codec::lemma_count_lent_none(done@);
    }
    loop
        invariant
            extractor.wf(),
            extractor.spec_tracks() == old(extractor).spec_tracks(),
            extractor.spec_samples() == old(extractor).spec_samples(),
            extractor.spec_selected() == old(extractor).spec_selected(),
            track_count == old(codecs)@.len(),
            track_count == extractor.spec_tracks().len(),
            codecs@.len() == track_count,
            done@.len() == track_count,
            0 <= count_lent(done@) <= track_count,
            forall|t: int|
                0 <= t < codecs@.len() ==> {
                    &&& (#[trigger] codecs@[t]).wf()
                    &&& codecs@[t].spec_state() is Started
                    &&& count_lent(codecs@[t].spec_input_lent()) == 0
                    &&& count_lent(codecs@[t].spec_output_lent()) == 0
                    &&& codecs@[t].spec_pending().len() == 0
                },
            frames.spec_frames().len() >= old(frames).spec_frames().len(),
            forall|t2: int|
                0 <= t2 < done@.len() ==> ((#[trigger] done@[t2]) ==> (match extractor.spec_current() {
                    Some(i) => {
                        &&& extractor.spec_samples()[i].track_index == t2
                        &&& (extractor.spec_samples()[i].data.len() == 0
                            || extractor.spec_samples()[i].data.len() > codecs@[t2].spec_capacity())
                    },
                    None => false,
                })),
        decreases extractor.spec_samples().len() - extractor.spec_cursor(), track_count
            - count_lent(done@),
    {
        let idx = extractor.track_index();
        if idx < 0 {
            proof {
                match extractor.spec_current() {
                    Some(i) => {
                        lemma_find_selected_some(
                            extractor.spec_samples(),
                            extractor.spec_selected(),
                            extractor.spec_cursor() as int,
                            i,
                        );
                        assert(extractor.spec_samples()[i].track_index
                            < extractor.spec_tracks().len());
                        assert(false);
                    },
                    None => {},
                }
            }
            return PipelineEnd::Exhausted;
        }
        proof {
            match extractor.spec_current() {
                Some(i) => {
                    lemma_find_selected_some(
                        extractor.spec_samples(),
                        extractor.spec_selected(),
                        extractor.spec_cursor() as int,
                        i,
                    );
                },
                None => {
                    assert(false);
                },
            }
        }
        let t = idx as usize;
        proof {
            match extractor.spec_current() {
                Some(i) => {
                    assert(extractor.spec_samples()[i].track_index == t);
                },
                None => {
                    assert(false);
                },
            }
        }
        if done[t] {
            proof {
                assert(stalled_on_current(*extractor, codecs@));
            }
            return PipelineEnd::Stalled;
        }
        let ghost done_pre = done@;
        let ghost codecs_pre = codecs@;
        let mut codec = codecs.remove(t);
        let fill_failed = pump_inputs(extractor, &mut codec, t);
        drain_outputs(&mut codec, frames);
        codecs.insert(t, codec);
        proof {
            assert(codecs@ =~= codecs_pre.update(t as int, codecs@[t as int]));
            // no other track was stalled at entry: a set flag would put the
            // entry cursor on that track's sample, but it stood on track t,
            // whose flag was clear
            assert forall|t2: int| 0 <= t2 < done_pre.len() implies !done_pre[t2] by {
                if done_pre[t2] {
                    assert(t2 == t as int);
                }
            }
        }
        if fill_failed {
            proof {
                lemma_count_lent_update(done_pre, t as int, true);
            }
            done.set(t, true);
            proof {
                crate::codec::lemma_count_lent_bounds(done@);
                assert forall|t2: int| 0 <= t2 < done@.len() && done@[t2] implies (
                match extractor.spec_current() {
                    Some(i) => {
                        &&& extractor.spec_samples()[i].track_index == t2
                        &&& (extractor.spec_samples()[i].data.len() == 0
                            || extractor.spec_samples()[i].data.len() > codecs@[t2].spec_capacity())
                    },
                    None => false,
                }) by {
                    assert(t2 == t as int);
                    assert(codecs@[t as int].spec_capacity() == codecs@[t2].spec_capacity());
                }
            }
        }
    }
}

} // verus!
