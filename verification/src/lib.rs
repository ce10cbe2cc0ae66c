//! A verified buffer-lifecycle and pipeline-coordination layer for a media
//! codec device, a demultiplexer and a multiplexer.
//!
//! The crate models the coordination core of a decode/encode pipeline:
//! format descriptors (typed key/value bags), codec sessions with explicit
//! buffer-slot accounting, demux sessions that deliver samples track by
//! track, mux sessions with a start/stop state machine, and a coordinator
//! loop that moves samples from the demuxer through a codec into a frame
//! queue while guaranteeing that every acquired buffer slot is returned
//! exactly once.

pub mod codec;
pub mod error;
pub mod extractor;
pub mod format;
pub mod muxer;
pub mod native_window;
pub mod pipeline;
pub mod samples;
pub mod text;

pub use codec::{
    BufferFlag, BufferInfo, CodecInputBuffer, CodecOutputBuffer, CodecState, CryptoInfoMode,
    CryptoInfoPattern, InfoFlag, MediaCodec,
};
pub use error::MediaStatus;
pub use extractor::{MediaExtractor, MediaSource};
pub use format::{MediaFormat, MediaValue};
pub use muxer::{MediaMuxer, MuxerState, OutputFormat};
pub use native_window::{ARect, NativeWindow, NativeWindowFormat, NativeWindowTransform};
pub use pipeline::{run_pipeline, FrameQueue, PipelineEnd};
pub use samples::{
    AudioFrame, Frame, RawVideoFrame, SampleFormat, VideoFrame, ENCODING_PCM_16BIT,
    ENCODING_PCM_FLOAT,
};
