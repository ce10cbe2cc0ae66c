use mediacodec::codec::MediaCodec;
use mediacodec::extractor::{MediaExtractor, MediaSource};
use mediacodec::format::MediaFormat;
use mediacodec::native_window::{NativeWindow, NativeWindowFormat};
use mediacodec::pipeline::{run_pipeline, FrameQueue, PipelineEnd};
use mediacodec::samples::{Frame, SampleFormat, VideoFrame};

fn audio_format() -> MediaFormat {
    let mut f = MediaFormat::new().unwrap();
    f.set_string("mime", "audio/raw");
    f.set_i32("pcm-encoding", 2);
    f.set_i32("channel-count", 1);
    f
}

fn video_format() -> MediaFormat {
    let mut f = MediaFormat::new().unwrap();
    f.set_string("mime", "video/avc");
    f
}

/// One started codec per track, each configured with its track's format;
/// the video track gets a render target.
fn codecs_for(extractor: &MediaExtractor) -> Vec<MediaCodec> {
    let mut codecs = Vec::new();
    for t in 0..extractor.track_count() {
        let format = extractor.track_format(t);
        let mut codec = MediaCodec::create_decoder("decoder").unwrap();
        if format.is_video() {
            let window = NativeWindow::new(640, 360, NativeWindowFormat::Rgba8);
            codec.init(&format, Some(window), 0).unwrap();
        } else {
            codec.init(&format, None, 0).unwrap();
        }
        codec.start().unwrap();
        codecs.push(codec);
    }
    codecs
}

fn assert_leak_free(codecs: &MediaCodec) {
    assert_eq!(codecs.lent_input_count(), 0);
    assert_eq!(codecs.lent_output_count(), 0);
    assert_eq!(codecs.pending_output_count(), 0);
}

#[test]
fn two_track_run_exhausts_the_source_and_leaks_nothing() {
    let mut source = MediaSource::new();
    assert_eq!(source.add_track(audio_format()), Some(0));
    assert_eq!(source.add_track(video_format()), Some(1));
    assert!(source.add_sample(0, vec![1, 0, 2, 0], 0, 0));
    assert!(source.add_sample(1, vec![9, 9], 0, 0));
    assert!(source.add_sample(0, vec![3, 0], 10, 0));
    assert!(source.add_sample(1, vec![8, 8], 10, 0));

    let mut extractor = MediaExtractor::from_source(source);
    extractor.select_track(0);
    extractor.select_track(1);
    let mut codecs = codecs_for(&extractor);
    let mut frames = FrameQueue::new();

    let end = run_pipeline(&mut extractor, &mut codecs, &mut frames);

    assert_eq!(end, PipelineEnd::Exhausted);
    assert_eq!(extractor.track_index(), -1);
    for codec in &codecs {
        assert_leak_free(codec);
    }
    assert_eq!(frames.len(), 4);

    match frames.pop().unwrap() {
        Frame::Audio(audio) => match audio.format() {
            SampleFormat::S16(samples) => assert_eq!(samples, &vec![1i16, 2]),
            _ => panic!("expected 16-bit samples"),
        },
        _ => panic!("expected an audio frame first"),
    }
    match frames.pop().unwrap() {
        Frame::Video(VideoFrame::Hardware) => {}
        _ => panic!("expected a hardware video frame second"),
    }
    match frames.pop().unwrap() {
        Frame::Audio(audio) => match audio.format() {
            SampleFormat::S16(samples) => assert_eq!(samples, &vec![3i16]),
            _ => panic!("expected 16-bit samples"),
        },
        _ => panic!("expected an audio frame third"),
    }
    match frames.pop().unwrap() {
        Frame::Video(VideoFrame::Hardware) => {}
        _ => panic!("expected a hardware video frame fourth"),
    }
    assert!(frames.pop().is_none());
}

#[test]
fn unselected_tracks_are_skipped() {
    let mut source = MediaSource::new();
    assert_eq!(source.add_track(audio_format()), Some(0));
    assert_eq!(source.add_track(video_format()), Some(1));
    assert!(source.add_sample(0, vec![1, 0], 0, 0));
    assert!(source.add_sample(1, vec![9, 9], 0, 0));

    let mut extractor = MediaExtractor::from_source(source);
    extractor.select_track(0);
    let mut codecs = codecs_for(&extractor);
    let mut frames = FrameQueue::new();

    let end = run_pipeline(&mut extractor, &mut codecs, &mut frames);

    assert_eq!(end, PipelineEnd::Exhausted);
    assert_eq!(frames.len(), 1);
    for codec in &codecs {
        assert_leak_free(codec);
    }
}

#[test]
fn an_oversized_sample_stalls_the_run_but_leaks_nothing() {
    let mut source = MediaSource::new();
    let mut small = audio_format();
    small.set_i32("max-input-size", 2);
    assert_eq!(source.add_track(small), Some(0));
    assert!(source.add_sample(0, vec![1, 0], 0, 0));
    assert!(source.add_sample(0, vec![1, 2, 3, 4, 5], 10, 0));

    let mut extractor = MediaExtractor::from_source(source);
    extractor.select_track(0);
    let mut codecs = codecs_for(&extractor);
    let mut frames = FrameQueue::new();

    let end = run_pipeline(&mut extractor, &mut codecs, &mut frames);

    assert_eq!(end, PipelineEnd::Stalled);
    assert_eq!(extractor.track_index(), 0);
    assert_eq!(extractor.sample_time(), 10);
    for codec in &codecs {
        assert_leak_free(codec);
    }
    assert_eq!(frames.len(), 2);
}

#[test]
fn an_empty_sample_stalls_the_run() {
    let mut source = MediaSource::new();
    assert_eq!(source.add_track(audio_format()), Some(0));
    assert!(source.add_sample(0, vec![1, 0], 0, 0));
    assert!(source.add_sample(0, vec![], 10, 0));
    assert!(source.add_sample(0, vec![2, 0], 20, 0));

    let mut extractor = MediaExtractor::from_source(source);
    extractor.select_track(0);
    let mut codecs = codecs_for(&extractor);
    let mut frames = FrameQueue::new();

    let end = run_pipeline(&mut extractor, &mut codecs, &mut frames);

    assert_eq!(end, PipelineEnd::Stalled);
    assert_eq!(extractor.track_index(), 0);
    assert_eq!(extractor.sample_time(), 10);
    for codec in &codecs {
        assert_leak_free(codec);
    }
}

#[test]
fn an_empty_source_run_ends_at_once() {
    let mut source = MediaSource::new();
    assert_eq!(source.add_track(audio_format()), Some(0));
    let mut extractor = MediaExtractor::from_source(source);
    extractor.select_track(0);
    let mut codecs = codecs_for(&extractor);
    let mut frames = FrameQueue::new();

    let end = run_pipeline(&mut extractor, &mut codecs, &mut frames);

    assert_eq!(end, PipelineEnd::Exhausted);
    assert_eq!(frames.len(), 0);
    for codec in &codecs {
        assert_leak_free(codec);
    }
}

#[test]
fn frame_queue_is_first_in_first_out() {
    let mut frames = FrameQueue::new();
    assert!(frames.pop().is_none());
    frames.push(Frame::Video(VideoFrame::Hardware));
    frames.push(Frame::Audio(mediacodec::samples::AudioFrame::new(
        SampleFormat::S16(vec![7]),
        1,
    )));
    assert_eq!(frames.len(), 2);
    match frames.pop().unwrap() {
        Frame::Video(VideoFrame::Hardware) => {}
        _ => panic!("expected the video frame first"),
    }
    match frames.pop().unwrap() {
        Frame::Audio(audio) => assert_eq!(audio.nb_samples(), 1),
        _ => panic!("expected the audio frame second"),
    }
    assert!(frames.pop().is_none());
}
