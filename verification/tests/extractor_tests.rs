use mediacodec::codec::MediaCodec;
use mediacodec::extractor::{MediaExtractor, MediaSource};
use mediacodec::format::MediaFormat;

fn audio_track_format() -> MediaFormat {
    let mut f = MediaFormat::new().unwrap();
    f.set_string("mime", "audio/raw");
    f.set_i32("pcm-encoding", 2);
    f.set_i32("channel-count", 1);
    f
}

fn video_track_format() -> MediaFormat {
    let mut f = MediaFormat::new().unwrap();
    f.set_string("mime", "video/avc");
    f
}

fn two_track_source() -> MediaSource {
    let mut source = MediaSource::new();
    assert_eq!(source.add_track(audio_track_format()), Some(0));
    assert_eq!(source.add_track(video_track_format()), Some(1));
    assert!(source.add_sample(0, vec![1, 0], 0, 0));
    assert!(source.add_sample(1, vec![9, 9, 9], 10, 0));
    assert!(source.add_sample(0, vec![2, 0], 20, 4));
    source
}

fn codec_for(extractor: &MediaExtractor, track: usize) -> MediaCodec {
    let format = extractor.track_format(track);
    let mut codec = MediaCodec::create_decoder("decoder").unwrap();
    codec.init(&format, None, 0).unwrap();
    codec.start().unwrap();
    codec
}

#[test]
fn add_sample_rejects_unknown_tracks_and_negative_times() {
    let mut source = MediaSource::new();
    assert_eq!(source.add_track(audio_track_format()), Some(0));
    assert!(!source.add_sample(1, vec![1], 0, 0));
    assert!(!source.add_sample(0, vec![1], -1, 0));
    assert!(source.add_sample(0, vec![1], 0, 0));
    assert_eq!(source.sample_count(), 1);
}

#[test]
fn open_source_reports_tracks_and_optimistic_has_next() {
    let extractor = MediaExtractor::from_source(two_track_source());
    assert_eq!(extractor.track_count(), 2);
    assert!(extractor.has_next());
    assert!(extractor.track_format(0).is_audio());
    assert!(extractor.track_format(1).is_video());
}

#[test]
fn no_selection_means_no_current_sample() {
    let extractor = MediaExtractor::from_source(two_track_source());
    assert_eq!(extractor.track_index(), -1);
    assert_eq!(extractor.sample_time(), -1);
    assert_eq!(extractor.sample_flags(), 0);
}

#[test]
fn selection_filters_the_delivered_tracks() {
    let mut extractor = MediaExtractor::from_source(two_track_source());
    extractor.select_track(1);
    assert_eq!(extractor.track_index(), 1);
    assert_eq!(extractor.sample_time(), 10);
    extractor.unselect_track(1);
    assert_eq!(extractor.track_index(), -1);
}

#[test]
fn select_track_beyond_the_tracks_does_nothing() {
    let mut extractor = MediaExtractor::from_source(two_track_source());
    extractor.select_track(7);
    assert_eq!(extractor.track_index(), -1);
}

#[test]
fn read_next_copies_the_sample_and_advances() {
    let mut extractor = MediaExtractor::from_source(two_track_source());
    extractor.select_track(0);
    let mut codec = codec_for(&extractor, 0);
    assert_eq!(extractor.track_index(), 0);
    assert_eq!(extractor.sample_time(), 0);

    let mut buffer = codec.dequeue_input().unwrap();
    assert!(extractor.read_next(&mut buffer));
    assert_eq!(buffer.write_size(), 2);
    assert_eq!(buffer.time(), 0);
    assert_eq!(buffer.flags(), 0);
    assert_eq!(&buffer.buffer()[..2], &[1, 0]);
    assert!(extractor.has_next());
    codec.queue_input(buffer).unwrap();

    assert_eq!(extractor.track_index(), 0);
    assert_eq!(extractor.sample_time(), 20);
    let mut buffer = codec.dequeue_input().unwrap();
    assert!(extractor.read_next(&mut buffer));
    assert_eq!(buffer.write_size(), 2);
    assert_eq!(buffer.time(), 20);
    assert_eq!(buffer.flags(), 4);
    assert!(!extractor.has_next());
    codec.queue_input(buffer).unwrap();
}

#[test]
fn read_next_after_exhaustion_is_false_and_mutates_nothing() {
    let mut extractor = MediaExtractor::from_source(two_track_source());
    extractor.select_track(0);
    let mut codec = codec_for(&extractor, 0);

    let mut buffer = codec.dequeue_input().unwrap();
    assert!(extractor.read_next(&mut buffer));
    codec.queue_input(buffer).unwrap();
    let mut buffer = codec.dequeue_input().unwrap();
    assert!(extractor.read_next(&mut buffer));
    codec.queue_input(buffer).unwrap();

    let mut buffer = codec.dequeue_input().unwrap();
    buffer.set_time(77);
    buffer.set_flags(5);
    assert!(!extractor.read_next(&mut buffer));
    assert!(!extractor.read_next(&mut buffer));
    assert_eq!(buffer.write_size(), 0);
    assert_eq!(buffer.time(), 77);
    assert_eq!(buffer.flags(), 5);
    assert_eq!(extractor.track_index(), -1);
    codec.queue_input(buffer).unwrap();
}

#[test]
fn read_next_fails_when_the_capacity_is_insufficient() {
    let mut source = MediaSource::new();
    let mut format = audio_track_format();
    format.set_i32("max-input-size", 2);
    assert_eq!(source.add_track(format), Some(0));
    assert!(source.add_sample(0, vec![1, 2, 3, 4], 0, 0));
    let mut extractor = MediaExtractor::from_source(source);
    extractor.select_track(0);
    let mut codec = codec_for(&extractor, 0);

    let mut buffer = codec.dequeue_input().unwrap();
    assert_eq!(buffer.size(), 2);
    assert!(!extractor.read_next(&mut buffer));
    assert_eq!(buffer.write_size(), 0);
    assert_eq!(extractor.track_index(), 0);
    codec.queue_input(buffer).unwrap();
}

#[test]
fn write_data_refuses_bytes_beyond_the_capacity() {
    let mut source = MediaSource::new();
    let mut format = audio_track_format();
    format.set_i32("max-input-size", 2);
    assert_eq!(source.add_track(format), Some(0));
    let extractor = MediaExtractor::from_source(source);
    let mut codec = codec_for(&extractor, 0);
    let mut buffer = codec.dequeue_input().unwrap();
    assert!(!buffer.write_data(&vec![1, 2, 3]));
    assert_eq!(buffer.write_size(), 0);
    assert!(buffer.write_data(&vec![1, 2]));
    assert_eq!(buffer.write_size(), 2);
    codec.queue_input(buffer).unwrap();
}
