use mediacodec::codec::BufferInfo;
use mediacodec::error::MediaStatus;
use mediacodec::format::MediaFormat;
use mediacodec::muxer::{MediaMuxer, MuxerState, OutputFormat};

fn aac_format() -> MediaFormat {
    let mut f = MediaFormat::new().unwrap();
    f.set_string("mime", "audio/mp4a-latm");
    f
}

#[test]
fn start_with_zero_tracks_is_an_invalid_operation() {
    let mut muxer = MediaMuxer::new(OutputFormat::Mpeg4).unwrap();
    assert_eq!(muxer.start(), Err(MediaStatus::ErrorInvalidOperation));
    assert_eq!(muxer.state(), MuxerState::Uninitialized);
}

#[test]
fn start_with_a_track_succeeds_and_is_idempotent() {
    let mut muxer = MediaMuxer::new(OutputFormat::Mpeg4).unwrap();
    muxer.set_location(45_000_000, -120_500_000);
    muxer.set_orientation_hint(90);
    assert_eq!(muxer.add_track(aac_format()), Ok(0));
    assert_eq!(muxer.start(), Ok(()));
    assert_eq!(muxer.state(), MuxerState::Started);
    assert_eq!(muxer.start(), Ok(()));
    assert_eq!(muxer.state(), MuxerState::Started);
}

#[test]
fn out_of_range_latitude_is_ignored() {
    let mut muxer = MediaMuxer::new(OutputFormat::Mpeg4).unwrap();
    muxer.set_location(45_000_000, 0);
    assert_eq!(muxer.latitude_micro(), 45_000_000);
    muxer.set_location(91_000_000, 0);
    assert_eq!(muxer.latitude_micro(), 45_000_000);
    muxer.set_location(90_000_000, 0);
    assert_eq!(muxer.latitude_micro(), 90_000_000);
    muxer.set_location(-90_000_000, 0);
    assert_eq!(muxer.latitude_micro(), -90_000_000);
}

#[test]
fn each_coordinate_is_judged_on_its_own() {
    let mut muxer = MediaMuxer::new(OutputFormat::Mpeg4).unwrap();
    muxer.set_location(91_000_000, 170_000_000);
    assert_eq!(muxer.latitude_micro(), 0);
    assert_eq!(muxer.longitude_micro(), 170_000_000);
    muxer.set_location(10_000_000, -181_000_000);
    assert_eq!(muxer.latitude_micro(), 10_000_000);
    assert_eq!(muxer.longitude_micro(), 170_000_000);
    muxer.set_location(0, 180_000_000);
    assert_eq!(muxer.longitude_micro(), 180_000_000);
}

#[test]
fn unsupported_orientation_hint_is_ignored() {
    let mut muxer = MediaMuxer::new(OutputFormat::Mpeg4).unwrap();
    muxer.set_orientation_hint(45);
    assert_eq!(muxer.orientation_hint(), 0);
    muxer.set_orientation_hint(180);
    assert_eq!(muxer.orientation_hint(), 180);
    muxer.set_orientation_hint(-90);
    assert_eq!(muxer.orientation_hint(), 180);
    muxer.set_orientation_hint(270);
    assert_eq!(muxer.orientation_hint(), 270);
    muxer.set_orientation_hint(0);
    assert_eq!(muxer.orientation_hint(), 0);
}

#[test]
fn tracks_count_up_and_keep_their_formats() {
    let mut muxer = MediaMuxer::new(OutputFormat::Webm).unwrap();
    assert_eq!(muxer.add_track(aac_format()), Ok(0));
    let mut video = MediaFormat::new().unwrap();
    video.set_string("mime", "video/avc");
    assert_eq!(muxer.add_track(video), Ok(1));
    assert_eq!(muxer.track_count(), 2);
    assert!(muxer.format(0).unwrap().is_audio());
    assert!(muxer.format(1).unwrap().is_video());
    assert!(muxer.format(2).is_none());
}

#[test]
fn add_track_after_start_is_an_invalid_operation() {
    let mut muxer = MediaMuxer::new(OutputFormat::Mpeg4).unwrap();
    muxer.add_track(aac_format()).unwrap();
    muxer.start().unwrap();
    assert_eq!(
        muxer.add_track(aac_format()),
        Err(MediaStatus::ErrorInvalidOperation)
    );
}

#[test]
fn write_before_start_is_an_invalid_operation() {
    let mut muxer = MediaMuxer::new(OutputFormat::Mpeg4).unwrap();
    muxer.add_track(aac_format()).unwrap();
    let info = BufferInfo { offset: 0, size: 2, presentation_time_us: 0, flags: 0 };
    assert_eq!(
        muxer.write_sample_data(0, &[1, 2], &info),
        Err(MediaStatus::ErrorInvalidOperation)
    );
}

#[test]
fn written_samples_are_recorded_in_order() {
    let mut muxer = MediaMuxer::new(OutputFormat::Mpeg4).unwrap();
    muxer.add_track(aac_format()).unwrap();
    muxer.start().unwrap();
    let first = BufferInfo { offset: 0, size: 2, presentation_time_us: 0, flags: 0 };
    let second = BufferInfo { offset: 1, size: 2, presentation_time_us: 10, flags: 4 };
    muxer.write_sample_data(0, &[5, 6], &first).unwrap();
    muxer.write_sample_data(0, &[7, 8, 9], &second).unwrap();
    assert_eq!(muxer.written_count(), 2);
    assert_eq!(muxer.written_track(0), Some(0));
    assert_eq!(muxer.written_data(0).unwrap(), &vec![5, 6]);
    assert_eq!(muxer.written_data(1).unwrap(), &vec![8, 9]);
    assert_eq!(muxer.written_info(1).unwrap().presentation_time_us, 10);
    assert!(muxer.written_data(2).is_none());
}

#[test]
fn write_rejects_unknown_tracks_and_bad_regions() {
    let mut muxer = MediaMuxer::new(OutputFormat::Mpeg4).unwrap();
    muxer.add_track(aac_format()).unwrap();
    muxer.start().unwrap();
    let info = BufferInfo { offset: 0, size: 2, presentation_time_us: 0, flags: 0 };
    assert_eq!(
        muxer.write_sample_data(1, &[1, 2], &info),
        Err(MediaStatus::ErrorInvalidParameter)
    );
    let beyond = BufferInfo { offset: 1, size: 2, presentation_time_us: 0, flags: 0 };
    assert_eq!(
        muxer.write_sample_data(0, &[1, 2], &beyond),
        Err(MediaStatus::ErrorInvalidParameter)
    );
    let negative = BufferInfo { offset: -1, size: 1, presentation_time_us: 0, flags: 0 };
    assert_eq!(
        muxer.write_sample_data(0, &[1, 2], &negative),
        Err(MediaStatus::ErrorInvalidParameter)
    );
    assert_eq!(muxer.written_count(), 0);
}

#[test]
fn stop_is_a_no_op_success_when_never_started() {
    let muxer = MediaMuxer::new(OutputFormat::ThreeGpp).unwrap();
    assert_eq!(muxer.stop(), Ok(()));
}

#[test]
fn stop_consumes_a_started_session() {
    let mut muxer = MediaMuxer::new(OutputFormat::Mpeg4).unwrap();
    muxer.add_track(aac_format()).unwrap();
    muxer.start().unwrap();
    assert_eq!(muxer.stop(), Ok(()));
}
