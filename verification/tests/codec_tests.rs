use mediacodec::codec::{
    BufferFlag, CodecState, InfoFlag, MediaCodec, DEFAULT_INPUT_CAPACITY,
};
use mediacodec::error::MediaStatus;
use mediacodec::format::MediaFormat;
use mediacodec::native_window::{NativeWindow, NativeWindowFormat};
use mediacodec::samples::{Frame, SampleFormat, VideoFrame};

fn audio_format(encoding: i32, channels: i32) -> MediaFormat {
    let mut f = MediaFormat::new().unwrap();
    f.set_string("mime", "audio/raw");
    f.set_i32("pcm-encoding", encoding);
    f.set_i32("channel-count", channels);
    f
}

fn started_cpu_codec(format: &MediaFormat) -> MediaCodec {
    let mut codec = MediaCodec::create_decoder("audio/raw").unwrap();
    codec.init(format, None, 0).unwrap();
    codec.start().unwrap();
    codec
}

#[test]
fn lifecycle_walks_created_configured_started_stopped() {
    let format = audio_format(2, 1);
    let mut codec = MediaCodec::new("some.decoder.name").unwrap();
    assert_eq!(codec.state(), CodecState::Created);
    codec.init(&format, None, 0).unwrap();
    assert_eq!(codec.state(), CodecState::Configured);
    codec.start().unwrap();
    assert_eq!(codec.state(), CodecState::Started);
    codec.stop().unwrap();
    assert_eq!(codec.state(), CodecState::Stopped);
}

#[test]
fn init_twice_is_an_invalid_operation() {
    let format = audio_format(2, 1);
    let mut codec = MediaCodec::create_decoder("audio/raw").unwrap();
    codec.init(&format, None, 0).unwrap();
    assert_eq!(
        codec.init(&format, None, 0),
        Err(MediaStatus::ErrorInvalidOperation)
    );
}

#[test]
fn start_before_init_is_an_invalid_operation() {
    let mut codec = MediaCodec::create_decoder("audio/raw").unwrap();
    assert_eq!(codec.start(), Err(MediaStatus::ErrorInvalidOperation));
}

#[test]
fn dequeue_before_start_is_an_invalid_operation() {
    let format = audio_format(2, 1);
    let mut codec = MediaCodec::create_decoder("audio/raw").unwrap();
    codec.init(&format, None, 0).unwrap();
    assert!(matches!(
        codec.dequeue_input(),
        Err(MediaStatus::ErrorInvalidOperation)
    ));
    assert!(matches!(
        codec.dequeue_output(),
        Err(MediaStatus::ErrorInvalidOperation)
    ));
}

#[test]
fn capacity_comes_from_the_format() {
    let mut format = audio_format(2, 1);
    format.set_i32("max-input-size", 16);
    let mut codec = started_cpu_codec(&format);
    let buffer = codec.dequeue_input().unwrap();
    assert_eq!(buffer.size(), 16);
    codec.queue_input(buffer).unwrap();
}

#[test]
fn capacity_defaults_when_the_format_names_none() {
    let format = audio_format(2, 1);
    let mut codec = started_cpu_codec(&format);
    assert_eq!(codec.input_capacity(), DEFAULT_INPUT_CAPACITY);
    let buffer = codec.dequeue_input().unwrap();
    assert_eq!(buffer.size(), DEFAULT_INPUT_CAPACITY);
    codec.queue_input(buffer).unwrap();
}

#[test]
fn release_without_writing_submits_a_zero_length_buffer() {
    let format = audio_format(2, 1);
    let mut codec = started_cpu_codec(&format);
    assert_eq!(codec.lent_input_count(), 0);
    let buffer = codec.dequeue_input().unwrap();
    assert_eq!(codec.lent_input_count(), 1);
    assert_eq!(buffer.write_size(), 0);
    assert_eq!(buffer.time(), 0);
    codec.queue_input(buffer).unwrap();
    assert_eq!(codec.lent_input_count(), 0);
    assert_eq!(codec.pending_output_count(), 1);
    let out = codec.dequeue_output().unwrap();
    assert_eq!(out.info().size, 0);
    codec.release_output(out).unwrap();
    assert_eq!(codec.lent_output_count(), 0);
}

#[test]
fn submitted_sample_reappears_as_output() {
    let format = audio_format(2, 2);
    let mut codec = started_cpu_codec(&format);
    let mut buffer = codec.dequeue_input().unwrap();
    assert!(buffer.write_data(&vec![1, 0, 2, 0]));
    buffer.set_time(90_000);
    buffer.set_flags(4);
    codec.queue_input(buffer).unwrap();
    let out = codec.dequeue_output().unwrap();
    assert_eq!(out.info().offset, 0);
    assert_eq!(out.info().size, 4);
    assert_eq!(out.info().presentation_time_us, 90_000);
    assert_eq!(out.info().flags, 4);
    assert!(out.using_buffers());
    assert_eq!(out.buffer_data().unwrap(), &vec![1, 0, 2, 0]);
    codec.release_output(out).unwrap();
}

#[test]
fn starved_input_queue_would_block() {
    let format = audio_format(2, 1);
    let mut codec = started_cpu_codec(&format);
    let mut held = Vec::new();
    loop {
        match codec.dequeue_input() {
            Ok(b) => held.push(b),
            Err(e) => {
                assert_eq!(e, MediaStatus::ErrorWouldBlock);
                break;
            }
        }
    }
    assert_eq!(held.len(), 4);
    for b in held {
        codec.queue_input(b).unwrap();
    }
    assert_eq!(codec.lent_input_count(), 0);
}

#[test]
fn empty_device_would_block_on_output() {
    let format = audio_format(2, 1);
    let mut codec = started_cpu_codec(&format);
    assert!(matches!(
        codec.dequeue_output(),
        Err(MediaStatus::ErrorWouldBlock)
    ));
}

#[test]
fn flush_rejects_stale_handles() {
    let format = audio_format(2, 1);
    let mut codec = started_cpu_codec(&format);
    let buffer = codec.dequeue_input().unwrap();
    codec.flush().unwrap();
    assert_eq!(codec.lent_input_count(), 0);
    assert_eq!(
        codec.queue_input(buffer),
        Err(MediaStatus::ErrorInvalidOperation)
    );
    let fresh = codec.dequeue_input().unwrap();
    codec.queue_input(fresh).unwrap();
}

#[test]
fn flush_discards_submitted_samples() {
    let format = audio_format(2, 1);
    let mut codec = started_cpu_codec(&format);
    let buffer = codec.dequeue_input().unwrap();
    codec.queue_input(buffer).unwrap();
    assert_eq!(codec.pending_output_count(), 1);
    codec.flush().unwrap();
    assert_eq!(codec.pending_output_count(), 0);
    assert!(matches!(
        codec.dequeue_output(),
        Err(MediaStatus::ErrorWouldBlock)
    ));
}

#[test]
fn seven_bytes_of_stereo_s16_yield_three_samples_and_a_warning() {
    let format = audio_format(2, 2);
    let mut codec = started_cpu_codec(&format);
    let mut buffer = codec.dequeue_input().unwrap();
    assert!(buffer.write_data(&vec![1, 0, 2, 0, 3, 0, 99]));
    codec.queue_input(buffer).unwrap();
    let out = codec.dequeue_output().unwrap();
    assert!(out.frame_truncation_warning());
    let frame = out.frame().unwrap();
    match frame {
        Frame::Audio(audio) => {
            assert_eq!(audio.channels(), 2);
            match audio.format() {
                SampleFormat::S16(samples) => {
                    assert_eq!(samples, &vec![1i16, 2, 3]);
                }
                _ => panic!("expected 16-bit samples"),
            }
        }
        _ => panic!("expected an audio frame"),
    }
    codec.release_output(out).unwrap();
}

#[test]
fn even_byte_count_raises_no_warning() {
    let format = audio_format(2, 2);
    let mut codec = started_cpu_codec(&format);
    let mut buffer = codec.dequeue_input().unwrap();
    assert!(buffer.write_data(&vec![1, 0, 2, 0]));
    codec.queue_input(buffer).unwrap();
    let out = codec.dequeue_output().unwrap();
    assert!(!out.frame_truncation_warning());
    codec.release_output(out).unwrap();
}

#[test]
fn s16_samples_decode_little_endian_and_signed() {
    let format = audio_format(2, 1);
    let mut codec = started_cpu_codec(&format);
    let mut buffer = codec.dequeue_input().unwrap();
    assert!(buffer.write_data(&vec![0xff, 0xff, 0x00, 0x80, 0xff, 0x7f]));
    codec.queue_input(buffer).unwrap();
    let out = codec.dequeue_output().unwrap();
    match out.frame().unwrap() {
        Frame::Audio(audio) => match audio.format() {
            SampleFormat::S16(samples) => {
                assert_eq!(samples, &vec![-1i16, i16::MIN, i16::MAX]);
            }
            _ => panic!("expected 16-bit samples"),
        },
        _ => panic!("expected an audio frame"),
    }
    codec.release_output(out).unwrap();
}

#[test]
fn float_samples_surface_as_their_bit_patterns() {
    let format = audio_format(4, 1);
    let mut codec = started_cpu_codec(&format);
    let mut buffer = codec.dequeue_input().unwrap();
    let mut bytes = Vec::new();
    bytes.extend_from_slice(&1.0f32.to_le_bytes());
    bytes.extend_from_slice(&(-0.5f32).to_le_bytes());
    assert!(buffer.write_data(&bytes));
    codec.queue_input(buffer).unwrap();
    let out = codec.dequeue_output().unwrap();
    match out.frame().unwrap() {
        Frame::Audio(audio) => match audio.format() {
            SampleFormat::F32Bits(bits) => {
                assert_eq!(bits.len(), 2);
                assert_eq!(f32::from_bits(bits[0]), 1.0);
                assert_eq!(f32::from_bits(bits[1]), -0.5);
            }
            _ => panic!("expected float samples"),
        },
        _ => panic!("expected an audio frame"),
    }
    codec.release_output(out).unwrap();
}

#[test]
fn unsupported_encoding_yields_no_frame_not_an_error() {
    let format = audio_format(3, 2);
    let mut codec = started_cpu_codec(&format);
    let mut buffer = codec.dequeue_input().unwrap();
    assert!(buffer.write_data(&vec![1, 2, 3, 4]));
    codec.queue_input(buffer).unwrap();
    let out = codec.dequeue_output().unwrap();
    assert!(out.frame().is_none());
    assert!(!out.frame_truncation_warning());
    codec.release_output(out).unwrap();
}

#[test]
fn nonpositive_channel_count_yields_no_frame() {
    let format = audio_format(2, 0);
    let mut codec = started_cpu_codec(&format);
    let mut buffer = codec.dequeue_input().unwrap();
    assert!(buffer.write_data(&vec![1, 0]));
    codec.queue_input(buffer).unwrap();
    let out = codec.dequeue_output().unwrap();
    assert!(out.frame().is_none());
    codec.release_output(out).unwrap();
}

#[test]
fn hardware_video_buffer_classifies_as_a_self_rendering_marker() {
    let mut format = MediaFormat::new().unwrap();
    format.set_string("mime", "video/avc");
    let window = NativeWindow::new(640, 360, NativeWindowFormat::Rgba8);
    let mut codec = MediaCodec::create_decoder("video/avc").unwrap();
    codec.init(&format, Some(window), 0).unwrap();
    codec.start().unwrap();
    assert!(!codec.using_buffers());
    let buffer = codec.dequeue_input().unwrap();
    codec.queue_input(buffer).unwrap();
    let mut out = codec.dequeue_output().unwrap();
    assert!(!out.using_buffers());
    assert!(out.buffer_data().is_none());
    match out.frame().unwrap() {
        Frame::Video(VideoFrame::Hardware) => {}
        _ => panic!("expected a hardware video frame"),
    }
    out.set_render(true);
    assert!(out.render());
    codec.release_output(out).unwrap();
}

#[test]
fn cpu_video_buffer_classifies_as_the_raw_region() {
    let mut format = MediaFormat::new().unwrap();
    format.set_string("mime", "video/avc");
    let mut codec = MediaCodec::create_decoder("video/avc").unwrap();
    codec.init(&format, None, 0).unwrap();
    codec.start().unwrap();
    let mut buffer = codec.dequeue_input().unwrap();
    assert!(buffer.write_data(&vec![9, 8, 7]));
    codec.queue_input(buffer).unwrap();
    let out = codec.dequeue_output().unwrap();
    match out.frame().unwrap() {
        Frame::Video(VideoFrame::RawFrame(raw)) => {
            assert_eq!(raw.data(), &vec![9, 8, 7]);
        }
        _ => panic!("expected a raw video frame"),
    }
    codec.release_output(out).unwrap();
}

#[test]
fn output_format_snapshots_the_configured_format() {
    let format = audio_format(2, 2);
    let codec = started_cpu_codec(&format);
    let snapshot = codec.output_format().unwrap();
    assert_eq!(snapshot.get_string("mime").unwrap(), "audio/raw");
    assert_eq!(snapshot.get_i32("channel-count"), Some(2));
}

#[test]
fn output_format_is_absent_before_configuration() {
    let codec = MediaCodec::create_decoder("audio/raw").unwrap();
    assert!(codec.output_format().is_none());
}

#[test]
fn set_output_surface_fails_without_an_original_render_target() {
    let format = audio_format(2, 1);
    let mut codec = started_cpu_codec(&format);
    let window = NativeWindow::new(640, 360, NativeWindowFormat::Rgba8);
    assert!(!codec.set_output_surface(window));
}

#[test]
fn set_output_surface_replaces_an_original_render_target() {
    let mut format = MediaFormat::new().unwrap();
    format.set_string("mime", "video/avc");
    let window = NativeWindow::new(640, 360, NativeWindowFormat::Rgba8);
    let mut codec = MediaCodec::create_decoder("video/avc").unwrap();
    codec.init(&format, Some(window), 0).unwrap();
    let other = NativeWindow::new(1280, 720, NativeWindowFormat::Yuv420);
    assert!(codec.set_output_surface(other));
}

#[test]
fn buffer_flags_test_and_set_their_bits() {
    assert_eq!(BufferFlag::CodecConfig.value(), 2);
    assert_eq!(BufferFlag::EndOfStream.value(), 4);
    assert_eq!(BufferFlag::PartialFrame.value(), 8);
    assert_eq!(BufferFlag::Encode.value(), 1);
    let mut flag: i32 = 0;
    BufferFlag::EndOfStream.add_to_flag(&mut flag);
    assert_eq!(flag, 4);
    BufferFlag::Encode.add_to_flag(&mut flag);
    assert_eq!(flag, 5);
    assert!(BufferFlag::EndOfStream.is_contained_in(flag));
    assert!(BufferFlag::Encode.is_contained_in(flag));
    assert!(!BufferFlag::CodecConfig.is_contained_in(flag));
    assert_eq!(BufferFlag::from_value(8), Some(BufferFlag::PartialFrame));
    assert_eq!(BufferFlag::from_value(3), None);
}

#[test]
fn info_flags_carry_their_sentinels() {
    assert_eq!(InfoFlag::OutputBuffersChanged.value(), -3);
    assert_eq!(InfoFlag::OutputFormatChanged.value(), -2);
    assert_eq!(InfoFlag::TryAgainLater.value(), -1);
    assert_eq!(InfoFlag::from_value(-2), Some(InfoFlag::OutputFormatChanged));
    assert_eq!(InfoFlag::from_value(0), None);
}
