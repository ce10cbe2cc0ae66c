use mediacodec::format::MediaFormat;

#[test]
fn i32_roundtrip() {
    let mut f = MediaFormat::new().unwrap();
    assert!(f.set_i32("width", 320));
    assert_eq!(f.get_i32("width"), Some(320));
}

#[test]
fn i64_roundtrip() {
    let mut f = MediaFormat::new().unwrap();
    assert!(f.set_i64("durationUs", 90_000_000_000));
    assert_eq!(f.get_i64("durationUs"), Some(90_000_000_000));
}

#[test]
fn f32_roundtrip_through_bits() {
    let mut f = MediaFormat::new().unwrap();
    let value = 29.97f32;
    assert!(f.set_f32_bits("frame-rate", value.to_bits()));
    let bits = f.get_f32_bits("frame-rate").unwrap();
    assert_eq!(f32::from_bits(bits), value);
}

#[test]
fn f64_roundtrip_through_bits() {
    let mut f = MediaFormat::new().unwrap();
    let value = -0.125f64;
    assert!(f.set_f64_bits("gain", value.to_bits()));
    let bits = f.get_f64_bits("gain").unwrap();
    assert_eq!(f64::from_bits(bits), value);
}

#[test]
fn string_roundtrip() {
    let mut f = MediaFormat::new().unwrap();
    assert!(f.set_string("mime", "audio/mp4a-latm"));
    assert_eq!(f.get_string("mime").unwrap(), "audio/mp4a-latm");
}

#[test]
fn bytes_roundtrip() {
    let mut f = MediaFormat::new().unwrap();
    assert!(f.set_bytes("csd-0", vec![0x12, 0x10]));
    assert_eq!(f.get_bytes("csd-0").unwrap(), vec![0x12, 0x10]);
}

#[test]
fn last_set_wins() {
    let mut f = MediaFormat::new().unwrap();
    f.set_i32("channel-count", 1);
    f.set_i32("channel-count", 6);
    assert_eq!(f.get_i32("channel-count"), Some(6));
}

#[test]
fn missing_key_yields_none() {
    let f = MediaFormat::new().unwrap();
    assert_eq!(f.get_i32("width"), None);
    assert_eq!(f.get_string("mime"), None);
    assert_eq!(f.get_bytes("csd-0"), None);
}

#[test]
fn type_mismatch_yields_none_not_a_failure() {
    let mut f = MediaFormat::new().unwrap();
    f.set_i32("mime", 5);
    assert_eq!(f.get_string("mime"), None);
    f.set_string("width", "wide");
    assert_eq!(f.get_i32("width"), None);
    assert_eq!(f.get_i64("width"), None);
    assert_eq!(f.get_f32_bits("width"), None);
}

#[test]
fn set_replaces_across_types() {
    let mut f = MediaFormat::new().unwrap();
    f.set_string("bitrate-mode", "vbr");
    f.set_i32("bitrate-mode", 2);
    assert_eq!(f.get_string("bitrate-mode"), None);
    assert_eq!(f.get_i32("bitrate-mode"), Some(2));
}

#[test]
fn clear_removes_every_entry() {
    let mut f = MediaFormat::new().unwrap();
    f.set_i32("width", 320);
    f.set_string("mime", "video/avc");
    f.clear();
    assert_eq!(f.get_i32("width"), None);
    assert_eq!(f.get_string("mime"), None);
}

#[test]
fn is_audio_and_is_video_test_the_mime_substring() {
    let mut f = MediaFormat::new().unwrap();
    assert!(!f.is_audio());
    assert!(!f.is_video());
    f.set_string("mime", "audio/mp4a-latm");
    assert!(f.is_audio());
    assert!(!f.is_video());
    f.set_string("mime", "video/avc");
    assert!(!f.is_audio());
    assert!(f.is_video());
    f.set_string("mime", "text/vtt");
    assert!(!f.is_audio());
    assert!(!f.is_video());
}

#[test]
fn clone_carries_every_entry() {
    let mut f = MediaFormat::new().unwrap();
    f.set_i32("width", 320);
    f.set_string("mime", "video/avc");
    let copy = f.clone();
    assert_eq!(copy.get_i32("width"), Some(320));
    assert_eq!(copy.get_string("mime").unwrap(), "video/avc");
}

#[test]
fn display_dump_lists_entries_in_stored_order() {
    let mut f = MediaFormat::new().unwrap();
    f.set_i32("width", 320);
    f.set_string("mime", "audio/raw");
    assert_eq!(f.to_display_string(), "width = i32 320\nmime = str audio/raw\n");
}

#[test]
fn display_dump_renders_each_type() {
    let mut f = MediaFormat::new().unwrap();
    f.set_i32("x", -5);
    assert_eq!(f.to_display_string(), "x = i32 -5\n");
    f.clear();
    f.set_i64("t", 0);
    assert_eq!(f.to_display_string(), "t = i64 0\n");
    f.clear();
    f.set_f32_bits("r", 1078530011);
    assert_eq!(f.to_display_string(), "r = f32-bits 1078530011\n");
    f.clear();
    f.set_f64_bits("d", 2);
    assert_eq!(f.to_display_string(), "d = f64-bits 2\n");
    f.clear();
    f.set_bytes("csd-0", vec![1, 2, 3]);
    assert_eq!(f.to_display_string(), "csd-0 = bytes[3]\n");
}

#[test]
fn display_dump_shows_replaced_value_once() {
    let mut f = MediaFormat::new().unwrap();
    f.set_i32("n", 1);
    f.set_i32("n", 2);
    assert_eq!(f.to_display_string(), "n = i32 2\n");
}

#[test]
fn display_dump_renders_extreme_integers() {
    let mut f = MediaFormat::new().unwrap();
    f.set_i64("min", i64::MIN);
    f.set_i64("max", i64::MAX);
    assert_eq!(
        f.to_display_string(),
        "min = i64 -9223372036854775808\nmax = i64 9223372036854775807\n"
    );
}

#[test]
fn display_dump_of_an_empty_descriptor_is_empty() {
    let f = MediaFormat::new().unwrap();
    assert_eq!(f.to_display_string(), "");
}
