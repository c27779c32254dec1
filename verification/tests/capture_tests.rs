use activity_telemetry::capture::{
    bgra_to_rgba, frame_to_png, nul_prefix_len, make_screenshot_file_name, make_video_file_name,
    screenshot_file_name, video_file_name,
};
use activity_telemetry::clock::{current_ts_millis, now_compact_stamp, now_rfc3339};
use activity_telemetry::text::u64_to_string;

#[test]
fn bgra_to_rgba_swaps_and_forces_alpha() {
    let frame = vec![1u8, 2, 3, 4, 5, 6, 7, 8];
    let rgba = bgra_to_rgba(&frame);
    assert_eq!(rgba, vec![3, 2, 1, 255, 7, 6, 5, 255]);
}

#[test]
fn bgra_to_rgba_drops_partial_pixel() {
    let frame = vec![9u8, 8, 7, 6, 5, 4];
    let rgba = bgra_to_rgba(&frame);
    assert_eq!(rgba, vec![7, 8, 9, 255]);
}

#[test]
fn frame_to_png_produces_a_png() {
    // a 2x1 frame in BGRA order: one red pixel, one green pixel
    let frame = vec![0u8, 0, 255, 0, 0, 255, 0, 0];
    let png = frame_to_png(2, 1, &frame).expect("a well-sized frame must encode");
    assert_eq!(&png[..8], &[137u8, 80, 78, 71, 13, 10, 26, 10]);
    // decode it back and compare the pixels
    let img = image::load_from_memory(&png).expect("the bytes must decode").to_rgba8();
    assert_eq!(img.width(), 2);
    assert_eq!(img.height(), 1);
    assert_eq!(img.into_raw(), vec![255u8, 0, 0, 255, 0, 255, 0, 255]);
}

#[test]
fn frame_to_png_rejects_wrong_sizes() {
    let frame = vec![0u8; 8];
    assert!(frame_to_png(3, 1, &frame).is_none());
    assert!(frame_to_png(0, 0, &frame).is_none());
    let empty: Vec<u8> = Vec::new();
    assert!(frame_to_png(0, 0, &empty).is_none());
}

#[test]
fn file_names_are_exact() {
    assert_eq!(screenshot_file_name(1234), "screenshot_1234.png");
    assert_eq!(screenshot_file_name(0), "screenshot_0.png");
    assert_eq!(video_file_name("20260102_030405"), "capture_20260102_030405.mp4");
}

#[test]
fn stamped_file_names_have_the_shape() {
    let s = make_screenshot_file_name();
    assert!(s.starts_with("screenshot_"));
    assert!(s.ends_with(".png"));
    let v = make_video_file_name();
    assert!(v.starts_with("capture_"));
    assert!(v.ends_with(".mp4"));
}

#[test]
fn u64_to_string_exact() {
    assert_eq!(u64_to_string(0), "0");
    assert_eq!(u64_to_string(7), "7");
    assert_eq!(u64_to_string(507), "507");
    assert_eq!(u64_to_string(u64::MAX), "18446744073709551615");
}

#[test]
fn nul_prefix_len_finds_terminator() {
    assert_eq!(nul_prefix_len(&vec![65u16, 66, 0, 67]), 2);
    assert_eq!(nul_prefix_len(&vec![65u16, 66, 67]), 3);
    assert_eq!(nul_prefix_len(&vec![0u16]), 0);
    assert_eq!(nul_prefix_len(&Vec::new()), 0);
}

#[test]
fn clock_readings_have_the_shape() {
    assert!(current_ts_millis() > 0);
    let stamp = now_compact_stamp();
    assert_eq!(stamp.len(), 15);
    assert_eq!(stamp.as_bytes()[8], b'_');
    let iso = now_rfc3339();
    assert!(iso.contains('T'));
}
