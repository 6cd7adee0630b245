use micround::app_core::types::{CameraCapability, CaptureSettings, PixelFormat};
use micround::capture::enumerator::resolution_score;
use micround::capture::negotiation::{filter_acceptable_capabilities, negotiate_format};

fn make_cap(width: u32, height: u32, framerate_millis: u32, format: PixelFormat) -> CameraCapability {
    CameraCapability { width, height, framerate_millis, format }
}

fn default_settings() -> CaptureSettings {
    CaptureSettings { width: 1920, height: 1080, framerate_millis: 30_000, format: None }
}

#[test]
fn test_exact_match() {
    let caps = vec![
        make_cap(1280, 720, 30_000, PixelFormat::Mjpeg),
        make_cap(1920, 1080, 30_000, PixelFormat::Mjpeg),
        make_cap(1920, 1080, 60_000, PixelFormat::Yuyv),
    ];
    let result = negotiate_format(&caps, &default_settings());
    assert!(result.is_some());
    let negotiated = result.unwrap();
    assert!(negotiated.exact_match);
    assert_eq!(negotiated.width, 1920);
    assert_eq!(negotiated.height, 1080);
    assert_eq!(negotiated.format, PixelFormat::Mjpeg);
}

#[test]
fn test_prefer_mjpeg_over_yuyv() {
    let caps = vec![
        make_cap(1920, 1080, 30_000, PixelFormat::Yuyv),
        make_cap(1920, 1080, 30_000, PixelFormat::Mjpeg),
    ];
    let negotiated = negotiate_format(&caps, &default_settings()).unwrap();
    assert_eq!(negotiated.format, PixelFormat::Mjpeg);
}

#[test]
fn test_prefer_exact_resolution_over_format() {
    let caps = vec![
        make_cap(1920, 1080, 30_000, PixelFormat::Yuyv),
        make_cap(1280, 720, 30_000, PixelFormat::Mjpeg),
    ];
    let negotiated = negotiate_format(&caps, &default_settings()).unwrap();
    assert_eq!(negotiated.width, 1920);
    assert_eq!(negotiated.height, 1080);
}

#[test]
fn test_fallback_to_lower_resolution() {
    let caps = vec![
        make_cap(1280, 720, 30_000, PixelFormat::Mjpeg),
        make_cap(640, 480, 30_000, PixelFormat::Mjpeg),
    ];
    let settings = CaptureSettings { width: 1920, height: 1080, framerate_millis: 30_000, format: None };
    let negotiated = negotiate_format(&caps, &settings).unwrap();
    assert!(!negotiated.exact_match);
    assert_eq!(negotiated.width, 1280);
    assert_eq!(negotiated.height, 720);
}

#[test]
fn test_specific_format_requested() {
    let caps = vec![
        make_cap(1920, 1080, 30_000, PixelFormat::Mjpeg),
        make_cap(1920, 1080, 30_000, PixelFormat::Yuyv),
    ];
    let settings = CaptureSettings {
        width: 1920,
        height: 1080,
        framerate_millis: 30_000,
        format: Some(PixelFormat::Yuyv),
    };
    let negotiated = negotiate_format(&caps, &settings).unwrap();
    assert_eq!(negotiated.format, PixelFormat::Yuyv);
}

#[test]
fn test_empty_capabilities() {
    let result = negotiate_format(&[], &default_settings());
    assert!(result.is_none());
}

#[test]
fn test_prefer_closer_framerate() {
    let caps = vec![
        make_cap(1920, 1080, 60_000, PixelFormat::Mjpeg),
        make_cap(1920, 1080, 25_000, PixelFormat::Mjpeg),
    ];
    let settings = CaptureSettings { width: 1920, height: 1080, framerate_millis: 30_000, format: None };
    let negotiated = negotiate_format(&caps, &settings).unwrap();
    let diff = (negotiated.framerate_millis as i64 - 25_000).abs();
    assert!(diff < 100);
}

#[test]
fn test_filter_acceptable_capabilities() {
    let caps = vec![
        make_cap(1920, 1080, 30_000, PixelFormat::Mjpeg),
        make_cap(1920, 1080, 30_000, PixelFormat::Unknown),
        make_cap(1280, 720, 30_000, PixelFormat::Yuyv),
    ];
    let filtered = filter_acceptable_capabilities(&caps);
    assert_eq!(filtered.len(), 2);
    assert!(filtered.iter().all(|c| c.format != PixelFormat::Unknown));
}

#[test]
fn negotiation_keeps_first_of_equal_candidates() {
    let caps = vec![
        make_cap(1280, 720, 30_000, PixelFormat::Yuyv),
        make_cap(1280, 720, 30_000, PixelFormat::Yuyv),
    ];
    let negotiated = negotiate_format(&caps, &default_settings()).unwrap();
    assert_eq!(negotiated.width, 1280);
    assert!(!negotiated.exact_match);
}

#[test]
fn test_resolution_score() {
    let cap_1080p = make_cap(1920, 1080, 30_000, PixelFormat::Mjpeg);
    let cap_720p = make_cap(1280, 720, 30_000, PixelFormat::Mjpeg);
    let score_1080 = resolution_score(&cap_1080p, 1920, 1080);
    let score_720 = resolution_score(&cap_720p, 1920, 1080);
    assert!(score_1080 < score_720);
    assert_eq!(score_1080, 0);
    assert_eq!(score_720, 640 * 640 + 360 * 360);
}
