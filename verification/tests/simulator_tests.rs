use std::time::Instant;

use micround::app_core::error::CaptureError;
use micround::app_core::types::{CaptureSettings, DeviceId, Frame, PixelFormat};
use micround::capture::simulator::{FramePattern, InjectedErrorType, SimulatorBackend, SimulatorConfig};

/// One frame request, as a capture loop makes it (without the pacing).
fn next_frame(backend: &mut SimulatorBackend) -> Result<Frame, CaptureError> {
    let n = backend.advance_frame_at(Instant::now())?;
    assert!(backend.can_render(n));
    Ok(backend.generate_frame(n, Instant::now()))
}

fn settings(width: u32, height: u32) -> CaptureSettings {
    CaptureSettings { width, height, framerate_millis: 1_000_000, format: None }
}

#[test]
fn test_simulator_creation() {
    let backend = SimulatorBackend::new(SimulatorConfig::default());
    assert!(!backend.is_open());
    assert!(!backend.is_capturing());
}

#[test]
fn test_device_enumeration() {
    let config = SimulatorConfig { device_count: 3, ..Default::default() };
    let backend = SimulatorBackend::new(config);
    let devices = backend.enumerate_devices();
    assert_eq!(devices.len(), 3);
    assert!(devices[0].id.0.starts_with("simulator:"));
    assert!(!devices[0].capabilities.is_empty());
    assert_eq!(devices[2].id.0, "simulator:2");
    assert_eq!(devices[2].name, "Simulated Camera #3");
}

#[test]
fn test_open_and_close() {
    let mut backend = SimulatorBackend::new_default();
    let devices = backend.enumerate_devices();
    let device_id = &devices[0].id;
    let settings = CaptureSettings { width: 800, height: 600, framerate_millis: 25_000, format: None };
    let format = backend.open(device_id, settings).unwrap();
    assert_eq!(format.width, 800);
    assert_eq!(format.height, 600);
    assert_eq!(format.framerate_millis, 25_000);
    assert!(backend.is_open());
    backend.close();
    assert!(!backend.is_open());
}

#[test]
fn test_capture_frames() {
    let config = SimulatorConfig { fps: 1000, ..Default::default() };
    let mut backend = SimulatorBackend::new(config);
    let devices = backend.enumerate_devices();
    backend.open(&devices[0].id, settings(640, 480)).unwrap();
    backend.start().unwrap();
    assert!(backend.is_capturing());
    for i in 0..3 {
        let frame = next_frame(&mut backend).unwrap();
        assert_eq!(frame.sequence, i);
        assert_eq!(frame.width, 640);
        assert_eq!(frame.height, 480);
        assert_eq!(frame.format, PixelFormat::Rgba32);
        assert_eq!(frame.data.len(), 640 * 480 * 4);
    }
    backend.stop().unwrap();
    assert!(!backend.is_capturing());
}

#[test]
fn test_color_bars_pattern() {
    let config = SimulatorConfig { width: 80, height: 10, pattern: FramePattern::ColorBars, fps: 1000, ..Default::default() };
    let mut backend = SimulatorBackend::new(config);
    let devices = backend.enumerate_devices();
    backend.open(&devices[0].id, settings(80, 10)).unwrap();
    backend.start().unwrap();
    let frame = next_frame(&mut backend).unwrap();
    assert_eq!(frame.data[0], 255);
    assert_eq!(frame.data[1], 255);
    assert_eq!(frame.data[2], 255);
    let idx = 10 * 4;
    assert_eq!(frame.data[idx], 255);
    assert_eq!(frame.data[idx + 1], 255);
    assert_eq!(frame.data[idx + 2], 0);
    backend.stop().unwrap();
}

#[test]
fn test_solid_color_pattern() {
    let config = SimulatorConfig {
        width: 10,
        height: 10,
        pattern: FramePattern::SolidColor { r: 100, g: 150, b: 200 },
        fps: 1000,
        ..Default::default()
    };
    let mut backend = SimulatorBackend::new(config);
    let devices = backend.enumerate_devices();
    backend.open(&devices[0].id, settings(10, 10)).unwrap();
    backend.start().unwrap();
    let frame = next_frame(&mut backend).unwrap();
    for pixel in frame.data.chunks_exact(4) {
        assert_eq!(pixel[0], 100);
        assert_eq!(pixel[1], 150);
        assert_eq!(pixel[2], 200);
        assert_eq!(pixel[3], 255);
    }
    backend.stop().unwrap();
}

#[test]
fn test_checkerboard_pattern() {
    let config = SimulatorConfig {
        width: 20,
        height: 20,
        pattern: FramePattern::Checkerboard { size: 10 },
        fps: 1000,
        ..Default::default()
    };
    let mut backend = SimulatorBackend::new(config);
    let devices = backend.enumerate_devices();
    backend.open(&devices[0].id, settings(20, 20)).unwrap();
    backend.start().unwrap();
    let frame = next_frame(&mut backend).unwrap();
    assert_eq!(frame.data[0], 255);
    let idx = 10 * 4;
    assert_eq!(frame.data[idx], 0);
    backend.stop().unwrap();
}

#[test]
fn test_hd_config() {
    let config = SimulatorConfig::hd();
    assert_eq!(config.width, 1920);
    assert_eq!(config.height, 1080);
}

#[test]
fn test_stress_config() {
    let config = SimulatorConfig::stress_test();
    assert_eq!(config.width, 3840);
    assert_eq!(config.height, 2160);
    assert!(config.drop_rate_ppm > 0);
}

#[test]
fn test_invalid_device_id() {
    let mut backend = SimulatorBackend::new_default();
    let result = backend.open(&DeviceId("invalid:0".into()), CaptureSettings::default());
    assert!(result.is_err());
    assert!(matches!(result.unwrap_err(), CaptureError::DeviceNotFound(_)));
}

#[test]
fn test_capture_without_start() {
    let mut backend = SimulatorBackend::new_default();
    let devices = backend.enumerate_devices();
    backend.open(&devices[0].id, CaptureSettings::default()).unwrap();
    let result = next_frame(&mut backend);
    assert!(result.is_err());
}

#[test]
fn simulator_start_requires_open() {
    let mut backend = SimulatorBackend::new_default();
    match backend.start() {
        Err(CaptureError::Platform(m)) => assert_eq!(m, "Camera not open"),
        other => panic!("unexpected {:?}", other),
    }
}

#[test]
fn simulator_noise_is_reproducible() {
    let config = SimulatorConfig { width: 4, height: 4, pattern: FramePattern::Noise, ..Default::default() };
    let mut a = SimulatorBackend::new(config.clone());
    let mut b = SimulatorBackend::new(config);
    for backend in [&mut a, &mut b] {
        backend.open(&DeviceId("simulator:0".into()), settings(4, 4)).unwrap();
        backend.start().unwrap();
    }
    let fa = next_frame(&mut a).unwrap();
    let fb = next_frame(&mut b).unwrap();
    assert_eq!(fa.data, fb.data);
    assert!(fa.data.chunks_exact(4).all(|p| p[3] == 255));
    // The first pixel comes from one xorshift step from the seed.
    let mut x: u64 = 0x12345678;
    x ^= x << 13;
    x ^= x >> 7;
    x ^= x << 17;
    assert_eq!(fa.data[0], x as u8);
    assert_eq!(fa.data[1], (x >> 8) as u8);
    assert_eq!(fa.data[2], (x >> 16) as u8);
}

#[test]
fn simulator_gradients() {
    let config = SimulatorConfig { width: 256, height: 2, pattern: FramePattern::HorizontalGradient, ..Default::default() };
    let mut backend = SimulatorBackend::new(config);
    let frame = backend.generate_frame(0, Instant::now());
    assert_eq!(frame.data[0], 0);
    assert_eq!(frame.data[255 * 4], (255 * 255 / 256) as u8);
    let config = SimulatorConfig { width: 2, height: 100, pattern: FramePattern::VerticalGradient, ..Default::default() };
    let mut backend = SimulatorBackend::new(config);
    let frame = backend.generate_frame(0, Instant::now());
    assert_eq!(frame.data[(50 * 2) * 4], (50 * 255 / 100) as u8);
}

#[test]
fn simulator_counter_draws_blocks() {
    let config = SimulatorConfig { width: 64, height: 20, pattern: FramePattern::Counter, ..Default::default() };
    let mut backend = SimulatorBackend::new(config);
    assert!(backend.can_render(7));
    let frame = backend.generate_frame(7, Instant::now());
    // Six blocks of 8 columns, centred: they start at x = 8, y = 4.
    let px = |x: usize, y: usize| frame.data[(y * 64 + x) * 4];
    assert_eq!(px(0, 0), 128);
    assert_eq!(px(8, 4), 255);
    assert_eq!(px(14, 4), 255);
    assert_eq!(px(15, 4), 128);
    assert_eq!(px(8, 16), 128);
    // Too narrow for the digits of a large frame number.
    assert!(backend.can_render(10_000_000));
    assert!(!backend.can_render(100_000_000));
}

#[test]
fn simulator_moving_line() {
    let config = SimulatorConfig { width: 4, height: 3, pattern: FramePattern::MovingLine, ..Default::default() };
    let mut backend = SimulatorBackend::new(config);
    assert!(backend.can_render(1));
    let frame = backend.generate_frame(1, Instant::now());
    // Offset 5 % 7 = 5: points (1, 0), (2, 1), (3, 2), (0, 0).
    let green = |x: usize, y: usize| frame.data[(y * 4 + x) * 4 + 1] == 255;
    assert!(green(1, 0));
    assert!(green(2, 1));
    assert!(green(3, 2));
    assert!(green(0, 0));
    assert!(!green(0, 1));
    assert!(!green(1, 2));
}

#[test]
fn simulator_cycling_errors() {
    let config = SimulatorConfig {
        error_rate_ppm: 1_000_000,
        error_type: InjectedErrorType::Cycling,
        width: 2,
        height: 2,
        ..Default::default()
    };
    let mut backend = SimulatorBackend::new(config);
    backend.open(&DeviceId("simulator:0".into()), settings(2, 2)).unwrap();
    backend.start().unwrap();
    let mut seen = Vec::new();
    for _ in 0..4 {
        match backend.advance_frame_at(Instant::now()) {
            Err(e) => seen.push(e),
            Ok(_) => {}
        }
    }
    assert!(seen.len() >= 3);
    assert!(matches!(seen[0], CaptureError::Timeout(100)));
    assert!(matches!(seen[1], CaptureError::Disconnected));
    assert!(matches!(seen[2], CaptureError::DeviceBusy));
}

#[test]
fn simulator_drops_skip_frame_numbers() {
    let config = SimulatorConfig { drop_rate_ppm: 500_000, width: 2, height: 2, ..Default::default() };
    let mut backend = SimulatorBackend::new(config);
    backend.open(&DeviceId("simulator:0".into()), settings(2, 2)).unwrap();
    backend.start().unwrap();
    let mut last = None;
    let mut skipped = false;
    for _ in 0..50 {
        let n = backend.advance_frame_at(Instant::now()).unwrap();
        if let Some(prev) = last {
            assert!(n > prev);
            if n > prev + 1 {
                skipped = true;
            }
        }
        last = Some(n);
    }
    assert!(skipped);
    assert_eq!(backend.frame_count(), last.unwrap() + 1);
}

#[test]
fn simulator_frame_delay() {
    let config = SimulatorConfig { fps: 10, ..Default::default() };
    let mut backend = SimulatorBackend::new(config.clone());
    assert_eq!(backend.frame_delay_nanos(Instant::now()), 0);
    backend.open(&DeviceId("simulator:0".into()), CaptureSettings { width: 2, height: 2, framerate_millis: 10_000, format: None }).unwrap();
    let t0 = Instant::now();
    backend.start_at(t0).unwrap();
    assert_eq!(backend.frame_delay_nanos(t0), 100_000_000);
    assert_eq!(backend.frame_delay_nanos(t0 + std::time::Duration::from_millis(30)), 70_000_000);
    assert_eq!(backend.frame_delay_nanos(t0 + std::time::Duration::from_millis(300)), 0);
}
