use micround::app_core::error::{CaptureError, RenderError};
use micround::app_core::error_injector::{
    CaptureErrorKind, ErrorInjector, ErrorInjectorBuilder, ErrorType, InjectionTrigger, RenderErrorKind,
};

#[test]
fn test_injector_disabled_by_default() {
    let mut injector = ErrorInjector::new();
    for _ in 0..100 {
        assert!(!injector.should_inject());
    }
}

#[test]
fn test_always_trigger() {
    let mut injector = ErrorInjector::new().with_trigger(InjectionTrigger::Always).activate();
    for _ in 0..10 {
        assert!(injector.should_inject());
    }
}

#[test]
fn test_never_trigger() {
    let mut injector = ErrorInjector::new().with_trigger(InjectionTrigger::Never).activate();
    for _ in 0..10 {
        assert!(!injector.should_inject());
    }
}

#[test]
fn test_every_n_trigger() {
    let mut injector = ErrorInjector::every_n(3);
    let results: Vec<bool> = (0..9).map(|_| injector.should_inject()).collect();
    assert_eq!(results, vec![false, false, true, false, false, true, false, false, true]);
}

#[test]
fn test_on_operations_trigger() {
    let mut injector = ErrorInjector::on_operations(vec![2, 5, 7]);
    let results: Vec<bool> = (0..10).map(|_| injector.should_inject()).collect();
    assert_eq!(results[0], false);
    assert_eq!(results[1], true);
    assert_eq!(results[2], false);
    assert_eq!(results[3], false);
    assert_eq!(results[4], true);
    assert_eq!(results[5], false);
    assert_eq!(results[6], true);
}

#[test]
fn test_probability_trigger_deterministic() {
    let mut injector = ErrorInjector::with_probability(500_000).with_seed(12345);
    let results1: Vec<bool> = (0..20).map(|_| injector.should_inject()).collect();
    injector.reset();
    let results2: Vec<bool> = (0..20).map(|_| injector.should_inject()).collect();
    assert_eq!(results1, results2);
}

#[test]
fn test_probability_distribution() {
    let mut injector = ErrorInjector::with_probability(500_000).with_seed(99999);
    let mut injections = 0;
    for _ in 0..1000 {
        if injector.should_inject() {
            injections += 1;
        }
    }
    assert!(injections > 400 && injections < 600, "Expected ~500 injections, got {}", injections);
}

#[test]
fn test_in_range_trigger() {
    let mut injector = ErrorInjector::new()
        .with_trigger(InjectionTrigger::InRange { start: 3, end: 5 })
        .activate();
    let results: Vec<bool> = (0..7).map(|_| injector.should_inject()).collect();
    assert_eq!(results, vec![false, false, true, true, true, false, false]);
}

#[test]
fn test_operation_count() {
    let mut injector = ErrorInjector::every_n(5);
    for _ in 0..10 {
        injector.should_inject();
    }
    assert_eq!(injector.operation_count(), 10);
}

#[test]
fn test_reset() {
    let mut injector = ErrorInjector::every_n(5);
    for _ in 0..10 {
        injector.should_inject();
    }
    injector.reset();
    assert_eq!(injector.operation_count(), 0);
}

#[test]
fn test_capture_error_generation() {
    let injector = ErrorInjector::new()
        .with_error_type(ErrorType::Capture(CaptureErrorKind::DeviceNotFound))
        .with_message("Camera XYZ not found");
    let err = injector.capture_error("test context");
    match err {
        CaptureError::DeviceNotFound(msg) => assert!(msg.contains("Camera XYZ not found")),
        _ => panic!("Expected DeviceNotFound error"),
    }
}

#[test]
fn test_render_error_generation() {
    let injector = ErrorInjector::new()
        .with_error_type(ErrorType::Render(RenderErrorKind::DisplayNotFound))
        .with_message("Monitor disconnected");
    let err = injector.render_error("test context");
    match err {
        RenderError::DisplayNotFound(msg) => assert!(msg.contains("Monitor disconnected")),
        _ => panic!("Expected DisplayNotFound error"),
    }
}

#[test]
fn test_builder_pattern() {
    let mut injector = ErrorInjectorBuilder::new()
        .every(10)
        .device_disconnected()
        .message("Simulated disconnect")
        .seed(42)
        .build();
    assert!(injector.is_active());
    for i in 0..30 {
        let should = injector.should_inject();
        assert_eq!(should, (i + 1) % 10 == 0, "Failed at iteration {}", i);
    }
}

#[test]
fn test_builder_probability() {
    let mut injector = ErrorInjectorBuilder::new().probability(300_000).timeout().build();
    let mut count = 0;
    for _ in 0..1000 {
        if injector.should_inject() {
            count += 1;
        }
    }
    assert!(count > 200 && count < 400, "Expected ~300, got {}", count);
}

#[test]
fn test_stats() {
    let mut injector = ErrorInjector::every_n(3);
    for _ in 0..9 {
        injector.should_inject();
    }
    let stats = injector.stats();
    assert_eq!(stats.operations_checked, 9);
    assert_eq!(stats.errors_injected, 3);
}

#[test]
fn test_deactivate() {
    let mut injector = ErrorInjector::new().with_trigger(InjectionTrigger::Always).activate();
    assert!(injector.should_inject());
    injector.deactivate();
    assert!(!injector.should_inject());
}

#[test]
fn test_peek_without_increment() {
    let mut injector = ErrorInjector::on_operations(vec![1]);
    assert!(injector.peek_should_inject());
    assert!(injector.peek_should_inject());
    assert_eq!(injector.operation_count(), 0);
    assert!(injector.should_inject());
    assert_eq!(injector.operation_count(), 1);
    assert!(!injector.peek_should_inject());
}

#[test]
fn injector_generated_message_names_operation() {
    let mut injector = ErrorInjector::every_n(1).with_error_type(ErrorType::Capture(CaptureErrorKind::Platform));
    injector.should_inject();
    injector.should_inject();
    match injector.capture_error("read") {
        CaptureError::Platform(msg) => assert_eq!(msg, "Injected error at operation 2: read"),
        other => panic!("unexpected {:?}", other),
    }
}

#[test]
fn injector_probability_bounds() {
    let mut never = ErrorInjector::with_probability(0);
    let mut always = ErrorInjectorBuilder::new().probability(2_000_000).build();
    for _ in 0..50 {
        assert!(!never.should_inject());
        assert!(always.should_inject());
    }
}

#[test]
fn injector_other_kind_gives_platform_error() {
    let injector = ErrorInjector::new()
        .with_error_type(ErrorType::Generic)
        .with_message("boom");
    match injector.capture_error("ctx") {
        CaptureError::Platform(msg) => assert_eq!(msg, "boom"),
        other => panic!("unexpected {:?}", other),
    }
}

#[test]
fn test_peek_every_n_counts_injected() {
    let mut injector = ErrorInjector::every_n(2);
    assert!(!injector.peek_should_inject());
    assert_eq!(injector.stats().errors_injected, 0);
    assert!(!injector.should_inject());
    assert!(injector.peek_should_inject());
    assert_eq!(injector.stats().errors_injected, 1);
    assert_eq!(injector.operation_count(), 1);
}
