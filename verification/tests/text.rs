use nanites::error::RuntimeError;
use nanites::text::{decimal_text, join};

#[test]
fn decimal_rendering() {
    assert_eq!(decimal_text(0), "0");
    assert_eq!(decimal_text(7), "7");
    assert_eq!(decimal_text(10), "10");
    assert_eq!(decimal_text(1234567890), "1234567890");
    assert_eq!(decimal_text(u64::MAX), u64::MAX.to_string());
}

#[test]
fn joining() {
    let parts = vec!["a".to_string(), "".to_string(), "c".to_string()];
    assert_eq!(join(&parts, "\n"), "a\n\nc");
    assert_eq!(join(&vec![], ","), "");
    assert_eq!(join(&vec!["x".to_string()], ","), "x");
}

#[test]
fn runtime_error_messages() {
    assert_eq!(RuntimeError::Cancelled.message(), "execution cancelled");
    assert_eq!(RuntimeError::TaskPanicked("boom".into()).message(), "task panicked: boom");
    assert_eq!(
        RuntimeError::NoExecutor("my::Task").message(),
        "no executor registered for I/O task \"my::Task\"; call Runtime::register_executor before spawning the task"
    );
    let t = std::any::TypeId::of::<u8>();
    let u = std::any::TypeId::of::<u16>();
    assert_eq!(
        RuntimeError::InputTypeMismatch { expected: t, got: u }.message(),
        format!("input type mismatch: expected {t:?}, got {u:?}")
    );
    assert_eq!(
        RuntimeError::OutputTypeMismatch { expected: t, got: u }.message(),
        format!("output type mismatch: expected {t:?}, got {u:?}")
    );
}
