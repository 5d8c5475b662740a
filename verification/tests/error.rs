use mover::error::{MoverError, PlatformError};

#[test]
fn text_becomes_the_other_error() {
    assert_eq!(
        MoverError::from("boom"),
        MoverError::Other("boom".to_string())
    );
    assert_eq!(
        MoverError::from("boom".to_string()),
        MoverError::Other("boom".to_string())
    );
}

#[test]
fn platform_errors_are_wrapped() {
    assert_eq!(
        MoverError::from(PlatformError::Linux("x11".to_string())),
        MoverError::PlatformError(PlatformError::Linux("x11".to_string()))
    );
}

#[test]
fn unsupported_operation_carries_its_message() {
    assert_eq!(
        MoverError::unsupported_operation("no scroll".to_string()),
        MoverError::PlatformError(PlatformError::UnsupportedOperation("no scroll".to_string()))
    );
}

#[test]
fn backend_failure_joins_context_and_words() {
    assert_eq!(
        MoverError::backend_failure("Failed to move mouse", "display closed"),
        MoverError::PlatformError(PlatformError::UnsupportedOperation(
            "Failed to move mouse: display closed".to_string()
        ))
    );
    assert_eq!(
        MoverError::backend_failure("", ""),
        MoverError::PlatformError(PlatformError::UnsupportedOperation(": ".to_string()))
    );
}

#[test]
fn error_kinds_are_distinct() {
    let kinds = [
        MoverError::PlatformNotSupported("x".to_string()),
        MoverError::InvalidCoordinates(1, 2),
        MoverError::InvalidMouseButton("x".to_string()),
        MoverError::ScreenCaptureFailed("x".to_string()),
        MoverError::ImageNotFound("x".to_string()),
        MoverError::FailsafeTriggered("x".to_string()),
        MoverError::PlatformError(PlatformError::Windows("x".to_string())),
        MoverError::PlatformError(PlatformError::MacOS("x".to_string())),
        MoverError::IoError("x".to_string()),
        MoverError::Other("x".to_string()),
    ];
    for (i, a) in kinds.iter().enumerate() {
        for (j, b) in kinds.iter().enumerate() {
            assert_eq!(a == b, i == j);
        }
    }
}

#[test]
fn errors_have_messages() {
    let text = || "why".to_string();
    let cases = [
        (
            MoverError::PlatformNotSupported("plan9".to_string()),
            "Platform not supported: plan9",
        ),
        (
            MoverError::InvalidCoordinates(-5, 1200),
            "Invalid coordinates: (-5, 1200)",
        ),
        (
            MoverError::InvalidMouseButton(text()),
            "Invalid mouse button: why",
        ),
        (
            MoverError::ScreenCaptureFailed(text()),
            "Screen capture failed: why",
        ),
        (MoverError::ImageNotFound(text()), "Image not found: why"),
        (
            MoverError::FailsafeTriggered(text()),
            "Failsafe triggered: why",
        ),
        (
            MoverError::PlatformError(PlatformError::Windows(text())),
            "Platform error: Windows API error: why",
        ),
        (
            MoverError::PlatformError(PlatformError::MacOS(text())),
            "Platform error: macOS Core Graphics error: why",
        ),
        (
            MoverError::PlatformError(PlatformError::Linux(text())),
            "Platform error: Linux X11 error: why",
        ),
        (
            MoverError::PlatformError(PlatformError::UnsupportedOperation(text())),
            "Platform error: Unsupported operation: why",
        ),
        (MoverError::IoError(text()), "IO error: why"),
        (MoverError::Other(String::new()), "Other error: "),
    ];
    for (error, message) in cases {
        assert_eq!(error.message(), message);
    }
    assert_eq!(
        PlatformError::UnsupportedOperation(text()).message(),
        "Unsupported operation: why"
    );
}
