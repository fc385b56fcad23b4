use ed_timelapse::error::{CaptureError, FocusStep, KeyPhase, RequestError, SetupError};

#[test]
fn setup_errors_in_words() {
    assert_eq!(SetupError::JournalDirNotFound.message(), "Failed to find the journal directory");
    assert_eq!(SetupError::JournalDirUnreadable.message(), "Failed to list the journal directory");
    assert_eq!(SetupError::NoJournalFiles.message(), "No journal files");
    assert_eq!(SetupError::JournalUnreadable.message(), "Failed to read the journal file");
    assert_eq!(SetupError::PicturesDirNotFound.message(), "Failed to find picture directory");
    assert_eq!(SetupError::ZeroInterval.message(), "The interval must not be zero");
    assert_eq!(SetupError::IntervalTooLong.message(), "The interval is too long");
}

#[test]
fn request_errors_in_words() {
    assert_eq!(
        RequestError::TargetNotRunning.message(),
        "Elite Dangerous does not appear to be running."
    );
    assert_eq!(
        RequestError::FocusError(FocusStep::Foreground).message(),
        "Failed to bring Elite Dangerous to the foreground."
    );
    assert_eq!(
        RequestError::FocusError(FocusStep::Top).message(),
        "Failed to bring Elite Dangerous to the top."
    );
    assert_eq!(
        RequestError::InputInjectionFailed(KeyPhase::Down).message(),
        "Failed to send down keypresses."
    );
    assert_eq!(
        RequestError::InputInjectionFailed(KeyPhase::Up).message(),
        "Failed to send up keypresses."
    );
}

#[test]
fn capture_errors_in_words() {
    assert_eq!(CaptureError::Timeout.message(), "Timed out waiting for the screenshot");
    assert_eq!(CaptureError::FileMissing.message(), "Screenshot file does not exist");
    assert_eq!(
        CaptureError::RequestFailed(RequestError::TargetNotRunning).message(),
        RequestError::TargetNotRunning.message()
    );
}
