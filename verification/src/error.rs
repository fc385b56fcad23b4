//! Error kinds of the engine.

use vstd::prelude::*;

verus! {

/// Why an engine could not be set up. Nothing runs after one of these.
#[derive(Debug, Clone, Copy, PartialEq, Eq, Structural)]
pub enum SetupError {
    /// The game's journal directory could not be located.
    JournalDirNotFound,
    /// The journal directory could not be listed.
    JournalDirUnreadable,
    /// The journal directory holds no journal file.
    NoJournalFiles,
    /// The newest journal file could not be opened for live reading.
    JournalUnreadable,
    /// The user's pictures directory could not be located.
    PicturesDirNotFound,
    /// The timelapse interval is zero.
    ZeroInterval,
    /// The timelapse interval is longer than the clock can count.
    IntervalTooLong,
}

/// The two steps that put the game's window in front.
#[derive(Debug, Clone, Copy, PartialEq, Eq, Structural)]
pub enum FocusStep {
    /// Making it the foreground window.
    Foreground,
    /// Bringing it to the top of the z-order.
    Top,
}

/// The two halves of a key press.
#[derive(Debug, Clone, Copy, PartialEq, Eq, Structural)]
pub enum KeyPhase {
    Down,
    Up,
}

/// Why a screenshot could not be requested.
#[derive(Debug, Clone, Copy, PartialEq, Eq, Structural)]
pub enum RequestError {
    /// No window carries the game's title.
    TargetNotRunning,
    /// The system refused to put the game's window in front.
    FocusError(FocusStep),
    /// The system took fewer key events than were sent.
    InputInjectionFailed(KeyPhase),
}

/// Why a capture did not yield a screenshot.
#[derive(Debug, Clone, Copy, PartialEq, Eq, Structural)]
pub enum CaptureError {
    /// The request did not go through.
    RequestFailed(RequestError),
    /// The request went through, but the journal reported no screenshot in time.
    Timeout,
    /// The journal reported a screenshot, but the file is not where it should be.
    FileMissing,
}

impl SetupError {
    /// The error in words.
    pub open spec fn text(self) -> Seq<char> {
        match self {
            SetupError::JournalDirNotFound => "Failed to find the journal directory"@,
            SetupError::JournalDirUnreadable => "Failed to list the journal directory"@,
            SetupError::NoJournalFiles => "No journal files"@,
            SetupError::JournalUnreadable => "Failed to read the journal file"@,
            SetupError::PicturesDirNotFound => "Failed to find picture directory"@,
            SetupError::ZeroInterval => "The interval must not be zero"@,
            SetupError::IntervalTooLong => "The interval is too long"@,
        }
    }

    pub fn message(&self) -> (message: &'static str)
        ensures
            message@ == self.text(),
    {
        match self {
            SetupError::JournalDirNotFound => "Failed to find the journal directory",
            SetupError::JournalDirUnreadable => "Failed to list the journal directory",
            SetupError::NoJournalFiles => "No journal files",
            SetupError::JournalUnreadable => "Failed to read the journal file",
            SetupError::PicturesDirNotFound => "Failed to find picture directory",
            SetupError::ZeroInterval => "The interval must not be zero",
            SetupError::IntervalTooLong => "The interval is too long",
        }
    }
}

impl RequestError {
    /// The error in words.
    pub open spec fn text(self) -> Seq<char> {
        match self {
            RequestError::TargetNotRunning => "Elite Dangerous does not appear to be running."@,
            RequestError::FocusError(FocusStep::Foreground) =>
                "Failed to bring Elite Dangerous to the foreground."@,
            RequestError::FocusError(FocusStep::Top) => "Failed to bring Elite Dangerous to the top."@,
            RequestError::InputInjectionFailed(KeyPhase::Down) => "Failed to send down keypresses."@,
            RequestError::InputInjectionFailed(KeyPhase::Up) => "Failed to send up keypresses."@,
        }
    }

    pub fn message(&self) -> (message: &'static str)
        ensures
            message@ == self.text(),
    {
        match self {
            RequestError::TargetNotRunning => "Elite Dangerous does not appear to be running.",
            RequestError::FocusError(FocusStep::Foreground) =>
                "Failed to bring Elite Dangerous to the foreground.",
            RequestError::FocusError(FocusStep::Top) => "Failed to bring Elite Dangerous to the top.",
            RequestError::InputInjectionFailed(KeyPhase::Down) => "Failed to send down keypresses.",
            RequestError::InputInjectionFailed(KeyPhase::Up) => "Failed to send up keypresses.",
        }
    }
}

impl CaptureError {
    /// The error in words; a failed request speaks for itself.
    pub open spec fn text(self) -> Seq<char> {
        match self {
            CaptureError::RequestFailed(error) => error.text(),
            CaptureError::Timeout => "Timed out waiting for the screenshot"@,
            CaptureError::FileMissing => "Screenshot file does not exist"@,
        }
    }

    pub fn message(&self) -> (message: &'static str)
        ensures
            message@ == self.text(),
    {
        match self {
            CaptureError::RequestFailed(error) => error.message(),
            CaptureError::Timeout => "Timed out waiting for the screenshot",
            CaptureError::FileMissing => "Screenshot file does not exist",
        }
    }
}

} // verus!
