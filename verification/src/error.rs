//! The errors of the recorder and the text shown for each.

use vstd::prelude::*;
use vstd::string::StringExecFns;

verus! {

/// The broad kind of a failure, by what the user has to fix.
#[derive(Copy, Clone, Debug, PartialEq, Eq, Structural)]
pub enum ErrorClass {
    /// A required tool is missing from the search path.
    Environment,
    /// The configuration lacks something that the platform needs.
    Configuration,
    /// A directory or the PID record could not be written.
    Filesystem,
    /// A process could not be started, waited for, stopped or probed.
    Process,
    /// The PID record does not hold a process identifier.
    Parse,
}

/// Everything that can go wrong while a recording is set up, run or stopped.
#[derive(Clone, Debug, PartialEq, Eq)]
pub enum RecorderError {
    /// ffmpeg is not on the search path.
    FfmpegMissing,
    /// The platform has no default loopback device and none was supplied.
    LoopbackDeviceRequired,
    /// No capture backend is known for the platform.
    UnsupportedPlatform,
    /// The output directory could not be created.
    OutputDirectory { reason: String },
    /// ffmpeg could not be started.
    Spawn { reason: String },
    /// ffmpeg could not be started detached from the caller.
    SpawnDetached { reason: String },
    /// The interrupt handler could not be installed.
    InterruptHandler { reason: String },
    /// Waiting for ffmpeg failed.
    Wait { reason: String },
    /// ffmpeg ran and reported failure.
    ExitStatus { status: String },
    /// The termination tool could not be run.
    Termination { reason: String },
    /// The process listing tool could not be run.
    Probe { reason: String },
    /// The PID record holds something else than a process identifier.
    InvalidPidRecord,
    /// There is no record of a background recording.
    RecordNotFound,
    /// The termination request was made and did not succeed.
    StopFailed,
}

/// `context`, a colon, a space and `reason`.
pub open spec fn with_reason(context: Seq<char>, reason: Seq<char>) -> Seq<char> {
    context + ": "@ + reason
}

impl RecorderError {
    /// The kind of this failure.
    pub open spec fn class_of(self) -> ErrorClass {
        match self {
            RecorderError::FfmpegMissing => ErrorClass::Environment,
            RecorderError::LoopbackDeviceRequired => ErrorClass::Configuration,
            RecorderError::UnsupportedPlatform => ErrorClass::Configuration,
            RecorderError::OutputDirectory { .. } => ErrorClass::Filesystem,
            RecorderError::Spawn { .. } => ErrorClass::Process,
            RecorderError::SpawnDetached { .. } => ErrorClass::Process,
            RecorderError::InterruptHandler { .. } => ErrorClass::Process,
            RecorderError::Wait { .. } => ErrorClass::Process,
            RecorderError::ExitStatus { .. } => ErrorClass::Process,
            RecorderError::Termination { .. } => ErrorClass::Process,
            RecorderError::Probe { .. } => ErrorClass::Process,
            RecorderError::InvalidPidRecord => ErrorClass::Parse,
            RecorderError::RecordNotFound => ErrorClass::Filesystem,
            RecorderError::StopFailed => ErrorClass::Process,
        }
    }

    /// The text shown to the user.
    pub open spec fn message_text(self) -> Seq<char> {
        match self {
            RecorderError::FfmpegMissing =>
                "ffmpeg is required but not found in PATH.\n\nPlease install ffmpeg and ensure it is available on your PATH.\n\nQuick install examples:\n  - macOS (Homebrew): brew install ffmpeg\n  - Ubuntu/Debian: sudo apt update && sudo apt install ffmpeg\n  - Windows (Scoop/Chocolatey): scoop install ffmpeg  OR  choco install ffmpeg\n\nAfter installing, restart the app and try again."@,
            RecorderError::LoopbackDeviceRequired =>
                "On macOS you must provide a loopback device via system_override (e.g. 'BlackHole 2ch')."@,
            RecorderError::UnsupportedPlatform => "Unsupported platform"@,
            RecorderError::OutputDirectory { reason } => with_reason(
                "failed to create output directory"@,
                reason@,
            ),
            RecorderError::Spawn { reason } => with_reason("failed to spawn ffmpeg"@, reason@),
            RecorderError::SpawnDetached { reason } => with_reason(
                "failed to spawn detached ffmpeg"@,
                reason@,
            ),
            RecorderError::InterruptHandler { reason } => with_reason(
                "failed to set ctrlc handler"@,
                reason@,
            ),
            RecorderError::Wait { reason } => with_reason("ffmpeg failed to run"@, reason@),
            RecorderError::ExitStatus { status } => with_reason(
                "ffmpeg exited with status"@,
                status@,
            ),
            RecorderError::Termination { reason } => with_reason(
                "failed to run the termination command"@,
                reason@,
            ),
            RecorderError::Probe { reason } => with_reason(
                "failed to run the process listing"@,
                reason@,
            ),
            RecorderError::InvalidPidRecord => "pidfile does not hold a process id"@,
            RecorderError::RecordNotFound => "pidfile not found"@,
            RecorderError::StopFailed => "failed to stop process"@,
        }
    }

    /// The kind of this failure.
    pub fn class(&self) -> (class: ErrorClass)
        ensures
            class == self.class_of(),
    {
        match self {
            RecorderError::FfmpegMissing => ErrorClass::Environment,
            RecorderError::LoopbackDeviceRequired => ErrorClass::Configuration,
            RecorderError::UnsupportedPlatform => ErrorClass::Configuration,
            RecorderError::OutputDirectory { .. } => ErrorClass::Filesystem,
            RecorderError::Spawn { .. } => ErrorClass::Process,
            RecorderError::SpawnDetached { .. } => ErrorClass::Process,
            RecorderError::InterruptHandler { .. } => ErrorClass::Process,
            RecorderError::Wait { .. } => ErrorClass::Process,
            RecorderError::ExitStatus { .. } => ErrorClass::Process,
            RecorderError::Termination { .. } => ErrorClass::Process,
            RecorderError::Probe { .. } => ErrorClass::Process,
            RecorderError::InvalidPidRecord => ErrorClass::Parse,
            RecorderError::RecordNotFound => ErrorClass::Filesystem,
            RecorderError::StopFailed => ErrorClass::Process,
        }
    }

    /// The text shown to the user: what failed and, where the library was
    /// given one, the underlying reason.
    pub fn message(&self) -> (text: String)
        ensures
            text@ == self.message_text(),
    {
        match self {
            RecorderError::FfmpegMissing => String::from_str(
                "ffmpeg is required but not found in PATH.\n\nPlease install ffmpeg and ensure it is available on your PATH.\n\nQuick install examples:\n  - macOS (Homebrew): brew install ffmpeg\n  - Ubuntu/Debian: sudo apt update && sudo apt install ffmpeg\n  - Windows (Scoop/Chocolatey): scoop install ffmpeg  OR  choco install ffmpeg\n\nAfter installing, restart the app and try again.",
            ),
            RecorderError::LoopbackDeviceRequired => String::from_str(
                "On macOS you must provide a loopback device via system_override (e.g. 'BlackHole 2ch').",
            ),
            RecorderError::UnsupportedPlatform => String::from_str("Unsupported platform"),
            RecorderError::OutputDirectory { reason } => describe(
                "failed to create output directory",
                reason,
            ),
            RecorderError::Spawn { reason } => describe("failed to spawn ffmpeg", reason),
            RecorderError::SpawnDetached { reason } => describe(
                "failed to spawn detached ffmpeg",
                reason,
            ),
            RecorderError::InterruptHandler { reason } => describe(
                "failed to set ctrlc handler",
                reason,
            ),
            RecorderError::Wait { reason } => describe("ffmpeg failed to run", reason),
            RecorderError::ExitStatus { status } => describe("ffmpeg exited with status", status),
            RecorderError::Termination { reason } => describe(
                "failed to run the termination command",
                reason,
            ),
            RecorderError::Probe { reason } => describe(
                "failed to run the process listing",
                reason,
            ),
            RecorderError::InvalidPidRecord => String::from_str(
                "pidfile does not hold a process id",
            ),
            RecorderError::RecordNotFound => String::from_str("pidfile not found"),
            RecorderError::StopFailed => String::from_str("failed to stop process"),
        }
    }
}

/// Joins a context and the underlying reason into one line.
fn describe(context: &str, reason: &String) -> (text: String)
    ensures
        text@ == with_reason(context@, reason@),
{
    let mut text = String::from_str(context);
    text.append(": ");
    text.append(reason.as_str());
    text
}

} // verus!
