//! How the recording process is launched, stopped and probed.
//!
//! The functions here run nothing. They say which program to start and how,
//! and they turn what came of it into the result that the caller reports. The
//! caller does the spawning and waiting in between.

use crate::config::Platform;
use crate::error::RecorderError;
use crate::pid::{ascii, decimal, listing_mentions_pid, mentions, pid_text};
use crate::text::{copy_texts, pair, triple};
use vstd::prelude::*;
use vstd::string::StringExecFns;

verus! {

/// Windows creation flag: the child gets no console of its parent.
pub const DETACHED_PROCESS: u32 = 0x0000_0008;

/// Windows creation flag: the child is the root of a new process group.
pub const CREATE_NEW_PROCESS_GROUP: u32 = 0x0000_0200;

/// A program and its arguments.
#[derive(Clone, Debug, PartialEq, Eq)]
pub struct CommandLine {
    pub program: String,
    pub args: Vec<String>,
}

/// Mathematical value of a `CommandLine`.
pub struct CommandLineView {
    pub program: Seq<char>,
    pub args: Seq<Seq<char>>,
}

impl View for CommandLine {
    type V = CommandLineView;

    open spec fn view(&self) -> CommandLineView {
        CommandLineView { program: self.program@, args: self.args.deep_view() }
    }
}

/// What a standard stream of the child is connected to.
#[derive(Copy, Clone, Debug, PartialEq, Eq, Structural)]
pub enum Stream {
    /// Nothing: reads end at once, writes are discarded.
    Null,
    /// The stream of the caller.
    Inherit,
}

/// How the child is cut loose from the caller's terminal and session.
#[derive(Copy, Clone, Debug, PartialEq, Eq, Structural)]
pub enum Detach {
    /// It stays in the caller's session.
    No,
    /// It becomes the leader of a new session.
    NewSession,
    /// It is created with these process creation flags.
    CreationFlags { flags: u32 },
}

/// Everything the caller needs to start the child.
#[derive(Clone, Debug, PartialEq, Eq)]
pub struct SpawnPlan {
    pub command: CommandLine,
    pub stdin: Stream,
    pub stdout: Stream,
    pub stderr: Stream,
    pub detach: Detach,
}

/// Mathematical value of a `SpawnPlan`.
pub struct SpawnPlanView {
    pub command: CommandLineView,
    pub stdin: Stream,
    pub stdout: Stream,
    pub stderr: Stream,
    pub detach: Detach,
}

impl View for SpawnPlan {
    type V = SpawnPlanView;

    open spec fn view(&self) -> SpawnPlanView {
        SpawnPlanView {
            command: self.command@,
            stdin: self.stdin,
            stdout: self.stdout,
            stderr: self.stderr,
            detach: self.detach,
        }
    }
}

/// The name under which ffmpeg is looked up and started.
pub open spec fn ffmpeg_program() -> Seq<char> {
    "ffmpeg"@
}

/// The way a background child is detached on `platform`.
pub open spec fn detachment(platform: Platform) -> Detach {
    if platform.is_unix() {
        Detach::NewSession
    } else {
        Detach::CreationFlags { flags: DETACHED_PROCESS | CREATE_NEW_PROCESS_GROUP }
    }
}

/// A foreground recording: ffmpeg reads nothing and writes to the caller's
/// streams, in the caller's session.
pub open spec fn foreground_spawn(args: Seq<Seq<char>>) -> SpawnPlanView {
    SpawnPlanView {
        command: CommandLineView { program: ffmpeg_program(), args },
        stdin: Stream::Null,
        stdout: Stream::Inherit,
        stderr: Stream::Inherit,
        detach: Detach::No,
    }
}

/// A background recording: ffmpeg shares no stream with the caller and is
/// detached, so that it outlives the caller.
pub open spec fn background_spawn(platform: Platform, args: Seq<Seq<char>>) -> SpawnPlanView {
    SpawnPlanView {
        command: CommandLineView { program: ffmpeg_program(), args },
        stdin: Stream::Null,
        stdout: Stream::Null,
        stderr: Stream::Null,
        detach: detachment(platform),
    }
}

/// Plans a recording that the caller waits for.
pub fn foreground_plan(args: &[String]) -> (plan: SpawnPlan)
    ensures
        plan@ == foreground_spawn(args.deep_view()),
{
    SpawnPlan {
        command: CommandLine { program: String::from_str("ffmpeg"), args: copy_texts(args) },
        stdin: Stream::Null,
        stdout: Stream::Inherit,
        stderr: Stream::Inherit,
        detach: Detach::No,
    }
}

/// Plans a recording that goes on after the caller has returned.
pub fn background_plan(platform: Platform, args: &[String]) -> (plan: SpawnPlan)
    ensures
        plan@ == background_spawn(platform, args.deep_view()),
{
    let detach = if platform.unix_family() {
        Detach::NewSession
    } else {
        Detach::CreationFlags { flags: DETACHED_PROCESS | CREATE_NEW_PROCESS_GROUP }
    };
    SpawnPlan {
        command: CommandLine { program: String::from_str("ffmpeg"), args: copy_texts(args) },
        stdin: Stream::Null,
        stdout: Stream::Null,
        stderr: Stream::Null,
        detach,
    }
}

/// What came of a foreground recording.
#[derive(Clone, Debug, PartialEq, Eq)]
pub enum ForegroundOutcome {
    /// ffmpeg could not be started.
    SpawnFailed { reason: String },
    /// ffmpeg runs, and the interrupt handler could not be installed.
    HandlerFailed { reason: String },
    /// Waiting for ffmpeg failed.
    WaitFailed { reason: String },
    /// ffmpeg has exited; `status` is its exit status in words.
    Exited { success: bool, status: String },
}

/// The result of a foreground recording: success only when ffmpeg exited and
/// reported success, else the error of the step that failed.
pub open spec fn foreground_verdict(outcome: ForegroundOutcome) -> Result<(), RecorderError> {
    match outcome {
        ForegroundOutcome::SpawnFailed { reason } => Err(RecorderError::Spawn { reason }),
        ForegroundOutcome::HandlerFailed { reason } => Err(
            RecorderError::InterruptHandler { reason },
        ),
        ForegroundOutcome::WaitFailed { reason } => Err(RecorderError::Wait { reason }),
        ForegroundOutcome::Exited { success, status } => if success {
            Ok(())
        } else {
            Err(RecorderError::ExitStatus { status })
        },
    }
}

/// Turns what came of a foreground recording into its result.
pub fn foreground_result(outcome: ForegroundOutcome) -> (result: Result<(), RecorderError>)
    ensures
        result == foreground_verdict(outcome),
{
    match outcome {
        ForegroundOutcome::SpawnFailed { reason } => Err(RecorderError::Spawn { reason }),
        ForegroundOutcome::HandlerFailed { reason } => Err(
            RecorderError::InterruptHandler { reason },
        ),
        ForegroundOutcome::WaitFailed { reason } => Err(RecorderError::Wait { reason }),
        ForegroundOutcome::Exited { success, status } => if success {
            Ok(())
        } else {
            Err(RecorderError::ExitStatus { status })
        },
    }
}

/// Turns what came of a detached spawn into its result: the identifier of the
/// child, or the reason why there is none.
pub fn background_result(spawned: Result<u32, String>) -> (result: Result<u32, RecorderError>)
    ensures
        result == (match spawned {
            Ok(pid) => Ok::<u32, RecorderError>(pid),
            Err(reason) => Err(RecorderError::SpawnDetached { reason }),
        }),
{
    match spawned {
        Ok(pid) => Ok(pid),
        Err(reason) => Err(RecorderError::SpawnDetached { reason }),
    }
}

/// What came of a command that was run to its end.
#[derive(Clone, Debug, PartialEq, Eq)]
pub enum CommandOutcome {
    /// The command could not be run.
    NotRun { reason: String },
    /// The command ran; `stdout` is what it wrote to standard output.
    Finished { success: bool, stdout: Vec<u8> },
}

/// The command that asks the process `pid` to end: the TERM signal on Unix,
/// forced task termination on Windows.
pub open spec fn stop_command_line(platform: Platform, pid: u32) -> CommandLineView {
    if platform.is_unix() {
        CommandLineView { program: "kill"@, args: seq!["-TERM"@, decimal(pid as nat)] }
    } else {
        CommandLineView {
            program: "taskkill"@,
            args: seq!["/PID"@, decimal(pid as nat), "/F"@],
        }
    }
}

/// The command that asks the process `pid` to end.
pub fn stop_command(platform: Platform, pid: u32) -> (command: CommandLine)
    ensures
        command@ == stop_command_line(platform, pid),
{
    let id = pid_text(pid);
    if platform.unix_family() {
        CommandLine { program: String::from_str("kill"), args: pair("-TERM", id.as_str()) }
    } else {
        CommandLine {
            program: String::from_str("taskkill"),
            args: triple("/PID", id.as_str(), "/F"),
        }
    }
}

/// Turns what came of the stop command into the result of the request:
/// whether the request succeeded, or that the command could not be run.
pub fn stop_result(outcome: CommandOutcome) -> (result: Result<bool, RecorderError>)
    ensures
        result == (match outcome {
            CommandOutcome::NotRun { reason } => Err::<bool, RecorderError>(
                RecorderError::Termination { reason },
            ),
            CommandOutcome::Finished { success, .. } => Ok(success),
        }),
{
    match outcome {
        CommandOutcome::NotRun { reason } => Err(RecorderError::Termination { reason }),
        CommandOutcome::Finished { success, .. } => Ok(success),
    }
}

/// How to find out whether a process exists.
#[derive(Clone, Debug, PartialEq, Eq)]
pub enum LivenessProbe {
    /// Nothing has to be probed: the answer is `alive`.
    Known { alive: bool },
    /// Send signal 0 to the process `target`, which is positive. Nothing is
    /// delivered; the call returns 0 when the process exists and the caller
    /// may signal it.
    Signal { target: i32 },
    /// Run `command`, which lists the processes with this identifier.
    Listing { command: CommandLine },
}

/// True for the identifiers that a process can have on Unix. Zero is none:
/// as the target of a signal it stands for the caller's whole process group.
pub open spec fn is_unix_pid(pid: u32) -> bool {
    1 <= pid <= i32::MAX
}

/// The filter that makes the Windows process listing show one identifier.
pub open spec fn listing_filter(pid: u32) -> Seq<char> {
    "PID eq "@ + decimal(pid as nat)
}

/// The command that lists the process `pid` on Windows.
pub open spec fn listing_command_line(pid: u32) -> CommandLineView {
    CommandLineView { program: "tasklist"@, args: seq!["/FI"@, listing_filter(pid)] }
}

/// Chooses the probe for `pid`. On Unix it is signal 0, for the identifiers
/// that a process can have there; of any other identifier it is known that no
/// process has it. On Windows it is a process listing.
pub fn liveness_probe(platform: Platform, pid: u32) -> (probe: LivenessProbe)
    ensures
        platform.is_unix() && is_unix_pid(pid) ==> probe == (LivenessProbe::Signal {
            target: pid as i32,
        }),
        platform.is_unix() && !is_unix_pid(pid) ==> probe == (LivenessProbe::Known {
            alive: false,
        }),
        !platform.is_unix() ==> (probe matches LivenessProbe::Listing { command } && command@
            == listing_command_line(pid)),
{
    if platform.unix_family() {
        if 1 <= pid && pid <= 0x7fff_ffff {
            LivenessProbe::Signal { target: pid as i32 }
        } else {
            LivenessProbe::Known { alive: false }
        }
    } else {
        let mut filter = String::from_str("PID eq ");
        let id = pid_text(pid);
        filter.append(id.as_str());
        LivenessProbe::Listing {
            command: CommandLine {
                program: String::from_str("tasklist"),
                args: pair("/FI", filter.as_str()),
            },
        }
    }
}

/// Reads the answer of the signal probe: the process counts as alive exactly
/// when the call returned 0.
pub fn alive_after_signal(returned: i32) -> (alive: bool)
    ensures
        alive == (returned == 0),
{
    returned == 0
}

/// Reads the answer of the process listing: the process counts as alive
/// exactly when the output mentions its identifier. A listing that could not
/// be run is an error.
pub fn alive_after_listing(pid: u32, outcome: CommandOutcome) -> (result: Result<
    bool,
    RecorderError,
>)
    ensures
        result == (match outcome {
            CommandOutcome::NotRun { reason } => Err::<bool, RecorderError>(
                RecorderError::Probe { reason },
            ),
            CommandOutcome::Finished { stdout, .. } => Ok(
                mentions(stdout@, ascii(decimal(pid as nat))),
            ),
        }),
{
    match outcome {
        CommandOutcome::NotRun { reason } => Err(RecorderError::Probe { reason }),
        CommandOutcome::Finished { stdout, .. } => Ok(
            listing_mentions_pid(stdout.as_slice(), pid),
        ),
    }
}

} // verus!
