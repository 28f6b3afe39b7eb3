//! The operations that a front end offers: start, stop and status.
//!
//! A background recording is known by its PID record alone, a small file that
//! holds the identifier of the process. The functions here take the content
//! of the record, decide what has to be done, and say what becomes of the
//! record; the caller reads and writes the file and runs the commands.

use crate::config::Container;
use crate::error::RecorderError;
use crate::filename::{in_directory, is_stamp, next_filename, recording_name};
use crate::pid::{ascii, decimal, law_record_round_trip, parse_pid, parse_pid_record};
use vstd::prelude::*;

verus! {

/// The value of an optional byte string.
pub open spec fn opt_bytes(value: Option<&[u8]>) -> Option<Seq<u8>> {
    match value {
        Some(bytes) => Some(bytes@),
        None => None,
    }
}

/// The process that the record names. A record that is missing, or that holds
/// no identifier, names none.
pub open spec fn recorded_pid(record: Option<Seq<u8>>) -> Option<u32> {
    match record {
        Some(content) => parse_pid(content),
        None => None,
    }
}

/// The record that a background start leaves: the decimal numeral of `pid`,
/// which `pid_digits` gives.
pub open spec fn record_after_start(pid: u32) -> Option<Seq<u8>> {
    Some(ascii(decimal(pid as nat)))
}

/// What a successful start reports.
#[derive(Clone, Debug, PartialEq, Eq)]
pub enum StartReport {
    /// A background recording runs as process `pid` and writes `file`.
    Started { pid: u32, file: String },
    /// A foreground recording has ended and has written `file`.
    Done { file: String },
}

impl StartReport {
    /// The word for this report in a response.
    pub fn label(&self) -> (word: &'static str)
        ensures
            word@ == (match self {
                StartReport::Started { .. } => "started"@,
                StartReport::Done { .. } => "done"@,
            }),
    {
        match self {
            StartReport::Started { .. } => "started",
            StartReport::Done { .. } => "done",
        }
    }
}

/// The file of a recording: the caller's choice, or a fresh path inside
/// `out_dir`.
pub fn choose_output(output: Option<String>, out_dir: &str, format: Container) -> (file: String)
    ensures
        match output {
            Some(chosen) => file == chosen,
            None => exists|stamp: Seq<char>|
                is_stamp(stamp) && file@ == in_directory(
                    out_dir@,
                    #[trigger] recording_name(stamp, format),
                ),
        },
{
    match output {
        Some(chosen) => chosen,
        None => next_filename(out_dir, format),
    }
}

/// What becomes of the PID record.
#[derive(Copy, Clone, Debug, PartialEq, Eq, Structural)]
pub enum RecordChange {
    Keep,
    Remove,
}

/// The state of the background recording.
#[derive(Copy, Clone, Debug, PartialEq, Eq, Structural)]
pub enum RecordingStatus {
    /// No recording is on record.
    NoRecord,
    /// The recorded process exists.
    Running { pid: u32 },
    /// The recorded process is gone; the record is stale.
    NotRunning { pid: u32 },
}

/// The first step of a status request.
#[derive(Copy, Clone, Debug, PartialEq, Eq, Structural)]
pub enum StatusStep {
    /// The answer is known.
    Report { status: RecordingStatus },
    /// Find out whether the process `pid` exists.
    Probe { pid: u32 },
}

/// A stop request asks the recorded process to end, where the record names
/// one. Where it names none there is nothing to stop, and no process may be
/// touched.
pub open spec fn stop_step(record: Option<Seq<u8>>) -> Result<u32, RecorderError> {
    match recorded_pid(record) {
        Some(pid) => Ok(pid),
        None => Err(RecorderError::RecordNotFound),
    }
}

/// The end of a stop request, from what the termination of `pid` gave. Only a
/// termination that succeeded is confirmed, and only then is the record
/// removed.
pub open spec fn stop_conclusion(pid: u32, terminated: Result<bool, RecorderError>) -> (
    Result<u32, RecorderError>,
    RecordChange,
) {
    match terminated {
        Ok(true) => (Ok(pid), RecordChange::Remove),
        Ok(false) => (Err(RecorderError::StopFailed), RecordChange::Keep),
        Err(e) => (Err(e), RecordChange::Keep),
    }
}

/// The record after `change`.
pub open spec fn record_after(change: RecordChange, record: Option<Seq<u8>>) -> Option<Seq<u8>> {
    match change {
        RecordChange::Keep => record,
        RecordChange::Remove => None,
    }
}

/// A status request probes the recorded process, where the record names one.
pub open spec fn status_step(record: Option<Seq<u8>>) -> StatusStep {
    match recorded_pid(record) {
        Some(pid) => StatusStep::Probe { pid },
        None => StatusStep::Report { status: RecordingStatus::NoRecord },
    }
}

/// The process that the record names, if any. `record` is the content of the
/// PID record, or `None` where it is missing or unreadable.
pub fn active_pid(record: Option<&[u8]>) -> (pid: Option<u32>)
    ensures
        pid == recorded_pid(opt_bytes(record)),
{
    match record {
        Some(content) => match parse_pid_record(content) {
            Ok(pid) => Some(pid),
            Err(_) => None,
        },
        None => None,
    }
}

/// Begins a stop request: it gives the process that has to be asked to end,
/// or the report that no recording is on record.
pub fn plan_stop(record: Option<&[u8]>) -> (step: Result<u32, RecorderError>)
    ensures
        step == stop_step(opt_bytes(record)),
{
    match active_pid(record) {
        Some(pid) => Ok(pid),
        None => Err(RecorderError::RecordNotFound),
    }
}

/// Ends a stop request: `terminated` is what asking `pid` to end gave.
pub fn conclude_stop(pid: u32, terminated: Result<bool, RecorderError>) -> (end: (
    Result<u32, RecorderError>,
    RecordChange,
))
    ensures
        end == stop_conclusion(pid, terminated),
{
    match terminated {
        Ok(true) => (Ok(pid), RecordChange::Remove),
        Ok(false) => (Err(RecorderError::StopFailed), RecordChange::Keep),
        Err(e) => (Err(e), RecordChange::Keep),
    }
}

/// Begins a status request.
pub fn plan_status(record: Option<&[u8]>) -> (step: StatusStep)
    ensures
        step == status_step(opt_bytes(record)),
{
    match active_pid(record) {
        Some(pid) => StatusStep::Probe { pid },
        None => StatusStep::Report { status: RecordingStatus::NoRecord },
    }
}

/// Ends a status request: `alive` is what probing `pid` gave.
pub fn status_after_probe(pid: u32, alive: bool) -> (status: RecordingStatus)
    ensures
        status == (if alive {
            RecordingStatus::Running { pid }
        } else {
            RecordingStatus::NotRunning { pid }
        }),
{
    if alive {
        RecordingStatus::Running { pid }
    } else {
        RecordingStatus::NotRunning { pid }
    }
}

impl RecordingStatus {
    /// The word for this status in a response.
    pub fn label(&self) -> (word: &'static str)
        ensures
            word@ == (match self {
                RecordingStatus::NoRecord => "no_pidfile"@,
                RecordingStatus::Running { .. } => "running"@,
                RecordingStatus::NotRunning { .. } => "not_running"@,
            }),
    {
        match self {
            RecordingStatus::NoRecord => "no_pidfile",
            RecordingStatus::Running { .. } => "running",
            RecordingStatus::NotRunning { .. } => "not_running",
        }
    }

    /// The process that the status speaks of.
    pub fn pid(&self) -> (pid: Option<u32>)
        ensures
            pid == (match self {
                RecordingStatus::NoRecord => None,
                RecordingStatus::Running { pid } => Some(*pid),
                RecordingStatus::NotRunning { pid } => Some(*pid),
            }),
    {
        match self {
            RecordingStatus::NoRecord => None,
            RecordingStatus::Running { pid } => Some(*pid),
            RecordingStatus::NotRunning { pid } => Some(*pid),
        }
    }
}

/// After a background start as process `pid`, a stop request asks exactly
/// `pid` to end. Once that has succeeded the record is gone: a status request
/// reports that there is no recording, and a second stop request finds nothing
/// and asks no process to end.
pub proof fn law_stop_clears_record(pid: u32)
    ensures
        ({
            let started = record_after_start(pid);
            let end = stop_conclusion(pid, Ok(true));
            let stopped = record_after(end.1, started);
            &&& stop_step(started) == Ok::<u32, RecorderError>(pid)
            &&& end.0 == Ok::<u32, RecorderError>(pid)
            &&& stopped is None
            &&& status_step(stopped) == StatusStep::Report { status: RecordingStatus::NoRecord }
            &&& stop_step(stopped) == Err::<u32, RecorderError>(RecorderError::RecordNotFound)
        }),
{
    law_record_round_trip(pid);
}

/// A termination that did not succeed, be it that the process was gone
/// already or that the command could not be run, is reported as a failure
/// and leaves the record as it was.
pub proof fn law_failed_stop_keeps_record(
    pid: u32,
    terminated: Result<bool, RecorderError>,
    record: Option<Seq<u8>>,
)
    requires
        terminated != Ok::<bool, RecorderError>(true),
    ensures
        stop_conclusion(pid, terminated).0 is Err,
        record_after(stop_conclusion(pid, terminated).1, record) == record,
        terminated == Ok::<bool, RecorderError>(false) ==> stop_conclusion(pid, terminated).0
            == Err::<u32, RecorderError>(RecorderError::StopFailed),
{
}

} // verus!
