use audiocap_lib::pid::pid_text;
use audiocap_lib::session::{
    active_pid, choose_output, conclude_stop, plan_status, plan_stop, status_after_probe,
    RecordChange, RecordingStatus, StartReport, StatusStep,
};
use audiocap_lib::{Container, RecorderError};

/// The PID record as a front end keeps it: the content of the file, if any.
struct Record {
    content: Option<Vec<u8>>,
}

impl Record {
    fn read(&self) -> Option<&[u8]> {
        self.content.as_deref()
    }

    fn apply(&mut self, change: RecordChange) {
        if change == RecordChange::Remove {
            self.content = None;
        }
    }
}

#[test]
fn start_stop_status_and_a_second_stop() {
    let mut record = Record { content: None };
    assert_eq!(plan_status(record.read()), StatusStep::Report { status: RecordingStatus::NoRecord });

    // a background start as process 4242 writes the record
    record.content = Some(pid_text(4242).into_bytes());
    assert_eq!(plan_status(record.read()), StatusStep::Probe { pid: 4242 });
    assert_eq!(status_after_probe(4242, true), RecordingStatus::Running { pid: 4242 });

    // stop: the recorded process is asked to end, and it does
    assert_eq!(plan_stop(record.read()), Ok(4242));
    let (report, change) = conclude_stop(4242, Ok(true));
    assert_eq!(report, Ok(4242));
    assert_eq!(change, RecordChange::Remove);
    record.apply(change);
    assert_eq!(record.content, None);

    // status: nothing is on record
    assert_eq!(plan_status(record.read()), StatusStep::Report { status: RecordingStatus::NoRecord });

    // a second stop finds nothing and names no process
    assert_eq!(plan_stop(record.read()), Err(RecorderError::RecordNotFound));
}

#[test]
fn a_stop_that_fails_keeps_the_record() {
    let mut record = Record { content: Some(b"555".to_vec()) };
    for _ in 0..3 {
        assert_eq!(plan_stop(record.read()), Ok(555));
        let (report, change) = conclude_stop(555, Ok(false));
        assert_eq!(report, Err(RecorderError::StopFailed));
        assert_eq!(change, RecordChange::Keep);
        record.apply(change);
        assert_eq!(record.content, Some(b"555".to_vec()));
    }
    let failure = RecorderError::Termination { reason: "kill: not found".to_string() };
    let (report, change) = conclude_stop(555, Err(failure.clone()));
    assert_eq!(report, Err(failure));
    assert_eq!(change, RecordChange::Keep);
    record.apply(change);
    assert_eq!(record.content, Some(b"555".to_vec()));
}

#[test]
fn a_stale_record_is_told_by_the_probe() {
    let record = Record { content: Some(b"321\n".to_vec()) };
    assert_eq!(plan_status(record.read()), StatusStep::Probe { pid: 321 });
    let status = status_after_probe(321, false);
    assert_eq!(status, RecordingStatus::NotRunning { pid: 321 });
    assert_eq!(status.label(), "not_running");
    assert_eq!(status.pid(), Some(321));
}

#[test]
fn an_unreadable_record_counts_as_no_record() {
    for content in [&b""[..], b"garbage", b"12 34", b"4294967296", b"\xff"] {
        assert_eq!(active_pid(Some(content)), None);
        assert_eq!(
            plan_status(Some(content)),
            StatusStep::Report { status: RecordingStatus::NoRecord }
        );
        assert_eq!(plan_stop(Some(content)), Err(RecorderError::RecordNotFound));
    }
    assert_eq!(active_pid(None), None);
    assert_eq!(active_pid(Some(b" 17\n")), Some(17));
}

#[test]
fn statuses_have_their_words() {
    assert_eq!(RecordingStatus::NoRecord.label(), "no_pidfile");
    assert_eq!(RecordingStatus::NoRecord.pid(), None);
    assert_eq!(RecordingStatus::Running { pid: 9 }.label(), "running");
    assert_eq!(RecordingStatus::Running { pid: 9 }.pid(), Some(9));
    assert_eq!(RecordingStatus::NotRunning { pid: 9 }.label(), "not_running");
    let started = StartReport::Started { pid: 1, file: "a.wav".to_string() };
    assert_eq!(started.label(), "started");
    let done = StartReport::Done { file: "a.wav".to_string() };
    assert_eq!(done.label(), "done");
}

#[test]
fn the_output_is_the_callers_choice_or_a_fresh_name() {
    let chosen = choose_output(Some("mine.mp3".to_string()), "recordings", Container::Wav);
    assert_eq!(chosen, "mine.mp3");
    let fresh = choose_output(None, "recordings", Container::Mp3);
    assert!(fresh.starts_with("recordings/recording_"));
    assert!(fresh.ends_with(".mp3"));
    assert!(fresh.len() > "recordings/recording_.mp3".len());
}
