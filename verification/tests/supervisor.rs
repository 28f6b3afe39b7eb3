use audiocap_lib::supervisor::{
    alive_after_listing, alive_after_signal, background_plan, background_result, foreground_plan,
    foreground_result, liveness_probe, stop_command, stop_result, CommandLine, CommandOutcome,
    Detach, ForegroundOutcome, LivenessProbe, Stream, CREATE_NEW_PROCESS_GROUP, DETACHED_PROCESS,
};
use audiocap_lib::{Platform, RecorderError};

fn texts(items: &[&str]) -> Vec<String> {
    items.iter().map(|s| s.to_string()).collect()
}

#[test]
fn a_foreground_recording_shares_the_output_streams() {
    let args = texts(&["-hide_banner", "-y", "out.wav"]);
    let plan = foreground_plan(&args);
    assert_eq!(plan.command.program, "ffmpeg");
    assert_eq!(plan.command.args, args);
    assert_eq!(plan.stdin, Stream::Null);
    assert_eq!(plan.stdout, Stream::Inherit);
    assert_eq!(plan.stderr, Stream::Inherit);
    assert_eq!(plan.detach, Detach::No);
}

#[test]
fn a_background_recording_shares_no_stream_and_is_detached() {
    let args = texts(&["-i", "x", "out.mp3"]);
    for platform in [Platform::Linux, Platform::MacOs, Platform::OtherUnix] {
        let plan = background_plan(platform, &args);
        assert_eq!(plan.command.program, "ffmpeg");
        assert_eq!(plan.command.args, args);
        assert_eq!(plan.stdin, Stream::Null);
        assert_eq!(plan.stdout, Stream::Null);
        assert_eq!(plan.stderr, Stream::Null);
        assert_eq!(plan.detach, Detach::NewSession);
    }
    let plan = background_plan(Platform::Windows, &args);
    assert_eq!(plan.command.program, "ffmpeg");
    assert_eq!(plan.command.args, args);
    assert_eq!(plan.stdin, Stream::Null);
    assert_eq!(plan.stdout, Stream::Null);
    assert_eq!(plan.stderr, Stream::Null);
    assert_eq!(plan.detach, Detach::CreationFlags { flags: 0x0000_0208 });
    assert_eq!(DETACHED_PROCESS, 0x8);
    assert_eq!(CREATE_NEW_PROCESS_GROUP, 0x200);
}

#[test]
fn plans_copy_an_empty_argument_list() {
    let plan = foreground_plan(&[]);
    assert!(plan.command.args.is_empty());
    let plan = background_plan(Platform::Linux, &[]);
    assert!(plan.command.args.is_empty());
}

#[test]
fn a_foreground_recording_succeeds_only_on_a_successful_exit() {
    let ok = ForegroundOutcome::Exited { success: true, status: "exit status: 0".to_string() };
    assert_eq!(foreground_result(ok), Ok(()));
    let failed = ForegroundOutcome::Exited { success: false, status: "exit status: 1".to_string() };
    assert_eq!(
        foreground_result(failed),
        Err(RecorderError::ExitStatus { status: "exit status: 1".to_string() })
    );
    let killed = ForegroundOutcome::Exited { success: false, status: "signal: 9".to_string() };
    assert_eq!(
        foreground_result(killed),
        Err(RecorderError::ExitStatus { status: "signal: 9".to_string() })
    );
}

#[test]
fn each_failed_step_of_a_foreground_recording_has_its_error() {
    assert_eq!(
        foreground_result(ForegroundOutcome::SpawnFailed { reason: "no such file".to_string() }),
        Err(RecorderError::Spawn { reason: "no such file".to_string() })
    );
    assert_eq!(
        foreground_result(ForegroundOutcome::HandlerFailed { reason: "twice".to_string() }),
        Err(RecorderError::InterruptHandler { reason: "twice".to_string() })
    );
    assert_eq!(
        foreground_result(ForegroundOutcome::WaitFailed { reason: "gone".to_string() }),
        Err(RecorderError::Wait { reason: "gone".to_string() })
    );
}

#[test]
fn a_detached_spawn_gives_the_pid_or_the_reason() {
    assert_eq!(background_result(Ok(31337)), Ok(31337));
    assert_eq!(
        background_result(Err("not found".to_string())),
        Err(RecorderError::SpawnDetached { reason: "not found".to_string() })
    );
}

#[test]
fn unix_stops_with_the_term_signal() {
    for platform in [Platform::Linux, Platform::MacOs, Platform::OtherUnix] {
        let command = stop_command(platform, 4242);
        assert_eq!(
            command,
            CommandLine { program: "kill".to_string(), args: texts(&["-TERM", "4242"]) }
        );
    }
}

#[test]
fn windows_stops_by_forced_task_termination() {
    let command = stop_command(Platform::Windows, 98765);
    assert_eq!(
        command,
        CommandLine { program: "taskkill".to_string(), args: texts(&["/PID", "98765", "/F"]) }
    );
}

#[test]
fn the_stop_result_is_whether_the_request_succeeded() {
    let done = CommandOutcome::Finished { success: true, stdout: Vec::new() };
    assert_eq!(stop_result(done), Ok(true));
    let refused = CommandOutcome::Finished { success: false, stdout: b"No such process".to_vec() };
    assert_eq!(stop_result(refused), Ok(false));
    let not_run = CommandOutcome::NotRun { reason: "kill: not found".to_string() };
    assert_eq!(
        stop_result(not_run),
        Err(RecorderError::Termination { reason: "kill: not found".to_string() })
    );
}

#[test]
fn unix_probes_with_signal_zero() {
    for platform in [Platform::Linux, Platform::MacOs, Platform::OtherUnix] {
        assert_eq!(liveness_probe(platform, 4242), LivenessProbe::Signal { target: 4242 });
        assert_eq!(liveness_probe(platform, 1), LivenessProbe::Signal { target: 1 });
        assert_eq!(liveness_probe(platform, 0), LivenessProbe::Known { alive: false });
        assert_eq!(
            liveness_probe(platform, 2147483647),
            LivenessProbe::Signal { target: i32::MAX }
        );
        assert_eq!(liveness_probe(platform, 2147483648), LivenessProbe::Known { alive: false });
        assert_eq!(liveness_probe(platform, u32::MAX), LivenessProbe::Known { alive: false });
    }
    assert!(alive_after_signal(0));
    assert!(!alive_after_signal(-1));
    assert!(!alive_after_signal(1));
}

#[test]
fn windows_probes_with_a_filtered_process_listing() {
    let probe = liveness_probe(Platform::Windows, 4242);
    assert_eq!(
        probe,
        LivenessProbe::Listing {
            command: CommandLine {
                program: "tasklist".to_string(),
                args: texts(&["/FI", "PID eq 4242"]),
            },
        }
    );
    let probe = liveness_probe(Platform::Windows, u32::MAX);
    assert_eq!(
        probe,
        LivenessProbe::Listing {
            command: CommandLine {
                program: "tasklist".to_string(),
                args: texts(&["/FI", "PID eq 4294967295"]),
            },
        }
    );
}

#[test]
fn a_listing_answers_by_mentioning_the_pid() {
    let found = CommandOutcome::Finished {
        success: true,
        stdout: b"ffmpeg.exe    4242 Console   1   20,000 K\r\n".to_vec(),
    };
    assert_eq!(alive_after_listing(4242, found.clone()), Ok(true));
    assert_eq!(alive_after_listing(4241, found), Ok(false));
    let empty = CommandOutcome::Finished {
        success: true,
        stdout: b"INFO: No tasks are running which match the specified criteria.\r\n".to_vec(),
    };
    assert_eq!(alive_after_listing(4242, empty), Ok(false));
    let unsuccessful = CommandOutcome::Finished { success: false, stdout: b"4242".to_vec() };
    assert_eq!(alive_after_listing(4242, unsuccessful), Ok(true));
    let not_run = CommandOutcome::NotRun { reason: "tasklist missing".to_string() };
    assert_eq!(
        alive_after_listing(4242, not_run),
        Err(RecorderError::Probe { reason: "tasklist missing".to_string() })
    );
}
