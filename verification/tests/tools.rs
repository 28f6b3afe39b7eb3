use audiocap_lib::supervisor::CommandLine;
use audiocap_lib::tools::{
    device_listing_steps, ffmpeg_lookup_result, prepend_search_path, ListingStep,
};
use audiocap_lib::{
    check_ffmpeg, next_filename, recording_file_name, recording_path, Container, Platform,
    RecorderError,
};

fn say(line: &str) -> ListingStep {
    ListingStep::Say { line: line.to_string() }
}

fn run(program: &str, args: &[&str]) -> ListingStep {
    ListingStep::Run {
        command: CommandLine {
            program: program.to_string(),
            args: args.iter().map(|s| s.to_string()).collect(),
        },
    }
}

#[test]
fn ffmpeg_is_found_or_reported_missing() {
    match check_ffmpeg() {
        Ok(path) => {
            assert!(!path.is_empty());
            assert!(path.contains("ffmpeg"));
        }
        Err(e) => assert_eq!(e, RecorderError::FfmpegMissing),
    }
}

#[test]
fn a_failed_lookup_means_that_ffmpeg_is_missing() {
    assert_eq!(
        ffmpeg_lookup_result(Ok("/usr/bin/ffmpeg".to_string())),
        Ok("/usr/bin/ffmpeg".to_string())
    );
    for e in [
        which::Error::CannotFindBinaryPath,
        which::Error::BadAbsolutePath,
        which::Error::BadRelativePath,
        which::Error::CannotGetCurrentDir,
        which::Error::CannotCanonicalize,
    ] {
        assert_eq!(ffmpeg_lookup_result(Err(e)), Err(RecorderError::FfmpegMissing));
    }
}

#[test]
fn a_directory_is_put_in_front_of_the_search_path() {
    assert_eq!(
        prepend_search_path(Platform::Linux, "/opt/app/binaries", "/usr/bin:/bin"),
        "/opt/app/binaries:/usr/bin:/bin"
    );
    assert_eq!(prepend_search_path(Platform::MacOs, "/a", ""), "/a:");
    assert_eq!(prepend_search_path(Platform::OtherUnix, "", "/bin"), ":/bin");
    assert_eq!(
        prepend_search_path(Platform::Windows, "C:\\app\\binaries", "C:\\Windows;C:\\bin"),
        "C:\\app\\binaries;C:\\Windows;C:\\bin"
    );
}

#[test]
fn linux_lists_devices_with_pactl_and_pw_cli() {
    for wasapi in [false, true] {
        let steps = device_listing_steps(Platform::Linux, wasapi);
        let expected = vec![
            say("=== Linux: PulseAudio (pactl) ==="),
            run("pactl", &["list", "short", "sources"]),
            run("pactl", &["info"]),
            say("\n=== Linux: PipeWire (pw-cli) ==="),
            run("pw-cli", &["ls", "Node"]),
        ];
        assert_eq!(steps, expected);
    }
}

#[test]
fn macos_lists_devices_with_avfoundation() {
    let steps = device_listing_steps(Platform::MacOs, false);
    let expected = vec![
        say("=== macOS (AVFoundation) devices ==="),
        run(
            "ffmpeg",
            &["-hide_banner", "-f", "avfoundation", "-list_devices", "true", "-i", ""],
        ),
        say("Note: macOS requires a loopback device (BlackHole/Loopback) for system audio."),
    ];
    assert_eq!(steps, expected);
}

#[test]
fn windows_lists_devices_of_the_chosen_backend() {
    let tips = "\nTips: For system audio you may need Stereo Mix or a virtual loopback device.";
    let steps = device_listing_steps(Platform::Windows, true);
    let expected = vec![
        say("=== Windows (WASAPI) devices ==="),
        run("ffmpeg", &["-hide_banner", "-f", "wasapi", "-list_devices", "true", "-i", "dummy"]),
        say(tips),
    ];
    assert_eq!(steps, expected);
    let steps = device_listing_steps(Platform::Windows, false);
    let expected = vec![
        say("=== Windows (DirectShow) devices ==="),
        run("ffmpeg", &["-hide_banner", "-list_devices", "true", "-f", "dshow", "-i", "dummy"]),
        say(tips),
    ];
    assert_eq!(steps, expected);
}

#[test]
fn a_platform_without_backend_lists_nothing() {
    assert!(device_listing_steps(Platform::OtherUnix, false).is_empty());
    assert!(device_listing_steps(Platform::OtherUnix, true).is_empty());
}

#[test]
fn recording_names_carry_the_stamp_and_the_extension() {
    assert_eq!(
        recording_file_name("2024-05-06_07-08-09", Container::Wav),
        "recording_2024-05-06_07-08-09.wav"
    );
    assert_eq!(
        recording_file_name("2024-05-06_07-08-09", Container::Mp3),
        "recording_2024-05-06_07-08-09.mp3"
    );
    assert_eq!(recording_file_name("", Container::Mp3), "recording_.mp3");
    assert_eq!(Container::Wav.extension(), "wav");
    assert_eq!(Container::Mp3.extension(), "mp3");
}

#[test]
fn recording_paths_are_joined_by_one_slash() {
    assert_eq!(recording_path("recordings", "t", Container::Wav), "recordings/recording_t.wav");
    assert_eq!(recording_path("recordings/", "t", Container::Wav), "recordings/recording_t.wav");
    assert_eq!(recording_path("", "t", Container::Wav), "recording_t.wav");
    assert_eq!(recording_path("/", "t", Container::Mp3), "/recording_t.mp3");
    assert_eq!(recording_path("/data/r\u{e9}c", "t", Container::Mp3), "/data/r\u{e9}c/recording_t.mp3");
}

#[test]
fn the_next_filename_is_stamped_with_the_local_time() {
    let path = next_filename("out", Container::Wav);
    let stamp = path
        .strip_prefix("out/recording_")
        .and_then(|rest| rest.strip_suffix(".wav"))
        .expect("prefix and suffix");
    // year-month-day_hour-minute-second
    let bytes = stamp.as_bytes();
    assert_eq!(bytes.len(), 19);
    for (i, b) in bytes.iter().enumerate() {
        match i {
            4 | 7 | 13 | 16 => assert_eq!(*b, b'-'),
            10 => assert_eq!(*b, b'_'),
            _ => assert!(b.is_ascii_digit()),
        }
    }
    let again = next_filename("out", Container::Wav);
    assert!(again >= path);
}
