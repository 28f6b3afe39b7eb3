//! The external tools around a recording: finding ffmpeg, making a bundled
//! copy of it findable, and the commands that list the audio devices.

use crate::config::Platform;
use crate::error::RecorderError;
use crate::supervisor::{ffmpeg_program, CommandLine, CommandLineView};
use crate::text::push_text;
use vstd::prelude::*;
use vstd::string::StringExecFns;

verus! {

/// The error of the `which` crate. Nothing is known of its values here.
#[verifier::external_type_specification]
#[verifier::external_body]
pub struct ExWhichError(which::Error);

/// Looks `name` up as `which::which` does: in the directories of the search
/// path, or in the working directory where `name` holds a separator. The path
/// that was found is handed back as text. What is found depends on the
/// environment and on the disk, so nothing is claimed of the result. The
/// library has one program to find, so the name of ffmpeg alone is admitted.
#[verifier::external_body]
fn find_executable(name: &str) -> (found: Result<String, which::Error>)
    requires
        name@ == ffmpeg_program(),
{
    which::which(name).map(|path| path.to_string_lossy().into_owned())
}

/// Turns the outcome of the lookup into the result of the check: the path of
/// ffmpeg, or the report that it is missing.
pub fn ffmpeg_lookup_result(found: Result<String, which::Error>) -> (result: Result<
    String,
    RecorderError,
>)
    ensures
        result == (match found {
            Ok(path) => Ok::<String, RecorderError>(path),
            Err(_) => Err(RecorderError::FfmpegMissing),
        }),
{
    match found {
        Ok(path) => Ok(path),
        Err(_) => Err(RecorderError::FfmpegMissing),
    }
}

/// Makes sure that ffmpeg can be started by name: it looks up the name of
/// ffmpeg, and nothing else, on the search path. It gives the path under which
/// ffmpeg was found; the only error is that ffmpeg is missing.
pub fn check_ffmpeg() -> (result: Result<String, RecorderError>)
    ensures
        result matches Err(e) ==> e == RecorderError::FfmpegMissing,
{
    ffmpeg_lookup_result(find_executable("ffmpeg"))
}

/// What separates the directories of the search path.
pub open spec fn search_path_separator(platform: Platform) -> Seq<char> {
    if platform == Platform::Windows {
        ";"@
    } else {
        ":"@
    }
}

/// The search path `current` with `dir` put in front, so that a program in
/// `dir` is found before any other of its name.
pub fn prepend_search_path(platform: Platform, dir: &str, current: &str) -> (path: String)
    ensures
        path@ == dir@ + search_path_separator(platform) + current@,
{
    let mut path = String::from_str(dir);
    match platform {
        Platform::Windows => path.append(";"),
        _ => path.append(":"),
    }
    path.append(current);
    path
}

/// One step of listing the audio devices.
#[derive(Clone, Debug, PartialEq, Eq)]
pub enum ListingStep {
    /// Write `line` to the diagnostic stream.
    Say { line: String },
    /// Run `command` with the caller's streams and ignore how it ends.
    Run { command: CommandLine },
}

/// Mathematical value of a `ListingStep`.
pub enum ListingStepView {
    Say { line: Seq<char> },
    Run { command: CommandLineView },
}

impl DeepView for ListingStep {
    type V = ListingStepView;

    open spec fn deep_view(&self) -> ListingStepView {
        match self {
            ListingStep::Say { line } => ListingStepView::Say { line: line@ },
            ListingStep::Run { command } => ListingStepView::Run { command: command@ },
        }
    }
}

/// The step that runs `program` with `args`.
pub open spec fn run_step(program: Seq<char>, args: Seq<Seq<char>>) -> ListingStepView {
    ListingStepView::Run { command: CommandLineView { program, args } }
}

/// The step that writes `line`.
pub open spec fn say_step(line: Seq<char>) -> ListingStepView {
    ListingStepView::Say { line }
}

/// The arguments that make ffmpeg list the devices of the platform's
/// backend. DirectShow wants the listing flag before the backend, the others
/// after it; AVFoundation takes an empty input name, the others a dummy.
pub open spec fn ffmpeg_listing_args(platform: Platform, wasapi: bool) -> Seq<Seq<char>> {
    match platform {
        Platform::Windows => if wasapi {
            seq!["-hide_banner"@, "-f"@, "wasapi"@, "-list_devices"@, "true"@, "-i"@, "dummy"@]
        } else {
            seq!["-hide_banner"@, "-list_devices"@, "true"@, "-f"@, "dshow"@, "-i"@, "dummy"@]
        },
        Platform::MacOs => seq![
            "-hide_banner"@,
            "-f"@,
            "avfoundation"@,
            "-list_devices"@,
            "true"@,
            "-i"@,
            ""@,
        ],
        _ => Seq::empty(),
    }
}

/// The steps that list the audio devices of `platform`: a heading, the
/// platform's own listing tools, and a hint where the system audio needs a
/// loopback device. A platform without a known backend has no steps.
pub open spec fn device_listing(platform: Platform, wasapi: bool) -> Seq<ListingStepView> {
    match platform {
        Platform::Windows => if wasapi {
            seq![
                say_step("=== Windows (WASAPI) devices ==="@),
                run_step("ffmpeg"@, ffmpeg_listing_args(platform, wasapi)),
                say_step(
                    "\nTips: For system audio you may need Stereo Mix or a virtual loopback device."@,
                ),
            ]
        } else {
            seq![
                say_step("=== Windows (DirectShow) devices ==="@),
                run_step("ffmpeg"@, ffmpeg_listing_args(platform, wasapi)),
                say_step(
                    "\nTips: For system audio you may need Stereo Mix or a virtual loopback device."@,
                ),
            ]
        },
        Platform::MacOs => seq![
            say_step("=== macOS (AVFoundation) devices ==="@),
            run_step("ffmpeg"@, ffmpeg_listing_args(platform, wasapi)),
            say_step(
                "Note: macOS requires a loopback device (BlackHole/Loopback) for system audio."@,
            ),
        ],
        Platform::Linux => seq![
            say_step("=== Linux: PulseAudio (pactl) ==="@),
            run_step("pactl"@, seq!["list"@, "short"@, "sources"@]),
            run_step("pactl"@, seq!["info"@]),
            say_step("\n=== Linux: PipeWire (pw-cli) ==="@),
            run_step("pw-cli"@, seq!["ls"@, "Node"@]),
        ],
        Platform::OtherUnix => Seq::empty(),
    }
}

fn say(line: &str) -> (step: ListingStep)
    ensures
        step.deep_view() == say_step(line@),
{
    ListingStep::Say { line: String::from_str(line) }
}

fn run(program: &str, args: Vec<String>) -> (step: ListingStep)
    ensures
        step.deep_view() == run_step(program@, args.deep_view()),
{
    ListingStep::Run { command: CommandLine { program: String::from_str(program), args } }
}

fn ffmpeg_listing(platform: Platform, wasapi: bool) -> (step: ListingStep)
    ensures
        step.deep_view() == run_step("ffmpeg"@, ffmpeg_listing_args(platform, wasapi)),
{
    let mut args: Vec<String> = Vec::new();
    assert(args.deep_view() =~= Seq::<Seq<char>>::empty());
    match platform {
        Platform::Windows => {
            push_text(&mut args, "-hide_banner");
            if wasapi {
                push_text(&mut args, "-f");
                push_text(&mut args, "wasapi");
                push_text(&mut args, "-list_devices");
                push_text(&mut args, "true");
            } else {
                push_text(&mut args, "-list_devices");
                push_text(&mut args, "true");
                push_text(&mut args, "-f");
                push_text(&mut args, "dshow");
            }
            push_text(&mut args, "-i");
            push_text(&mut args, "dummy");
        },
        Platform::MacOs => {
            push_text(&mut args, "-hide_banner");
            push_text(&mut args, "-f");
            push_text(&mut args, "avfoundation");
            push_text(&mut args, "-list_devices");
            push_text(&mut args, "true");
            push_text(&mut args, "-i");
            push_text(&mut args, "");
        },
        _ => {},
    }
    assert(args.deep_view() =~= ffmpeg_listing_args(platform, wasapi));
    run("ffmpeg", args)
}

/// The steps that list the audio devices of `platform`, in order. `wasapi`
/// chooses between the two Windows backends and matters nowhere else.
pub fn device_listing_steps(platform: Platform, wasapi: bool) -> (steps: Vec<ListingStep>)
    ensures
        steps.deep_view() == device_listing(platform, wasapi),
{
    let mut steps: Vec<ListingStep> = Vec::new();
    match platform {
        Platform::Windows => {
            if wasapi {
                steps.push(say("=== Windows (WASAPI) devices ==="));
                steps.push(ffmpeg_listing(platform, wasapi));
            } else {
                steps.push(say("=== Windows (DirectShow) devices ==="));
                steps.push(ffmpeg_listing(platform, wasapi));
            }
            steps.push(
                say(
                    "\nTips: For system audio you may need Stereo Mix or a virtual loopback device.",
                ),
            );
        },
        Platform::MacOs => {
            steps.push(say("=== macOS (AVFoundation) devices ==="));
            steps.push(ffmpeg_listing(platform, wasapi));
            steps.push(
                say(
                    "Note: macOS requires a loopback device (BlackHole/Loopback) for system audio.",
                ),
            );
        },
        Platform::Linux => {
            steps.push(say("=== Linux: PulseAudio (pactl) ==="));
            steps.push(run("pactl", crate::text::triple("list", "short", "sources")));
            let mut info: Vec<String> = Vec::new();
            push_text(&mut info, "info");
            assert(info.deep_view() =~= seq!["info"@]);
            steps.push(run("pactl", info));
            steps.push(say("\n=== Linux: PipeWire (pw-cli) ==="));
            steps.push(run("pw-cli", crate::text::pair("ls", "Node")));
        },
        Platform::OtherUnix => {},
    }
    assert(steps.deep_view() =~= device_listing(platform, wasapi));
    steps
}

} // verus!
