//! Assembles the argument list of the ffmpeg invocation.
//!
//! The order of the list is fixed: global flags, the optional time limit, the
//! block of the system input, the block of the microphone input, the mix
//! filter, the codec arguments and, last, the destination.

use crate::config::{Container, Platform, RecorderConfig, RecorderConfigView};
use crate::devices::{
    chosen_device, device_spec, platform_inputs_with_overrides, resolve_inputs, DeviceSpec,
    Inputs, Role,
};
use crate::error::RecorderError;
use crate::text::{extend_texts, opt_text, push_text};
use vstd::prelude::*;

verus! {

/// Flags that apply to the whole invocation: no banner, overwrite the output.
pub open spec fn global_flags() -> Seq<Seq<char>> {
    seq!["-hide_banner"@, "-y"@]
}

/// The time limit, where one is given. The text is handed on as it is.
pub open spec fn duration_limit(duration: Option<Seq<char>>) -> Seq<Seq<char>> {
    match duration {
        Some(d) => seq!["-t"@, d],
        None => Seq::empty(),
    }
}

/// One input: its prelude, its format flags, `-i` and the device.
pub open spec fn input_block(input: DeviceSpec) -> Seq<Seq<char>> {
    input.prelude + input.format_flags + seq!["-i"@, input.device]
}

/// The filter that mixes the two inputs for as long as the longer one lasts.
pub open spec fn mix_filter() -> Seq<Seq<char>> {
    seq!["-filter_complex"@, "amix=inputs=2:duration=longest:dropout_transition=2"@]
}

/// The complete argument list for resolved inputs.
pub open spec fn argument_list(
    inputs: Inputs,
    format: Container,
    duration: Option<Seq<char>>,
    outfile: Seq<char>,
) -> Seq<Seq<char>> {
    global_flags() + duration_limit(duration) + input_block(inputs.system) + input_block(
        inputs.microphone,
    ) + mix_filter() + format.codec_args() + seq![outfile]
}

/// The argument list for a configuration, or the reason why the inputs could
/// not be resolved.
pub open spec fn build_arguments(
    platform: Platform,
    cfg: RecorderConfigView,
    outfile: Seq<char>,
    duration: Option<Seq<char>>,
    mic: Option<Seq<char>>,
    system: Option<Seq<char>>,
) -> Result<Seq<Seq<char>>, RecorderError> {
    match resolve_inputs(platform, cfg.wasapi, mic, system) {
        Ok(inputs) => Ok(argument_list(inputs, cfg.format, duration, outfile)),
        Err(e) => Err(e),
    }
}

/// Index at which the block of the system input begins.
pub open spec fn inputs_start(duration: Option<Seq<char>>) -> int {
    (global_flags().len() + duration_limit(duration).len()) as int
}

/// Index of the `-i` that introduces the system device.
pub open spec fn system_input_index(inputs: Inputs, duration: Option<Seq<char>>) -> int {
    inputs_start(duration) + inputs.system.prelude.len() + inputs.system.format_flags.len()
}

/// Index of the `-i` that introduces the microphone device.
pub open spec fn microphone_input_index(inputs: Inputs, duration: Option<Seq<char>>) -> int {
    system_input_index(inputs, duration) + 2 + inputs.microphone.prelude.len()
        + inputs.microphone.format_flags.len()
}

/// Appends the global flags.
fn push_global_flags(args: &mut Vec<String>)
    ensures
        final(args).deep_view() == old(args).deep_view() + global_flags(),
{
    push_text(args, "-hide_banner");
    push_text(args, "-y");
    assert(args.deep_view() =~= old(args).deep_view() + global_flags());
}

/// Appends the time limit, where there is one.
fn push_duration_limit(args: &mut Vec<String>, duration: Option<&str>)
    ensures
        final(args).deep_view() == old(args).deep_view() + duration_limit(opt_text(duration)),
{
    if let Some(limit) = duration {
        push_text(args, "-t");
        push_text(args, limit);
    }
    assert(args.deep_view() =~= old(args).deep_view() + duration_limit(opt_text(duration)));
}

/// Appends the block of one input.
fn push_input_block(
    args: &mut Vec<String>,
    prelude: &Vec<String>,
    format_flags: &Vec<String>,
    device: &str,
)
    ensures
        final(args).deep_view() == old(args).deep_view() + input_block(
            DeviceSpec {
                device: device@,
                prelude: prelude.deep_view(),
                format_flags: format_flags.deep_view(),
            },
        ),
{
    extend_texts(args, prelude);
    extend_texts(args, format_flags);
    push_text(args, "-i");
    push_text(args, device);
    assert(args.deep_view() =~= old(args).deep_view() + input_block(
        DeviceSpec {
            device: device@,
            prelude: prelude.deep_view(),
            format_flags: format_flags.deep_view(),
        },
    ));
}

/// Appends the mix filter.
fn push_mix_filter(args: &mut Vec<String>)
    ensures
        final(args).deep_view() == old(args).deep_view() + mix_filter(),
{
    push_text(args, "-filter_complex");
    push_text(args, "amix=inputs=2:duration=longest:dropout_transition=2");
    assert(args.deep_view() =~= old(args).deep_view() + mix_filter());
}

/// Appends the codec arguments of `format`.
fn push_codec_args(args: &mut Vec<String>, format: Container)
    ensures
        final(args).deep_view() == old(args).deep_view() + format.codec_args(),
{
    match format {
        Container::Wav => {
            push_text(args, "-c:a");
            push_text(args, "pcm_s16le");
        },
        Container::Mp3 => {
            push_text(args, "-c:a");
            push_text(args, "libmp3lame");
            push_text(args, "-b:a");
            push_text(args, "192k");
        },
    }
    assert(args.deep_view() =~= old(args).deep_view() + format.codec_args());
}

/// Builds the argument list for `platform`, without the program name.
///
/// `duration_override` is passed to ffmpeg unchanged, as are the device
/// overrides. The call fails exactly when the inputs cannot be resolved.
pub fn platform_build_args(
    platform: Platform,
    cfg: &RecorderConfig,
    outfile: &str,
    duration_override: Option<&str>,
    mic_override: Option<&str>,
    system_override: Option<&str>,
) -> (built: Result<Vec<String>, RecorderError>)
    ensures
        match built {
            Ok(args) => build_arguments(
                platform,
                cfg@,
                outfile@,
                opt_text(duration_override),
                opt_text(mic_override),
                opt_text(system_override),
            ) == Ok::<Seq<Seq<char>>, RecorderError>(args.deep_view()),
            Err(e) => build_arguments(
                platform,
                cfg@,
                outfile@,
                opt_text(duration_override),
                opt_text(mic_override),
                opt_text(system_override),
            ) == Err::<Seq<Seq<char>>, RecorderError>(e),
        },
{
    let (mic, system, prelude, format) = match platform_inputs_with_overrides(
        platform,
        cfg,
        mic_override,
        system_override,
    ) {
        Ok(resolved) => resolved,
        Err(e) => {
            return Err(e);
        },
    };
    let mut args: Vec<String> = Vec::new();
    assert(args.deep_view() =~= Seq::<Seq<char>>::empty());
    push_global_flags(&mut args);
    assert(args.deep_view() =~= global_flags());
    push_duration_limit(&mut args, duration_override);
    push_input_block(&mut args, &prelude.system_prelude, &format.system, system.as_str());
    push_input_block(&mut args, &prelude.mic_prelude, &format.mic, mic.as_str());
    push_mix_filter(&mut args);
    push_codec_args(&mut args, cfg.format);
    let ghost before_destination = args.deep_view();
    push_text(&mut args, outfile);
    assert(args.deep_view() =~= before_destination + seq![outfile@]);
    Ok(args)
}

/// Builds the argument list once the output directory has been prepared.
///
/// `out_dir_created` is what creating `cfg.out_dir` gave: `Ok`, or the reason
/// of the failure. A failure there is reported first; otherwise the result is
/// that of `platform_build_args`.
pub fn build_ffmpeg_args(
    platform: Platform,
    cfg: &RecorderConfig,
    out_dir_created: Result<(), String>,
    outfile: &str,
    duration: Option<&str>,
    mic_override: Option<&str>,
    system_override: Option<&str>,
) -> (built: Result<Vec<String>, RecorderError>)
    ensures
        match out_dir_created {
            Err(reason) => built == Err::<Vec<String>, RecorderError>(
                RecorderError::OutputDirectory { reason },
            ),
            Ok(_) => match built {
                Ok(args) => build_arguments(
                    platform,
                    cfg@,
                    outfile@,
                    opt_text(duration),
                    opt_text(mic_override),
                    opt_text(system_override),
                ) == Ok::<Seq<Seq<char>>, RecorderError>(args.deep_view()),
                Err(e) => build_arguments(
                    platform,
                    cfg@,
                    outfile@,
                    opt_text(duration),
                    opt_text(mic_override),
                    opt_text(system_override),
                ) == Err::<Seq<Seq<char>>, RecorderError>(e),
            },
        },
{
    match out_dir_created {
        Err(reason) => Err(RecorderError::OutputDirectory { reason }),
        Ok(_) => platform_build_args(
            platform,
            cfg,
            outfile,
            duration,
            mic_override,
            system_override,
        ),
    }
}

/// Whatever the platform and the overrides, a list that is built ends with
/// the codec arguments of the container followed by the destination: for WAV
/// `-c:a pcm_s16le`, for MP3 `-c:a libmp3lame -b:a 192k`.
pub proof fn law_codec_then_destination(
    platform: Platform,
    cfg: RecorderConfigView,
    outfile: Seq<char>,
    duration: Option<Seq<char>>,
    mic: Option<Seq<char>>,
    system: Option<Seq<char>>,
)
    requires
        build_arguments(platform, cfg, outfile, duration, mic, system) is Ok,
    ensures
        ({
            let args = build_arguments(platform, cfg, outfile, duration, mic, system)->Ok_0;
            let codec = cfg.format.codec_args();
            &&& args.len() > codec.len()
            &&& args.last() == outfile
            &&& args.subrange(args.len() - 1 - codec.len(), args.len() - 1) == codec
            &&& cfg.format == Container::Wav ==> codec == seq!["-c:a"@, "pcm_s16le"@]
            &&& cfg.format == Container::Mp3 ==> codec == seq![
                "-c:a"@,
                "libmp3lame"@,
                "-b:a"@,
                "192k"@,
            ]
        }),
{
    let args = build_arguments(platform, cfg, outfile, duration, mic, system)->Ok_0;
    let codec = cfg.format.codec_args();
    assert(args.subrange(args.len() - 1 - codec.len(), args.len() - 1) =~= codec);
}

/// The first input of a built list is the system audio and the second is the
/// microphone, with or without overrides: the `-i` of the system device comes
/// before the `-i` of the microphone device, each at the place that the blocks
/// before it fix, and each device is the override where one is given and the
/// platform's default otherwise.
pub proof fn law_system_then_microphone(
    platform: Platform,
    cfg: RecorderConfigView,
    outfile: Seq<char>,
    duration: Option<Seq<char>>,
    mic: Option<Seq<char>>,
    system: Option<Seq<char>>,
)
    requires
        build_arguments(platform, cfg, outfile, duration, mic, system) is Ok,
    ensures
        ({
            let args = build_arguments(platform, cfg, outfile, duration, mic, system)->Ok_0;
            let inputs = resolve_inputs(platform, cfg.wasapi, mic, system)->Ok_0;
            let first = system_input_index(inputs, duration);
            let second = microphone_input_index(inputs, duration);
            &&& 0 <= first < second < args.len() - 1
            &&& args[first] == "-i"@
            &&& Some(args[first + 1]) == chosen_device(platform, cfg.wasapi, Role::System, system)
            &&& args[second] == "-i"@
            &&& Some(args[second + 1]) == chosen_device(
                platform,
                cfg.wasapi,
                Role::Microphone,
                mic,
            )
            &&& args.subrange(inputs_start(duration), first + 2)
                == input_block(device_spec(platform, cfg.wasapi, Role::System, system))
            &&& args.subrange(first + 2, second + 2) == input_block(
                device_spec(platform, cfg.wasapi, Role::Microphone, mic),
            )
        }),
{
    let args = build_arguments(platform, cfg, outfile, duration, mic, system)->Ok_0;
    let inputs = resolve_inputs(platform, cfg.wasapi, mic, system)->Ok_0;
    let first = system_input_index(inputs, duration);
    let second = microphone_input_index(inputs, duration);
    assert(args.subrange(inputs_start(duration), first + 2)
        =~= input_block(inputs.system));
    assert(args.subrange(first + 2, second + 2) =~= input_block(inputs.microphone));
}

} // verus!
