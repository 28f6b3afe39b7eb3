//! Chooses, for each platform, the capture backend and the two input devices.
//!
//! ffmpeg reads two inputs: the system audio (a loopback or monitor source)
//! and the microphone. For each the platform fixes the flags that go before
//! `-i`, and a device that is used when the caller names none.

use crate::config::{Platform, RecorderConfig};
use crate::error::RecorderError;
use crate::text::{opt_text, pair, push_text};
use vstd::prelude::*;
use vstd::string::StringExecFns;

verus! {

/// The two inputs of a recording.
#[derive(Copy, Clone, Debug, PartialEq, Eq, Structural)]
pub enum Role {
    /// What the machine plays.
    System,
    /// What the microphone hears.
    Microphone,
}

/// The flags that precede `-i`, for each input.
#[derive(Clone, Debug, Default, PartialEq, Eq)]
pub struct DevPrelude {
    pub system_prelude: Vec<String>,
    pub mic_prelude: Vec<String>,
}

/// The per-input format flags, which follow the prelude.
#[derive(Clone, Debug, Default, PartialEq, Eq)]
pub struct FormatInputs {
    pub system: Vec<String>,
    pub mic: Vec<String>,
}

/// Mathematical value of a `DevPrelude`.
pub struct DevPreludeView {
    pub system_prelude: Seq<Seq<char>>,
    pub mic_prelude: Seq<Seq<char>>,
}

impl View for DevPrelude {
    type V = DevPreludeView;

    open spec fn view(&self) -> DevPreludeView {
        DevPreludeView {
            system_prelude: self.system_prelude.deep_view(),
            mic_prelude: self.mic_prelude.deep_view(),
        }
    }
}

/// Mathematical value of a `FormatInputs`.
pub struct FormatInputsView {
    pub system: Seq<Seq<char>>,
    pub mic: Seq<Seq<char>>,
}

impl View for FormatInputs {
    type V = FormatInputsView;

    open spec fn view(&self) -> FormatInputsView {
        FormatInputsView { system: self.system.deep_view(), mic: self.mic.deep_view() }
    }
}

/// What one input contributes to the command line.
pub struct DeviceSpec {
    /// The identifier handed to `-i`.
    pub device: Seq<char>,
    /// Flags before the format flags.
    pub prelude: Seq<Seq<char>>,
    /// Flags between the prelude and `-i`.
    pub format_flags: Seq<Seq<char>>,
}

/// The resolved inputs of a recording.
pub struct Inputs {
    pub system: DeviceSpec,
    pub microphone: DeviceSpec,
}

/// Name of the capture backend, where the platform has one.
pub open spec fn backend(platform: Platform, wasapi: bool) -> Option<Seq<char>> {
    match platform {
        Platform::Windows => Some(if wasapi { "wasapi"@ } else { "dshow"@ }),
        Platform::MacOs => Some("avfoundation"@),
        Platform::Linux => Some("pulse"@),
        Platform::OtherUnix => None,
    }
}

/// The flags that select the backend. They are the same for both inputs.
pub open spec fn backend_selection(platform: Platform, wasapi: bool) -> Seq<Seq<char>> {
    match backend(platform, wasapi) {
        Some(name) => seq!["-f"@, name],
        None => Seq::empty(),
    }
}

/// The device used for `role` when the caller names none. macOS has no
/// loopback device of its own, so there the system input has no default.
pub open spec fn default_device(platform: Platform, wasapi: bool, role: Role) -> Option<Seq<char>> {
    match (platform, role) {
        (Platform::Windows, Role::System) => Some(
            if wasapi { "default"@ } else { "audio=virtual-audio-capturer"@ },
        ),
        (Platform::Windows, Role::Microphone) => Some(
            if wasapi { "default"@ } else { "audio=Microphone (default)"@ },
        ),
        (Platform::MacOs, Role::System) => None,
        (Platform::MacOs, Role::Microphone) => Some(":0"@),
        (Platform::Linux, Role::System) => Some("@DEFAULT_SINK@.monitor"@),
        (Platform::Linux, Role::Microphone) => Some("@DEFAULT_SOURCE@"@),
        (Platform::OtherUnix, _) => None,
    }
}

/// True where the default device of `role` is an output endpoint that is
/// captured in loopback mode: the WASAPI system input.
pub open spec fn default_is_loopback(platform: Platform, wasapi: bool, role: Role) -> bool {
    platform == Platform::Windows && wasapi && role == Role::System
}

/// The flags that ask for loopback capture. They belong to the default device
/// and are left out when the caller names a device.
pub open spec fn loopback_request(
    platform: Platform,
    wasapi: bool,
    role: Role,
    overridden: bool,
) -> Seq<Seq<char>> {
    if default_is_loopback(platform, wasapi, role) && !overridden {
        seq!["-loopback"@, "1"@]
    } else {
        Seq::empty()
    }
}

/// Everything that precedes the format flags of `role`.
pub open spec fn prelude(platform: Platform, wasapi: bool, role: Role, overridden: bool) -> Seq<
    Seq<char>,
> {
    loopback_request(platform, wasapi, role, overridden) + backend_selection(platform, wasapi)
}

/// The per-input format flags: PulseAudio inputs get a larger packet queue.
pub open spec fn format_flags(platform: Platform, role: Role) -> Seq<Seq<char>> {
    match platform {
        Platform::Linux => seq!["-thread_queue_size"@, "1024"@],
        _ => Seq::empty(),
    }
}

/// The device of `role`: the caller's choice verbatim, else the default.
pub open spec fn chosen_device(
    platform: Platform,
    wasapi: bool,
    role: Role,
    choice: Option<Seq<char>>,
) -> Option<Seq<char>> {
    match choice {
        Some(device) => Some(device),
        None => default_device(platform, wasapi, role),
    }
}

/// What `role` contributes, given that its device is known.
pub open spec fn device_spec(
    platform: Platform,
    wasapi: bool,
    role: Role,
    choice: Option<Seq<char>>,
) -> DeviceSpec
    recommends
        chosen_device(platform, wasapi, role, choice) is Some,
{
    DeviceSpec {
        device: chosen_device(platform, wasapi, role, choice)->0,
        prelude: prelude(platform, wasapi, role, choice is Some),
        format_flags: format_flags(platform, role),
    }
}

/// The inputs of a recording on `platform`, or the reason why there are none:
/// the platform has no backend, or the system input has neither a default nor
/// a device named by the caller.
pub open spec fn resolve_inputs(
    platform: Platform,
    wasapi: bool,
    mic: Option<Seq<char>>,
    system: Option<Seq<char>>,
) -> Result<Inputs, RecorderError> {
    if backend(platform, wasapi) is None {
        Err(RecorderError::UnsupportedPlatform)
    } else if chosen_device(platform, wasapi, Role::System, system) is None {
        Err(RecorderError::LoopbackDeviceRequired)
    } else {
        Ok(
            Inputs {
                system: device_spec(platform, wasapi, Role::System, system),
                microphone: device_spec(platform, wasapi, Role::Microphone, mic),
            },
        )
    }
}

/// The value of what `platform_inputs_with_overrides` hands back.
pub open spec fn inputs_of(
    mic: Seq<char>,
    system: Seq<char>,
    prelude: DevPreludeView,
    format: FormatInputsView,
) -> Inputs {
    Inputs {
        system: DeviceSpec {
            device: system,
            prelude: prelude.system_prelude,
            format_flags: format.system,
        },
        microphone: DeviceSpec {
            device: mic,
            prelude: prelude.mic_prelude,
            format_flags: format.mic,
        },
    }
}

/// Name of the capture backend, where the platform has one.
fn backend_name(platform: Platform, wasapi: bool) -> (name: Option<&'static str>)
    ensures
        opt_text(name) == backend(platform, wasapi),
{
    match platform {
        Platform::Windows => Some(if wasapi { "wasapi" } else { "dshow" }),
        Platform::MacOs => Some("avfoundation"),
        Platform::Linux => Some("pulse"),
        Platform::OtherUnix => None,
    }
}

/// The device used for `role` when the caller names none.
fn default_device_name(platform: Platform, wasapi: bool, role: Role) -> (name: Option<
    &'static str,
>)
    ensures
        opt_text(name) == default_device(platform, wasapi, role),
{
    match (platform, role) {
        (Platform::Windows, Role::System) => Some(
            if wasapi { "default" } else { "audio=virtual-audio-capturer" },
        ),
        (Platform::Windows, Role::Microphone) => Some(
            if wasapi { "default" } else { "audio=Microphone (default)" },
        ),
        (Platform::MacOs, Role::System) => None,
        (Platform::MacOs, Role::Microphone) => Some(":0"),
        (Platform::Linux, Role::System) => Some("@DEFAULT_SINK@.monitor"),
        (Platform::Linux, Role::Microphone) => Some("@DEFAULT_SOURCE@"),
        (Platform::OtherUnix, _) => None,
    }
}

/// Tells whether the default device of `role` is captured in loopback mode.
fn captures_loopback(platform: Platform, wasapi: bool, role: Role) -> (loopback: bool)
    ensures
        loopback == default_is_loopback(platform, wasapi, role),
{
    match (platform, role) {
        (Platform::Windows, Role::System) => wasapi,
        _ => false,
    }
}

/// Resolves one input: its device, its prelude and its format flags.
fn resolve_role(platform: Platform, wasapi: bool, role: Role, choice: Option<&str>) -> (resolved:
    Result<(String, Vec<String>, Vec<String>), RecorderError>)
    ensures
        match resolved {
            Ok((device, lead, flags)) => {
                &&& backend(platform, wasapi) is Some
                &&& chosen_device(platform, wasapi, role, opt_text(choice)) is Some
                &&& device_spec(platform, wasapi, role, opt_text(choice)) == (DeviceSpec {
                    device: device@,
                    prelude: lead.deep_view(),
                    format_flags: flags.deep_view(),
                })
            },
            Err(e) => if backend(platform, wasapi) is None {
                e == RecorderError::UnsupportedPlatform
            } else {
                &&& chosen_device(platform, wasapi, role, opt_text(choice)) is None
                &&& e == RecorderError::LoopbackDeviceRequired
            },
        },
{
    let name = match backend_name(platform, wasapi) {
        Some(name) => name,
        None => {
            return Err(RecorderError::UnsupportedPlatform);
        },
    };
    let device = match choice {
        Some(device) => String::from_str(device),
        None => match default_device_name(platform, wasapi, role) {
            Some(device) => String::from_str(device),
            None => {
                return Err(RecorderError::LoopbackDeviceRequired);
            },
        },
    };
    let mut lead: Vec<String> = Vec::new();
    assert(lead.deep_view() =~= Seq::<Seq<char>>::empty());
    if choice.is_none() && captures_loopback(platform, wasapi, role) {
        push_text(&mut lead, "-loopback");
        push_text(&mut lead, "1");
    }
    push_text(&mut lead, "-f");
    push_text(&mut lead, name);
    assert(lead.deep_view() =~= prelude(platform, wasapi, role, choice is Some));
    let flags = match platform {
        Platform::Linux => pair("-thread_queue_size", "1024"),
        _ => Vec::new(),
    };
    assert(flags.deep_view() =~= format_flags(platform, role));
    Ok((device, lead, flags))
}

/// Resolves both inputs for `platform`. The result is the microphone device,
/// the system device, the preludes and the format flags, in this order.
///
/// A device named by the caller is used verbatim and never changes the
/// backend or the format flags. It fails where the platform has no capture
/// backend, and on macOS when no system device is named.
pub fn platform_inputs_with_overrides(
    platform: Platform,
    cfg: &RecorderConfig,
    mic_override: Option<&str>,
    system_override: Option<&str>,
) -> (resolved: Result<(String, String, DevPrelude, FormatInputs), RecorderError>)
    ensures
        match resolved {
            Ok((mic, system, prelude, format)) => resolve_inputs(
                platform,
                cfg.wasapi,
                opt_text(mic_override),
                opt_text(system_override),
            ) == Ok::<Inputs, RecorderError>(inputs_of(mic@, system@, prelude@, format@)),
            Err(e) => resolve_inputs(
                platform,
                cfg.wasapi,
                opt_text(mic_override),
                opt_text(system_override),
            ) == Err::<Inputs, RecorderError>(e),
        },
{
    let (system, system_prelude, system_flags) = match resolve_role(
        platform,
        cfg.wasapi,
        Role::System,
        system_override,
    ) {
        Ok(input) => input,
        Err(e) => {
            return Err(e);
        },
    };
    let (mic, mic_prelude, mic_flags) = match resolve_role(
        platform,
        cfg.wasapi,
        Role::Microphone,
        mic_override,
    ) {
        Ok(input) => input,
        Err(e) => {
            return Err(e);
        },
    };
    Ok(
        (
            mic,
            system,
            DevPrelude { system_prelude, mic_prelude },
            FormatInputs { system: system_flags, mic: mic_flags },
        ),
    )
}

/// A device named by the caller is used verbatim. On every platform it leaves
/// the format flags of its input as they are without it, and the prelude still
/// ends with the platform's backend selection.
pub proof fn law_override_is_verbatim(
    platform: Platform,
    wasapi: bool,
    role: Role,
    device: Seq<char>,
)
    ensures
        chosen_device(platform, wasapi, role, Some(device)) == Some(device),
        device_spec(platform, wasapi, role, Some(device)).device == device,
        device_spec(platform, wasapi, role, Some(device)).format_flags == device_spec(
            platform,
            wasapi,
            role,
            None,
        ).format_flags,
        ({
            let with = device_spec(platform, wasapi, role, Some(device)).prelude;
            let without = device_spec(platform, wasapi, role, None).prelude;
            let selection = backend_selection(platform, wasapi);
            &&& with == selection
            &&& without.len() >= selection.len()
            &&& without.subrange(without.len() - selection.len(), without.len() as int)
                == selection
        }),
{
    let without = device_spec(platform, wasapi, role, None).prelude;
    let selection = backend_selection(platform, wasapi);
    assert(device_spec(platform, wasapi, role, Some(device)).prelude =~= selection);
    assert(without.subrange(without.len() - selection.len(), without.len() as int)
        =~= selection);
}

/// A device named by the caller leaves the whole prelude of its input as it
/// is without it, on every input but the WASAPI system input: there the
/// loopback request belongs to the default device and goes with it.
pub proof fn law_override_keeps_prelude(
    platform: Platform,
    wasapi: bool,
    role: Role,
    device: Seq<char>,
)
    requires
        !default_is_loopback(platform, wasapi, role),
    ensures
        device_spec(platform, wasapi, role, Some(device)).prelude == device_spec(
            platform,
            wasapi,
            role,
            None,
        ).prelude,
{
}

} // verus!
