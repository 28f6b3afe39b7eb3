//! The recording configuration and the platforms it can be resolved for.

use vstd::prelude::*;
use vstd::string::StringExecFns;

verus! {

/// Output container of a recording. It fixes the codec arguments and the
/// extension of the file name.
#[derive(Copy, Clone, Debug, PartialEq, Eq, Structural)]
pub enum Container {
    Wav,
    Mp3,
}

impl Container {
    /// File extension, without the dot.
    pub open spec fn extension_text(self) -> Seq<char> {
        match self {
            Container::Wav => "wav"@,
            Container::Mp3 => "mp3"@,
        }
    }

    /// The codec arguments that ffmpeg gets for this container: 16-bit
    /// little-endian PCM for WAV, LAME at 192 kbit/s for MP3.
    pub open spec fn codec_args(self) -> Seq<Seq<char>> {
        match self {
            Container::Wav => seq!["-c:a"@, "pcm_s16le"@],
            Container::Mp3 => seq!["-c:a"@, "libmp3lame"@, "-b:a"@, "192k"@],
        }
    }

    /// File extension, without the dot.
    pub fn extension(self) -> (ext: &'static str)
        ensures
            ext@ == self.extension_text(),
    {
        match self {
            Container::Wav => "wav",
            Container::Mp3 => "mp3",
        }
    }
}

/// The operating system whose capture backends the arguments are built for.
#[derive(Copy, Clone, Debug, PartialEq, Eq, Structural)]
pub enum Platform {
    Windows,
    MacOs,
    Linux,
    /// A Unix-like system without a known capture backend.
    OtherUnix,
}

impl Platform {
    /// True for the platforms whose processes are controlled with signals.
    pub open spec fn is_unix(self) -> bool {
        self != Platform::Windows
    }

    /// True for the platforms whose processes are controlled with signals.
    pub fn unix_family(self) -> (unix: bool)
        ensures
            unix == self.is_unix(),
    {
        match self {
            Platform::Windows => false,
            _ => true,
        }
    }
}

/// What a caller chooses for a recording session.
#[derive(Clone, Debug)]
pub struct RecorderConfig {
    /// Directory that receives the recordings.
    pub out_dir: String,
    pub format: Container,
    /// Preference for PipeWire tooling on Linux.
    pub prefer_pipewire: bool,
    /// On Windows, capture through WASAPI instead of DirectShow.
    pub wasapi: bool,
}

/// Mathematical value of a `RecorderConfig`.
pub struct RecorderConfigView {
    pub out_dir: Seq<char>,
    pub format: Container,
    pub prefer_pipewire: bool,
    pub wasapi: bool,
}

impl View for RecorderConfig {
    type V = RecorderConfigView;

    open spec fn view(&self) -> RecorderConfigView {
        RecorderConfigView {
            out_dir: self.out_dir@,
            format: self.format,
            prefer_pipewire: self.prefer_pipewire,
            wasapi: self.wasapi,
        }
    }
}

impl Default for RecorderConfig {
    /// WAV files under `recordings`, with no backend preference.
    fn default() -> (cfg: Self)
        ensures
            cfg@ == (RecorderConfigView {
                out_dir: "recordings"@,
                format: Container::Wav,
                prefer_pipewire: false,
                wasapi: false,
            }),
    {
        RecorderConfig {
            out_dir: String::from_str("recordings"),
            format: Container::Wav,
            prefer_pipewire: false,
            wasapi: false,
        }
    }
}

} // verus!
