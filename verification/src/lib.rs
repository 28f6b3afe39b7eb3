//! Builds the ffmpeg command line that records the microphone and the system
//! audio into one file, and decides how the recording process is launched,
//! probed and stopped.
//!
//! The crate starts no process and touches no file of a recording. Its
//! functions compute a value from plain inputs, or interpret the plain outcome
//! of an operation that the caller carried out. Two of them look at the
//! machine: `check_ffmpeg` searches the path for ffmpeg, and `next_filename`
//! reads the clock.

pub mod arguments;
pub mod config;
pub mod devices;
pub mod error;
pub mod filename;
pub mod pid;
pub mod session;
pub mod supervisor;
pub mod text;
pub mod tools;

pub use arguments::{build_ffmpeg_args, platform_build_args};
pub use config::{Container, Platform, RecorderConfig, RecorderConfigView};
pub use devices::{
    platform_inputs_with_overrides, DevPrelude, DevPreludeView, FormatInputs, FormatInputsView, Role,
};
pub use error::{ErrorClass, RecorderError};
pub use filename::{next_filename, recording_file_name, recording_path};
pub use tools::check_ffmpeg;
