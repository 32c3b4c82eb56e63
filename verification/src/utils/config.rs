//! The client's settings.
//!
//! The settings file is read, written and parsed outside; this module holds
//! the values and the rules that read them.
use vstd::prelude::*;
use vstd::std_specs::convert::FromSpecImpl;
use crate::utils::device::DeviceConfig;
use crate::utils::frame::text_equals;

verus! {

/// The settings used when the settings file is missing or cannot be parsed.
pub const DEFAULT_CONFIG: &'static str = "

[websocket]
url = \"ws://localhost:8080\"
frame_size = 960


[opus]
sample_rate = 16000
channels = 1

[logger]
level = \"debug\"
";

/// Settings of the codec.
#[derive(Clone, Debug)]
pub struct OpusCfg {
    pub sample_rate: usize,
    pub channels: usize,
}

/// Settings of the connection to the server.
#[derive(Clone, Debug)]
pub struct WsCfg {
    pub url: String,
    pub frame_size: usize,
}

/// Settings of the log.
#[derive(Clone, Debug)]
pub struct LogCfg {
    pub level: String,
}

/// All settings, with the configurations of the two sound devices.
#[derive(Clone, Debug)]
pub struct Config {
    pub websocket: WsCfg,
    pub opus: OpusCfg,
    pub logger: LogCfg,
    pub input_device: DeviceConfig,
    pub output_device: DeviceConfig,
}

/// The channel layout of the codec.
#[derive(Clone, Copy, Debug, PartialEq, Eq, Structural)]
pub enum OpusChannels {
    Mono,
    Stereo,
}

/// One channel is mono; any other count is taken as stereo.
pub open spec fn channels_of(count: usize) -> OpusChannels {
    if count == 1 {
        OpusChannels::Mono
    } else {
        OpusChannels::Stereo
    }
}

impl From<OpusCfg> for OpusChannels {
    fn from(cfg: OpusCfg) -> (r: OpusChannels) {
        match cfg.channels {
            1 => OpusChannels::Mono,
            2 => OpusChannels::Stereo,
            _ => OpusChannels::Stereo,
        }
    }
}

impl FromSpecImpl<OpusCfg> for OpusChannels {
    open spec fn obeys_from_spec() -> bool {
        true
    }

    open spec fn from_spec(cfg: OpusCfg) -> OpusChannels {
        channels_of(cfg.channels)
    }
}

/// How much the log records, from most to least.
#[derive(Clone, Copy, Debug, PartialEq, Eq, Structural)]
pub enum LogLevel {
    Trace,
    Debug,
    Info,
    Warn,
    Error,
}

/// The level that a lower-case name stands for; an unknown name gives `Info`.
pub open spec fn level_of(name: Seq<char>) -> LogLevel {
    if name == "trace"@ {
        LogLevel::Trace
    } else if name == "debug"@ {
        LogLevel::Debug
    } else if name == "info"@ {
        LogLevel::Info
    } else if name == "warn"@ {
        LogLevel::Warn
    } else if name == "error"@ {
        LogLevel::Error
    } else {
        LogLevel::Info
    }
}

/// What std's `str::to_lowercase` gives for a text.
pub uninterp spec fn lowercase(s: Seq<char>) -> Seq<char>;

/// Calls `str::to_lowercase`, which maps every character to its lower case
/// as Unicode defines it. The contract claims only that the result is a
/// function of the text (`lowercase`); which function is not stated.
#[verifier::external_body]
fn to_lowercase(s: &str) -> (r: String)
    ensures
        r@ == lowercase(s@),
{
    s.to_lowercase()
}

impl LogLevel {
    /// The level that a lower-case name stands for; an unknown name gives `Info`.
    pub fn from_lowercase_name(name: &String) -> (r: LogLevel)
        ensures
            r == level_of(name@),
    {
        if text_equals(name, "trace") {
            LogLevel::Trace
        } else if text_equals(name, "debug") {
            LogLevel::Debug
        } else if text_equals(name, "info") {
            LogLevel::Info
        } else if text_equals(name, "warn") {
            LogLevel::Warn
        } else if text_equals(name, "error") {
            LogLevel::Error
        } else {
            LogLevel::Info
        }
    }
}

impl From<LogCfg> for LogLevel {
    /// The level that the setting names, in any case.
    fn from(cfg: LogCfg) -> (r: LogLevel) {
        let lower = to_lowercase(cfg.level.as_str());
        LogLevel::from_lowercase_name(&lower)
    }
}

impl FromSpecImpl<LogCfg> for LogLevel {
    open spec fn obeys_from_spec() -> bool {
        true
    }

    open spec fn from_spec(cfg: LogCfg) -> LogLevel {
        level_of(lowercase(cfg.level@))
    }
}

impl Config {
    /// The text to parse: the settings file when it could be read, else the
    /// default settings.
    pub fn source_text(file: Option<String>) -> (r: String)
        ensures
            file matches Some(f) ==> r@ == f@,
            file is None ==> r@ == DEFAULT_CONFIG@,
    {
        match file {
            Some(f) => f,
            None => String::from_str(DEFAULT_CONFIG),
        }
    }

    /// Whether the settings allow the audio buffers to work: frames and input
    /// channels are not empty and their sizes fit in memory.
    pub open spec fn supports_audio(&self) -> bool {
        &&& self.websocket.frame_size > 0
        &&& self.input_device.channels > 0
        &&& self.websocket.frame_size * self.input_device.channels <= usize::MAX
        &&& self.websocket.frame_size * 3 <= usize::MAX
    }

    /// Checks `supports_audio`.
    pub fn check_audio(&self) -> (r: bool)
        ensures
            r == self.supports_audio(),
    {
        let fs = self.websocket.frame_size;
        let ch = self.input_device.channels;
        fs > 0 && ch > 0 && fs.checked_mul(ch).is_some() && fs.checked_mul(3).is_some()
    }
}

} // verus!
