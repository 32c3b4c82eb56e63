//! What the client keeps of a sound device's configuration.
use vstd::prelude::*;

verus! {

/// Which side of the sound card a device serves.
#[derive(Clone, Copy, Debug, PartialEq, Eq, Structural)]
pub enum DeviceType {
    Input,
    Output,
}

/// The sample rate and channel count of a device's default stream.
#[derive(Clone, Copy, Debug, PartialEq, Eq, Structural)]
pub struct DeviceConfig {
    pub sample_rate: u32,
    pub channels: usize,
}

impl Default for DeviceConfig {
    /// No device: rate and channels are zero.
    fn default() -> (r: Self)
        ensures
            r.sample_rate == 0,
            r.channels == 0,
    {
        DeviceConfig { sample_rate: 0, channels: 0 }
    }
}

impl DeviceConfig {
    /// The configuration of a device's default stream, from its sample rate
    /// and channel count.
    pub fn from_stream_config(sample_rate: u32, channels: u16) -> (r: Self)
        ensures
            r.sample_rate == sample_rate,
            r.channels == channels,
    {
        DeviceConfig { sample_rate, channels: channels as usize }
    }
}

} // verus!
