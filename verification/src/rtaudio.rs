use vstd::prelude::*;

verus! {

/// Snapshot of one audio device, copied out of the native device record at
/// the moment a device-list event fires.  Fields whose native text failed
/// validation are absent rather than wrong.
#[allow(non_snake_case)]
#[derive(Debug, Clone, PartialEq)]
pub struct CsAudioDevice {
    pub device_name: Option<String>,
    pub device_id: Option<String>,
    pub rt_module: Option<String>,
    pub max_nchnls: u32,
    pub isOutput: u32,
}

/// Snapshot of one MIDI device, copied out of the native device record.
#[allow(non_snake_case)]
#[derive(Debug, Clone, PartialEq)]
pub struct CsMidiDevice {
    pub device_name: Option<String>,
    pub interface_name: Option<String>,
    pub device_id: Option<String>,
    pub midi_module: Option<String>,
    pub isOutput: u32,
}

/// Parameters of the device a real-time audio stream is being opened on.
/// The sample rate is the bit pattern of the native single-precision field.
#[allow(non_snake_case)]
#[derive(Debug, Clone, PartialEq)]
pub struct RtAudioParams {
    /// Device name.
    pub devName: Option<String>,
    /// Device number.
    pub devNum: u32,
    /// Software buffer size, in sample frames.
    pub bufSamp_SW: u32,
    /// Hardware buffer size, in sample frames.
    pub bufSamp_HW: u32,
    /// Number of channels the device supports.
    pub nChannels: u32,
    /// Native sample format code.
    pub sampleFormat: u32,
    /// Sample rate, as a single-precision bit pattern.
    pub sampleRate: u32,
}

} // verus!
