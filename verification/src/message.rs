use vstd::prelude::*;

use crate::device::{DeviceInfo, DeviceType};
use crate::text::owned;

verus! {

/// A device as the interface lists it: the first supported value of each
/// list, or zero / empty when the device reports none.
#[derive(Debug, Clone)]
pub struct DeviceInfoSnapshot {
    /// Display name.
    pub name: String,
    /// First supported sample rate (Hz), or 0.
    pub sample_rate: u32,
    /// First supported channel count, or 0.
    pub channels: u16,
    /// First supported sample format, or "".
    pub format: String,
    /// Connection type.
    pub device_type: DeviceType,
}

/// The snapshot of a device description.
pub open spec fn snapshot_matches(s: DeviceInfoSnapshot, info: DeviceInfo) -> bool {
    &&& s.name@ == info.name@
    &&& s.sample_rate == (if info.sample_rates@.len() > 0 { info.sample_rates@[0] } else { 0 })
    &&& s.channels == (if info.channels@.len() > 0 { info.channels@[0] } else { 0 })
    &&& s.format@ == (if info.formats@.len() > 0 { info.formats@[0]@ } else { Seq::empty() })
    &&& s.device_type == info.device_type
}

impl DeviceInfoSnapshot {
    /// The snapshot of a device description.
    pub fn from_info(info: &DeviceInfo) -> (s: Self)
        ensures
            snapshot_matches(s, *info),
    {
        let sample_rate = if info.sample_rates.len() > 0 { info.sample_rates[0] } else { 0 };
        let channels = if info.channels.len() > 0 { info.channels[0] } else { 0 };
        let format = if info.formats.len() > 0 {
            info.formats[0].clone()
        } else {
            let e = owned("");
            proof {
                reveal_strlit("");
                assert(e@ =~= Seq::<char>::empty());
            }
            e
        };
        DeviceInfoSnapshot { name: info.name.clone(), sample_rate, channels, format, device_type: info.device_type }
    }
}

/// Settings with which the interface starts the engine.
#[derive(Debug, Clone)]
pub struct EngineConfig {
    /// Input device name; `None` uses the system default.
    pub input_device: Option<String>,
    /// Output device names.
    pub output_devices: Vec<String>,
    /// Sample rate in Hz.
    pub sample_rate: u32,
    /// Buffer size in frames.
    pub buffer_frames: u32,
    /// Largest allowed latency in milliseconds.
    pub max_latency_ms: u32,
    /// Resampling algorithm: "sinc", "cubic" or "none".
    pub resampler: String,
    /// Disables drift compensation.
    pub no_drift_compensation: bool,
    /// Exits when the input device is lost.
    pub exit_on_input_loss: bool,
    /// Falls back to the default input device after a loss.
    pub input_fallback_to_default: bool,
    /// WASAPI exclusive mode.
    pub wasapi_exclusive: bool,
    /// Disables the brickwall limiter.
    pub no_limiter: bool,
    /// Source type: "input" or "loopback".
    pub source_type: String,
    /// Loopback device name; `None` uses the default output.
    pub loopback_device: Option<String>,
    /// Largest number of output devices.
    pub max_outputs: usize,
}

/// The default engine settings: 48000 Hz, 256 frames, 30 ms, "sinc",
/// source "input", 32 outputs, fallback to the default input on, all other
/// switches off, no device names.
pub open spec fn is_default_engine_config(c: EngineConfig) -> bool {
    &&& c.input_device is None
    &&& c.output_devices@.len() == 0
    &&& c.sample_rate == 48000
    &&& c.buffer_frames == 256
    &&& c.max_latency_ms == 30
    &&& c.resampler@ == "sinc"@
    &&& !c.no_drift_compensation
    &&& !c.exit_on_input_loss
    &&& c.input_fallback_to_default
    &&& !c.wasapi_exclusive
    &&& !c.no_limiter
    &&& c.source_type@ == "input"@
    &&& c.loopback_device is None
    &&& c.max_outputs == 32
}

impl Default for EngineConfig {
    fn default() -> (c: Self)
        ensures
            is_default_engine_config(c),
    {
        EngineConfig {
            input_device: None,
            output_devices: Vec::new(),
            sample_rate: 48000,
            buffer_frames: 256,
            max_latency_ms: 30,
            resampler: owned("sinc"),
            no_drift_compensation: false,
            exit_on_input_loss: false,
            input_fallback_to_default: true,
            wasapi_exclusive: false,
            no_limiter: false,
            source_type: owned("input"),
            loopback_device: None,
            max_outputs: 32,
        }
    }
}

/// Messages from the interface to the engine.
#[derive(Debug, Clone)]
pub enum GuiToEngine {
    /// Start the engine with these settings.
    Start(EngineConfig),
    /// Stop the engine (it fades out and reports final statistics).
    Stop,
}

} // verus!
