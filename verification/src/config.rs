use vstd::prelude::*;

use crate::text::owned;

verus! {

/// The settings of a configuration file. Absent optional values mean
/// "use the device default" (or no limit).
#[derive(Debug, Clone)]
pub struct AudioRouterConfig {
    /// Input device name; `None` uses the system default.
    pub input_device: Option<String>,
    /// Output device names.
    pub output_devices: Vec<String>,
    /// Sample rate in Hz.
    pub sample_rate: Option<u32>,
    /// Channel count.
    pub channels: Option<u16>,
    /// Buffer size in frames.
    pub buffer_frames: Option<u32>,
    /// Largest allowed latency in milliseconds.
    pub max_latency_ms: Option<u32>,
    /// Resampling algorithm ("sinc", "cubic", "none").
    pub resampler: String,
    /// Disables clock drift compensation.
    pub no_drift_compensation: bool,
    /// Exits when the input device is lost.
    pub exit_on_input_loss: bool,
    /// Falls back to the default input device after a loss.
    pub input_fallback_to_default: bool,
    /// Log file path.
    pub log_file: Option<String>,
    /// Prints JSON monitoring lines.
    pub monitor: bool,
    /// WASAPI exclusive mode (Windows).
    pub wasapi_exclusive: bool,
    /// Disables the brickwall limiter.
    pub no_limiter: bool,
    /// Starts the graphical interface.
    pub gui_enabled: bool,
    /// Source type ("input" or "loopback").
    pub source_type: String,
    /// Output device captured in loopback mode; `None` uses the default output.
    pub loopback_device: Option<String>,
    /// Largest number of output devices (slots).
    pub max_outputs: u32,
}

/// The default settings: no device names, no optional values, resampler
/// "sinc", source "input", 32 outputs, fallback to the default input on,
/// graphical interface on, every other switch off.
pub open spec fn is_default_config(c: AudioRouterConfig) -> bool {
    &&& c.input_device is None
    &&& c.output_devices@.len() == 0
    &&& c.sample_rate is None
    &&& c.channels is None
    &&& c.buffer_frames is None
    &&& c.max_latency_ms is None
    &&& c.resampler@ == "sinc"@
    &&& !c.no_drift_compensation
    &&& !c.exit_on_input_loss
    &&& c.input_fallback_to_default
    &&& c.log_file is None
    &&& !c.monitor
    &&& !c.wasapi_exclusive
    &&& !c.no_limiter
    &&& c.gui_enabled
    &&& c.source_type@ == "input"@
    &&& c.loopback_device is None
    &&& c.max_outputs == 32
}

impl Default for AudioRouterConfig {
    fn default() -> (c: Self)
        ensures
            is_default_config(c),
    {
        AudioRouterConfig {
            input_device: None,
            output_devices: Vec::new(),
            sample_rate: None,
            channels: None,
            buffer_frames: None,
            max_latency_ms: None,
            resampler: owned("sinc"),
            no_drift_compensation: false,
            exit_on_input_loss: false,
            input_fallback_to_default: true,
            log_file: None,
            monitor: false,
            wasapi_exclusive: false,
            no_limiter: false,
            gui_enabled: true,
            source_type: owned("input"),
            loopback_device: None,
            max_outputs: 32,
        }
    }
}

} // verus!
