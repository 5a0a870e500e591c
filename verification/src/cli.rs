use vstd::prelude::*;

use crate::config::{is_default_config, AudioRouterConfig};
use crate::text::{owned, text_eq};
use vstd::string::StrSliceExecFns;

verus! {

/// Command-line arguments. Command-line values take precedence over the
/// configuration file.
#[derive(Debug, Clone)]
pub struct CliArgs {
    /// `--input-device`: input device name (system default when absent).
    pub input_device: Option<String>,
    /// `--output-device` (repeatable): output device names.
    pub output_device: Vec<String>,
    /// `--sample-rate`: input sample rate in Hz.
    pub sample_rate: Option<u32>,
    /// `--channels`: input channel count.
    pub channels: Option<u16>,
    /// `--buffer-frames`: buffer size in frames (default 256).
    pub buffer_frames: Option<u32>,
    /// `--max-latency-ms`: largest allowed latency (default 30).
    pub max_latency_ms: Option<u32>,
    /// `--resampler`: "sinc", "cubic" or "none" (default "sinc").
    pub resampler: Option<String>,
    /// `--no-drift-compensation`.
    pub no_drift_compensation: bool,
    /// `--exit-on-input-loss`.
    pub exit_on_input_loss: bool,
    /// `--input-fallback-to-default`.
    pub input_fallback_to_default: bool,
    /// `--log-file`: log file path.
    pub log_file: Option<String>,
    /// `--monitor`: JSON monitoring output.
    pub monitor: bool,
    /// `--no-limiter`.
    pub no_limiter: bool,
    /// `--gui`: start the graphical interface.
    pub gui: bool,
    /// `--config`: configuration file path (default "audio_router.toml").
    pub config: Option<String>,
    /// `--source-type`: "input" (default) or "loopback".
    pub source_type: String,
    /// `--loopback-device`: output device captured in loopback mode.
    pub loopback_device: Option<String>,
    /// `--preset`: preset file path.
    pub preset: Option<String>,
    /// `--max-outputs`: largest number of output devices (default 32).
    pub max_outputs: Option<u32>,
}

/// The settings after merging command line and configuration file.
#[derive(Debug, Clone)]
pub struct ResolvedConfig {
    /// Input device name; `None` uses the system default.
    pub input_device: Option<String>,
    /// Output device names.
    pub output_devices: Vec<String>,
    /// Sample rate in Hz; `None` uses the device default.
    pub sample_rate: Option<u32>,
    /// Channel count; `None` uses the device default.
    pub channels: Option<u16>,
    /// Buffer size in frames.
    pub buffer_frames: u32,
    /// Largest allowed latency in milliseconds.
    pub max_latency_ms: u32,
    /// Resampling algorithm.
    pub resampler: String,
    /// Disables drift compensation.
    pub no_drift_compensation: bool,
    /// Exits when the input is lost.
    pub exit_on_input_loss: bool,
    /// Falls back to the default input after a loss.
    pub input_fallback_to_default: bool,
    /// Log file path.
    pub log_file: Option<String>,
    /// JSON monitoring output.
    pub monitor: bool,
    /// Disables the limiter.
    pub no_limiter: bool,
    /// Starts the graphical interface.
    pub gui: bool,
    /// Configuration file path.
    pub config_path: Option<String>,
    /// Source type.
    pub source_type: String,
    /// Loopback device.
    pub loopback_device: Option<String>,
    /// Preset file path.
    pub preset_path: Option<String>,
    /// Largest number of outputs.
    pub max_outputs: u32,
}

/// The first of two optional values that is present.
pub open spec fn prefer<T>(first: Option<T>, second: Option<T>) -> Option<T> {
    if first is Some { first } else { second }
}

/// The arguments ask for audio routing (anything but `--gui`,
/// `--config` and `--log-file`).
pub open spec fn has_operational_args_spec(a: CliArgs) -> bool {
    a.input_device is Some || a.output_device@.len() > 0 || a.sample_rate is Some || a.channels is Some
        || a.buffer_frames is Some || a.max_latency_ms is Some || a.resampler is Some
        || a.no_drift_compensation || a.exit_on_input_loss || a.input_fallback_to_default || a.monitor
        || a.no_limiter || a.source_type@ != "input"@ || a.loopback_device is Some || a.preset is Some
        || a.max_outputs is Some
}

/// The merge of command line and configuration file: command-line values
/// first, then file values, then defaults (256 frames, 30 ms, "sinc");
/// flags are on when either side sets them; the interface starts when
/// `--gui` is given, or when no routing argument is given and the file
/// enables it.
pub open spec fn merged(a: CliArgs, c: AudioRouterConfig, r: ResolvedConfig) -> bool {
    &&& r.input_device == prefer(a.input_device, c.input_device)
    &&& r.output_devices@ == (if a.output_device@.len() > 0 { a.output_device@ } else { c.output_devices@ })
    &&& r.sample_rate == prefer(a.sample_rate, c.sample_rate)
    &&& r.channels == prefer(a.channels, c.channels)
    &&& r.buffer_frames == prefer(a.buffer_frames, c.buffer_frames).unwrap_or(256)
    &&& r.max_latency_ms == prefer(a.max_latency_ms, c.max_latency_ms).unwrap_or(30)
    &&& r.resampler@ == (if a.resampler is Some {
        a.resampler.unwrap()@
    } else if c.resampler@.len() > 0 {
        c.resampler@
    } else {
        "sinc"@
    })
    &&& r.no_drift_compensation == (a.no_drift_compensation || c.no_drift_compensation)
    &&& r.exit_on_input_loss == (a.exit_on_input_loss || c.exit_on_input_loss)
    &&& r.input_fallback_to_default == (a.input_fallback_to_default || c.input_fallback_to_default)
    &&& r.log_file == prefer(a.log_file, c.log_file)
    &&& r.monitor == (a.monitor || c.monitor)
    &&& r.no_limiter == (a.no_limiter || c.no_limiter)
    &&& r.gui == (a.gui || (!has_operational_args_spec(a) && c.gui_enabled))
    &&& r.config_path == a.config
    &&& r.source_type@ == (if a.source_type@ != "input"@ { a.source_type@ } else { c.source_type@ })
    &&& r.loopback_device == prefer(a.loopback_device, c.loopback_device)
    &&& r.preset_path == a.preset
    &&& r.max_outputs == a.max_outputs.unwrap_or(c.max_outputs)
}

/// The arguments that the graphical interface keeps: `--gui` and
/// `--config`; everything else is reset to its default.
pub open spec fn filtered_for_gui(a: CliArgs, r: CliArgs) -> bool {
    &&& r.input_device is None
    &&& r.output_device@.len() == 0
    &&& r.sample_rate is None
    &&& r.channels is None
    &&& r.buffer_frames is None
    &&& r.max_latency_ms is None
    &&& r.resampler is None
    &&& !r.no_drift_compensation
    &&& !r.exit_on_input_loss
    &&& !r.input_fallback_to_default
    &&& r.log_file is None
    &&& !r.monitor
    &&& !r.no_limiter
    &&& r.gui == a.gui
    &&& r.config == a.config
    &&& r.source_type@ == "input"@
    &&& r.loopback_device is None
    &&& r.preset is None
    &&& r.max_outputs is None
}

/// The options that the graphical interface ignores, in the order in which
/// they are reported.
pub open spec fn gui_ignored(a: CliArgs) -> Seq<Seq<char>> {
    let s0 = Seq::<Seq<char>>::empty();
    let s1 = if a.input_device is Some { s0.push("--input-device"@) } else { s0 };
    let s2 = if a.output_device@.len() > 0 { s1.push("--output-device"@) } else { s1 };
    let s3 = if a.sample_rate is Some { s2.push("--sample-rate"@) } else { s2 };
    let s4 = if a.channels is Some { s3.push("--channels"@) } else { s3 };
    let s5 = if a.buffer_frames is Some { s4.push("--buffer-frames"@) } else { s4 };
    let s6 = if a.max_latency_ms is Some { s5.push("--max-latency-ms"@) } else { s5 };
    let s7 = if a.resampler is Some { s6.push("--resampler"@) } else { s6 };
    let s8 = if a.log_file is Some { s7.push("--log-file"@) } else { s7 };
    let s9 = if a.preset is Some { s8.push("--preset"@) } else { s8 };
    let s10 = if a.source_type@ != "input"@ { s9.push("--source-type"@) } else { s9 };
    let s11 = if a.loopback_device is Some { s10.push("--loopback-device"@) } else { s10 };
    let s12 = if a.max_outputs is Some { s11.push("--max-outputs"@) } else { s11 };
    let s13 = if a.no_drift_compensation { s12.push("--no-drift-compensation"@) } else { s12 };
    let s14 = if a.exit_on_input_loss { s13.push("--exit-on-input-loss"@) } else { s13 };
    let s15 = if a.input_fallback_to_default { s14.push("--input-fallback-to-default"@) } else { s14 };
    let s16 = if a.monitor { s15.push("--monitor"@) } else { s15 };
    if a.no_limiter { s16.push("--no-limiter"@) } else { s16 }
}

/// The texts of a list of static strings.
pub open spec fn str_views(v: Seq<&'static str>) -> Seq<Seq<char>> {
    v.map_values(|s: &'static str| s@)
}

fn push_flag(v: &mut Vec<&'static str>, on: bool, name: &'static str)
    ensures
        str_views(final(v)@) == (if on { str_views(old(v)@).push(name@) } else { str_views(old(v)@) }),
{
    if on {
        v.push(name);
        assert(str_views(v@) =~= str_views(old(v)@).push(name@));
    }
}

impl CliArgs {
    /// Whether routing arguments were given (anything but `--gui`,
    /// `--config` and `--log-file`); they mean the user wants the command
    /// line mode.
    pub fn has_operational_args(&self) -> (r: bool)
        ensures
            r == has_operational_args_spec(*self),
    {
        self.input_device.is_some() || self.output_device.len() > 0 || self.sample_rate.is_some()
            || self.channels.is_some() || self.buffer_frames.is_some() || self.max_latency_ms.is_some()
            || self.resampler.is_some() || self.no_drift_compensation || self.exit_on_input_loss
            || self.input_fallback_to_default || self.monitor || self.no_limiter
            || !text_eq(self.source_type.as_str(), "input") || self.loopback_device.is_some()
            || self.preset.is_some() || self.max_outputs.is_some()
    }

    /// Merges the arguments with a configuration file (see `merged`).
    pub fn merge_with_config(&self, config: &AudioRouterConfig) -> (r: ResolvedConfig)
        ensures
            merged(*self, *config, r),
            r.monitor == (self.monitor || config.monitor),
            r.no_limiter == (self.no_limiter || config.no_limiter),
            r.no_drift_compensation == (self.no_drift_compensation || config.no_drift_compensation),
            r.exit_on_input_loss == (self.exit_on_input_loss || config.exit_on_input_loss),
            r.input_fallback_to_default == (self.input_fallback_to_default || config.input_fallback_to_default),
    {
        let input_device = match &self.input_device {
            Some(d) => Some(d.clone()),
            None => config.input_device.clone(),
        };
        let output_devices = if self.output_device.len() > 0 {
            self.output_device.clone()
        } else {
            config.output_devices.clone()
        };
        let sample_rate = match self.sample_rate {
            Some(v) => Some(v),
            None => config.sample_rate,
        };
        let channels = match self.channels {
            Some(v) => Some(v),
            None => config.channels,
        };
        let buffer_frames = match self.buffer_frames {
            Some(v) => v,
            None => match config.buffer_frames {
                Some(v) => v,
                None => 256,
            },
        };
        let max_latency_ms = match self.max_latency_ms {
            Some(v) => v,
            None => match config.max_latency_ms {
                Some(v) => v,
                None => 30,
            },
        };
        let resampler = match &self.resampler {
            Some(r) => r.clone(),
            None => {
                if config.resampler.as_str().unicode_len() > 0 {
                    config.resampler.clone()
                } else {
                    owned("sinc")
                }
            },
        };
        let log_file = match &self.log_file {
            Some(v) => Some(v.clone()),
            None => config.log_file.clone(),
        };
        let gui = if self.gui {
            true
        } else if self.has_operational_args() {
            false
        } else {
            config.gui_enabled
        };
        let source_type = if !text_eq(self.source_type.as_str(), "input") {
            self.source_type.clone()
        } else if !text_eq(config.source_type.as_str(), "input") {
            config.source_type.clone()
        } else {
            owned("input")
        };
        let loopback_device = match &self.loopback_device {
            Some(v) => Some(v.clone()),
            None => config.loopback_device.clone(),
        };
        let max_outputs = match self.max_outputs {
            Some(v) => v,
            None => config.max_outputs,
        };
        ResolvedConfig {
            input_device,
            output_devices,
            sample_rate,
            channels,
            buffer_frames,
            max_latency_ms,
            resampler,
            no_drift_compensation: self.no_drift_compensation || config.no_drift_compensation,
            exit_on_input_loss: self.exit_on_input_loss || config.exit_on_input_loss,
            input_fallback_to_default: self.input_fallback_to_default || config.input_fallback_to_default,
            log_file,
            monitor: self.monitor || config.monitor,
            no_limiter: self.no_limiter || config.no_limiter,
            gui,
            config_path: self.config.clone(),
            source_type,
            loopback_device,
            preset_path: self.preset.clone(),
            max_outputs,
        }
    }

    /// Whether the graphical interface was requested with `--gui`.
    pub fn is_gui_mode(&self) -> (r: bool)
        ensures
            r == self.gui,
    {
        self.gui
    }

    /// The arguments with everything but `--gui` and `--config` reset: the
    /// graphical interface takes its settings from the file and the panels.
    /// `gui_ignored_options` lists what was dropped.
    pub fn filter_for_gui(&self) -> (r: Self)
        ensures
            filtered_for_gui(*self, r),
    {
        CliArgs {
            input_device: None,
            output_device: Vec::new(),
            sample_rate: None,
            channels: None,
            buffer_frames: None,
            max_latency_ms: None,
            resampler: None,
            no_drift_compensation: false,
            exit_on_input_loss: false,
            input_fallback_to_default: false,
            log_file: None,
            monitor: false,
            no_limiter: false,
            gui: self.gui,
            config: self.config.clone(),
            source_type: owned("input"),
            loopback_device: None,
            preset: None,
            max_outputs: None,
        }
    }

    /// The options that `filter_for_gui` drops, in reporting order
    /// (value options that were given, then switches that were set).
    pub fn gui_ignored_options(&self) -> (r: Vec<&'static str>)
        ensures
            str_views(r@) == gui_ignored(*self),
    {
        let mut v: Vec<&'static str> = Vec::new();
        assert(str_views(v@) =~= Seq::<Seq<char>>::empty());
        push_flag(&mut v, self.input_device.is_some(), "--input-device");
        push_flag(&mut v, self.output_device.len() > 0, "--output-device");
        push_flag(&mut v, self.sample_rate.is_some(), "--sample-rate");
        push_flag(&mut v, self.channels.is_some(), "--channels");
        push_flag(&mut v, self.buffer_frames.is_some(), "--buffer-frames");
        push_flag(&mut v, self.max_latency_ms.is_some(), "--max-latency-ms");
        push_flag(&mut v, self.resampler.is_some(), "--resampler");
        push_flag(&mut v, self.log_file.is_some(), "--log-file");
        push_flag(&mut v, self.preset.is_some(), "--preset");
        push_flag(&mut v, !text_eq(self.source_type.as_str(), "input"), "--source-type");
        push_flag(&mut v, self.loopback_device.is_some(), "--loopback-device");
        push_flag(&mut v, self.max_outputs.is_some(), "--max-outputs");
        push_flag(&mut v, self.no_drift_compensation, "--no-drift-compensation");
        push_flag(&mut v, self.exit_on_input_loss, "--exit-on-input-loss");
        push_flag(&mut v, self.input_fallback_to_default, "--input-fallback-to-default");
        push_flag(&mut v, self.monitor, "--monitor");
        push_flag(&mut v, self.no_limiter, "--no-limiter");
        v
    }
}


/// The arguments kept for the graphical interface ask for no routing.
pub proof fn lemma_filtered_args_are_not_operational(a: CliArgs, r: CliArgs)
    requires
        filtered_for_gui(a, r),
    ensures
        !has_operational_args_spec(r),
{
}

/// After filtering, merging with a file takes every routing setting from
/// the file (and the defaults), and starts the interface when `--gui` was
/// given or the file enables it.
pub proof fn lemma_filtered_merge_uses_file(a: CliArgs, r: CliArgs, c: AudioRouterConfig, res: ResolvedConfig)
    requires
        filtered_for_gui(a, r),
        merged(r, c, res),
    ensures
        res.gui == (a.gui || c.gui_enabled),
        res.input_device == c.input_device,
        res.output_devices@ == c.output_devices@,
        res.sample_rate == c.sample_rate,
        res.buffer_frames == c.buffer_frames.unwrap_or(256),
        res.max_latency_ms == c.max_latency_ms.unwrap_or(30),
        res.no_drift_compensation == c.no_drift_compensation,
        res.source_type@ == c.source_type@,
        res.max_outputs == c.max_outputs,
        res.config_path == a.config,
{
}

/// A routing argument given on the command line wins over the file, and
/// without `--gui` it selects the command-line mode.
pub proof fn lemma_command_line_wins(a: CliArgs, c: AudioRouterConfig, res: ResolvedConfig)
    requires
        merged(a, c, res),
    ensures
        a.input_device is Some ==> res.input_device == a.input_device,
        a.output_device@.len() > 0 ==> res.output_devices@ == a.output_device@,
        a.buffer_frames is Some ==> res.buffer_frames == a.buffer_frames.unwrap(),
        a.max_outputs is Some ==> res.max_outputs == a.max_outputs.unwrap(),
        (has_operational_args_spec(a) && !a.gui) ==> !res.gui,
        a.gui ==> res.gui,
{
}

/// Without routing arguments the graphical interface starts, unless the
/// configuration file switches it off; with the default configuration it
/// always starts.
pub proof fn lemma_no_routing_arguments_start_the_interface(a: CliArgs, c: AudioRouterConfig, res: ResolvedConfig)
    requires
        merged(a, c, res),
        !has_operational_args_spec(a),
    ensures
        res.gui == (a.gui || c.gui_enabled),
        is_default_config(c) ==> res.gui,
{
}

/// Every switch is on in the merged settings exactly when the command line
/// or the file turns it on: a switch given on the command line is never
/// lost, and one that neither side sets stays off.
pub proof fn lemma_switches_from_either_side(a: CliArgs, c: AudioRouterConfig, res: ResolvedConfig)
    requires
        merged(a, c, res),
    ensures
        a.monitor ==> res.monitor,
        c.monitor ==> res.monitor,
        !a.monitor && !c.monitor ==> !res.monitor,
        a.no_limiter ==> res.no_limiter,
        c.no_limiter ==> res.no_limiter,
        !a.no_limiter && !c.no_limiter ==> !res.no_limiter,
        a.no_drift_compensation ==> res.no_drift_compensation,
        c.no_drift_compensation ==> res.no_drift_compensation,
        !a.no_drift_compensation && !c.no_drift_compensation ==> !res.no_drift_compensation,
        a.exit_on_input_loss ==> res.exit_on_input_loss,
        c.exit_on_input_loss ==> res.exit_on_input_loss,
        !a.exit_on_input_loss && !c.exit_on_input_loss ==> !res.exit_on_input_loss,
        a.input_fallback_to_default ==> res.input_fallback_to_default,
        c.input_fallback_to_default ==> res.input_fallback_to_default,
        !a.input_fallback_to_default && !c.input_fallback_to_default ==> !res.input_fallback_to_default,
{
}

} // verus!
