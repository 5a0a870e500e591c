pub mod devices;
pub mod logs;
pub mod params;
pub mod status;
pub mod theme;
pub mod toolbar;
pub mod state;

use vstd::prelude::*;

use crate::config::AudioRouterConfig;
use crate::gui::devices::DevicesPanelState;
use crate::gui::params::{resampler_name_of, ParamsPanelState};
use crate::message::EngineConfig;

verus! {

/// The engine settings that a configuration file describes: the file's
/// values, with 48000 Hz, 256 frames and 30 ms where the file has none.
pub open spec fn engine_config_of_file(f: AudioRouterConfig, e: EngineConfig) -> bool {
    &&& e.input_device == f.input_device
    &&& e.output_devices@ == f.output_devices@
    &&& e.sample_rate == f.sample_rate.unwrap_or(48000)
    &&& e.buffer_frames == f.buffer_frames.unwrap_or(256)
    &&& e.max_latency_ms == f.max_latency_ms.unwrap_or(30)
    &&& e.resampler@ == f.resampler@
    &&& e.no_drift_compensation == f.no_drift_compensation
    &&& e.exit_on_input_loss == f.exit_on_input_loss
    &&& e.input_fallback_to_default == f.input_fallback_to_default
    &&& e.no_limiter == f.no_limiter
    &&& e.wasapi_exclusive == f.wasapi_exclusive
    &&& e.source_type@ == f.source_type@
    &&& e.loopback_device == f.loopback_device
    &&& e.max_outputs == f.max_outputs as usize
}

/// The engine settings of a configuration file (see `engine_config_of_file`).
pub fn engine_config_from_file(f: &AudioRouterConfig) -> (e: EngineConfig)
    ensures
        engine_config_of_file(*f, e),
{
    EngineConfig {
        input_device: f.input_device.clone(),
        output_devices: f.output_devices.clone(),
        sample_rate: match f.sample_rate {
            Some(v) => v,
            None => 48000,
        },
        buffer_frames: match f.buffer_frames {
            Some(v) => v,
            None => 256,
        },
        max_latency_ms: match f.max_latency_ms {
            Some(v) => v,
            None => 30,
        },
        resampler: f.resampler.clone(),
        no_drift_compensation: f.no_drift_compensation,
        exit_on_input_loss: f.exit_on_input_loss,
        input_fallback_to_default: f.input_fallback_to_default,
        wasapi_exclusive: f.wasapi_exclusive,
        no_limiter: f.no_limiter,
        source_type: f.source_type.clone(),
        loopback_device: f.loopback_device.clone(),
        max_outputs: f.max_outputs as usize,
    }
}

/// The configuration file that exporting engine settings writes: the
/// settings' values, default values for everything else.
pub open spec fn file_of_engine_config(e: EngineConfig, f: AudioRouterConfig) -> bool {
    &&& f.input_device == e.input_device
    &&& f.output_devices@ == e.output_devices@
    &&& f.sample_rate == Some(e.sample_rate)
    &&& f.channels is None
    &&& f.buffer_frames == Some(e.buffer_frames)
    &&& f.max_latency_ms == Some(e.max_latency_ms)
    &&& f.resampler@ == e.resampler@
    &&& f.no_drift_compensation == e.no_drift_compensation
    &&& f.exit_on_input_loss == e.exit_on_input_loss
    &&& f.input_fallback_to_default == e.input_fallback_to_default
    &&& f.log_file is None
    &&& !f.monitor
    &&& f.wasapi_exclusive == e.wasapi_exclusive
    &&& f.no_limiter == e.no_limiter
    &&& f.gui_enabled
    &&& f.source_type@ == e.source_type@
    &&& f.loopback_device == e.loopback_device
    &&& f.max_outputs == e.max_outputs as u32
}

/// The configuration file for engine settings (see `file_of_engine_config`).
pub fn file_config_from_engine(e: &EngineConfig) -> (f: AudioRouterConfig)
    ensures
        file_of_engine_config(*e, f),
{
    let d = AudioRouterConfig::default();
    AudioRouterConfig {
        input_device: e.input_device.clone(),
        output_devices: e.output_devices.clone(),
        sample_rate: Some(e.sample_rate),
        channels: d.channels,
        buffer_frames: Some(e.buffer_frames),
        max_latency_ms: Some(e.max_latency_ms),
        resampler: e.resampler.clone(),
        no_drift_compensation: e.no_drift_compensation,
        exit_on_input_loss: e.exit_on_input_loss,
        input_fallback_to_default: e.input_fallback_to_default,
        log_file: d.log_file,
        monitor: d.monitor,
        wasapi_exclusive: e.wasapi_exclusive,
        no_limiter: e.no_limiter,
        gui_enabled: d.gui_enabled,
        source_type: e.source_type.clone(),
        loopback_device: e.loopback_device.clone(),
        max_outputs: e.max_outputs as u32,
    }
}

/// The engine settings for pressing "start": the settings panel's values,
/// the chosen input device, the ticked outputs, and the devices panel's
/// source type and loopback device.
pub open spec fn start_config_of(c: EngineConfig, params: ParamsPanelState, devices: DevicesPanelState) -> bool {
    &&& c.output_devices@ == devices.selected_output_devices@
    &&& (devices.selected_input_device@.len() == 0 ==> c.input_device is None)
    &&& (devices.selected_input_device@.len() > 0 ==> c.input_device == Some(devices.selected_input_device))
    &&& c.sample_rate == params.sample_rate
    &&& c.buffer_frames == params.buffer_frames
    &&& c.max_latency_ms == params.max_latency_ms
    &&& c.resampler@ == resampler_name_of(params.resampler_index)
    &&& c.no_drift_compensation == params.no_drift_compensation
    &&& c.exit_on_input_loss == params.exit_on_input_loss
    &&& c.input_fallback_to_default == params.input_fallback_to_default
    &&& c.wasapi_exclusive == params.wasapi_exclusive
    &&& c.no_limiter == params.no_limiter
    &&& c.max_outputs == params.max_outputs
    &&& c.source_type@ == devices.source_type@
    &&& (devices.selected_loopback_device@.len() == 0 ==> c.loopback_device is None)
    &&& (devices.selected_loopback_device@.len() > 0 ==> c.loopback_device == Some(devices.selected_loopback_device))
}

/// The engine settings for pressing "start" (see `start_config_of`);
/// `None` when no output is ticked (the engine cannot start).
pub fn start_engine_config(params: &ParamsPanelState, devices: &DevicesPanelState) -> (r: Option<EngineConfig>)
    ensures
        devices.selected_output_devices@.len() == 0 <==> r is None,
        r matches Some(c) ==> start_config_of(c, *params, *devices),
{
    if devices.selected_output_devices.len() == 0 {
        return None;
    }
    let mut config = params.build_engine_config(devices.selected_input(), devices.selected_output_devices.clone());
    config.source_type = devices.source_type.clone();
    config.loopback_device = devices.selected_loopback();
    Some(config)
}


/// Exporting engine settings to a file and importing that file gives the
/// same settings back (when the output limit fits the file's 32-bit field).
pub proof fn lemma_export_import_round_trip(e: EngineConfig, f: AudioRouterConfig, back: EngineConfig)
    requires
        file_of_engine_config(e, f),
        engine_config_of_file(f, back),
        e.max_outputs <= u32::MAX,
    ensures
        back.input_device == e.input_device,
        back.output_devices@ == e.output_devices@,
        back.sample_rate == e.sample_rate,
        back.buffer_frames == e.buffer_frames,
        back.max_latency_ms == e.max_latency_ms,
        back.resampler@ == e.resampler@,
        back.no_drift_compensation == e.no_drift_compensation,
        back.exit_on_input_loss == e.exit_on_input_loss,
        back.input_fallback_to_default == e.input_fallback_to_default,
        back.wasapi_exclusive == e.wasapi_exclusive,
        back.no_limiter == e.no_limiter,
        back.source_type@ == e.source_type@,
        back.loopback_device == e.loopback_device,
        back.max_outputs == e.max_outputs,
{
}

} // verus!
