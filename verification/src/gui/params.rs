use vstd::prelude::*;

use crate::message::EngineConfig;
use crate::text::{owned, text_eq};

verus! {

/// The engine parameters that the settings panel edits.
pub struct ParamsPanelState {
    /// Buffer size in frames (32 to 4096).
    pub buffer_frames: u32,
    /// Largest allowed latency in milliseconds.
    pub max_latency_ms: u32,
    /// Sample rate in Hz.
    pub sample_rate: u32,
    /// Resampling algorithm: 0 = sinc, 1 = cubic, 2 = none.
    pub resampler_index: usize,
    /// Disables drift compensation.
    pub no_drift_compensation: bool,
    /// WASAPI exclusive mode.
    pub wasapi_exclusive: bool,
    /// Exits when the input is lost.
    pub exit_on_input_loss: bool,
    /// Falls back to the default input after a loss.
    pub input_fallback_to_default: bool,
    /// Disables the limiter.
    pub no_limiter: bool,
    /// Source type: "input" or "loopback".
    pub source_type: String,
    /// Loopback device; `None` uses the default output.
    pub loopback_device: Option<String>,
    /// Largest number of outputs.
    pub max_outputs: usize,
    /// Whether the engine runs (editing is locked while it does).
    pub engine_running: bool,
}

/// The index of a resampler name: "sinc" 0, "cubic" 1, "none" 2, anything
/// else 0.
pub open spec fn resampler_index_of(name: Seq<char>) -> usize {
    if name == "sinc"@ {
        0
    } else if name == "cubic"@ {
        1
    } else if name == "none"@ {
        2
    } else {
        0
    }
}

/// The resampler name of an index: 0 "sinc", 1 "cubic", 2 "none",
/// anything else "sinc".
pub open spec fn resampler_name_of(index: usize) -> Seq<char> {
    if index == 1 {
        "cubic"@
    } else if index == 2 {
        "none"@
    } else {
        "sinc"@
    }
}

impl ParamsPanelState {
    /// Defaults: 256 frames, 30 ms, 48000 Hz, sinc, source "input", 32
    /// outputs, every switch off.
    pub fn new() -> (p: Self)
        ensures
            p.buffer_frames == 256,
            p.max_latency_ms == 30,
            p.sample_rate == 48000,
            p.resampler_index == 0,
            !p.no_drift_compensation,
            !p.wasapi_exclusive,
            !p.exit_on_input_loss,
            !p.input_fallback_to_default,
            !p.no_limiter,
            p.source_type@ == "input"@,
            p.loopback_device is None,
            p.max_outputs == 32,
            !p.engine_running,
    {
        ParamsPanelState {
            buffer_frames: 256,
            max_latency_ms: 30,
            sample_rate: 48000,
            resampler_index: 0,
            no_drift_compensation: false,
            wasapi_exclusive: false,
            exit_on_input_loss: false,
            input_fallback_to_default: false,
            no_limiter: false,
            source_type: owned("input"),
            loopback_device: None,
            max_outputs: 32,
            engine_running: false,
        }
    }

    /// Loads the panel from engine settings (the resampler name becomes its
    /// index; unknown names become sinc). The running flag is kept.
    pub fn load_from_config(&mut self, config: &EngineConfig)
        ensures
            final(self).buffer_frames == config.buffer_frames,
            final(self).max_latency_ms == config.max_latency_ms,
            final(self).sample_rate == config.sample_rate,
            final(self).resampler_index == resampler_index_of(config.resampler@),
            final(self).no_drift_compensation == config.no_drift_compensation,
            final(self).wasapi_exclusive == config.wasapi_exclusive,
            final(self).exit_on_input_loss == config.exit_on_input_loss,
            final(self).input_fallback_to_default == config.input_fallback_to_default,
            final(self).no_limiter == config.no_limiter,
            final(self).source_type@ == config.source_type@,
            final(self).loopback_device == config.loopback_device,
            final(self).max_outputs == config.max_outputs,
            final(self).engine_running == old(self).engine_running,
    {
        self.buffer_frames = config.buffer_frames;
        self.max_latency_ms = config.max_latency_ms;
        self.sample_rate = config.sample_rate;
        let r = config.resampler.as_str();
        self.resampler_index = if text_eq(r, "sinc") {
            0
        } else if text_eq(r, "cubic") {
            1
        } else if text_eq(r, "none") {
            2
        } else {
            0
        };
        self.no_drift_compensation = config.no_drift_compensation;
        self.wasapi_exclusive = config.wasapi_exclusive;
        self.exit_on_input_loss = config.exit_on_input_loss;
        self.input_fallback_to_default = config.input_fallback_to_default;
        self.no_limiter = config.no_limiter;
        self.source_type = config.source_type.clone();
        self.loopback_device = config.loopback_device.clone();
        self.max_outputs = config.max_outputs;
    }

    /// Builds engine settings from the panel and the chosen devices.
    pub fn build_engine_config(&self, input_device: Option<String>, output_devices: Vec<String>) -> (c: EngineConfig)
        ensures
            c.input_device == input_device,
            c.output_devices@ == output_devices@,
            c.sample_rate == self.sample_rate,
            c.buffer_frames == self.buffer_frames,
            c.max_latency_ms == self.max_latency_ms,
            c.resampler@ == resampler_name_of(self.resampler_index),
            c.no_drift_compensation == self.no_drift_compensation,
            c.exit_on_input_loss == self.exit_on_input_loss,
            c.input_fallback_to_default == self.input_fallback_to_default,
            c.wasapi_exclusive == self.wasapi_exclusive,
            c.no_limiter == self.no_limiter,
            c.source_type@ == self.source_type@,
            c.loopback_device == self.loopback_device,
            c.max_outputs == self.max_outputs,
    {
        let resampler = if self.resampler_index == 1 {
            owned("cubic")
        } else if self.resampler_index == 2 {
            owned("none")
        } else {
            owned("sinc")
        };
        EngineConfig {
            input_device,
            output_devices,
            sample_rate: self.sample_rate,
            buffer_frames: self.buffer_frames,
            max_latency_ms: self.max_latency_ms,
            resampler,
            no_drift_compensation: self.no_drift_compensation,
            exit_on_input_loss: self.exit_on_input_loss,
            input_fallback_to_default: self.input_fallback_to_default,
            wasapi_exclusive: self.wasapi_exclusive,
            no_limiter: self.no_limiter,
            source_type: self.source_type.clone(),
            loopback_device: self.loopback_device.clone(),
            max_outputs: self.max_outputs,
        }
    }

    /// Selects "exit when the input is lost"; the two loss behaviours
    /// exclude each other, so the fallback is switched off.
    pub fn choose_exit_on_input_loss(&mut self)
        ensures
            final(self).exit_on_input_loss,
            !final(self).input_fallback_to_default,
    {
        self.exit_on_input_loss = true;
        self.input_fallback_to_default = false;
    }

    /// Selects "fall back to the default input after 30 s"; the two loss
    /// behaviours exclude each other, so exiting is switched off.
    pub fn choose_fallback_to_default(&mut self)
        ensures
            final(self).input_fallback_to_default,
            !final(self).exit_on_input_loss,
    {
        self.input_fallback_to_default = true;
        self.exit_on_input_loss = false;
    }
}


/// Every index the panel offers names an algorithm that loads back as the
/// same index, and every known algorithm name survives a load and a build.
pub proof fn lemma_resampler_index_round_trip(index: usize, name: Seq<char>)
    ensures
        index <= 2 ==> resampler_index_of(resampler_name_of(index)) == index,
        (name == "sinc"@ || name == "cubic"@ || name == "none"@) ==> resampler_name_of(resampler_index_of(name)) == name,
        resampler_index_of(name) <= 2,
{
    reveal_strlit("sinc");
    reveal_strlit("cubic");
    reveal_strlit("none");
    assert("sinc"@ != "cubic"@) by {
        assert("sinc"@[0] != "cubic"@[0]);
    }
    assert("sinc"@ != "none"@) by {
        assert("sinc"@.len() == "none"@.len());
        assert("sinc"@[0] != "none"@[0]);
    }
    assert("cubic"@ != "none"@) by {
        assert("cubic"@.len() != "none"@.len());
    }
}

} // verus!
