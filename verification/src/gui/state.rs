use vstd::prelude::*;

use crate::config::AudioRouterConfig;
use crate::gui::devices::{conflicts_with_loopback, toggled, DevicesPanelAction, DevicesPanelState};
use crate::gui::logs::{pushed_entries, LogPanel};
use crate::gui::params::{lemma_resampler_index_round_trip, resampler_index_of, resampler_name_of, ParamsPanelState};
use crate::gui::status::EngineStatus;
use crate::gui::toolbar::ToolbarState;
use crate::gui::{engine_config_from_file, file_config_from_engine, start_config_of, start_engine_config};
use crate::message::EngineConfig;
use crate::text::{owned, text_eq};
use vstd::string::StringExecFns;

verus! {

/// What the engine reports to the interface, as far as the interface's
/// state depends on it (output statistics go to the status bar as they are).
#[derive(Debug, Clone)]
pub enum EngineEvent {
    /// The engine thread is ready.
    Ready,
    /// The engine started routing audio.
    Started,
    /// The engine stopped.
    Stopped,
    /// The device list changed; the number of devices.
    DeviceListUpdated(usize),
    /// New output statistics.
    OutputStatus,
    /// The engine failed.
    Error(String),
    /// A log line.
    Log(String),
}

/// The interface's state between two frames: the panels, the engine's
/// status, the log and the current configuration file.
pub struct GuiState {
    /// The toolbar.
    pub toolbar: ToolbarState,
    /// The devices panel.
    pub devices: DevicesPanelState,
    /// The settings panel.
    pub params: ParamsPanelState,
    /// The engine's status as the status bar shows it.
    pub engine_status: EngineStatus,
    /// The log.
    pub log_panel: LogPanel,
    /// Whether the engine runs.
    pub engine_running: bool,
    /// The current configuration file.
    pub config_path: Option<String>,
}

/// A loopback choice as the devices panel holds it: the name, or empty for
/// the default output.
pub open spec fn loopback_text(l: Option<String>) -> Seq<char> {
    match l {
        Some(n) => n@,
        None => Seq::empty(),
    }
}

/// The settings panel shows a configuration file's settings: the file's
/// values, with 48000 Hz, 256 frames and 30 ms where the file has none.
pub open spec fn shows_file_settings(p: ParamsPanelState, f: AudioRouterConfig) -> bool {
    &&& p.buffer_frames == f.buffer_frames.unwrap_or(256)
    &&& p.max_latency_ms == f.max_latency_ms.unwrap_or(30)
    &&& p.sample_rate == f.sample_rate.unwrap_or(48000)
    &&& p.resampler_index == resampler_index_of(f.resampler@)
    &&& p.no_drift_compensation == f.no_drift_compensation
    &&& p.wasapi_exclusive == f.wasapi_exclusive
    &&& p.exit_on_input_loss == f.exit_on_input_loss
    &&& p.input_fallback_to_default == f.input_fallback_to_default
    &&& p.no_limiter == f.no_limiter
    &&& p.source_type@ == f.source_type@
    &&& p.loopback_device == f.loopback_device
    &&& p.max_outputs == f.max_outputs as usize
}

/// The configuration file that "export" writes: the settings panel's
/// values with the chosen input and the ticked outputs; default values for
/// everything the panels do not hold.
pub open spec fn exported_file(s: GuiState, f: AudioRouterConfig) -> bool {
    &&& (s.devices.selected_input_device@.len() == 0 ==> f.input_device is None)
    &&& (s.devices.selected_input_device@.len() > 0 ==> f.input_device == Some(s.devices.selected_input_device))
    &&& f.output_devices@ == s.devices.selected_output_devices@
    &&& f.sample_rate == Some(s.params.sample_rate)
    &&& f.channels is None
    &&& f.buffer_frames == Some(s.params.buffer_frames)
    &&& f.max_latency_ms == Some(s.params.max_latency_ms)
    &&& f.resampler@ == resampler_name_of(s.params.resampler_index)
    &&& f.no_drift_compensation == s.params.no_drift_compensation
    &&& f.exit_on_input_loss == s.params.exit_on_input_loss
    &&& f.input_fallback_to_default == s.params.input_fallback_to_default
    &&& f.log_file is None
    &&& !f.monitor
    &&& f.wasapi_exclusive == s.params.wasapi_exclusive
    &&& f.no_limiter == s.params.no_limiter
    &&& f.gui_enabled
    &&& f.source_type@ == s.params.source_type@
    &&& f.loopback_device == s.params.loopback_device
    &&& f.max_outputs == s.params.max_outputs as u32
}

/// The state with every panel's running flag (and the state's own) set to
/// `running`, everything else as in `s`.
pub open spec fn with_running(s: GuiState, running: bool) -> GuiState {
    GuiState {
        toolbar: ToolbarState { engine_running: running, ..s.toolbar },
        devices: DevicesPanelState { engine_running: running, ..s.devices },
        params: ParamsPanelState { engine_running: running, ..s.params },
        engine_running: running,
        ..s
    }
}

/// The state with a new status and log, everything else as in `s`.
pub open spec fn with_status_and_log(s: GuiState, status: EngineStatus, log: LogPanel) -> GuiState {
    GuiState { engine_status: status, log_panel: log, ..s }
}

/// The log after one more line.
pub open spec fn logged(before: GuiState, after: GuiState, now: Seq<char>, msg: Seq<char>) -> bool {
    after.log_panel.spec_entries() == pushed_entries(before.log_panel.spec_entries(), (now, msg))
}

/// Everything but the log is as before.
pub open spec fn same_but_log(before: GuiState, after: GuiState) -> bool {
    &&& after.toolbar == before.toolbar
    &&& after.devices == before.devices
    &&& after.params == before.params
    &&& after.engine_status == before.engine_status
    &&& after.engine_running == before.engine_running
    &&& after.config_path == before.config_path
}

impl GuiState {
    /// The state's invariant: the log holds at most 100 entries, no output
    /// is ticked twice, and every panel agrees on whether the engine runs.
    pub open spec fn wf(&self) -> bool {
        &&& self.log_panel.wf()
        &&& self.devices.wf()
        &&& self.toolbar.engine_running == self.engine_running
        &&& self.devices.engine_running == self.engine_running
        &&& self.params.engine_running == self.engine_running
    }

    /// The interface at start-up, before the device lists are read: the
    /// settings, source type and loopback device of the configuration file
    /// (its path, if any, shown in the toolbar), nothing ticked, the engine
    /// stopped, an empty log.
    pub fn new(config_path: Option<String>, file_config: &AudioRouterConfig) -> (s: Self)
        ensures
            s.wf(),
            s.config_path == config_path,
            s.toolbar.config_path == config_path,
            !s.toolbar.engine_error,
            !s.toolbar.show_log_window,
            !s.toolbar.show_status_window,
            !s.engine_running,
            s.engine_status == EngineStatus::Stopped,
            s.log_panel.spec_entries().len() == 0,
            shows_file_settings(s.params, *file_config),
            s.devices.source_type@ == file_config.source_type@,
            s.devices.selected_loopback_device@ == loopback_text(file_config.loopback_device),
            s.devices.selected_input_device@.len() == 0,
            s.devices.spec_selected().len() == 0,
            s.devices.input_devices@.len() == 0,
            s.devices.output_devices@.len() == 0,
    {
        let mut toolbar = ToolbarState::new();
        toolbar.config_path = config_path.clone();
        let mut devices = DevicesPanelState::new();
        devices.source_type = file_config.source_type.clone();
        devices.selected_loopback_device = match &file_config.loopback_device {
            Some(n) => n.clone(),
            None => String::new(),
        };
        let mut params = ParamsPanelState::new();
        let engine_cfg = engine_config_from_file(file_config);
        params.load_from_config(&engine_cfg);
        GuiState {
            toolbar,
            devices,
            params,
            engine_status: EngineStatus::Stopped,
            log_panel: LogPanel::new(),
            engine_running: false,
            config_path,
        }
    }

    /// Appends a line to the log.
    pub fn log(&mut self, now: String, msg: String)
        requires
            old(self).wf(),
        ensures
            final(self).wf(),
            logged(*old(self), *final(self), now@, msg@),
            same_but_log(*old(self), *final(self)),
    {
        self.log_panel.push(now, msg);
    }

    fn set_running(&mut self, running: bool)
        requires
            old(self).wf(),
        ensures
            final(self).wf(),
            *final(self) == with_running(*old(self), running),
    {
        self.engine_running = running;
        self.toolbar.engine_running = running;
        self.devices.engine_running = running;
        self.params.engine_running = running;
    }

    /// Takes in what the engine reports. `Started` and `Stopped` set every
    /// panel's running flag and the status, `Error` sets the error status
    /// and the toolbar's error mark; `Ready`, `Started`, `Stopped`, `Error`
    /// and `Log` add a log line. Returns whether the device lists must be
    /// read again (after `DeviceListUpdated`).
    pub fn on_engine_event(&mut self, event: EngineEvent, now: String) -> (refresh: bool)
        requires
            old(self).wf(),
        ensures
            final(self).wf(),
            refresh == (event is DeviceListUpdated),
            final(self).devices.spec_selected() == old(self).devices.spec_selected(),
            final(self).config_path == old(self).config_path,
            match event {
                EngineEvent::Ready => {
                    &&& logged(*old(self), *final(self), now@, "引擎线程已就绪"@)
                    &&& same_but_log(*old(self), *final(self))
                },
                EngineEvent::Started => {
                    &&& *final(self) == with_status_and_log(with_running(*old(self), true), EngineStatus::Running, final(self).log_panel)
                    &&& logged(*old(self), *final(self), now@, "引擎已启动"@)
                },
                EngineEvent::Stopped => {
                    &&& *final(self) == with_status_and_log(with_running(*old(self), false), EngineStatus::Stopped, final(self).log_panel)
                    &&& logged(*old(self), *final(self), now@, "引擎已停止"@)
                },
                EngineEvent::DeviceListUpdated(_) | EngineEvent::OutputStatus => {
                    *final(self) == *old(self)
                },
                EngineEvent::Error(msg) => {
                    &&& *final(self) == (GuiState {
                        toolbar: (ToolbarState { engine_error: true, ..old(self).toolbar }),
                        engine_status: EngineStatus::Error(msg),
                        log_panel: final(self).log_panel,
                        ..*old(self)
                    })
                    &&& logged(*old(self), *final(self), now@, "错误: "@ + msg@)
                },
                EngineEvent::Log(msg) => {
                    &&& logged(*old(self), *final(self), now@, msg@)
                    &&& same_but_log(*old(self), *final(self))
                },
            },
    {
        match event {
            EngineEvent::Ready => {
                self.log_panel.push(now, owned("引擎线程已就绪"));
                false
            },
            EngineEvent::Started => {
                self.set_running(true);
                self.engine_status = EngineStatus::Running;
                self.log_panel.push(now, owned("引擎已启动"));
                false
            },
            EngineEvent::Stopped => {
                self.set_running(false);
                self.engine_status = EngineStatus::Stopped;
                self.log_panel.push(now, owned("引擎已停止"));
                false
            },
            EngineEvent::DeviceListUpdated(_) => true,
            EngineEvent::OutputStatus => false,
            EngineEvent::Error(msg) => {
                let line = owned("错误: ").concat(msg.as_str());
                self.engine_status = EngineStatus::Error(msg);
                self.toolbar.engine_error = true;
                self.log_panel.push(now, line);
                false
            },
            EngineEvent::Log(msg) => {
                self.log_panel.push(now, msg);
                false
            },
        }
    }

    /// Pressing "start": with no output ticked the engine cannot start, so
    /// the error is logged and shown and `None` comes back; otherwise the
    /// engine settings to start with (see `start_config_of`), nothing else
    /// changed.
    pub fn press_start(&mut self, now: String) -> (r: Option<EngineConfig>)
        requires
            old(self).wf(),
        ensures
            final(self).wf(),
            old(self).devices.spec_selected().len() == 0 <==> r is None,
            r is None ==> {
                &&& final(self).engine_status matches EngineStatus::Error(m) && m@ == "未选择输出设备"@
                &&& logged(*old(self), *final(self), now@, "错误: 请至少选择一个输出设备"@)
                &&& *final(self) == with_status_and_log(*old(self), final(self).engine_status, final(self).log_panel)
            },
            r matches Some(c) ==> {
                &&& start_config_of(c, old(self).params, old(self).devices)
                &&& *final(self) == *old(self)
            },
    {
        let r = start_engine_config(&self.params, &self.devices);
        if r.is_none() {
            let reason = owned("未选择输出设备");
            self.log_panel.push(now, owned("错误: 请至少选择一个输出设备"));
            self.engine_status = EngineStatus::Error(reason);
        }
        r
    }
    /// Takes in an imported configuration file read from `path`: the
    /// settings panel shows its settings (the running flag kept), the
    /// devices panel its source type and loopback device, the file becomes
    /// the current one, and the import is logged.
    pub fn import_config(&mut self, file_config: &AudioRouterConfig, path: String, now: String)
        requires
            old(self).wf(),
        ensures
            final(self).wf(),
            shows_file_settings(final(self).params, *file_config),
            final(self).params.engine_running == old(self).params.engine_running,
            final(self).devices.source_type@ == file_config.source_type@,
            final(self).devices.selected_loopback_device@ == loopback_text(file_config.loopback_device),
            final(self).devices == (DevicesPanelState {
                source_type: final(self).devices.source_type,
                selected_loopback_device: final(self).devices.selected_loopback_device,
                ..old(self).devices
            }),
            final(self).config_path == Some(path),
            final(self).toolbar == (ToolbarState { config_path: Some(path), ..old(self).toolbar }),
            final(self).engine_running == old(self).engine_running,
            final(self).engine_status == old(self).engine_status,
            logged(*old(self), *final(self), now@, "配置已导入"@),
    {
        let engine_cfg = engine_config_from_file(file_config);
        self.params.load_from_config(&engine_cfg);
        self.devices.source_type = file_config.source_type.clone();
        self.devices.selected_loopback_device = match &file_config.loopback_device {
            Some(n) => n.clone(),
            None => String::new(),
        };
        self.config_path = Some(path.clone());
        self.toolbar.config_path = Some(path);
        self.log_panel.push(now, owned("配置已导入"));
    }

    /// The configuration file that "export" writes (see `exported_file`).
    pub fn export_config(&self) -> (f: AudioRouterConfig)
        ensures
            exported_file(*self, f),
    {
        let engine_cfg = self.params.build_engine_config(
            self.devices.selected_input(),
            self.devices.selected_output_devices.clone(),
        );
        file_config_from_engine(&engine_cfg)
    }

    /// Takes in that the exported file was written to `path`: it becomes
    /// the current file, and the export is logged.
    pub fn config_saved(&mut self, path: String, now: String)
        requires
            old(self).wf(),
        ensures
            final(self).wf(),
            final(self).config_path == Some(path),
            final(self).toolbar == (ToolbarState { config_path: Some(path), ..old(self).toolbar }),
            final(self).devices == old(self).devices,
            final(self).params == old(self).params,
            final(self).engine_running == old(self).engine_running,
            final(self).engine_status == old(self).engine_status,
            logged(*old(self), *final(self), now@, "配置已导出"@),
    {
        self.config_path = Some(path.clone());
        self.toolbar.config_path = Some(path);
        self.log_panel.push(now, owned("配置已导出"));
    }

    /// Takes in what the user did in the devices panel. Returns whether
    /// the device lists must be read again: after "refresh", after
    /// choosing a loopback device, and after switching the source to
    /// "loopback".
    pub fn on_devices_action(&mut self, action: DevicesPanelAction) -> (refresh: bool)
        requires
            old(self).wf(),
        ensures
            final(self).wf(),
            final(self).toolbar == old(self).toolbar,
            final(self).params == old(self).params,
            final(self).log_panel == old(self).log_panel,
            final(self).engine_status == old(self).engine_status,
            final(self).engine_running == old(self).engine_running,
            final(self).config_path == old(self).config_path,
            match action {
                DevicesPanelAction::NoAction => {
                    &&& !refresh
                    &&& final(self).devices == old(self).devices
                },
                DevicesPanelAction::RefreshDevices => {
                    &&& refresh
                    &&& final(self).devices == old(self).devices
                },
                DevicesPanelAction::InputDeviceSelected(name) => {
                    &&& !refresh
                    &&& final(self).devices == (DevicesPanelState { selected_input_device: name, ..old(self).devices })
                },
                DevicesPanelAction::OutputDeviceToggled(name) => {
                    &&& !refresh
                    &&& toggled(old(self).devices.spec_selected(), final(self).devices.spec_selected(), name@)
                    &&& final(self).devices == (DevicesPanelState {
                        selected_output_devices: final(self).devices.selected_output_devices,
                        ..old(self).devices
                    })
                },
                DevicesPanelAction::SourceTypeChanged(t) => {
                    &&& refresh == (t@ == "loopback"@)
                    &&& final(self).devices == (DevicesPanelState { source_type: t, ..old(self).devices })
                },
                DevicesPanelAction::LoopbackDeviceSelected(name) => {
                    &&& refresh
                    &&& final(self).devices.selected_loopback_device@ == name@
                    &&& final(self).devices == (DevicesPanelState {
                        selected_output_devices: final(self).devices.selected_output_devices,
                        selected_loopback_device: final(self).devices.selected_loopback_device,
                        ..old(self).devices
                    })
                    &&& (name@.len() == 0 ==> final(self).devices.spec_selected() == old(self).devices.spec_selected())
                    &&& (name@.len() > 0 ==> forall|n: Seq<char>|
                        #![trigger final(self).devices.spec_selected().contains(n)]
                        #![trigger old(self).devices.spec_selected().contains(n)]
                        final(self).devices.spec_selected().contains(n)
                        <==> (old(self).devices.spec_selected().contains(n) && !conflicts_with_loopback(n, name@)))
                },
            },
    {
        match action {
            DevicesPanelAction::NoAction => false,
            DevicesPanelAction::RefreshDevices => true,
            DevicesPanelAction::InputDeviceSelected(name) => {
                self.devices.selected_input_device = name;
                false
            },
            DevicesPanelAction::OutputDeviceToggled(name) => {
                self.devices.toggle_output_device(&name);
                false
            },
            DevicesPanelAction::SourceTypeChanged(t) => {
                let refresh = text_eq(t.as_str(), "loopback");
                self.devices.source_type = t;
                refresh
            },
            DevicesPanelAction::LoopbackDeviceSelected(name) => {
                self.devices.select_loopback_device(name);
                true
            },
        }
    }
}

/// Importing the file that "export" wrote gives the settings panel back its
/// settings (for an algorithm the panel offers and an output limit that
/// fits the file's 32-bit field).
pub proof fn lemma_export_then_import_restores_settings(s: GuiState, f: AudioRouterConfig, p: ParamsPanelState)
    requires
        exported_file(s, f),
        shows_file_settings(p, f),
        s.params.resampler_index <= 2,
        s.params.max_outputs <= u32::MAX,
    ensures
        p.buffer_frames == s.params.buffer_frames,
        p.max_latency_ms == s.params.max_latency_ms,
        p.sample_rate == s.params.sample_rate,
        p.resampler_index == s.params.resampler_index,
        p.no_drift_compensation == s.params.no_drift_compensation,
        p.wasapi_exclusive == s.params.wasapi_exclusive,
        p.exit_on_input_loss == s.params.exit_on_input_loss,
        p.input_fallback_to_default == s.params.input_fallback_to_default,
        p.no_limiter == s.params.no_limiter,
        p.source_type@ == s.params.source_type@,
        p.loopback_device == s.params.loopback_device,
        p.max_outputs == s.params.max_outputs,
{
    lemma_resampler_index_round_trip(s.params.resampler_index, f.resampler@);
}

} // verus!
