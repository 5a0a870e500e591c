use audio_router::config::AudioRouterConfig;
use audio_router::device::{DeviceInfo, DeviceType};
use audio_router::gui::devices::{DevicesPanelAction, DevicesPanelState};
use audio_router::gui::logs::LogPanel;
use audio_router::gui::params::ParamsPanelState;
use audio_router::gui::state::{EngineEvent, GuiState};
use audio_router::gui::status::EngineStatus;
use audio_router::gui::theme::{theme_from_registry_output, ThemeMode};
use audio_router::gui::toolbar::{StatusIndicator, ToolbarState};
use audio_router::gui::{engine_config_from_file, file_config_from_engine, start_engine_config};
use audio_router::message::{DeviceInfoSnapshot, EngineConfig};

fn device(name: &str) -> DeviceInfo {
    DeviceInfo {
        name: name.to_string(),
        sample_rates: vec![48000, 96000],
        channels: vec![2, 6],
        formats: vec!["f32".to_string()],
        device_type: DeviceType::Wired,
    }
}

fn selected(p: &DevicesPanelState) -> Vec<String> {
    let mut v = p.selected_output_devices.clone();
    v.sort();
    v
}

#[test]
fn log_panel_keeps_the_newest_hundred() {
    let mut log = LogPanel::new();
    assert_eq!(log.len(), 0);
    for i in 0..150 {
        log.push(format!("t{}", i), format!("m{}", i));
    }
    assert_eq!(log.len(), 100);
    assert_eq!(log.entries()[0], ("t50".to_string(), "m50".to_string()));
    assert_eq!(log.entries()[99], ("t149".to_string(), "m149".to_string()));
    log.clear();
    assert_eq!(log.len(), 0);
}

#[test]
fn log_panel_below_capacity_drops_nothing() {
    let mut log = LogPanel::new();
    log.push("t0".to_string(), "first".to_string());
    log.push("t1".to_string(), "second".to_string());
    assert_eq!(log.len(), 2);
    assert_eq!(log.entries()[0].1, "first");
    assert_eq!(log.entries()[1].1, "second");
}

#[test]
fn toolbar_indicator_error_wins() {
    let mut t = ToolbarState::new();
    assert_eq!(t.indicator(), StatusIndicator::Stopped);
    t.engine_running = true;
    assert_eq!(t.indicator(), StatusIndicator::Running);
    t.engine_error = true;
    assert_eq!(t.indicator(), StatusIndicator::Error);
    t.engine_running = false;
    assert_eq!(t.indicator(), StatusIndicator::Error);
}

#[test]
fn theme_from_registry_query_output() {
    assert_eq!(theme_from_registry_output("    AppsUseLightTheme    REG_DWORD    0x1"), ThemeMode::Light);
    assert_eq!(theme_from_registry_output("    AppsUseLightTheme    REG_DWORD    0x0"), ThemeMode::Dark);
    assert_eq!(theme_from_registry_output(""), ThemeMode::Light);
}

#[test]
fn params_defaults_and_loss_choices() {
    let mut p = ParamsPanelState::new();
    assert_eq!(p.buffer_frames, 256);
    assert_eq!(p.max_latency_ms, 30);
    assert_eq!(p.sample_rate, 48000);
    assert_eq!(p.resampler_index, 0);
    assert_eq!(p.max_outputs, 32);
    p.choose_exit_on_input_loss();
    assert!(p.exit_on_input_loss && !p.input_fallback_to_default);
    p.choose_fallback_to_default();
    assert!(!p.exit_on_input_loss && p.input_fallback_to_default);
}

#[test]
fn params_load_and_build_round_trip() {
    let mut cfg = EngineConfig::default();
    cfg.buffer_frames = 512;
    cfg.sample_rate = 44100;
    cfg.resampler = "cubic".to_string();
    cfg.no_limiter = true;
    cfg.loopback_device = Some("Speakers".to_string());
    let mut p = ParamsPanelState::new();
    p.load_from_config(&cfg);
    assert_eq!(p.resampler_index, 1);
    let back = p.build_engine_config(Some("Mic".to_string()), vec!["A".to_string()]);
    assert_eq!(back.input_device.as_deref(), Some("Mic"));
    assert_eq!(back.output_devices, vec!["A".to_string()]);
    assert_eq!(back.buffer_frames, 512);
    assert_eq!(back.sample_rate, 44100);
    assert_eq!(back.resampler, "cubic");
    assert!(back.no_limiter);
    assert_eq!(back.loopback_device.as_deref(), Some("Speakers"));
}

#[test]
fn unknown_resampler_name_loads_as_sinc() {
    let mut cfg = EngineConfig::default();
    cfg.resampler = "linear".to_string();
    let mut p = ParamsPanelState::new();
    p.load_from_config(&cfg);
    assert_eq!(p.resampler_index, 0);
    assert_eq!(p.build_engine_config(None, vec![]).resampler, "sinc");
}

#[test]
fn snapshot_takes_the_first_supported_values() {
    let s = DeviceInfoSnapshot::from_info(&device("Speakers"));
    assert_eq!(s.name, "Speakers");
    assert_eq!(s.sample_rate, 48000);
    assert_eq!(s.channels, 2);
    assert_eq!(s.format, "f32");
    let bare = DeviceInfo {
        name: "Bare".to_string(),
        sample_rates: vec![],
        channels: vec![],
        formats: vec![],
        device_type: DeviceType::Unknown,
    };
    let s = DeviceInfoSnapshot::from_info(&bare);
    assert_eq!((s.sample_rate, s.channels, s.format.as_str()), (0, 0, ""));
}

#[test]
fn first_refresh_ticks_every_output() {
    let mut p = DevicesPanelState::new();
    p.refresh_devices(&vec![device("Mic")], &vec![device("A"), device("B")]);
    assert_eq!(p.input_devices.len(), 1);
    assert_eq!(p.output_devices.len(), 2);
    assert_eq!(selected(&p), vec!["A".to_string(), "B".to_string()]);
    // Later refreshes keep the selection.
    p.toggle_output_device(&"A".to_string());
    p.refresh_devices(&vec![], &vec![device("A"), device("B"), device("C")]);
    assert_eq!(selected(&p), vec!["B".to_string()]);
}

#[test]
fn toggling_twice_restores_the_selection() {
    let mut p = DevicesPanelState::new();
    let a = "A".to_string();
    p.toggle_output_device(&a);
    assert_eq!(selected(&p), vec!["A".to_string()]);
    p.toggle_output_device(&a);
    assert!(p.selected_output_devices.is_empty());
}

#[test]
fn loopback_choice_unticks_the_captured_device() {
    let mut p = DevicesPanelState::new();
    p.refresh_devices(&vec![], &vec![device("Speakers (Realtek)"), device("Headphones"), device("HDMI")]);
    p.select_loopback_device("speakers".to_string());
    assert_eq!(selected(&p), vec!["HDMI".to_string(), "Headphones".to_string()]);
    assert_eq!(p.selected_loopback().as_deref(), Some("speakers"));
    // A name contained in the loopback name conflicts too.
    p.select_loopback_device("HDMI Output 2".to_string());
    assert_eq!(selected(&p), vec!["Headphones".to_string()]);
    // The default output (empty name) unticks nothing.
    p.select_loopback_device(String::new());
    assert_eq!(selected(&p), vec!["Headphones".to_string()]);
    assert_eq!(p.selected_loopback(), None);
}

#[test]
fn start_needs_a_ticked_output() {
    let params = ParamsPanelState::new();
    let mut devices = DevicesPanelState::new();
    assert!(start_engine_config(&params, &devices).is_none());
    devices.toggle_output_device(&"A".to_string());
    devices.selected_input_device = "Mic".to_string();
    devices.source_type = "loopback".to_string();
    let c = start_engine_config(&params, &devices).unwrap();
    assert_eq!(c.output_devices, vec!["A".to_string()]);
    assert_eq!(c.input_device.as_deref(), Some("Mic"));
    assert_eq!(c.source_type, "loopback");
    assert_eq!(c.loopback_device, None);
    assert_eq!(c.resampler, "sinc");
}

#[test]
fn file_settings_fill_in_engine_defaults() {
    let e = engine_config_from_file(&AudioRouterConfig::default());
    assert_eq!(e.sample_rate, 48000);
    assert_eq!(e.buffer_frames, 256);
    assert_eq!(e.max_latency_ms, 30);
    assert_eq!(e.max_outputs, 32);
    assert!(e.input_fallback_to_default);
}

#[test]
fn exported_settings_import_unchanged() {
    let mut e = EngineConfig::default();
    e.input_device = Some("Mic".to_string());
    e.output_devices = vec!["A".to_string(), "B".to_string()];
    e.sample_rate = 96000;
    e.buffer_frames = 128;
    e.max_latency_ms = 12;
    e.resampler = "none".to_string();
    e.exit_on_input_loss = true;
    e.input_fallback_to_default = false;
    e.source_type = "loopback".to_string();
    e.loopback_device = Some("Speakers".to_string());
    e.max_outputs = 4;
    let f = file_config_from_engine(&e);
    assert!(f.gui_enabled);
    assert_eq!(f.channels, None);
    let back = engine_config_from_file(&f);
    assert_eq!(back.input_device, e.input_device);
    assert_eq!(back.output_devices, e.output_devices);
    assert_eq!(back.sample_rate, 96000);
    assert_eq!(back.buffer_frames, 128);
    assert_eq!(back.max_latency_ms, 12);
    assert_eq!(back.resampler, "none");
    assert!(back.exit_on_input_loss && !back.input_fallback_to_default);
    assert_eq!(back.source_type, "loopback");
    assert_eq!(back.loopback_device, e.loopback_device);
    assert_eq!(back.max_outputs, 4);
}

#[test]
fn gui_state_starts_from_the_file() {
    let mut f = AudioRouterConfig::default();
    f.buffer_frames = Some(1024);
    f.resampler = "cubic".to_string();
    f.source_type = "loopback".to_string();
    f.loopback_device = Some("Speakers".to_string());
    let s = GuiState::new(Some("cfg.toml".to_string()), &f);
    assert_eq!(s.params.buffer_frames, 1024);
    assert_eq!(s.params.resampler_index, 1);
    assert_eq!(s.params.sample_rate, 48000);
    assert_eq!(s.devices.source_type, "loopback");
    assert_eq!(s.devices.selected_loopback_device, "Speakers");
    assert_eq!(s.toolbar.config_path.as_deref(), Some("cfg.toml"));
    assert_eq!(s.engine_status, EngineStatus::Stopped);
    assert!(!s.engine_running);
    assert_eq!(s.log_panel.len(), 0);
}

#[test]
fn engine_events_drive_every_running_flag() {
    let mut s = GuiState::new(None, &AudioRouterConfig::default());
    assert!(!s.on_engine_event(EngineEvent::Ready, "t0".to_string()));
    assert!(!s.on_engine_event(EngineEvent::Started, "t1".to_string()));
    assert!(s.engine_running && s.toolbar.engine_running && s.devices.engine_running && s.params.engine_running);
    assert_eq!(s.engine_status, EngineStatus::Running);
    assert!(!s.on_engine_event(EngineEvent::Stopped, "t2".to_string()));
    assert!(!s.engine_running && !s.toolbar.engine_running && !s.devices.engine_running && !s.params.engine_running);
    assert_eq!(s.engine_status, EngineStatus::Stopped);
    let texts: Vec<&str> = s.log_panel.entries().iter().map(|e| e.1.as_str()).collect();
    assert_eq!(texts, vec!["引擎线程已就绪", "引擎已启动", "引擎已停止"]);
}

#[test]
fn engine_error_is_shown_and_logged() {
    let mut s = GuiState::new(None, &AudioRouterConfig::default());
    s.on_engine_event(EngineEvent::Error("设备断开".to_string()), "t".to_string());
    assert_eq!(s.engine_status, EngineStatus::Error("设备断开".to_string()));
    assert!(s.toolbar.engine_error);
    assert_eq!(s.toolbar.indicator(), StatusIndicator::Error);
    assert_eq!(s.log_panel.entries()[0], ("t".to_string(), "错误: 设备断开".to_string()));
    // A device list change asks for a refresh and logs nothing itself.
    assert!(s.on_engine_event(EngineEvent::DeviceListUpdated(3), "t".to_string()));
    assert!(!s.on_engine_event(EngineEvent::OutputStatus, "t".to_string()));
    assert_eq!(s.log_panel.len(), 1);
    s.on_engine_event(EngineEvent::Log("hello".to_string()), "t".to_string());
    assert_eq!(s.log_panel.entries()[1].1, "hello");
}

#[test]
fn pressing_start_without_outputs_is_refused() {
    let mut s = GuiState::new(None, &AudioRouterConfig::default());
    assert!(s.press_start("t".to_string()).is_none());
    assert_eq!(s.engine_status, EngineStatus::Error("未选择输出设备".to_string()));
    assert_eq!(s.log_panel.entries()[0].1, "错误: 请至少选择一个输出设备");
    s.on_devices_action(DevicesPanelAction::OutputDeviceToggled("A".to_string()));
    let c = s.press_start("t".to_string()).unwrap();
    assert_eq!(c.output_devices, vec!["A".to_string()]);
    assert_eq!(s.log_panel.len(), 1);
}

#[test]
fn devices_actions_and_refresh_requests() {
    let mut s = GuiState::new(None, &AudioRouterConfig::default());
    assert!(!s.on_devices_action(DevicesPanelAction::NoAction));
    assert!(s.on_devices_action(DevicesPanelAction::RefreshDevices));
    assert!(!s.on_devices_action(DevicesPanelAction::InputDeviceSelected("Mic".to_string())));
    assert_eq!(s.devices.selected_input_device, "Mic");
    assert!(s.on_devices_action(DevicesPanelAction::SourceTypeChanged("loopback".to_string())));
    assert!(!s.on_devices_action(DevicesPanelAction::SourceTypeChanged("input".to_string())));
    assert_eq!(s.devices.source_type, "input");
    s.on_devices_action(DevicesPanelAction::OutputDeviceToggled("Speakers".to_string()));
    s.on_devices_action(DevicesPanelAction::OutputDeviceToggled("HDMI".to_string()));
    assert!(s.on_devices_action(DevicesPanelAction::LoopbackDeviceSelected("SPEAKERS".to_string())));
    assert_eq!(s.devices.selected_output_devices, vec!["HDMI".to_string()]);
}

#[test]
fn import_and_export_through_the_state() {
    let mut s = GuiState::new(None, &AudioRouterConfig::default());
    let mut f = AudioRouterConfig::default();
    f.sample_rate = Some(44100);
    f.max_outputs = 6;
    f.source_type = "loopback".to_string();
    s.import_config(&f, "in.toml".to_string(), "t".to_string());
    assert_eq!(s.params.sample_rate, 44100);
    assert_eq!(s.params.max_outputs, 6);
    assert_eq!(s.devices.source_type, "loopback");
    assert_eq!(s.config_path.as_deref(), Some("in.toml"));
    assert_eq!(s.log_panel.entries()[0].1, "配置已导入");

    s.on_devices_action(DevicesPanelAction::OutputDeviceToggled("A".to_string()));
    let out = s.export_config();
    assert_eq!(out.sample_rate, Some(44100));
    assert_eq!(out.max_outputs, 6);
    assert_eq!(out.output_devices, vec!["A".to_string()]);
    assert_eq!(out.input_device, None);
    assert_eq!(out.source_type, "loopback");
    s.config_saved("out.toml".to_string(), "t".to_string());
    assert_eq!(s.toolbar.config_path.as_deref(), Some("out.toml"));
    assert_eq!(s.log_panel.entries()[1].1, "配置已导出");
}

#[test]
fn export_then_import_restores_the_settings_panel() {
    let mut s = GuiState::new(None, &AudioRouterConfig::default());
    s.params.buffer_frames = 1024;
    s.params.max_latency_ms = 40;
    s.params.sample_rate = 96000;
    s.params.resampler_index = 2;
    s.params.no_limiter = true;
    s.params.choose_exit_on_input_loss();
    s.params.loopback_device = Some("Speakers".to_string());
    s.params.max_outputs = 5;
    let f = s.export_config();
    let mut t = GuiState::new(None, &AudioRouterConfig::default());
    t.import_config(&f, "x.toml".to_string(), "t".to_string());
    assert_eq!(t.params.buffer_frames, 1024);
    assert_eq!(t.params.max_latency_ms, 40);
    assert_eq!(t.params.sample_rate, 96000);
    assert_eq!(t.params.resampler_index, 2);
    assert!(t.params.no_limiter);
    assert!(t.params.exit_on_input_loss && !t.params.input_fallback_to_default);
    assert_eq!(t.params.loopback_device.as_deref(), Some("Speakers"));
    assert_eq!(t.params.max_outputs, 5);
}

#[test]
fn toggling_an_output_twice_through_the_state_restores_it() {
    let mut s = GuiState::new(None, &AudioRouterConfig::default());
    s.on_devices_action(DevicesPanelAction::OutputDeviceToggled("A".to_string()));
    s.on_devices_action(DevicesPanelAction::OutputDeviceToggled("B".to_string()));
    s.on_devices_action(DevicesPanelAction::OutputDeviceToggled("A".to_string()));
    s.on_devices_action(DevicesPanelAction::OutputDeviceToggled("A".to_string()));
    assert_eq!(selected(&s.devices), vec!["A".to_string(), "B".to_string()]);
}
