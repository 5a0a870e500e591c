use audio_router::cli::CliArgs;
use audio_router::config::AudioRouterConfig;

/// The arguments of a bare invocation (clap's defaults).
fn bare() -> CliArgs {
    CliArgs {
        input_device: None,
        output_device: vec![],
        sample_rate: None,
        channels: None,
        buffer_frames: None,
        max_latency_ms: None,
        resampler: None,
        no_drift_compensation: false,
        exit_on_input_loss: false,
        input_fallback_to_default: false,
        log_file: None,
        monitor: false,
        no_limiter: false,
        gui: false,
        config: None,
        source_type: "input".to_string(),
        loopback_device: None,
        preset: None,
        max_outputs: None,
    }
}

#[test]
fn bare_invocation_has_no_operational_args() {
    let a = bare();
    assert!(!a.has_operational_args());
    assert!(!a.is_gui_mode());
}

#[test]
fn gui_and_config_are_not_operational() {
    let mut a = bare();
    a.gui = true;
    a.config = Some("router.toml".to_string());
    assert!(!a.has_operational_args());
    assert!(a.is_gui_mode());
}

#[test]
fn each_routing_option_is_operational() {
    let mut a = bare();
    a.output_device = vec!["Speakers".to_string()];
    assert!(a.has_operational_args());

    let mut a = bare();
    a.monitor = true;
    assert!(a.has_operational_args());

    let mut a = bare();
    a.source_type = "loopback".to_string();
    assert!(a.has_operational_args());

    let mut a = bare();
    a.max_outputs = Some(4);
    assert!(a.has_operational_args());
}

#[test]
fn bare_invocation_starts_the_gui_by_default() {
    // The README: with no argument the graphical interface starts.
    let r = bare().merge_with_config(&AudioRouterConfig::default());
    assert!(r.gui);
    assert_eq!(r.buffer_frames, 256);
    assert_eq!(r.max_latency_ms, 30);
    assert_eq!(r.resampler, "sinc");
    assert_eq!(r.source_type, "input");
    assert_eq!(r.max_outputs, 32);
    assert!(r.input_fallback_to_default);
    assert_eq!(r.sample_rate, None);
    assert!(r.output_devices.is_empty());
}

#[test]
fn operational_args_run_the_router_in_the_console() {
    let mut a = bare();
    a.output_device = vec!["Speakers".to_string()];
    let r = a.merge_with_config(&AudioRouterConfig::default());
    assert!(!r.gui);
    assert_eq!(r.output_devices, vec!["Speakers".to_string()]);
}

#[test]
fn explicit_gui_wins_over_operational_args() {
    let mut a = bare();
    a.gui = true;
    a.monitor = true;
    let r = a.merge_with_config(&AudioRouterConfig::default());
    assert!(r.gui);
}

#[test]
fn file_can_switch_the_gui_off() {
    let mut c = AudioRouterConfig::default();
    c.gui_enabled = false;
    let r = bare().merge_with_config(&c);
    assert!(!r.gui);
}

#[test]
fn command_line_wins_over_file() {
    let mut c = AudioRouterConfig::default();
    c.input_device = Some("File Mic".to_string());
    c.output_devices = vec!["File A".to_string(), "File B".to_string()];
    c.sample_rate = Some(44100);
    c.buffer_frames = Some(512);
    c.max_latency_ms = Some(50);
    c.resampler = "cubic".to_string();
    c.source_type = "loopback".to_string();
    c.loopback_device = Some("File Loop".to_string());
    c.max_outputs = 8;

    let mut a = bare();
    a.input_device = Some("Cli Mic".to_string());
    a.output_device = vec!["Cli A".to_string()];
    a.sample_rate = Some(96000);
    a.buffer_frames = Some(128);
    a.max_latency_ms = Some(10);
    a.resampler = Some("none".to_string());
    a.loopback_device = Some("Cli Loop".to_string());
    a.max_outputs = Some(2);
    a.config = Some("cfg.toml".to_string());
    a.preset = Some("preset.toml".to_string());

    let r = a.merge_with_config(&c);
    assert_eq!(r.input_device.as_deref(), Some("Cli Mic"));
    assert_eq!(r.output_devices, vec!["Cli A".to_string()]);
    assert_eq!(r.sample_rate, Some(96000));
    assert_eq!(r.buffer_frames, 128);
    assert_eq!(r.max_latency_ms, 10);
    assert_eq!(r.resampler, "none");
    // The command line says "input", the default, so the file's choice stays.
    assert_eq!(r.source_type, "loopback");
    assert_eq!(r.loopback_device.as_deref(), Some("Cli Loop"));
    assert_eq!(r.max_outputs, 2);
    assert_eq!(r.config_path.as_deref(), Some("cfg.toml"));
    assert_eq!(r.preset_path.as_deref(), Some("preset.toml"));
}

#[test]
fn file_fills_what_the_command_line_leaves_open() {
    let mut c = AudioRouterConfig::default();
    c.input_device = Some("File Mic".to_string());
    c.output_devices = vec!["File A".to_string()];
    c.channels = Some(6);
    c.buffer_frames = Some(512);
    c.resampler = String::new();
    c.log_file = Some("router.log".to_string());
    c.no_limiter = true;
    c.monitor = true;

    let r = bare().merge_with_config(&c);
    assert_eq!(r.input_device.as_deref(), Some("File Mic"));
    assert_eq!(r.output_devices, vec!["File A".to_string()]);
    assert_eq!(r.channels, Some(6));
    assert_eq!(r.buffer_frames, 512);
    // An empty resampler name in the file means sinc.
    assert_eq!(r.resampler, "sinc");
    assert_eq!(r.log_file.as_deref(), Some("router.log"));
    assert!(r.no_limiter);
    assert!(r.monitor);
    assert_eq!(r.config_path, None);
}

#[test]
fn switches_are_on_when_either_side_sets_them() {
    let mut c = AudioRouterConfig::default();
    c.exit_on_input_loss = true;
    let mut a = bare();
    a.no_drift_compensation = true;
    let r = a.merge_with_config(&c);
    assert!(r.exit_on_input_loss);
    assert!(r.no_drift_compensation);
    assert!(!r.no_limiter);
}

#[test]
fn filter_for_gui_keeps_only_gui_and_config() {
    let mut a = bare();
    a.gui = true;
    a.config = Some("cfg.toml".to_string());
    a.input_device = Some("Mic".to_string());
    a.output_device = vec!["A".to_string(), "B".to_string()];
    a.sample_rate = Some(44100);
    a.monitor = true;
    a.no_limiter = true;
    a.source_type = "loopback".to_string();
    a.max_outputs = Some(3);

    let f = a.filter_for_gui();
    assert!(f.gui);
    assert_eq!(f.config.as_deref(), Some("cfg.toml"));
    assert!(!f.has_operational_args());
    assert_eq!(f.input_device, None);
    assert!(f.output_device.is_empty());
    assert_eq!(f.source_type, "input");
    assert_eq!(f.max_outputs, None);
    assert!(!f.monitor);
}

#[test]
fn filtered_args_defer_to_the_file() {
    let mut c = AudioRouterConfig::default();
    c.buffer_frames = Some(1024);
    c.output_devices = vec!["File A".to_string()];
    let mut a = bare();
    a.gui = true;
    a.buffer_frames = Some(64);
    a.output_device = vec!["Cli".to_string()];
    let r = a.filter_for_gui().merge_with_config(&c);
    assert_eq!(r.buffer_frames, 1024);
    assert_eq!(r.output_devices, vec!["File A".to_string()]);
    assert!(r.gui);
}

#[test]
fn ignored_options_are_listed_in_order() {
    let mut a = bare();
    a.gui = true;
    a.no_limiter = true;
    a.input_device = Some("Mic".to_string());
    a.source_type = "loopback".to_string();
    a.monitor = true;
    a.sample_rate = Some(48000);
    assert_eq!(
        a.gui_ignored_options(),
        vec!["--input-device", "--sample-rate", "--source-type", "--monitor", "--no-limiter"]
    );
    assert!(bare().gui_ignored_options().is_empty());
}
