use audio_router::device::{DeviceInfo, DeviceType};
use audio_router::engine::{on_control_message, on_recovery_action, slot_to_deactivate, ControlDecision, ControlMessage};
use audio_router::hotplug::HotplugEvent;
use audio_router::recovery::RecoveryAction;
use audio_router::engine::{
    choose_output_sample_rate, fade_length_frames, find_slot_by_name, latency_exceeds, output_channel_count,
    plan_output, resampling_refused, ring_buffer_capacity,
};
use audio_router::resample::ResamplerType;

#[test]
fn output_rate_prefers_the_input_rate() {
    assert_eq!(choose_output_sample_rate(&vec![], 48000), 48000);
    assert_eq!(choose_output_sample_rate(&vec![44100, 48000, 96000], 48000), 48000);
}

#[test]
fn output_rate_falls_back_to_the_closest_rate() {
    assert_eq!(choose_output_sample_rate(&vec![44100, 96000], 48000), 44100);
    assert_eq!(choose_output_sample_rate(&vec![8000, 192000, 88200], 96000), 88200);
    // Equally close rates: the earlier listed one.
    assert_eq!(choose_output_sample_rate(&vec![47000, 49000], 48000), 47000);
    assert_eq!(choose_output_sample_rate(&vec![49000, 47000], 48000), 49000);
}

#[test]
fn latency_check_compares_exactly() {
    // 256 frames at 48 kHz last 5.33 ms.
    assert!(!latency_exceeds(256, 48000, 30));
    assert!(latency_exceeds(256, 48000, 5));
    // 1440 frames at 48 kHz last exactly 30 ms: not over the limit.
    assert!(!latency_exceeds(1440, 48000, 30));
    assert!(latency_exceeds(1441, 48000, 30));
    assert!(latency_exceeds(4096, 44100, 30));
}

#[test]
fn ring_capacity_is_four_blocks_of_the_wider_side() {
    assert_eq!(ring_buffer_capacity(256, 2, 2), 2048);
    assert_eq!(ring_buffer_capacity(256, 2, 6), 6144);
    assert_eq!(ring_buffer_capacity(512, 8, 1), 16384);
}

#[test]
fn fade_is_five_milliseconds_at_least_one_frame() {
    assert_eq!(fade_length_frames(48000), 240);
    assert_eq!(fade_length_frames(44100), 220);
    assert_eq!(fade_length_frames(100), 1);
    assert_eq!(fade_length_frames(0), 1);
}

#[test]
fn resampling_is_refused_only_with_none_and_a_mismatch() {
    assert!(resampling_refused("none", 48000, 44100));
    assert!(!resampling_refused("none", 48000, 48000));
    assert!(!resampling_refused("sinc", 48000, 44100));
    assert!(!resampling_refused("NONE", 48000, 44100));
}

#[test]
fn output_channels_follow_the_device() {
    assert_eq!(output_channel_count(&vec![6, 2], 2), 6);
    assert_eq!(output_channel_count(&vec![], 2), 2);
}

#[test]
fn removed_device_is_found_by_exact_name() {
    let outputs = vec!["Speakers".to_string(), "Headphones".to_string(), "Speakers".to_string()];
    assert_eq!(find_slot_by_name(&outputs, "Speakers"), Some(0));
    assert_eq!(find_slot_by_name(&outputs, "Headphones"), Some(1));
    assert_eq!(find_slot_by_name(&outputs, "speakers"), None);
}

#[test]
fn output_setup_for_a_matching_device() {
    let s = plan_output(&vec![2], &vec![44100, 48000], 2, 48000, 256, "sinc").unwrap();
    assert_eq!(s.channels, 2);
    assert_eq!(s.sample_rate, 48000);
    assert_eq!(s.ring_capacity, 2048);
    assert_eq!(s.fade_len, 240);
    assert_eq!(s.resampler, ResamplerType::Sinc);
}

#[test]
fn output_setup_resamples_to_the_closest_rate() {
    let s = plan_output(&vec![6], &vec![44100], 2, 48000, 512, "cubic").unwrap();
    assert_eq!(s.channels, 6);
    assert_eq!(s.sample_rate, 44100);
    assert_eq!(s.ring_capacity, 512 * 6 * 4);
    assert_eq!(s.resampler, ResamplerType::Cubic);
    // An unknown algorithm name means sinc.
    let s = plan_output(&vec![], &vec![], 2, 48000, 256, "linear").unwrap();
    assert_eq!(s.channels, 2);
    assert_eq!(s.sample_rate, 48000);
    assert_eq!(s.resampler, ResamplerType::Sinc);
}

#[test]
fn output_setup_refuses_to_resample_with_none() {
    assert!(plan_output(&vec![2], &vec![44100], 2, 48000, 256, "none").is_none());
    let s = plan_output(&vec![2], &vec![44100, 48000], 2, 48000, 256, "none").unwrap();
    assert_eq!(s.sample_rate, 48000);
    assert_eq!(s.resampler, ResamplerType::NoResampling);
}

#[test]
fn control_loop_decisions() {
    assert_eq!(on_control_message(ControlMessage::Stop), ControlDecision::Stop);
    assert_eq!(on_control_message(ControlMessage::Disconnected), ControlDecision::Stop);
    assert_eq!(on_control_message(ControlMessage::Start), ControlDecision::IgnoreRepeatedStart);
    assert_eq!(on_control_message(ControlMessage::NoMessage), ControlDecision::Continue);
    assert_eq!(on_recovery_action(RecoveryAction::ShouldExit), ControlDecision::Stop);
    assert_eq!(on_recovery_action(RecoveryAction::TryReconnectOriginal), ControlDecision::Continue);
    assert_eq!(on_recovery_action(RecoveryAction::TryFallbackToDefault), ControlDecision::Continue);
    assert_eq!(on_recovery_action(RecoveryAction::NoAction), ControlDecision::Continue);
}

#[test]
fn removed_device_switches_off_its_slot() {
    let names = vec!["Speakers".to_string(), "HDMI".to_string(), "Speakers".to_string()];
    let slots = vec![0, 3, 5];
    assert_eq!(slot_to_deactivate(&names, &slots, &HotplugEvent::DeviceRemoved("HDMI".to_string())), Some(3));
    assert_eq!(slot_to_deactivate(&names, &slots, &HotplugEvent::DeviceRemoved("Speakers".to_string())), Some(0));
    assert_eq!(slot_to_deactivate(&names, &slots, &HotplugEvent::DeviceRemoved("Headset".to_string())), None);
    let added = HotplugEvent::DeviceAdded(DeviceInfo {
        name: "HDMI".to_string(),
        sample_rates: vec![],
        channels: vec![],
        formats: vec![],
        device_type: DeviceType::Wired,
    });
    assert_eq!(slot_to_deactivate(&names, &slots, &added), None);
}
