use audio_router::device::{
    build_device_info, detect_device_type, device_name_matches, find_device_by_name, select_output_indices,
    ConfigRange, DeviceInfo, DeviceType,
};
use audio_router::hotplug::{HotplugEvent, HotplugTracker};
use audio_router::sorted::{insert_sorted_u16, insert_sorted_u32};

fn names(v: &[&str]) -> Vec<String> {
    v.iter().map(|s| s.to_string()).collect()
}

fn range(min: u32, max: u32, channels: u16, format: &str) -> ConfigRange {
    ConfigRange { min_sample_rate: min, max_sample_rate: max, channels, format: format.to_string() }
}

fn device(name: &str) -> DeviceInfo {
    DeviceInfo {
        name: name.to_string(),
        sample_rates: vec![48000],
        channels: vec![2],
        formats: vec!["f32".to_string()],
        device_type: DeviceType::Wired,
    }
}

#[test]
fn device_type_from_name_keywords() {
    assert_eq!(detect_device_type("Speakers (Realtek Audio)"), DeviceType::Wired);
    assert_eq!(detect_device_type("Headset (Bluetooth Hands-Free)"), DeviceType::Bluetooth);
    assert_eq!(detect_device_type("蓝牙耳机"), DeviceType::Bluetooth);
    assert_eq!(detect_device_type("AirPlay Receiver"), DeviceType::Network);
    assert_eq!(detect_device_type("DLNA renderer"), DeviceType::Network);
    assert_eq!(detect_device_type("网络音箱"), DeviceType::Network);
    assert_eq!(detect_device_type("Chromecast Audio"), DeviceType::Network);
    // Bluetooth keywords are checked first.
    assert_eq!(detect_device_type("Bluetooth network bridge"), DeviceType::Bluetooth);
}

#[test]
fn device_type_ignores_case() {
    // Lower-casing goes through the standard library: upper-case names
    // must still match the lower-case keywords.
    assert_eq!(detect_device_type("BLUETOOTH SPEAKER"), DeviceType::Bluetooth);
    assert_eq!(detect_device_type("NETWORK Sink"), DeviceType::Network);
}

#[test]
fn name_matching_is_a_case_insensitive_substring() {
    assert!(device_name_matches("Speakers (Realtek Audio)", "realtek"));
    assert!(device_name_matches("Speakers (Realtek Audio)", "SPEAKERS"));
    assert!(device_name_matches("Speakers", ""));
    assert!(!device_name_matches("Speakers", "headphones"));
}

#[test]
fn find_device_picks_the_first_match() {
    let list = names(&["Microphone (USB)", "Line In (USB)", "Microphone Array"]);
    assert_eq!(find_device_by_name(&list, "usb"), Some(0));
    assert_eq!(find_device_by_name(&list, "line"), Some(1));
    assert_eq!(find_device_by_name(&list, "ARRAY"), Some(2));
    assert_eq!(find_device_by_name(&list, "webcam"), None);
    assert_eq!(find_device_by_name(&Vec::new(), "usb"), None);
}

#[test]
fn no_requested_outputs_selects_every_device() {
    let list = names(&["A", "B", "C"]);
    assert_eq!(select_output_indices(&list, &Vec::new()), vec![0, 1, 2]);
}

#[test]
fn each_requested_output_picks_a_different_device() {
    let list = names(&["Speakers (USB)", "Headphones (USB)", "HDMI Output"]);
    // Two queries matching the same devices pick two different ones.
    assert_eq!(select_output_indices(&list, &names(&["usb", "usb"])), vec![0, 1]);
    assert_eq!(select_output_indices(&list, &names(&["hdmi", "speakers"])), vec![2, 0]);
    // A query with nothing left to match picks nothing.
    assert_eq!(select_output_indices(&list, &names(&["hdmi", "hdmi"])), vec![2]);
    assert!(select_output_indices(&list, &names(&["bluetooth"])).is_empty());
}

#[test]
fn device_info_from_ranges_sorts_and_dedups() {
    let inputs = vec![
        range(44100, 48000, 2, "f32"),
        range(96000, 96000, 1, "i16"),
        range(44100, 192000, 2, "f32"),
    ];
    let info = build_device_info("Mic".to_string(), &inputs, &Vec::new(), DeviceType::Wired);
    assert_eq!(info.name, "Mic");
    assert_eq!(info.sample_rates, vec![44100, 48000, 96000, 192000]);
    assert_eq!(info.channels, vec![1, 2]);
    assert_eq!(info.formats, vec!["f32".to_string(), "i16".to_string()]);
    assert_eq!(info.device_type, DeviceType::Wired);
}

#[test]
fn device_info_uses_output_ranges_without_input_ranges() {
    let outputs = vec![range(48000, 48000, 8, "f32")];
    let info = build_device_info("HDMI".to_string(), &Vec::new(), &outputs, DeviceType::Unknown);
    assert_eq!(info.sample_rates, vec![48000]);
    assert_eq!(info.channels, vec![8]);
    assert_eq!(info.formats, vec!["f32".to_string()]);

    let empty = build_device_info("None".to_string(), &Vec::new(), &Vec::new(), DeviceType::Unknown);
    assert!(empty.sample_rates.is_empty());
    assert!(empty.channels.is_empty());
    assert!(empty.formats.is_empty());
}

#[test]
fn sorted_insertion_keeps_order_without_repeats() {
    let mut v: Vec<u32> = vec![];
    for x in [48000, 44100, 96000, 48000, 8000] {
        insert_sorted_u32(&mut v, x);
    }
    assert_eq!(v, vec![8000, 44100, 48000, 96000]);
    let mut c: Vec<u16> = vec![2];
    insert_sorted_u16(&mut c, 1);
    insert_sorted_u16(&mut c, 2);
    insert_sorted_u16(&mut c, 6);
    assert_eq!(c, vec![1, 2, 6]);
}

#[test]
fn hotplug_first_snapshot_is_the_baseline() {
    let mut t = HotplugTracker::new();
    let events = t.observe(&vec![device("A"), device("B")]);
    assert!(events.is_empty());
    // An unchanged list reports nothing.
    assert!(t.observe(&vec![device("A"), device("B")]).is_empty());
}

#[test]
fn hotplug_reports_added_then_removed() {
    let mut t = HotplugTracker::new();
    t.observe(&vec![device("A"), device("B")]);
    let events = t.observe(&vec![device("B"), device("C")]);
    assert_eq!(events.len(), 2);
    match &events[0] {
        HotplugEvent::DeviceAdded(info) => assert_eq!(info.name, "C"),
        other => panic!("unexpected event {:?}", other),
    }
    match &events[1] {
        HotplugEvent::DeviceRemoved(name) => assert_eq!(name, "A"),
        other => panic!("unexpected event {:?}", other),
    }
    // The new list is the new baseline.
    assert!(t.observe(&vec![device("C"), device("B")]).is_empty());
}

#[test]
fn output_selection_never_picks_a_device_twice() {
    let list = names(&["Out 1", "Out 2", "Out 3"]);
    let picked = select_output_indices(&list, &names(&["out", "out", "out", "out"]));
    assert_eq!(picked, vec![0, 1, 2]);
    let picked = select_output_indices(&list, &names(&["3", "OUT"]));
    assert_eq!(picked, vec![2, 0]);
}
