use audio_router::device::{DeviceInfo, DeviceType};
use audio_router::hotplug::HotplugEvent;

#[test]
fn test_hotplug_event_debug_clone() {
    let added = HotplugEvent::DeviceAdded(DeviceInfo {
        name: "测试设备".to_string(),
        sample_rates: vec![],
        channels: vec![],
        formats: vec![],
        device_type: DeviceType::Unknown,
    });
    let cloned = added.clone();
    assert!(
        format!("{:?}", cloned).contains("测试设备"),
        "DeviceAdded 应支持 Debug 和 Clone"
    );

    let removed = HotplugEvent::DeviceRemoved("测试移除".to_string());
    let cloned = removed.clone();
    assert!(
        format!("{:?}", cloned).contains("测试移除"),
        "DeviceRemoved 应支持 Debug 和 Clone"
    );
}
