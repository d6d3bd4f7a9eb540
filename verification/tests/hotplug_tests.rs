use handy::audio_toolkit::hotplug::{device_snapshot, DeviceInfo, HotplugDetector, HotplugEvent};
use std::collections::HashSet;
use std::time::Duration;

fn device(name: &str, is_input: bool, is_default: bool) -> DeviceInfo {
    DeviceInfo {
        name: name.to_string(),
        is_input,
        is_default,
    }
}

#[test]
fn test_device_info_equality() {
    let dev1 = DeviceInfo {
        name: "Test".to_string(),
        is_input: true,
        is_default: false,
    };

    let dev2 = DeviceInfo {
        name: "Test".to_string(),
        is_input: true,
        is_default: false,
    };

    assert_eq!(dev1, dev2);
}

#[test]
fn test_device_info_hash() {
    let mut set = HashSet::new();
    let dev = DeviceInfo {
        name: "Test".to_string(),
        is_input: true,
        is_default: false,
    };

    set.insert(dev.clone());
    assert!(set.contains(&dev));
}

#[test]
fn test_detector_creation() {
    let detector = HotplugDetector::default();
    assert!(!detector.is_running());
}

#[test]
fn test_detector_with_custom_interval() {
    let detector = HotplugDetector::new(Duration::from_secs(5).as_millis() as u64);
    assert_eq!(
        detector.poll_interval_ms(),
        Duration::from_secs(5).as_millis() as u64
    );
}

#[test]
fn default_interval_is_two_seconds() {
    assert_eq!(HotplugDetector::default().poll_interval_ms(), 2000);
}

#[test]
fn start_takes_the_present_devices_once() {
    let mut detector = HotplugDetector::default();
    let devices = vec![device("Mic", true, true), device("Mic", true, true)];
    assert!(detector.start(&devices));
    assert!(detector.is_running());
    assert_eq!(detector.known_devices(), vec![device("Mic", true, true)]);
    // A second start changes nothing.
    assert!(!detector.start(&vec![device("Other", false, false)]));
    assert_eq!(detector.known_devices(), vec![device("Mic", true, true)]);
    detector.stop();
    assert!(!detector.is_running());
}

#[test]
fn poll_reports_connections_then_disconnections() {
    let mut detector = HotplugDetector::default();
    detector.scan_devices(&vec![device("A", true, false), device("B", false, true)]);
    let events = detector.poll(&vec![device("B", false, true), device("C", true, true)]);
    assert_eq!(events.len(), 2);
    match &events[0] {
        HotplugEvent::Connected(d) => assert_eq!(d, &device("C", true, true)),
        other => panic!("unexpected {:?}", other),
    }
    match &events[1] {
        HotplugEvent::Disconnected(d) => assert_eq!(d, &device("A", true, false)),
        other => panic!("unexpected {:?}", other),
    }
    assert_eq!(
        detector.known_devices(),
        vec![device("B", false, true), device("C", true, true)]
    );
    // Nothing changed since: no event.
    assert!(detector
        .poll(&vec![device("C", true, true), device("B", false, true)])
        .is_empty());
}

#[test]
fn poll_changes_applied_to_known_give_present() {
    let mut detector = HotplugDetector::default();
    let before = vec![device("A", true, false), device("B", true, true)];
    let now = vec![device("B", true, true), device("D", false, false)];
    detector.scan_devices(&before);
    let events = detector.poll(&now);
    let mut set: HashSet<DeviceInfo> = before.into_iter().collect();
    for e in events {
        match e {
            HotplugEvent::Connected(d) => {
                set.insert(d);
            }
            HotplugEvent::Disconnected(d) => {
                set.remove(&d);
            }
        }
    }
    let expected: HashSet<DeviceInfo> = now.into_iter().collect();
    assert_eq!(set, expected);
}

#[test]
fn snapshot_marks_default_devices() {
    let devices = device_snapshot(
        &vec!["Mic".to_string(), "USB".to_string(), "Mic".to_string()],
        &Some("USB".to_string()),
        &vec!["Speakers".to_string()],
        &None,
    );
    assert_eq!(
        devices,
        vec![
            device("Mic", true, false),
            device("USB", true, true),
            device("Speakers", false, false)
        ]
    );
}

#[test]
fn known_devices_are_listed_once() {
    let mut detector = HotplugDetector::default();
    let mic = device("Mic", true, true);
    assert!(detector.start(&vec![mic.clone(), mic.clone(), device("Speaker", false, true)]));
    let known = detector.known_devices();
    assert_eq!(known.len(), 2);
    let set: HashSet<DeviceInfo> = known.into_iter().collect();
    assert!(set.contains(&mic));
}
