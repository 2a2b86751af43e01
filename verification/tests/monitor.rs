use launch_control::filter::{matches_hotplug, matches_session, DeviceInfo};
use launch_control::monitor::{extract_info, DeviceListener, PresenceEvent};

#[test]
fn identity_extraction_from_property_bag() {
    let r = extract_info(Some("3384"), Some("0001"));
    assert_eq!(r, Some(DeviceInfo { vid: 0x3384, pid: 0x0001 }));
}

#[test]
fn missing_property_means_no_identity() {
    assert_eq!(extract_info(None, Some("0001")), None);
    assert_eq!(extract_info(Some("3384"), None), None);
    assert_eq!(extract_info(None, None), None);
}

#[test]
fn malformed_property_means_no_identity() {
    assert_eq!(extract_info(Some(""), Some("0001")), None);
    assert_eq!(extract_info(Some("33g4"), Some("0001")), None);
    assert_eq!(extract_info(Some("3384"), Some("fffffffff")), None);
}

#[test]
fn hex_properties_either_case() {
    assert_eq!(
        extract_info(Some("ab"), Some("00FF")),
        Some(DeviceInfo { vid: 0xAB, pid: 0xFF })
    );
}

#[test]
fn filter_boundaries() {
    // Product ids just outside the configured range do not match.
    assert!(!matches_hotplug(0x3384, 0x0000));
    assert!(!matches_hotplug(0x3384, 0x000B));
    // The range ends themselves do.
    assert!(matches_hotplug(0x3384, 0x0001));
    assert!(matches_hotplug(0x3384, 0x000A));
    // A foreign vendor never matches.
    assert!(!matches_hotplug(0x3383, 0x0001));
}

#[test]
fn session_filter_requires_interface() {
    assert!(matches_session(0x3384, 0x0001, 1));
    assert!(!matches_session(0x3384, 0x0001, 0));
    assert!(!matches_session(0x3384, 0x0000, 1));
    assert!(!matches_session(0x3384, 0x000B, 1));
}

#[test]
fn canonical_key_packs_vendor_and_product() {
    let d = DeviceInfo { vid: 0x3384, pid: 0x0001 };
    assert_eq!(d.key_of(), 0x0000_3384_0000_0001);
    let e = DeviceInfo { vid: 0x0001, pid: 0x3384 };
    assert_ne!(d.key_of(), e.key_of());
}

#[test]
fn reconfigured_window_governs_debounce() {
    let mut listener = DeviceListener::new().with_debounce_ms(100);
    assert!(listener
        .on_notification("add", Some("3384"), Some("0001"), 0)
        .is_some());
    assert!(listener
        .on_notification("add", Some("3384"), Some("0001"), 50)
        .is_none());
    assert!(listener
        .on_notification("add", Some("3384"), Some("0001"), 100)
        .is_some());
}

#[test]
fn listener_default_configuration() {
    let listener = DeviceListener::new();
    assert_eq!(listener.subsystem(), "usb");
}

#[test]
fn listener_reconfiguration() {
    let listener = DeviceListener::new().with_subsystem("hidraw".to_owned());
    assert_eq!(listener.subsystem(), "hidraw");
}

#[test]
fn add_notification_emits_connected() {
    let mut listener = DeviceListener::new();
    let ev = listener.on_notification("add", Some("3384"), Some("0001"), 0);
    assert_eq!(
        ev,
        Some(PresenceEvent::Connected(DeviceInfo { vid: 0x3384, pid: 0x0001 }))
    );
}

#[test]
fn remove_notification_emits_disconnected() {
    let mut listener = DeviceListener::new();
    let ev = listener.on_notification("remove", Some("3384"), Some("0001"), 0);
    assert_eq!(ev, Some(PresenceEvent::Disconnected));
}

#[test]
fn unrecognised_action_is_ignored() {
    let mut listener = DeviceListener::new();
    assert_eq!(
        listener.on_notification("bind", Some("3384"), Some("0001"), 0),
        None
    );
}

#[test]
fn unidentifiable_notification_emits_nothing() {
    let mut listener = DeviceListener::new();
    assert_eq!(listener.on_notification("add", None, Some("0001"), 0), None);
    assert_eq!(listener.on_notification("add", Some("3384"), None, 0), None);
}

#[test]
fn foreign_device_is_filtered_out() {
    let mut listener = DeviceListener::new();
    assert_eq!(
        listener.on_notification("add", Some("dead"), Some("beef"), 0),
        None
    );
    assert_eq!(
        listener.on_notification("add", Some("3384"), Some("000b"), 0),
        None
    );
}

#[test]
fn notification_burst_is_debounced() {
    let mut listener = DeviceListener::new();
    let connected =
        PresenceEvent::Connected(DeviceInfo { vid: 0x3384, pid: 0x0001 });
    assert_eq!(
        listener.on_notification("add", Some("3384"), Some("0001"), 0),
        Some(connected)
    );
    // Duplicates inside the 300 ms window are suppressed.
    assert_eq!(
        listener.on_notification("add", Some("3384"), Some("0001"), 100),
        None
    );
    assert_eq!(
        listener.on_notification("remove", Some("3384"), Some("0001"), 250),
        None
    );
    // Once the window has elapsed the next transition is accepted.
    assert_eq!(
        listener.on_notification("remove", Some("3384"), Some("0001"), 300),
        Some(PresenceEvent::Disconnected)
    );
}

#[test]
fn cold_enumeration_emits_connected() {
    let mut listener = DeviceListener::new();
    let ev = listener.on_existing_device(Some("3384"), Some("000a"), 0);
    assert_eq!(
        ev,
        Some(PresenceEvent::Connected(DeviceInfo { vid: 0x3384, pid: 0x000A }))
    );
    // The cold acceptance also debounces the first live notification.
    assert_eq!(
        listener.on_notification("add", Some("3384"), Some("000a"), 200),
        None
    );
}
