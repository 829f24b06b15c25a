use singularity::bluetooth::{
    addresses_to_read, agent_accepts, any_powered, cancel_request_error, contains_address,
    device_request_error, device_type_to_icon, initial_requests, keep_draining, new_passkey,
    new_pin_code, next_retry_count, passkey_text, power_poll, reconnect_requests, remove_address,
    retry_delay_ms, rfkill_id_for, rfkill_verb, sort_devices, trusts_on_success, AdapterEvent,
    Address, BluerDevice, BluerDeviceStatus, BluerRequest, BluerState, ScanStep, Scanner,
    DEFAULT_DEVICE_ICON, MAX_RETRY_DELAY_MS,
};
use singularity::bluetooth_model::{find_device, BluetoothModel};

fn addr(last: u8) -> Address {
    Address([0x00, 0x1A, 0x7D, 0xDA, 0x71, last])
}

fn device(name: &str, last: u8, status: BluerDeviceStatus, paired: bool, trusted: bool) -> BluerDevice {
    BluerDevice {
        name: name.to_string(),
        icon: DEFAULT_DEVICE_ICON,
        address: addr(last),
        status,
        battery_percent: None,
        is_paired: paired,
        is_trusted: trusted,
    }
}

#[test]
fn device_types_map_to_icons() {
    assert_eq!(device_type_to_icon("computer"), "laptop-symbolic");
    assert_eq!(device_type_to_icon("phone"), "smartphone-symbolic");
    assert_eq!(device_type_to_icon("audio-headphones"), "audio-headphones-symbolic");
    assert_eq!(device_type_to_icon("printer"), "printer-network-symbolic");
    assert_eq!(device_type_to_icon("toaster"), "bluetooth-symbolic");
    assert_eq!(device_type_to_icon(""), DEFAULT_DEVICE_ICON);
}

#[test]
fn address_is_written_in_upper_case_hex() {
    assert_eq!(addr(0x13).to_text(), "00:1A:7D:DA:71:13");
    assert_eq!(Address([0xff, 0, 1, 0xab, 0x10, 0x9]).to_text(), "FF:00:01:AB:10:09");
}

#[test]
fn device_from_properties_fills_in_name_and_status() {
    let d = BluerDevice::from_properties(addr(1), None, true, true, false, Some(80), Some("phone".to_string()));
    assert_eq!(d.name, "00:1A:7D:DA:71:01");
    assert_eq!(d.icon, "smartphone-symbolic");
    assert_eq!(d.status, BluerDeviceStatus::Paired);
    assert_eq!(d.battery_percent, Some(80));
    assert!(d.paired_and_trusted());
    assert!(d.is_known_device_type());
    assert!(!d.has_name());

    let e = BluerDevice::from_properties(addr(2), Some(String::new()), false, false, true, None, None);
    assert_eq!(e.name, "00:1A:7D:DA:71:02");
    assert_eq!(e.status, BluerDeviceStatus::Connected);
    assert_eq!(e.icon, DEFAULT_DEVICE_ICON);
    assert!(!e.is_known_device_type());

    let f = BluerDevice::from_properties(addr(3), Some("Buds".to_string()), false, false, false, None, None);
    assert_eq!(f.name, "Buds");
    assert_eq!(f.status, BluerDeviceStatus::Disconnected);
    assert!(f.has_name());
}

#[test]
fn devices_sort_by_status_then_name_ignoring_case() {
    let devices = vec![
        device("zeta", 1, BluerDeviceStatus::Disconnected, false, false),
        device("Beta", 2, BluerDeviceStatus::Paired, true, true),
        device("alpha", 3, BluerDeviceStatus::Paired, true, true),
        device("Keyboard", 4, BluerDeviceStatus::Connected, true, true),
        device("mouse", 5, BluerDeviceStatus::Connecting, true, true),
    ];
    let sorted = sort_devices(devices);
    let names: Vec<&str> = sorted.iter().map(|d| d.name.as_str()).collect();
    assert_eq!(names, vec!["Keyboard", "mouse", "alpha", "Beta", "zeta"]);
}

#[test]
fn rfkill_output_gives_the_adapter_id() {
    let out = "0 phy0\n1 hci0\n 2 hci1 \n";
    assert_eq!(rfkill_id_for(out, "hci0"), Some("1".to_string()));
    assert_eq!(rfkill_id_for(out, "hci1"), Some("2".to_string()));
    assert_eq!(rfkill_id_for(out, "phy0"), Some("0".to_string()));
    assert_eq!(rfkill_id_for(out, "hci2"), None);
    assert_eq!(rfkill_id_for("", "hci0"), None);
    assert_eq!(rfkill_id_for("3 hci0", "hci0"), Some("3".to_string()));
    assert_eq!(rfkill_verb(true), "unblock");
    assert_eq!(rfkill_verb(false), "block");
}

#[test]
fn retry_delay_doubles_up_to_the_cap() {
    assert_eq!(retry_delay_ms(0), 1);
    assert_eq!(retry_delay_ms(1), 2);
    assert_eq!(retry_delay_ms(3), 8);
    assert_eq!(retry_delay_ms(10), 1024);
    assert_eq!(retry_delay_ms(35), 34359738368);
    assert_eq!(retry_delay_ms(36), MAX_RETRY_DELAY_MS);
    assert_eq!(retry_delay_ms(u32::MAX), MAX_RETRY_DELAY_MS);
    let mut last = 0;
    for n in 0..100 {
        let d = retry_delay_ms(n);
        assert!(d >= last);
        assert!(d <= MAX_RETRY_DELAY_MS);
        last = d;
    }
    assert_eq!(next_retry_count(0), 1);
    assert_eq!(next_retry_count(u32::MAX), u32::MAX);
}

#[test]
fn pin_codes_and_passkeys_have_six_digits() {
    for _ in 0..50 {
        let pin = new_pin_code();
        assert_eq!(pin.len(), 6);
        assert!(pin.chars().all(|c| c.is_ascii_digit()));
        assert!(new_passkey() < 999999);
    }
    assert_eq!(passkey_text(42), "000042");
    assert_eq!(passkey_text(123456), "123456");
    assert_eq!(passkey_text(0), "000000");
}

#[test]
fn agent_accepts_only_a_yes() {
    assert!(agent_accepts(Some(true)));
    assert!(!agent_accepts(Some(false)));
    assert!(!agent_accepts(None));
}

#[test]
fn request_errors() {
    assert_eq!(device_request_error(false, None), Some("Device not found on any adapter".to_string()));
    assert_eq!(device_request_error(true, None), None);
    assert_eq!(device_request_error(true, Some("busy".to_string())), Some("busy".to_string()));
    assert_eq!(cancel_request_error(true), None);
    assert_eq!(cancel_request_error(false), Some("No active connection request found".to_string()));
    assert!(trusts_on_success(BluerRequest::PairDevice(addr(1))));
    assert!(trusts_on_success(BluerRequest::ConnectDevice(addr(1))));
    assert!(!trusts_on_success(BluerRequest::DisconnectDevice(addr(1))));
    assert!(!trusts_on_success(BluerRequest::SetBluetoothEnabled(true)));
}

#[test]
fn reconnection_asks_for_paired_and_trusted_devices() {
    let devices = vec![
        device("a", 1, BluerDeviceStatus::Connected, true, true),
        device("b", 2, BluerDeviceStatus::Paired, true, true),
        device("c", 3, BluerDeviceStatus::Paired, true, false),
        device("d", 4, BluerDeviceStatus::Disconnected, false, false),
    ];
    let all = reconnect_requests(&devices, false);
    assert_eq!(all.len(), 2);
    assert!(matches!(all[0], BluerRequest::ConnectDevice(a) if a == addr(1)));
    assert!(matches!(all[1], BluerRequest::ConnectDevice(a) if a == addr(2)));
    let skip = reconnect_requests(&devices, true);
    assert_eq!(skip.len(), 1);
    assert!(matches!(skip[0], BluerRequest::ConnectDevice(a) if a == addr(2)));

    let on = BluerState { devices: devices.clone(), bluetooth_enabled: true };
    assert_eq!(initial_requests(&on).len(), 1);
    let off = BluerState { devices, bluetooth_enabled: false };
    assert!(initial_requests(&off).is_empty());
}

#[test]
fn power_poll_publishes_only_changes() {
    let devices = vec![device("b", 2, BluerDeviceStatus::Paired, true, true)];
    assert!(any_powered(&vec![false, true]));
    assert!(!any_powered(&vec![]));
    let (status, change) = power_poll(false, &vec![false, true], &devices);
    assert!(status);
    let change = change.unwrap();
    assert!(change.state.bluetooth_enabled);
    assert_eq!(change.state.devices.len(), 1);
    assert_eq!(change.requests.len(), 1);
    let (status, change) = power_poll(true, &vec![true], &devices);
    assert!(status);
    assert!(change.is_none());
    let (status, change) = power_poll(true, &vec![false], &devices);
    assert!(!status);
    assert!(change.unwrap().requests.is_empty());
}

#[test]
fn scanner_follows_adapter_events() {
    let mut sc = Scanner {
        devices: vec![device("a", 1, BluerDeviceStatus::Paired, true, true), device("b", 2, BluerDeviceStatus::Paired, true, true)],
        is_powered: false,
    };
    assert!(sc.should_listen(true));
    assert!(!sc.should_listen(false));
    match sc.on_event(AdapterEvent::PoweredChanged(true)) {
        ScanStep::Publish(st) => {
            assert!(st.bluetooth_enabled);
            assert_eq!(st.devices.len(), 2);
        },
        _ => panic!("power change not published"),
    }
    assert!(sc.is_powered);
    assert!(matches!(sc.on_event(AdapterEvent::DeviceAdded(addr(1))), ScanStep::Skip));
    assert!(matches!(sc.on_event(AdapterEvent::DeviceAdded(addr(9))), ScanStep::Rebuild));
    assert!(matches!(sc.on_event(AdapterEvent::OtherPropertyChanged), ScanStep::Skip));
    match sc.on_event(AdapterEvent::DeviceRemoved(addr(1))) {
        ScanStep::Publish(st) => assert_eq!(st.devices.len(), 1),
        _ => panic!("removal not published"),
    }
    assert!(matches!(sc.on_event(AdapterEvent::DeviceRemoved(addr(1))), ScanStep::Skip));
    assert_eq!(sc.devices.len(), 1);
    assert_eq!(sc.devices[0].address, addr(2));
}

#[test]
fn address_lists() {
    let known = vec![device("a", 1, BluerDeviceStatus::Paired, true, true), device("b", 2, BluerDeviceStatus::Paired, true, true)];
    assert!(contains_address(&known, addr(2)));
    assert!(!contains_address(&known, addr(3)));
    let fresh = addresses_to_read(&known, &vec![addr(3), addr(1), addr(4)]);
    assert_eq!(fresh, vec![addr(3), addr(4)]);
    let rest = remove_address(&known, addr(1));
    assert_eq!(rest.len(), 1);
    assert_eq!(rest[0].name, "b");
    assert_eq!(find_device(&known, addr(2)), Some(1));
    assert_eq!(find_device(&known, addr(7)), None);
    assert!(keep_draining(99));
    assert!(!keep_draining(100));
}

#[test]
fn bluetooth_requests_show_their_outcome_at_once() {
    let mut m = BluetoothModel {
        bluer_state: BluerState {
            devices: vec![device("a", 1, BluerDeviceStatus::Paired, true, true)],
            bluetooth_enabled: true,
        },
        has_bluer_sender: true,
        show_visible_devices: false,
        request_confirmation: None,
        bluetooth_available: true,
    };
    let acts = m.on_request(BluerRequest::ConnectDevice(addr(1)));
    assert_eq!(acts.len(), 1);
    assert_eq!(m.bluer_state.devices[0].status, BluerDeviceStatus::Connecting);
    m.on_request(BluerRequest::SetBluetoothEnabled(false));
    assert!(!m.bluer_state.bluetooth_enabled);
    assert!(m.answer_pairing(true).is_empty());
}

#[test]
fn power_requests_report_no_error_and_wake_the_scanner_on_power_up() {
    use_power_outcome(true);
    use_power_outcome(false);
}

fn use_power_outcome(enabled: bool) {
    let r = singularity::bluetooth::power_request_outcome(enabled);
    assert_eq!(r.wake_scanner, enabled);
    assert!(r.err_msg.is_none());
}
