use singularity::app::{AppModel, AppView, Env, IsOpen, Message};
use singularity::bluetooth::{Address, BluerDevice, BluerDeviceStatus, BluerRequest, BluerState, DEFAULT_DEVICE_ICON};
use singularity::mpris::{PlaybackStatus, PlayerStatus};
use singularity::network::{
    collect_known_vpns, AccessPoint, ActiveConnectionInfo, ActiveConnectionState, ConnectionSettings,
    HwAddress, NetworkManagerState, NetworkType, RequestedVpn,
};
use singularity::views::{
    battery_label, brightness_icon, detail_header, device_row, duration_text, media_card, microphone_icon, power_tile,
    revealer, signal_icon, volume_icon, wifi_icon, BatteryLine, BluetoothPage, Label, TileStyle, VpnPage,
    footer, vpn_password_edited, AudioList, SliderKind, WifiPage,
};

fn env() -> Env {
    Env { nm_sender_closed: false, has_main_window: true }
}

fn ap(ssid: &str, strength: u8, hw: u64) -> AccessPoint {
    AccessPoint {
        ssid: ssid.to_string(),
        strength,
        state: 0,
        working: false,
        path: "/".to_string(),
        hw_address: HwAddress { address: hw },
        network_type: NetworkType::PSK,
    }
}

fn wifi(name: &str) -> ActiveConnectionInfo {
    ActiveConnectionInfo::WiFi { name: name.to_string(), hw_address: HwAddress { address: 0 }, state: ActiveConnectionState::Activated }
}

fn device(name: &str, last: u8, status: BluerDeviceStatus, paired: bool, icon: &'static str) -> BluerDevice {
    BluerDevice {
        name: name.to_string(),
        icon,
        address: Address([1, 2, 3, 4, 5, last]),
        status,
        battery_percent: Some(55),
        is_paired: paired,
        is_trusted: paired,
    }
}

#[test]
fn level_icons() {
    assert_eq!(volume_icon(0, false), "audio-volume-muted-symbolic");
    assert_eq!(volume_icon(80, true), "audio-volume-muted-symbolic");
    assert_eq!(volume_icon(32, false), "audio-volume-low-symbolic");
    assert_eq!(volume_icon(33, false), "audio-volume-medium-symbolic");
    assert_eq!(volume_icon(66, false), "audio-volume-high-symbolic");
    assert_eq!(microphone_icon(10, false), "microphone-sensitivity-low-symbolic");
    assert_eq!(microphone_icon(10, true), "microphone-sensitivity-muted-symbolic");
    assert_eq!(brightness_icon(65), "display-brightness-medium-symbolic");
    assert_eq!(brightness_icon(100), "display-brightness-high-symbolic");
    assert_eq!(signal_icon(76), "network-wireless-signal-excellent-symbolic");
    assert_eq!(signal_icon(75), "network-wireless-signal-good-symbolic");
    assert_eq!(signal_icon(26), "network-wireless-signal-ok-symbolic");
    assert_eq!(signal_icon(25), "network-wireless-signal-weak-symbolic");
}

#[test]
fn wifi_icon_follows_the_connected_network() {
    let mut st = NetworkManagerState::default();
    assert_eq!(wifi_icon(&st), "network-wireless-offline-symbolic");
    st.wifi_enabled = true;
    assert_eq!(wifi_icon(&st), "network-wireless-disconnected-symbolic");
    st.active_conns = vec![ActiveConnectionInfo::Vpn { name: "v".to_string() }, wifi("home")];
    assert_eq!(wifi_icon(&st), "network-wireless-symbolic");
    st.wireless_access_points = vec![ap("other", 90, 1), ap("home", 40, 2), ap("home", 90, 3)];
    assert_eq!(wifi_icon(&st), "network-wireless-signal-ok-symbolic");
}

#[test]
fn network_list_puts_connected_and_strong_networks_first() {
    let st = NetworkManagerState {
        wifi_enabled: true,
        active_conns: vec![wifi("home")],
        wireless_access_points: vec![ap("cafe", 50, 1), ap("", 99, 2), ap("home", 20, 3), ap("library", 80, 4), ap("cafe", 50, 5), ap("cafe", 30, 6)],
        known_access_points: vec![],
    };
    let rows = st.network_rows();
    let seen: Vec<(&str, bool, u8)> = rows.iter().map(|r| (r.name.as_str(), r.connected, r.strength)).collect();
    assert_eq!(seen, vec![("home", true, 20), ("library", false, 80), ("cafe", false, 50)]);
}

#[test]
fn tiles_show_services_and_their_toggles() {
    let m = AppModel::default();
    let t = m.tiles();
    assert!(matches!(&t.wifi.label, Label::Text(s) if s == "Unavailable"));
    assert!(t.wifi.on_navigate.is_none());
    assert!(!t.wifi.enabled());
    assert_eq!(t.wifi.style(), TileStyle::Standard);
    assert!(matches!(t.power.label, Label::Key("balanced")));
    assert_eq!(t.power.icon, "power-profile-balanced-symbolic");
    assert_eq!(t.power.style(), TileStyle::Suggested);
    assert!(matches!(t.screenshot.on_toggle, Message::TakeScreenshot));
    assert!(matches!(t.bluetooth.on_toggle, Message::ToggleBluetooth(true)));
    assert_eq!(power_tile(singularity::app::PowerProfile::PowerSaver), ("power-profile-power-saver-symbolic", "power-saver"));
}

#[test]
fn panel_and_sliders() {
    let m = AppModel::default();
    let icons = m.panel_icons();
    assert_eq!(icons.volume, "audio-volume-medium-symbolic");
    assert_eq!(icons.wifi, "network-wireless-offline-symbolic");
    assert_eq!(icons.battery, Some("battery-symbolic"));
    assert!(!m.wants_refresh_timer());
    let rows = m.slider_rows();
    assert_eq!(rows.volume_max, 150);
    assert!(rows.display_brightness);
    assert!(rows.keyboard_brightness);
    assert!(rows.audio_chevron.is_none());
    assert_eq!(rows.volume, 50);
    assert!(matches!(rows.volume_button, Message::ToggleGlobalMute(true)));
    assert!(matches!(rows.microphone_button, Message::ToggleSourceMute));
    assert_eq!(m.battery_icon_name(), Some("battery-symbolic"));
}

#[test]
fn battery_line_shows_time_left() {
    let mut m = AppModel::default();
    m.power.battery_charging = true;
    assert_eq!(m.battery_line(true), BatteryLine::FullyCharged);
    m.power.time_to_full = Some(5400);
    assert_eq!(m.battery_line(false), BatteryLine::UntilFull { hours: 1, minutes: 30 });
    m.power.time_to_full = Some(30);
    assert_eq!(m.battery_line(false), BatteryLine::Charging);
    m.power.battery_charging = false;
    m.power.time_to_empty = Some(59);
    assert_eq!(m.battery_line(false), BatteryLine::LessThanMinute);
    m.power.time_to_empty = Some(7260);
    assert_eq!(m.battery_line(true), BatteryLine::Remaining { hours: 2, minutes: 1 });
    m.power.time_to_empty = None;
    assert_eq!(m.battery_line(false), BatteryLine::OnBattery);
}

#[test]
fn media_card_reflects_the_player() {
    let none = media_card(&None);
    assert!(matches!(none.title, Label::Key("no-media")));
    assert_eq!(none.artist, "");
    assert!(none.play_pause.is_none());
    let p = PlayerStatus {
        icon: None,
        title: None,
        artists: Some(vec![]),
        status: PlaybackStatus::Playing,
        can_pause: true,
        can_play: true,
        can_go_previous: false,
        can_go_next: true,
    };
    let c = media_card(&Some(p));
    assert!(matches!(&c.title, Label::Text(t) if t == "Unknown Title"));
    assert_eq!(c.artist, "Unknown Artist");
    assert_eq!(c.play_pause_icon, "media-playback-pause-symbolic");
    assert!(matches!(c.play_pause, Some(Message::MediaPause)));
    assert!(c.previous.is_none());
    assert!(matches!(c.next, Some(Message::MediaNext)));
}

#[test]
fn detail_pages_have_headers() {
    let mut m = AppModel::default();
    assert!(m.page_header().is_none());
    m.update(Message::Navigate(AppView::AudioDetails), env());
    let h = m.page_header().unwrap();
    assert_eq!(h.title, "audio-devices");
    assert_eq!(h.toggle_icon, "emblem-enabled-symbolic");
    assert!(matches!(h.on_toggle, Message::ToggleGlobalMute(true)));
    let d = detail_header("x", false, Message::Refresh, Message::Refresh);
    assert_eq!(d.toggle_icon, "window-close-symbolic");
}

#[test]
fn device_rows_and_bluetooth_page() {
    let r = device_row(&device("Buds", 1, BluerDeviceStatus::Connected, true, "audio-headphones-symbolic"));
    assert_eq!(r.status, "connected");
    assert!(matches!(r.action, BluerRequest::DisconnectDevice(_)));
    let r = device_row(&device("Pad", 2, BluerDeviceStatus::Disconnected, false, DEFAULT_DEVICE_ICON));
    assert_eq!(r.status, "available");
    assert!(matches!(r.action, BluerRequest::PairDevice(_)));
    assert_eq!(battery_label(55), "55%");
    assert_eq!(battery_label(100), "100%");

    let mut m = AppModel::default();
    assert!(matches!(m.bluetooth_page(), BluetoothPage::Disabled));
    m.bluetooth.bluer_state = BluerState { devices: vec![], bluetooth_enabled: true };
    assert!(matches!(m.bluetooth_page(), BluetoothPage::NoDevices));
    m.bluetooth.bluer_state.devices = vec![
        device("Buds", 1, BluerDeviceStatus::Connected, true, "audio-headphones-symbolic"),
        device("01:02:03:04:05:02", 2, BluerDeviceStatus::Disconnected, false, DEFAULT_DEVICE_ICON),
        device("Speaker", 3, BluerDeviceStatus::Disconnected, false, DEFAULT_DEVICE_ICON),
    ];
    m.bluetooth.show_visible_devices = true;
    match m.bluetooth_page() {
        BluetoothPage::Devices { paired, has_unpaired, show_unpaired, on_toggle_unpaired, unpaired } => {
            assert!(matches!(on_toggle_unpaired, Message::ToggleVisibleDevices(false)));
            assert_eq!(paired.len(), 1);
            assert!(has_unpaired);
            assert!(show_unpaired);
            assert_eq!(unpaired.len(), 1);
            assert_eq!(unpaired[0].name, "Speaker");
        },
        other => panic!("unexpected {other:?}"),
    }
    m.bluetooth.request_confirmation = Some((device("Buds", 1, BluerDeviceStatus::Pairing, false, DEFAULT_DEVICE_ICON), "123456".to_string()));
    match m.bluetooth_page() {
        BluetoothPage::Pairing { device_name, code, on_cancel, on_confirm } => {
            assert_eq!(device_name, "Buds");
            assert_eq!(code, "123456");
            assert!(matches!(on_cancel, Message::CancelPairing));
            assert!(matches!(on_confirm, Message::ConfirmPairing));
        },
        other => panic!("unexpected {other:?}"),
    }
}

#[test]
fn vpn_page_lists_known_vpns() {
    let mut m = AppModel::default();
    m.network.known_vpns = collect_known_vpns(&vec![
        ("u1".to_string(), ConnectionSettings::Wireguard { id: "wg".to_string() }),
        ("u2".to_string(), ConnectionSettings::Wireguard { id: "office".to_string() }),
    ]);
    m.network.nm_state.active_conns = vec![ActiveConnectionInfo::Vpn { name: "office".to_string() }];
    match m.vpn_page() {
        VpnPage::Connections(rows) => {
            assert_eq!(rows.len(), 2);
            assert_eq!(rows[0].uuid, "u1");
            assert!(!rows[0].active);
            assert!(matches!(rows[0].action(), Message::ActivateVpn(u) if u == "u1"));
            assert!(rows[1].active);
            assert!(matches!(rows[1].action(), Message::DeactivateVpn(u) if u == "u2"));
        },
        other => panic!("unexpected {other:?}"),
    }
}

#[test]
fn audio_page_lists_devices_when_unfolded() {
    let names = vec!["Speakers".to_string(), "Headset".to_string()];
    let r = revealer(true, &names, Some(1), "none", AudioList::Outputs);
    assert!(matches!(r.on_toggle, Message::OutputToggle));
    assert_eq!(r.on_choose.len(), 2);
    assert!(matches!(r.on_choose[0], Message::SetDefaultSink(0)));
    assert!(matches!(r.on_choose[1], Message::SetDefaultSink(1)));
    assert_eq!(r.selected, "Headset");
    assert_eq!(r.choices, names);
    let r = revealer(false, &names, Some(5), "none", AudioList::Inputs);
    assert!(matches!(r.on_toggle, Message::InputToggle));
    assert!(r.on_choose.is_empty());
    assert_eq!(r.selected, "none");
    assert!(r.choices.is_empty());
    let mut m = AppModel::default();
    m.ui.is_open = IsOpen::Output;
    let page = m.audio_page(0, false, &names, None, &vec![], None);
    assert_eq!(page.outputs.selected, "No output device");
    assert_eq!(page.outputs.choices.len(), 2);
    assert_eq!(page.inputs.selected, "No input device");
    assert_eq!(page.input_icon, "microphone-sensitivity-muted-symbolic");
    assert_eq!(page.output_max, 150);
    assert!(matches!(page.outputs.on_choose[1], Message::SetDefaultSink(1)));
    assert!(matches!(page.outputs.on_toggle, Message::OutputToggle));
    assert!(matches!(page.inputs.on_toggle, Message::InputToggle));
    assert!(matches!(page.output_button, Message::ToggleGlobalMute(true)));
    assert!(matches!(page.input_button, Message::ToggleSourceMute));
}

#[test]
fn footer_and_sliders_send_their_messages() {
    let f = footer();
    assert!(matches!(f.settings, Message::OpenSettings(None)));
    assert!(matches!(f.lock, Message::LockScreen));
    assert!(matches!(f.log_out, Message::LogOut));
    assert!(matches!(f.suspend, Message::Suspend));
    assert!(matches!(f.power_off, Message::PowerOff));
    assert!(matches!(SliderKind::Volume.message(70), Message::SetVolume(70)));
    assert!(matches!(SliderKind::Microphone.message(20), Message::SetSourceVolume(20)));
    assert!(matches!(SliderKind::DisplayBrightness.message(5), Message::SetBrightness(5)));
    assert!(matches!(SliderKind::KeyboardBrightness.message(9), Message::SetKbdBrightness(9)));
    let mut m = AppModel::default();
    m.audio.sound_available = true;
    assert!(matches!(m.slider_rows().audio_chevron, Some(Message::Navigate(AppView::AudioDetails))));
}

#[test]
fn vpn_password_form_sends_its_messages() {
    let mut m = AppModel::default();
    m.network.requested_vpn = Some(RequestedVpn {
        name: "Office".to_string(),
        uuid: "u9".to_string(),
        description: None,
        password: "pw".to_string(),
        password_hidden: true,
    });
    match m.vpn_page() {
        VpnPage::PasswordForm { title, password, password_hidden, on_toggle_visibility, on_cancel, on_submit } => {
            assert_eq!(title, "u9");
            assert_eq!(password, "pw");
            assert!(password_hidden);
            assert!(matches!(on_toggle_visibility, Message::ToggleVpnPasswordVisibility));
            assert!(matches!(on_cancel, Message::CancelVPNConnection));
            assert!(matches!(on_submit, Message::ConnectVPNWithPassword));
        },
        other => panic!("unexpected {other:?}"),
    }
    assert!(matches!(vpn_password_edited("x".to_string()), Message::VPNPasswordUpdate(t) if t == "x"));
}

#[test]
fn wifi_page_lists_networks_only_while_enabled() {
    let mut m = AppModel::default();
    assert!(matches!(m.wifi_page(), WifiPage::Disabled));
    m.network.nm_state.wifi_enabled = true;
    m.network.nm_state.wireless_access_points = vec![ap("b", 10, 1), ap("a", 90, 2)];
    match m.wifi_page() {
        WifiPage::Networks { rows, on_press } => {
            assert!(matches!(&on_press, Message::OpenSettings(Some(p)) if p == "wifi"));
            assert_eq!(rows.len(), 2);
            assert_eq!(rows[0].name, "a");
            assert_eq!(rows[1].name, "b");
        },
        other => panic!("unexpected {other:?}"),
    }
}

#[test]
fn battery_durations_are_written_compactly() {
    assert_eq!(duration_text(0, 45), "45m");
    assert_eq!(duration_text(2, 0), "2h");
    assert_eq!(duration_text(1, 30), "1h 30m");
    assert_eq!(duration_text(0, 0), "0m");
    assert_eq!(duration_text(-1, -5), "-1h -5m");
    assert_eq!(duration_text(i64::MIN, 1), format!("{}h 1m", i64::MIN));
}
