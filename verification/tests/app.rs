use singularity::app::{
    scale_brightness, Action, AppModel, AppView, BrightnessEvent, DeviceEvent, Env, IsOpen, Message,
    NmEvent, NmRequest, PowerAction, PowerProfile, SoundMessage, SoundOp, WpctlCommand,
};
use singularity::bluetooth::{Address, BluerAgentEvent, BluerDevice, BluerDeviceStatus, BluerEvent, BluerRequest};
use singularity::config::Config;
use singularity::views::VpnPage;
use singularity::network::{
    ConnectionSettings, AccessPoint, ActiveConnectionInfo, HwAddress, NetworkManagerState, NetworkType, NewConnectionState,
};

fn env() -> Env {
    Env { nm_sender_closed: false, has_main_window: true }
}

fn closed_env() -> Env {
    Env { nm_sender_closed: true, has_main_window: true }
}

fn ap(ssid: &str, hw: u64, network_type: NetworkType) -> AccessPoint {
    AccessPoint {
        ssid: ssid.to_string(),
        strength: 60,
        state: 0,
        working: false,
        path: "/ap".to_string(),
        hw_address: HwAddress { address: hw },
        network_type,
    }
}

fn with_network(aps: Vec<AccessPoint>, known: Vec<AccessPoint>) -> AppModel {
    let mut m = AppModel::default();
    let state = NetworkManagerState {
        wifi_enabled: true,
        active_conns: vec![],
        wireless_access_points: aps,
        known_access_points: known,
    };
    let acts = m.update(Message::NetworkManager(NmEvent::Init { state }), env());
    assert_eq!(acts.len(), 2);
    assert!(matches!(acts[0], Action::SendNm(NmRequest::Reload)));
    assert!(matches!(acts[1], Action::RefreshNetwork));
    m
}

#[test]
fn a_fresh_applet_starts_on_the_main_page() {
    let m = AppModel::new(Config::default());
    assert!(!m.ui.popup_open);
    assert_eq!(m.ui.current_view, AppView::Main);
    assert_eq!(m.ui.is_open, IsOpen::Neither);
    assert_eq!(m.audio.volume, 50);
    assert_eq!(m.display.brightness, 75);
    assert_eq!(m.power.power_profile, PowerProfile::Balanced);
    assert!(!m.network.has_nm_sender);
    assert!(m.player_status.is_none());
}

#[test]
fn power_profile_cycles_through_three() {
    let mut m = AppModel::default();
    let start = m.power.power_profile;
    let mut seen = vec![start];
    for _ in 0..3 {
        assert!(m.update(Message::CyclePowerProfile, env()).is_empty());
        seen.push(m.power.power_profile);
    }
    assert_eq!(seen[3], start);
    assert_ne!(seen[1], start);
    assert_ne!(seen[2], start);
    assert_ne!(seen[1], seen[2]);
    assert_eq!(PowerProfile::Balanced.next().next().next(), PowerProfile::Balanced);
}

#[test]
fn popup_opens_and_closes_on_the_main_page() {
    let mut m = AppModel::default();
    m.update(Message::Navigate(AppView::WifiDetails), env());
    let acts = m.update(Message::TogglePopup, env());
    assert!(m.ui.popup_open);
    assert_eq!(m.ui.current_view, AppView::Main);
    assert_eq!(acts.len(), 2);
    assert!(matches!(acts[0], Action::SetDiscovery(true)));
    assert!(matches!(acts[1], Action::OpenPopup));
    let acts = m.update(Message::TogglePopup, env());
    assert!(!m.ui.popup_open);
    assert_eq!(acts.len(), 1);
    assert!(matches!(acts[0], Action::DestroyPopup));
    let acts = m.update(Message::TogglePopup, Env { nm_sender_closed: false, has_main_window: false });
    assert!(!m.ui.popup_open);
    assert!(matches!(acts[..], [Action::SetDiscovery(false)]));
}

#[test]
fn navigation_shows_the_page() {
    let mut m = AppModel::default();
    assert!(m.update(Message::Navigate(AppView::BluetoothDetails), env()).is_empty());
    assert_eq!(m.ui.current_view, AppView::BluetoothDetails);
}

#[test]
fn screenshot_waits_for_the_popup_to_close() {
    let mut m = AppModel::default();
    m.update(Message::TogglePopup, env());
    let acts = m.update(Message::TakeScreenshot, env());
    assert!(matches!(acts[..], [Action::DestroyPopup]));
    assert!(m.ui.pending_screenshot);
    let acts = m.update(Message::PopupClosed { is_current: false }, env());
    assert!(matches!(acts[..], [Action::Dispatch(Message::ExecuteScreenshot)]));
    assert!(!m.ui.pending_screenshot);
    let acts = m.update(Message::ExecuteScreenshot, env());
    match &acts[..] {
        [Action::RunScreenshot(cmd)] => assert_eq!(cmd, "cosmic-screenshot"),
        other => panic!("unexpected {other:?}"),
    }
    let mut c = Config::default();
    c.screenshot_command = "grim".to_string();
    m.update(Message::UpdateConfig(c), env());
    assert_eq!(m.screenshot_command(), "grim");
}

#[test]
fn closing_the_current_popup_stops_discovery() {
    let mut m = AppModel::default();
    m.update(Message::TogglePopup, env());
    m.update(Message::Navigate(AppView::WifiDetails), env());
    let acts = m.update(Message::PopupClosed { is_current: true }, env());
    assert!(matches!(acts[..], [Action::SetDiscovery(false)]));
    assert!(!m.ui.popup_open);
    assert_eq!(m.ui.current_view, AppView::Main);
    let acts = m.update(Message::PopupClosed { is_current: false }, env());
    assert!(acts.is_empty());
}

#[test]
fn screenshot_without_popup_runs_at_once() {
    let mut m = AppModel::default();
    let acts = m.update(Message::TakeScreenshot, env());
    assert!(matches!(acts[..], [Action::Dispatch(Message::ExecuteScreenshot)]));
}

#[test]
fn session_buttons_ask_for_their_action() {
    let mut m = AppModel::default();
    assert!(matches!(m.update(Message::LockScreen, env())[..], [Action::Power(PowerAction::LockScreen)]));
    assert!(matches!(m.update(Message::LogOut, env())[..], [Action::Power(PowerAction::LogOut)]));
    assert!(matches!(m.update(Message::Suspend, env())[..], [Action::Power(PowerAction::Suspend)]));
    assert!(matches!(m.update(Message::PowerOff, env())[..], [Action::Power(PowerAction::PowerOff)]));
}

#[test]
fn audio_lists_fold_and_unfold() {
    let mut m = AppModel::default();
    m.update(Message::OutputToggle, env());
    assert_eq!(m.ui.is_open, IsOpen::Output);
    m.update(Message::InputToggle, env());
    assert_eq!(m.ui.is_open, IsOpen::Input);
    m.update(Message::InputToggle, env());
    assert_eq!(m.ui.is_open, IsOpen::Neither);
}

#[test]
fn sound_messages_are_mirrored() {
    let mut m = AppModel::default();
    let acts = m.update(Message::SetVolume(80), env());
    assert_eq!(m.audio.volume, 80);
    assert!(matches!(acts[..], [Action::Sound(SoundOp::SetSinkVolume(80))]));
    let acts = m.update(Message::Sound(SoundMessage::SinkVolumeApply), env());
    assert!(matches!(acts[..], [Action::Wpctl(WpctlCommand::SetSinkVolume(80)), Action::Sound(SoundOp::Update)]));
    assert!(m.audio.sound_available);
    let acts = m.update(Message::ToggleGlobalMute(true), env());
    assert!(matches!(acts[..], [Action::Wpctl(WpctlCommand::ToggleSinkMute), Action::Sound(SoundOp::ToggleSinkMute)]));
    m.update(Message::SoundSynced { sink_volume: 30, sink_mute: true }, env());
    assert_eq!(m.audio.volume, 30);
    assert!(m.audio.global_mute);
}

#[test]
fn brightness_slider_scales_to_the_device() {
    assert_eq!(scale_brightness(100, 937), 937);
    assert_eq!(scale_brightness(50, 937), 468);
    assert_eq!(scale_brightness(0, 937), 0);
    assert_eq!(scale_brightness(33, 255), 84);
    assert_eq!(scale_brightness(10, -5), 0);
    assert_eq!(scale_brightness(u32::MAX, 1), 0);
    assert_eq!(scale_brightness(u32::MAX - 299, 1), -3);
    let mut m = AppModel::default();
    assert!(m.update(Message::SetBrightness(40), env()).is_empty());
    assert_eq!(m.display.brightness, 40);
    m.update(Message::Brightness(BrightnessEvent::Sender), env());
    m.update(Message::Brightness(BrightnessEvent::MaxBrightness(400)), env());
    let acts = m.update(Message::SetBrightness(25), env());
    assert!(matches!(acts[..], [Action::SetDisplayBrightness(100)]));
    m.update(Message::KbdBacklight(BrightnessEvent::Sender), env());
    m.update(Message::KbdBacklight(BrightnessEvent::MaxBrightness(3)), env());
    let acts = m.update(Message::SetKbdBrightness(100), env());
    assert!(matches!(acts[..], [Action::SetKbdBrightness(3)]));
    m.update(Message::Brightness(BrightnessEvent::Brightness { percent: 90 }), env());
    assert_eq!(m.display.brightness, 90);
}

#[test]
fn battery_events_update_the_power_state() {
    let mut m = AppModel::default();
    m.update(Message::UPowerDevice(DeviceEvent::Update { on_battery: true, time_to_empty: 3600, time_to_full: 0 }), env());
    assert!(!m.power.battery_charging);
    assert_eq!(m.power.time_to_empty, Some(3600));
    assert_eq!(m.power.time_to_full, None);
    m.update(Message::UPowerDevice(DeviceEvent::NoBattery), env());
    assert!(!m.power.has_battery);
}

#[test]
fn bluetooth_toggle_goes_through_a_request() {
    let mut m = AppModel::default();
    let acts = m.update(Message::ToggleBluetooth(true), env());
    assert!(matches!(acts[..], [Action::Dispatch(Message::BluetoothRequest(BluerRequest::SetBluetoothEnabled(true)))]));
    let acts = m.update(Message::BluetoothRequest(BluerRequest::SetBluetoothEnabled(true)), env());
    assert!(acts.is_empty());
    assert!(m.bluetooth.bluer_state.bluetooth_enabled);
}

#[test]
fn network_manager_start_brings_the_channel() {
    let m = with_network(vec![ap("cafe", 1, NetworkType::Open)], vec![]);
    assert!(m.network.has_nm_sender);
    assert!(m.network.network_available);
    assert!(m.network.nm_state.wifi_enabled);
    assert!(!m.network.vpn_active);
}

#[test]
fn wifi_toggle_needs_the_channel() {
    let mut m = AppModel::default();
    assert!(m.update(Message::ToggleWifi(true), env()).is_empty());
    let mut m = with_network(vec![], vec![]);
    assert!(matches!(m.update(Message::ToggleWifi(false), env())[..], [Action::SendNm(NmRequest::SetWiFi(false))]));
}

#[test]
fn open_networks_are_joined_at_once() {
    let mut m = with_network(vec![ap("cafe", 1, NetworkType::Open)], vec![]);
    let acts = m.update(Message::SelectWirelessAccessPoint(ap("cafe", 1, NetworkType::Open)), env());
    match &acts[..] {
        [Action::SendNm(NmRequest::SelectAccessPoint { ssid, network_type: NetworkType::Open })] => assert_eq!(ssid, "cafe"),
        other => panic!("unexpected {other:?}"),
    }
    assert!(matches!(m.network.new_connection, Some(NewConnectionState::Waiting(_))));
}

#[test]
fn a_closed_channel_asks_for_a_reconnection() {
    let mut m = with_network(vec![ap("cafe", 1, NetworkType::Open)], vec![]);
    let acts = m.update(Message::SelectWirelessAccessPoint(ap("cafe", 1, NetworkType::Open)), closed_env());
    assert_eq!(acts.len(), 2);
    assert!(matches!(acts[1], Action::ReconnectSystemBus));
    assert!(m.network.new_connection.is_none());
}

#[test]
fn login_sends_the_typed_password() {
    let mut m = with_network(vec![ap("home", 2, NetworkType::PSK)], vec![]);
    let acts = m.update(Message::SelectWirelessAccessPoint(ap("home", 2, NetworkType::PSK)), env());
    assert!(acts.is_empty());
    assert!(matches!(m.network.new_connection, Some(NewConnectionState::EnterPassword { .. })));
    m.update(Message::PasswordUpdate("hunter2".to_string()), env());
    m.update(Message::TogglePasswordVisibility, env());
    m.update(Message::TogglePasswordVisibility, env());
    let acts = m.update(Message::ConnectWithPassword, env());
    match &acts[..] {
        [Action::SendNm(NmRequest::Authenticate { ssid, identity: None, password })] => {
            assert_eq!(ssid, "home");
            assert_eq!(password, "hunter2");
        },
        other => panic!("unexpected {other:?}"),
    }
    assert!(matches!(m.network.new_connection, Some(NewConnectionState::Waiting(_))));
}

#[test]
fn known_secured_networks_are_tried_at_once() {
    let known = ap("home", 2, NetworkType::PSK);
    let mut m = with_network(vec![known.clone()], vec![known.clone()]);
    let acts = m.update(Message::SelectWirelessAccessPoint(known), env());
    assert!(matches!(acts[..], [Action::SendNm(NmRequest::SelectAccessPoint { network_type: NetworkType::PSK, .. })]));
    assert!(matches!(m.network.new_connection, Some(NewConnectionState::EnterPassword { .. })));
}

#[test]
fn resetting_a_failed_network_forgets_and_chooses_it_again() {
    let known = ap("home", 2, NetworkType::PSK);
    let mut m = with_network(vec![known.clone()], vec![known.clone()]);
    let acts = m.update(Message::ResetFailedKnownSsid("home".to_string(), HwAddress { address: 2 }), env());
    assert!(matches!(&acts[0], Action::SendNm(NmRequest::Forget(s)) if s == "home"));
    assert!(m.network.nm_state.known_access_points.is_empty());
    assert!(m.network.show_visible_networks);
    assert!(matches!(m.network.new_connection, Some(NewConnectionState::EnterPassword { .. })));
    let mut n = with_network(vec![], vec![]);
    assert!(n.update(Message::ResetFailedKnownSsid("none".to_string(), HwAddress { address: 5 }), env()).is_empty());
}

#[test]
fn visible_network_list_toggles() {
    let mut m = AppModel::default();
    m.update(Message::ToggleVisibleNetworks, env());
    assert!(m.network.show_visible_networks);
    m.update(Message::ToggleVisibleNetworks, env());
    assert!(!m.network.show_visible_networks);
}

#[test]
fn vpn_state_follows_active_connections() {
    let mut m = AppModel::default();
    let state = NetworkManagerState {
        wifi_enabled: true,
        active_conns: vec![ActiveConnectionInfo::Vpn { name: "work".to_string() }],
        wireless_access_points: vec![],
        known_access_points: vec![],
    };
    m.update(Message::NetworkManager(NmEvent::Init { state }), env());
    assert!(m.network.vpn_active);
    m.update(Message::NetworkManager(NmEvent::WiFiEnabled(false)), env());
    assert!(!m.network.nm_state.wifi_enabled);
}

#[test]
fn known_connections_keep_the_last_settings_of_a_uuid() {
    let mut m = AppModel::default();
    let acts = m.update(
        Message::KnownConnections(vec![
            ("u1".to_string(), ConnectionSettings::Wireguard { id: "old".to_string() }),
            ("u2".to_string(), ConnectionSettings::Wireguard { id: "b".to_string() }),
            ("u1".to_string(), ConnectionSettings::Wireguard { id: "new".to_string() }),
        ]),
        env(),
    );
    assert!(acts.is_empty());
    match m.vpn_page() {
        VpnPage::Connections(rows) => {
            let ids: Vec<(&str, &str)> = rows.iter().map(|r| (r.uuid.as_str(), r.id.as_str())).collect();
            assert_eq!(ids, vec![("u1", "new"), ("u2", "b")]);
        },
        other => panic!("unexpected {other:?}"),
    }
}

#[test]
fn a_pairing_confirmation_is_answered_once() {
    let d = BluerDevice {
        name: "Buds".to_string(),
        icon: "audio-headphones-symbolic",
        address: Address([1, 2, 3, 4, 5, 6]),
        status: BluerDeviceStatus::Pairing,
        battery_percent: None,
        is_paired: false,
        is_trusted: false,
    };
    let mut m = AppModel::default();
    let acts = m.update(
        Message::BluetoothEvent(BluerEvent::AgentEvent(BluerAgentEvent::RequestConfirmation(d, "123456".to_string()))),
        env(),
    );
    assert!(matches!(acts[..], [Action::KeepPairingReply]));
    assert!(m.bluetooth.request_confirmation.is_some());
    assert!(matches!(m.update(Message::ConfirmPairing, env())[..], [Action::AnswerPairing(true)]));
    assert!(m.update(Message::CancelPairing, env()).is_empty());
    assert!(m.bluetooth.request_confirmation.is_none());
}

#[test]
fn discovery_is_on_while_the_popup_is_open() {
    let mut m = AppModel::default();
    assert!(!m.ui.discovery);
    m.update(Message::TogglePopup, env());
    assert!(m.ui.popup_open && m.ui.discovery);
    m.update(Message::Navigate(AppView::VpnDetails), env());
    assert!(m.ui.discovery);
    m.update(Message::PopupClosed { is_current: true }, env());
    assert!(!m.ui.popup_open && !m.ui.discovery);
}
