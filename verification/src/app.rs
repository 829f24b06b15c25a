//! The applet's state and how each message changes it.
//!
//! `AppModel::update` takes a message and returns the outside work to perform,
//! in order, as `Action`s. The runtime performs them and feeds their results
//! back as messages.

use vstd::prelude::*;

use crate::bluetooth::{BluerEvent, BluerRequest, BluerState};
use crate::config::Config;
use crate::mpris::{MprisRequest, MprisUpdate, PlayerStatus};
use crate::bluetooth_model::BluetoothModel;
use crate::network::{
    collect_known_vpns, folded_entries, known_vpns_new, pairs_view, vpn_entries, AccessPoint,
    ConnectionSettings, HwAddress, NetworkManagerState, NetworkType, NewConnectionState, RequestedVpn,
};
use crate::bluetooth_model::{bluetooth_event_effect, optimistic_state};
use crate::network_model::{
    connect_effect, connect_with_password_effect, deactivate_acts, disconnect_effect,
    nm_event_effect, reset_failed_effect, secret_effect, select_ap_effect, NetworkModel,
};

verus! {

/// Which device list of the audio view is unfolded.
#[derive(Clone, Copy, Debug, PartialEq, Eq, Structural)]
pub enum IsOpen {
    /// Neither list is unfolded.
    Neither,
    Output,
    Input,
}

/// The page shown in the popup.
#[derive(Clone, Copy, Debug, PartialEq, Eq, Structural)]
pub enum AppView {
    Main,
    WifiDetails,
    BluetoothDetails,
    VpnDetails,
    AudioDetails,
}

/// The power profile tile's state.
#[derive(Clone, Copy, Debug, PartialEq, Eq, Structural)]
pub enum PowerProfile {
    Balanced,
    Performance,
    PowerSaver,
}

impl PowerProfile {
    /// The profile after this one in the cycle Balanced, Performance, PowerSaver.
    pub open spec fn successor(self) -> PowerProfile {
        match self {
            PowerProfile::Balanced => PowerProfile::Performance,
            PowerProfile::Performance => PowerProfile::PowerSaver,
            PowerProfile::PowerSaver => PowerProfile::Balanced,
        }
    }

    /// The profile the power tile switches to.
    pub fn next(&self) -> (r: Self)
        ensures
            r == self.successor(),
    {
        match self {
            PowerProfile::Balanced => PowerProfile::Performance,
            PowerProfile::Performance => PowerProfile::PowerSaver,
            PowerProfile::PowerSaver => PowerProfile::Balanced,
        }
    }
}

/// Cycling the power profile three times comes back to where it started, and no
/// fewer steps do.
pub proof fn lemma_power_profile_cycle(p: PowerProfile)
    ensures
        p.successor().successor().successor() == p,
        p.successor() != p,
        p.successor().successor() != p,
{
}

/// A request to Network Manager.
#[derive(Clone, Debug)]
pub enum NmRequest {
    SetWiFi(bool),
    Reload,
    SelectAccessPoint { ssid: String, network_type: NetworkType },
    Authenticate { ssid: String, identity: Option<String>, password: String },
    Disconnect(String),
    Forget(String),
    Deactivate(String),
}

/// The request a Network Manager response answers, as far as the applet reads it.
#[derive(Clone, Debug)]
pub enum NmRequestKind {
    SelectAccessPoint(String),
    Authenticate(String),
    Other,
}

/// An event of the Network Manager subscription. `Init` comes with the request
/// channel and the bus connection, which the runtime keeps.
#[derive(Clone, Debug)]
pub enum NmEvent {
    Init { state: NetworkManagerState },
    RequestResponse { state: NetworkManagerState, success: bool, req: NmRequestKind },
    Devices,
    WirelessAccessPoints,
    ActiveConns,
    WiFiCredentials,
    WiFiEnabled(bool),
}

/// An event of the Network Manager secret agent. A secret request comes with a
/// reply channel, which the runtime keeps.
#[derive(Clone, Debug)]
pub enum SecretEvent {
    RequestSecret { uuid: String, name: String, description: Option<String>, previous: String },
    CancelGetSecrets,
    Failed(String),
}

/// An event of the battery subscription (the charge level itself is shown by
/// the runtime).
#[derive(Clone, Copy, Debug)]
pub enum DeviceEvent {
    NoBattery,
    Update { on_battery: bool, time_to_empty: i64, time_to_full: i64 },
}

/// An event of a brightness subscription (display or keyboard). `Brightness`
/// carries the level as a percentage of the maximum, computed by the runtime.
#[derive(Clone, Copy, Debug)]
pub enum BrightnessEvent {
    Sender,
    Brightness { percent: u32 },
    MaxBrightness(i32),
}

/// A message of the sound subscription, as far as the applet reads it; the
/// runtime keeps the message itself for the sound model.
#[derive(Clone, Copy, Debug, PartialEq, Eq, Structural)]
pub enum SoundMessage {
    SinkVolumeApply,
    SourceVolumeApply,
    Other,
}

/// What the applet reacts to.
#[derive(Clone, Debug)]
pub enum Message {
    TogglePopup,
    /// The popup window closed; `is_current` tells whether it is the one the
    /// applet opened.
    PopupClosed { is_current: bool },
    Navigate(AppView),
    ToggleWifi(bool),
    ToggleBluetooth(bool),
    ToggleVpn(bool),
    ToggleGlobalMute(bool),
    CyclePowerProfile,
    SetVolume(u32),
    SetSourceVolume(u32),
    SetBrightness(u32),
    SetKbdBrightness(u32),
    SetDefaultSink(usize),
    SetDefaultSource(usize),
    MediaPlay,
    MediaPause,
    MediaNext,
    MediaPrevious,
    MprisEvent(MprisUpdate),
    TakeScreenshot,
    ExecuteScreenshot,
    LockScreen,
    LogOut,
    PowerOff,
    Suspend,
    OpenSettings(Option<String>),
    OutputToggle,
    InputToggle,
    ToggleSourceMute,
    UpdateConfig(Config),
    UPowerDevice(DeviceEvent),
    KbdBacklight(BrightnessEvent),
    Brightness(BrightnessEvent),
    NetworkManager(NmEvent),
    Sound(SoundMessage),
    /// The sound model toggled the sink's mute; this is its new state.
    SinkMuteChanged(bool),
    /// The sound model processed a message; these are its sink volume and mute.
    SoundSynced { sink_volume: u32, sink_mute: bool },
    ToggleVisibleNetworks,
    SelectWirelessAccessPoint(AccessPoint),
    CancelNewConnection,
    Connect(String, HwAddress),
    ConnectWithPassword,
    Disconnect(String, HwAddress),
    PasswordUpdate(String),
    IdentityUpdate(String),
    TogglePasswordVisibility,
    SecretAgent(SecretEvent),
    NetworkManagerConnect,
    /// Known Wi-Fi connections: network name and connection UUID.
    ConnectionSettings(Vec<(String, String)>),
    /// Known VPN connections, as UUID and settings pairs in the order read; a
    /// later pair of a UUID replaces an earlier one.
    KnownConnections(Vec<(String, ConnectionSettings)>),
    ResetFailedKnownSsid(String, HwAddress),
    ActivateVpn(String),
    DeactivateVpn(String),
    ToggleVpnPasswordVisibility,
    ConnectVPNWithPassword,
    VPNPasswordUpdate(String),
    CancelVPNConnection,
    UpdateState(NetworkManagerState),
    UpdateDevices,
    Refresh,
    Error(String),
    BluetoothEvent(BluerEvent),
    BluetoothRequest(BluerRequest),
    ConfirmPairing,
    CancelPairing,
    ToggleVisibleDevices(bool),
}

/// A `wpctl` invocation that mirrors a sound change, so that the on-screen
/// display reacts.
#[derive(Clone, Copy, Debug, PartialEq, Eq, Structural)]
pub enum WpctlCommand {
    ToggleSinkMute,
    ToggleSourceMute,
    /// Set the sink volume to this percentage.
    SetSinkVolume(u32),
    /// Set the source volume to the sound model's source volume.
    SetSourceVolumeFromModel,
}

/// An operation on the sound model.
#[derive(Clone, Copy, Debug, PartialEq, Eq, Structural)]
pub enum SoundOp {
    ToggleSinkMute,
    ToggleSourceMute,
    SetSinkVolume(u32),
    SetSourceVolume(u32),
    SetDefaultSink(usize),
    SetDefaultSource(usize),
    /// Hand the sound subscription's message to the model, then report its sink
    /// volume and mute back with `Message::SoundSynced`.
    Update,
}

/// A session action of the power buttons.
#[derive(Clone, Copy, Debug, PartialEq, Eq, Structural)]
pub enum PowerAction {
    LockScreen,
    LogOut,
    PowerOff,
    Suspend,
}

/// Outside work that a message asks for, performed by the runtime in order.
#[derive(Debug)]
pub enum Action {
    /// Deliver this message later, as the result of a task.
    Dispatch(Message),
    /// Send a request on the Network Manager channel.
    SendNm(NmRequest),
    /// The Network Manager channel is closed: open a new system bus connection
    /// and report it with `Message::NetworkManagerConnect`.
    ReconnectSystemBus,
    Wpctl(WpctlCommand),
    Sound(SoundOp),
    /// Ask the settings daemon for this raw display brightness.
    SetDisplayBrightness(i32),
    /// Ask UPower for this raw keyboard brightness.
    SetKbdBrightness(i32),
    /// Send a request to the Bluetooth session.
    SendBluetooth(BluerRequest),
    /// Keep the pairing agent's reply channel of the last agent event.
    KeepPairingReply,
    /// Answer the pending pairing confirmation.
    AnswerPairing(bool),
    /// Send a control request to the active media player.
    Media(MprisRequest),
    DestroyPopup,
    OpenPopup,
    /// Tell the Bluetooth scanner whether discovery is wanted.
    SetDiscovery(bool),
    /// Run this screenshot command through `sh -c`, then go back to the main page.
    RunScreenshot(String),
    /// Perform a session action, then go back to the main page.
    Power(PowerAction),
    /// Open the system settings, on this page if given, then go back to the main
    /// page.
    OpenSettings(Option<String>),
    /// Activate the VPN connection of this UUID.
    ConnectVpn(String),
    /// Keep the secret agent's reply channel of the last secret request.
    KeepSecretReply,
    /// Answer the secret agent with this password, then refresh.
    SendVpnPassword(String),
    /// Read Network Manager's state, devices and known VPNs again.
    RefreshNetwork,
}

/// What the runtime knows when a message arrives.
#[derive(Clone, Copy, Debug)]
pub struct Env {
    /// The Network Manager request channel no longer has a receiver.
    pub nm_sender_closed: bool,
    /// The panel button's window exists.
    pub has_main_window: bool,
}

/// Popup and page state.
#[derive(Debug)]
pub struct UiState {
    pub popup_open: bool,
    pub current_view: AppView,
    /// Which device list of the audio page is unfolded.
    pub is_open: IsOpen,
    /// A screenshot waits for the popup to close.
    pub pending_screenshot: bool,
    /// Whether Bluetooth discovery is wanted: the value last sent with
    /// `Action::SetDiscovery`.
    pub discovery: bool,
}

/// Sound state kept beside the sound model.
#[derive(Debug)]
pub struct AudioState {
    pub volume: u32,
    pub global_mute: bool,
    pub max_sink_volume: u32,
    pub max_source_volume: u32,
    pub sound_available: bool,
}

/// Display and keyboard backlight state.
#[derive(Debug)]
pub struct DisplayState {
    pub brightness: u32,
    pub max_brightness: i32,
    pub kbd_brightness: u32,
    pub max_kbd_brightness: i32,
    pub has_brightness_sender: bool,
    pub has_kbd_brightness_sender: bool,
}

/// Power profile and battery state (the charge level is kept by the runtime).
#[derive(Debug)]
pub struct PowerState {
    pub power_profile: PowerProfile,
    pub battery_charging: bool,
    pub has_battery: bool,
    pub time_to_empty: Option<i64>,
    pub time_to_full: Option<i64>,
}

/// The applet's state. Outside handles (channels, the bus connection, the sound
/// model, the media player) are kept by the runtime; the state records which of
/// them it has.
#[derive(Debug)]
pub struct AppModel {
    pub config: Config,
    pub ui: UiState,
    pub audio: AudioState,
    pub display: DisplayState,
    pub power: PowerState,
    pub network: NetworkModel,
    pub bluetooth: BluetoothModel,
    pub player_status: Option<PlayerStatus>,
}

impl AppModel {
    /// The state of a fresh applet.
    pub open spec fn is_initial(self) -> bool {
        &&& self.ui == UiState {
            popup_open: false,
            current_view: AppView::Main,
            is_open: IsOpen::Neither,
            pending_screenshot: false,
            discovery: false,
        }
        &&& self.audio == AudioState {
            volume: 50,
            global_mute: false,
            max_sink_volume: 150,
            max_source_volume: 150,
            sound_available: false,
        }
        &&& self.display == DisplayState {
            brightness: 75,
            max_brightness: 100,
            kbd_brightness: 50,
            max_kbd_brightness: 100,
            has_brightness_sender: false,
            has_kbd_brightness_sender: false,
        }
        &&& self.power == PowerState {
            power_profile: PowerProfile::Balanced,
            battery_charging: false,
            has_battery: true,
            time_to_empty: None,
            time_to_full: None,
        }
        &&& !self.network.nm_state.wifi_enabled
        &&& self.network.nm_state.active_conns@.len() == 0
        &&& self.network.nm_state.wireless_access_points@.len() == 0
        &&& self.network.nm_state.known_access_points@.len() == 0
        &&& !self.network.has_nm_sender
        &&& !self.network.has_conn
        &&& !self.network.network_available
        &&& !self.network.vpn_active
        &&& !self.network.show_visible_networks
        &&& self.network.new_connection is None
        &&& crate::network::vpn_entries(self.network.known_vpns).len() == 0
        &&& self.network.ssid_to_uuid@.len() == 0
        &&& self.network.failed_known_ssids@.len() == 0
        &&& self.network.requested_vpn is None
        &&& self.bluetooth.bluer_state.devices@.len() == 0
        &&& !self.bluetooth.bluer_state.bluetooth_enabled
        &&& !self.bluetooth.has_bluer_sender
        &&& !self.bluetooth.show_visible_devices
        &&& self.bluetooth.request_confirmation is None
        &&& !self.bluetooth.bluetooth_available
        &&& self.player_status is None
    }

    /// A fresh applet with the given configuration.
    pub fn new(config: Config) -> (r: AppModel)
        ensures
            r.config == config,
            r.is_initial(),
    {
        AppModel {
            config,
            ui: UiState {
                popup_open: false,
                current_view: AppView::Main,
                is_open: IsOpen::Neither,
                pending_screenshot: false,
                discovery: false,
            },
            audio: AudioState {
                volume: 50,
                global_mute: false,
                max_sink_volume: 150,
                max_source_volume: 150,
                sound_available: false,
            },
            display: DisplayState {
                brightness: 75,
                max_brightness: 100,
                kbd_brightness: 50,
                max_kbd_brightness: 100,
                has_brightness_sender: false,
                has_kbd_brightness_sender: false,
            },
            power: PowerState {
                power_profile: PowerProfile::Balanced,
                battery_charging: false,
                has_battery: true,
                time_to_empty: None,
                time_to_full: None,
            },
            network: NetworkModel {
                nm_state: NetworkManagerState::default(),
                has_nm_sender: false,
                has_conn: false,
                network_available: false,
                vpn_active: false,
                show_visible_networks: false,
                new_connection: None,
                known_vpns: known_vpns_new(),
                ssid_to_uuid: Vec::new(),
                failed_known_ssids: Vec::new(),
                requested_vpn: None,
            },
            bluetooth: BluetoothModel {
                bluer_state: BluerState::default(),
                has_bluer_sender: false,
                show_visible_devices: false,
                request_confirmation: None,
                bluetooth_available: false,
            },
            player_status: None,
        }
    }
}

impl Default for AppModel {
    fn default() -> (r: AppModel)
        ensures
            r.config.is_default(),
            r.is_initial(),
    {
        AppModel::new(Config::default())
    }
}

/// `a / b` rounded toward zero, as Rust's integer division rounds.
pub open spec fn div_toward_zero(a: int, b: int) -> int {
    if a >= 0 {
        a / b
    } else {
        -((-a) / b)
    }
}

/// A `u32` read as an `i32` with `as`: values above `i32::MAX` wrap to negative
/// ones.
pub open spec fn wrapped_i32(p: u32) -> int {
    if p <= i32::MAX {
        p as int
    } else {
        p as int - 0x1_0000_0000
    }
}

/// The raw device brightness for a slider percentage: `(percent as i32) * max /
/// 100`, in Rust's `i32` arithmetic.
pub open spec fn raw_brightness(percent: u32, max: i32) -> int {
    div_toward_zero(wrapped_i32(percent) * max, 100)
}

/// The slider percentage and the maximum give a raw brightness without
/// overflowing `i32`.
pub open spec fn brightness_fits(percent: u32, max: i32) -> bool {
    i32::MIN <= wrapped_i32(percent) * max <= i32::MAX
}

/// Scales a slider percentage to a raw brightness.
pub fn scale_brightness(percent: u32, max: i32) -> (r: i32)
    requires
        brightness_fits(percent, max),
    ensures
        r == raw_brightness(percent, max),
{
    let pi: i32 = percent as i32;
    assert(pi == wrapped_i32(percent)) by (bit_vector)
        requires
            pi == percent as i32,
    ;
    let p: i64 = (pi as i64) * (max as i64);
    let q: i64 = if p >= 0 {
        p / 100
    } else {
        -((-p) / 100)
    };
    q as i32
}

/// The screenshot command: the configured one, or `cosmic-screenshot` when none
/// is configured.
pub open spec fn screenshot_command_of(c: Config) -> Seq<char> {
    if c.screenshot_command@.len() == 0 {
        "cosmic-screenshot"@
    } else {
        c.screenshot_command@
    }
}

/// What the two audio list toggles do: a list that is unfolded folds, any other
/// state unfolds it.
pub open spec fn toggled(current: IsOpen, list: IsOpen) -> IsOpen {
    if current == list {
        IsOpen::Neither
    } else {
        list
    }
}

impl DisplayState {
    /// Handles an event of the display brightness subscription: the channel
    /// arrived, the brightness changed (recorded only while the maximum is
    /// positive), or the maximum changed.
    pub fn on_brightness(&mut self, event: BrightnessEvent)
        ensures
            match event {
                BrightnessEvent::Sender => *final(self) == (DisplayState { has_brightness_sender: true, ..*old(self) }),
                BrightnessEvent::Brightness { percent } => *final(self) == (if old(self).max_brightness > 0 {
                    DisplayState { brightness: percent, ..*old(self) }
                } else {
                    *old(self)
                }),
                BrightnessEvent::MaxBrightness(v) => *final(self) == (DisplayState { max_brightness: v, ..*old(self) }),
            },
    {
        match event {
            BrightnessEvent::Sender => {
                self.has_brightness_sender = true;
            },
            BrightnessEvent::Brightness { percent } => {
                if self.max_brightness > 0 {
                    self.brightness = percent;
                }
            },
            BrightnessEvent::MaxBrightness(v) => {
                self.max_brightness = v;
            },
        }
    }

    /// Handles an event of the keyboard backlight subscription, as
    /// `on_brightness` does for the display.
    pub fn on_kbd_backlight(&mut self, event: BrightnessEvent)
        ensures
            match event {
                BrightnessEvent::Sender => *final(self) == (DisplayState { has_kbd_brightness_sender: true, ..*old(self) }),
                BrightnessEvent::Brightness { percent } => *final(self) == (if old(self).max_kbd_brightness > 0 {
                    DisplayState { kbd_brightness: percent, ..*old(self) }
                } else {
                    *old(self)
                }),
                BrightnessEvent::MaxBrightness(v) => *final(self) == (DisplayState { max_kbd_brightness: v, ..*old(self) }),
            },
    {
        match event {
            BrightnessEvent::Sender => {
                self.has_kbd_brightness_sender = true;
            },
            BrightnessEvent::Brightness { percent } => {
                if self.max_kbd_brightness > 0 {
                    self.kbd_brightness = percent;
                }
            },
            BrightnessEvent::MaxBrightness(v) => {
                self.max_kbd_brightness = v;
            },
        }
    }
}

impl PowerState {
    /// Handles a battery event: no battery, or charging state and the remaining
    /// time that applies (to empty on battery, to full otherwise).
    pub fn on_upower(&mut self, event: DeviceEvent)
        ensures
            match event {
                DeviceEvent::NoBattery => *final(self) == (PowerState { has_battery: false, ..*old(self) }),
                DeviceEvent::Update { on_battery, time_to_empty, time_to_full } => *final(self) == (PowerState {
                    has_battery: true,
                    battery_charging: !on_battery,
                    time_to_empty: if on_battery { Some(time_to_empty) } else { None },
                    time_to_full: if on_battery { None } else { Some(time_to_full) },
                    ..*old(self)
                }),
            },
    {
        match event {
            DeviceEvent::NoBattery => {
                self.has_battery = false;
            },
            DeviceEvent::Update { on_battery, time_to_empty, time_to_full } => {
                self.has_battery = true;
                self.battery_charging = !on_battery;
                if on_battery {
                    self.time_to_empty = Some(time_to_empty);
                    self.time_to_full = None;
                } else {
                    self.time_to_empty = None;
                    self.time_to_full = Some(time_to_full);
                }
            },
        }
    }
}


/// The message may be handled: a brightness sent to a daemon does not overflow
/// when scaled.
pub open spec fn update_allowed(s: AppModel, msg: Message) -> bool {
    match msg {
        Message::SetBrightness(v) => s.display.has_brightness_sender ==> brightness_fits(v, s.display.max_brightness),
        Message::SetKbdBrightness(v) => s.display.has_kbd_brightness_sender ==> brightness_fits(v, s.display.max_kbd_brightness),
        _ => true,
    }
}

/// The actions that forward a slider value to a brightness daemon.
pub open spec fn brightness_acts(has_sender: bool, v: u32, max: i32, kbd: bool, acts: Seq<Action>) -> bool {
    if has_sender {
        &&& acts.len() == 1
        &&& kbd ==> (acts[0] matches Action::SetKbdBrightness(r) && r == raw_brightness(v, max))
        &&& !kbd ==> (acts[0] matches Action::SetDisplayBrightness(r) && r == raw_brightness(v, max))
    } else {
        acts == Seq::<Action>::empty()
    }
}

/// The actions of a media control: a request to the player, when there is one.
pub open spec fn media_acts(s: AppModel, req: MprisRequest) -> Seq<Action> {
    if s.player_status is Some {
        seq![Action::Media(req)]
    } else {
        Seq::<Action>::empty()
    }
}

/// How one message changes the state and what outside work it asks for.
pub open spec fn step(s: AppModel, t: AppModel, msg: Message, env: Env, acts: Seq<Action>) -> bool {
    let closed = env.nm_sender_closed;
    let none = Seq::<Action>::empty();
    match msg {
        Message::TogglePopup => if s.ui.popup_open {
            t == (AppModel { ui: UiState { popup_open: false, current_view: AppView::Main, ..s.ui }, ..s })
                && acts == seq![Action::DestroyPopup]
        } else if env.has_main_window {
            t == (AppModel { ui: UiState { popup_open: true, current_view: AppView::Main, discovery: true, ..s.ui }, ..s })
                && acts == seq![Action::SetDiscovery(true), Action::OpenPopup]
        } else {
            t == (AppModel { ui: UiState { current_view: AppView::Main, discovery: false, ..s.ui }, ..s })
                && acts == seq![Action::SetDiscovery(false)]
        },
        Message::PopupClosed { is_current } => {
            let closing = if is_current { seq![Action::SetDiscovery(false)] } else { none };
            let shot = if s.ui.pending_screenshot { seq![Action::Dispatch(Message::ExecuteScreenshot)] } else { none };
            &&& t == (AppModel { ui: t.ui, ..s })
            &&& t.ui == (UiState {
                popup_open: if is_current { false } else { s.ui.popup_open },
                current_view: if is_current { AppView::Main } else { s.ui.current_view },
                pending_screenshot: false,
                discovery: if is_current { false } else { s.ui.discovery },
                ..s.ui
            })
            &&& acts == closing + shot
        },
        Message::Navigate(v) => t == (AppModel { ui: UiState { current_view: v, ..s.ui }, ..s }) && acts == none,
        Message::ToggleWifi(v) => t == s && acts == (if s.network.has_nm_sender {
            seq![Action::SendNm(NmRequest::SetWiFi(v))]
        } else {
            none
        }),
        Message::ToggleBluetooth(v) => t == s && acts == seq![
            Action::Dispatch(Message::BluetoothRequest(BluerRequest::SetBluetoothEnabled(v))),
        ],
        Message::ToggleVpn(v) => t == (AppModel { network: NetworkModel { vpn_active: v, ..s.network }, ..s }) && acts == none,
        Message::ToggleGlobalMute(_) => t == s && acts == seq![
            Action::Wpctl(WpctlCommand::ToggleSinkMute),
            Action::Sound(SoundOp::ToggleSinkMute),
        ],
        Message::CyclePowerProfile => t == (AppModel {
            power: PowerState { power_profile: s.power.power_profile.successor(), ..s.power },
            ..s
        }) && acts == none,
        Message::SetVolume(v) => t == (AppModel { audio: AudioState { volume: v, ..s.audio }, ..s })
            && acts == seq![Action::Sound(SoundOp::SetSinkVolume(v))],
        Message::SetSourceVolume(v) => t == s && acts == seq![Action::Sound(SoundOp::SetSourceVolume(v))],
        Message::SetBrightness(v) => t == (AppModel { display: DisplayState { brightness: v, ..s.display }, ..s })
            && brightness_acts(s.display.has_brightness_sender, v, s.display.max_brightness, false, acts),
        Message::SetKbdBrightness(v) => t == (AppModel { display: DisplayState { kbd_brightness: v, ..s.display }, ..s })
            && brightness_acts(s.display.has_kbd_brightness_sender, v, s.display.max_kbd_brightness, true, acts),
        Message::SetDefaultSink(p) => t == s && acts == seq![Action::Sound(SoundOp::SetDefaultSink(p))],
        Message::SetDefaultSource(p) => t == s && acts == seq![Action::Sound(SoundOp::SetDefaultSource(p))],
        Message::MediaPlay => t == s && acts == media_acts(s, MprisRequest::Play),
        Message::MediaPause => t == s && acts == media_acts(s, MprisRequest::Pause),
        Message::MediaNext => t == s && acts == media_acts(s, MprisRequest::Next),
        Message::MediaPrevious => t == s && acts == media_acts(s, MprisRequest::Previous),
        Message::MprisEvent(update) => acts == none && match update {
            MprisUpdate::Player(status) => t == (AppModel { player_status: Some(status), ..s }),
            MprisUpdate::Finished => t == (AppModel { player_status: None, ..s }),
            MprisUpdate::Setup => t == s,
        },
        Message::TakeScreenshot => if s.ui.popup_open {
            t == (AppModel { ui: UiState { pending_screenshot: true, popup_open: false, ..s.ui }, ..s })
                && acts == seq![Action::DestroyPopup]
        } else {
            t == (AppModel { ui: UiState { pending_screenshot: true, ..s.ui }, ..s })
                && acts == seq![Action::Dispatch(Message::ExecuteScreenshot)]
        },
        Message::ExecuteScreenshot => t == s && acts.len() == 1
            && (acts[0] matches Action::RunScreenshot(cmd) && cmd@ == screenshot_command_of(s.config)),
        Message::LockScreen => t == s && acts == seq![Action::Power(PowerAction::LockScreen)],
        Message::LogOut => t == s && acts == seq![Action::Power(PowerAction::LogOut)],
        Message::PowerOff => t == s && acts == seq![Action::Power(PowerAction::PowerOff)],
        Message::Suspend => t == s && acts == seq![Action::Power(PowerAction::Suspend)],
        Message::OpenSettings(page) => t == s && acts == seq![Action::OpenSettings(page)],
        Message::OutputToggle => t == (AppModel { ui: UiState { is_open: toggled(s.ui.is_open, IsOpen::Output), ..s.ui }, ..s })
            && acts == none,
        Message::InputToggle => t == (AppModel { ui: UiState { is_open: toggled(s.ui.is_open, IsOpen::Input), ..s.ui }, ..s })
            && acts == none,
        Message::ToggleSourceMute => t == s && acts == seq![
            Action::Wpctl(WpctlCommand::ToggleSourceMute),
            Action::Sound(SoundOp::ToggleSourceMute),
        ],
        Message::UpdateConfig(c) => t == (AppModel { config: c, ..s }) && acts == none,
        Message::UPowerDevice(e) => t == (AppModel { power: t.power, ..s }) && acts == none && match e {
            DeviceEvent::NoBattery => t.power == (PowerState { has_battery: false, ..s.power }),
            DeviceEvent::Update { on_battery, time_to_empty, time_to_full } => t.power == (PowerState {
                has_battery: true,
                battery_charging: !on_battery,
                time_to_empty: if on_battery { Some(time_to_empty) } else { None },
                time_to_full: if on_battery { None } else { Some(time_to_full) },
                ..s.power
            }),
        },
        Message::KbdBacklight(e) => t == (AppModel { display: t.display, ..s }) && acts == none && match e {
            BrightnessEvent::Sender => t.display == (DisplayState { has_kbd_brightness_sender: true, ..s.display }),
            BrightnessEvent::Brightness { percent } => t.display == (if s.display.max_kbd_brightness > 0 {
                DisplayState { kbd_brightness: percent, ..s.display }
            } else {
                s.display
            }),
            BrightnessEvent::MaxBrightness(v) => t.display == (DisplayState { max_kbd_brightness: v, ..s.display }),
        },
        Message::Brightness(e) => t == (AppModel { display: t.display, ..s }) && acts == none && match e {
            BrightnessEvent::Sender => t.display == (DisplayState { has_brightness_sender: true, ..s.display }),
            BrightnessEvent::Brightness { percent } => t.display == (if s.display.max_brightness > 0 {
                DisplayState { brightness: percent, ..s.display }
            } else {
                s.display
            }),
            BrightnessEvent::MaxBrightness(v) => t.display == (DisplayState { max_brightness: v, ..s.display }),
        },
        Message::NetworkManager(e) => t == (AppModel { network: t.network, ..s }) && nm_event_effect(s.network, t.network, e, acts),
        Message::Sound(kind) => {
            let echo = match kind {
                SoundMessage::SinkVolumeApply => seq![Action::Wpctl(WpctlCommand::SetSinkVolume(s.audio.volume))],
                SoundMessage::SourceVolumeApply => seq![Action::Wpctl(WpctlCommand::SetSourceVolumeFromModel)],
                SoundMessage::Other => none,
            };
            t == (AppModel { audio: AudioState { sound_available: true, ..s.audio }, ..s })
                && acts == echo.push(Action::Sound(SoundOp::Update))
        },
        Message::SinkMuteChanged(m) => t == (AppModel { audio: AudioState { global_mute: m, ..s.audio }, ..s }) && acts == none,
        Message::SoundSynced { sink_volume, sink_mute } => t == (AppModel {
            audio: AudioState { volume: sink_volume, global_mute: sink_mute, ..s.audio },
            ..s
        }) && acts == none,
        Message::ToggleVisibleNetworks => t == (AppModel {
            network: NetworkModel { show_visible_networks: !s.network.show_visible_networks, ..s.network },
            ..s
        }) && acts == none,
        Message::SelectWirelessAccessPoint(ap) => t == (AppModel { network: t.network, ..s })
            && select_ap_effect(s.network, t.network, ap, closed, acts),
        Message::CancelNewConnection => t == (AppModel { network: NetworkModel { new_connection: None, ..s.network }, ..s })
            && acts == none,
        Message::Connect(ssid, hw) => t == (AppModel { network: t.network, ..s })
            && connect_effect(s.network, t.network, ssid, hw, closed, acts),
        Message::ConnectWithPassword => t == (AppModel { network: t.network, ..s })
            && connect_with_password_effect(s.network, t.network, closed, acts),
        Message::Disconnect(ssid, hw) => t == (AppModel { network: t.network, ..s })
            && disconnect_effect(s.network, t.network, ssid, hw, closed, acts),
        Message::PasswordUpdate(pwd) => acts == none && t == (AppModel {
            network: match s.network.new_connection {
                Some(NewConnectionState::EnterPassword { access_point, description, identity, password_hidden, .. }) =>
                    NetworkModel {
                    new_connection: Some(NewConnectionState::EnterPassword {
                        access_point,
                        description,
                        identity,
                        password: pwd,
                        password_hidden,
                    }),
                    ..s.network
                },
                _ => s.network,
            },
            ..s
        }),
        Message::IdentityUpdate(id) => acts == none && t == (AppModel {
            network: match s.network.new_connection {
                Some(NewConnectionState::EnterPassword { access_point, description, password, password_hidden, .. }) =>
                    NetworkModel {
                    new_connection: Some(NewConnectionState::EnterPassword {
                        access_point,
                        description,
                        identity: id,
                        password,
                        password_hidden,
                    }),
                    ..s.network
                },
                _ => s.network,
            },
            ..s
        }),
        Message::TogglePasswordVisibility => acts == none && t == (AppModel {
            network: match s.network.new_connection {
                Some(NewConnectionState::EnterPassword { access_point, description, identity, password, password_hidden }) =>
                    NetworkModel {
                    new_connection: Some(NewConnectionState::EnterPassword {
                        access_point,
                        description,
                        identity,
                        password,
                        password_hidden: !password_hidden,
                    }),
                    ..s.network
                },
                _ => s.network,
            },
            ..s
        }),
        Message::SecretAgent(e) => t == (AppModel { network: t.network, ..s }) && secret_effect(s.network, t.network, e, acts),
        Message::NetworkManagerConnect => t == (AppModel { network: NetworkModel { has_conn: true, ..s.network }, ..s })
            && acts == none,
        Message::ConnectionSettings(v) => t == (AppModel { network: NetworkModel { ssid_to_uuid: v, ..s.network }, ..s })
            && acts == none,
        Message::KnownConnections(v) => t == (AppModel {
            network: NetworkModel { known_vpns: t.network.known_vpns, ..s.network },
            ..s
        }) && vpn_entries(t.network.known_vpns) == folded_entries(pairs_view(v@)) && acts == none,
        Message::ResetFailedKnownSsid(ssid, hw) => t == (AppModel { network: t.network, ..s })
            && reset_failed_effect(s.network, t.network, ssid, hw, closed, acts),
        Message::ActivateVpn(uuid) => t == s && acts == (if s.network.has_nm_sender && s.network.has_conn {
            seq![Action::ConnectVpn(uuid)]
        } else {
            none
        }),
        Message::DeactivateVpn(uuid) => t == s && deactivate_acts(s.network, uuid@, closed, acts),
        Message::ToggleVpnPasswordVisibility => acts == none && t == (AppModel {
            network: match s.network.requested_vpn {
                Some(v) => NetworkModel {
                    requested_vpn: Some(RequestedVpn { password_hidden: !v.password_hidden, ..v }),
                    ..s.network
                },
                None => s.network,
            },
            ..s
        }),
        Message::ConnectVPNWithPassword => t == (AppModel { network: NetworkModel { requested_vpn: None, ..s.network }, ..s })
            && acts == match s.network.requested_vpn {
            Some(v) => seq![Action::SendVpnPassword(v.password)],
            None => none,
        },
        Message::VPNPasswordUpdate(pwd) => acts == none && t == (AppModel {
            network: match s.network.requested_vpn {
                Some(v) => NetworkModel { requested_vpn: Some(RequestedVpn { password: pwd, ..v }), ..s.network },
                None => s.network,
            },
            ..s
        }),
        Message::CancelVPNConnection => t == (AppModel { network: NetworkModel { requested_vpn: None, ..s.network }, ..s })
            && acts == none,
        Message::UpdateState(st) => t == (AppModel { network: NetworkModel { nm_state: st, ..s.network }, ..s })
            && acts == none,
        Message::UpdateDevices => t == s && acts == none,
        Message::Refresh => t == s && acts == (if s.network.has_conn { seq![Action::RefreshNetwork] } else { none }),
        Message::Error(_) => t == s && acts == none,
        Message::BluetoothEvent(e) => t == (AppModel { bluetooth: t.bluetooth, ..s })
            && bluetooth_event_effect(s.bluetooth, t.bluetooth, e, acts),
        Message::BluetoothRequest(r) => {
            &&& t == (AppModel { bluetooth: t.bluetooth, ..s })
            &&& t.bluetooth == (BluetoothModel { bluer_state: t.bluetooth.bluer_state, ..s.bluetooth })
            &&& optimistic_state(s.bluetooth.bluer_state, t.bluetooth.bluer_state, r)
            &&& acts == (if s.bluetooth.has_bluer_sender { seq![Action::SendBluetooth(r)] } else { none })
        },
        Message::ConfirmPairing => t == (AppModel {
            bluetooth: BluetoothModel { request_confirmation: None, ..s.bluetooth },
            ..s
        }) && acts == (if s.bluetooth.request_confirmation is Some { seq![Action::AnswerPairing(true)] } else { none }),
        Message::CancelPairing => t == (AppModel {
            bluetooth: BluetoothModel { request_confirmation: None, ..s.bluetooth },
            ..s
        }) && acts == (if s.bluetooth.request_confirmation is Some { seq![Action::AnswerPairing(false)] } else { none }),
        Message::ToggleVisibleDevices(e) => t == (AppModel {
            bluetooth: BluetoothModel { show_visible_devices: e, ..s.bluetooth },
            ..s
        }) && acts == none,
    }
}


impl AppModel {
    /// The screenshot command to run.
    pub fn screenshot_command(&self) -> (r: String)
        ensures
            r@ == screenshot_command_of(self.config),
    {
        if self.config.screenshot_command.as_str().unicode_len() == 0 {
            String::from_str("cosmic-screenshot")
        } else {
            self.config.screenshot_command.clone()
        }
    }

    /// Handles a message about popup, pages, screenshots and session actions.
    fn update_ui(&mut self, message: Message, env: Env) -> (acts: Vec<Action>)
        requires
            message_group(message) == 0,
            update_allowed(*old(self), message),
        ensures
            step(*old(self), *final(self), message, env, acts@),
    {
        let closed = env.nm_sender_closed;
        let mut acts: Vec<Action> = Vec::new();
        match message {
            Message::TogglePopup => {
                self.ui.current_view = AppView::Main;
                if self.ui.popup_open {
                    self.ui.popup_open = false;
                    acts.push(Action::DestroyPopup);
                } else if env.has_main_window {
                    self.ui.popup_open = true;
                    self.ui.discovery = true;
                    acts.push(Action::SetDiscovery(true));
                    acts.push(Action::OpenPopup);
                    assert(acts@ =~= seq![Action::SetDiscovery(true), Action::OpenPopup]);
                } else {
                    self.ui.discovery = false;
                    acts.push(Action::SetDiscovery(false));
                }
            },
            Message::PopupClosed { is_current } => {
                if is_current {
                    self.ui.discovery = false;
                    acts.push(Action::SetDiscovery(false));
                    self.ui.popup_open = false;
                    self.ui.current_view = AppView::Main;
                }
                let ghost first = acts@;
                if self.ui.pending_screenshot {
                    self.ui.pending_screenshot = false;
                    acts.push(Action::Dispatch(Message::ExecuteScreenshot));
                }
                assert(acts@ =~= first + (if old(self).ui.pending_screenshot {
                    seq![Action::Dispatch(Message::ExecuteScreenshot)]
                } else {
                    Seq::<Action>::empty()
                }));
            },
            Message::Navigate(v) => {
                self.ui.current_view = v;
            },
            Message::TakeScreenshot => {
                self.ui.pending_screenshot = true;
                if self.ui.popup_open {
                    self.ui.popup_open = false;
                    acts.push(Action::DestroyPopup);
                } else {
                    acts.push(Action::Dispatch(Message::ExecuteScreenshot));
                }
            },
            Message::ExecuteScreenshot => {
                acts.push(Action::RunScreenshot(self.screenshot_command()));
            },
            Message::OutputToggle => {
                self.ui.is_open = if self.ui.is_open == IsOpen::Output {
                    IsOpen::Neither
                } else {
                    IsOpen::Output
                };
            },
            Message::InputToggle => {
                self.ui.is_open = if self.ui.is_open == IsOpen::Input {
                    IsOpen::Neither
                } else {
                    IsOpen::Input
                };
            },
            Message::LockScreen => {
                acts.push(Action::Power(PowerAction::LockScreen));
            },
            Message::LogOut => {
                acts.push(Action::Power(PowerAction::LogOut));
            },
            Message::PowerOff => {
                acts.push(Action::Power(PowerAction::PowerOff));
            },
            Message::Suspend => {
                acts.push(Action::Power(PowerAction::Suspend));
            },
            Message::OpenSettings(page) => {
                acts.push(Action::OpenSettings(page));
            },
            Message::UpdateConfig(c) => {
                self.config = c;
            },
            _ => {},
        }
        acts
    }

    /// Handles a message about sound, brightness and power.
    fn update_devices(&mut self, message: Message, env: Env) -> (acts: Vec<Action>)
        requires
            message_group(message) == 1,
            update_allowed(*old(self), message),
        ensures
            step(*old(self), *final(self), message, env, acts@),
    {
        let closed = env.nm_sender_closed;
        let mut acts: Vec<Action> = Vec::new();
        match message {
            Message::ToggleGlobalMute(_) => {
                acts.push(Action::Wpctl(WpctlCommand::ToggleSinkMute));
                acts.push(Action::Sound(SoundOp::ToggleSinkMute));
                assert(acts@ =~= seq![Action::Wpctl(WpctlCommand::ToggleSinkMute), Action::Sound(SoundOp::ToggleSinkMute)]);
            },
            Message::ToggleSourceMute => {
                acts.push(Action::Wpctl(WpctlCommand::ToggleSourceMute));
                acts.push(Action::Sound(SoundOp::ToggleSourceMute));
                assert(acts@ =~= seq![Action::Wpctl(WpctlCommand::ToggleSourceMute), Action::Sound(SoundOp::ToggleSourceMute)]);
            },
            Message::SetVolume(v) => {
                self.audio.volume = v;
                acts.push(Action::Sound(SoundOp::SetSinkVolume(v)));
            },
            Message::SetSourceVolume(v) => {
                acts.push(Action::Sound(SoundOp::SetSourceVolume(v)));
            },
            Message::SetBrightness(v) => {
                self.display.brightness = v;
                if self.display.has_brightness_sender {
                    acts.push(Action::SetDisplayBrightness(scale_brightness(v, self.display.max_brightness)));
                }
            },
            Message::SetKbdBrightness(v) => {
                self.display.kbd_brightness = v;
                if self.display.has_kbd_brightness_sender {
                    acts.push(Action::SetKbdBrightness(scale_brightness(v, self.display.max_kbd_brightness)));
                }
            },
            Message::SetDefaultSink(p) => {
                acts.push(Action::Sound(SoundOp::SetDefaultSink(p)));
            },
            Message::SetDefaultSource(p) => {
                acts.push(Action::Sound(SoundOp::SetDefaultSource(p)));
            },
            Message::Sound(kind) => {
                self.audio.sound_available = true;
                match kind {
                    SoundMessage::SinkVolumeApply => {
                        acts.push(Action::Wpctl(WpctlCommand::SetSinkVolume(self.audio.volume)));
                    },
                    SoundMessage::SourceVolumeApply => {
                        acts.push(Action::Wpctl(WpctlCommand::SetSourceVolumeFromModel));
                    },
                    SoundMessage::Other => {},
                }
                let ghost echo = acts@;
                acts.push(Action::Sound(SoundOp::Update));
                assert(acts@ == echo.push(Action::Sound(SoundOp::Update)));
            },
            Message::SinkMuteChanged(m) => {
                self.audio.global_mute = m;
            },
            Message::SoundSynced { sink_volume, sink_mute } => {
                self.audio.volume = sink_volume;
                self.audio.global_mute = sink_mute;
            },
            Message::UPowerDevice(e) => {
                self.power.on_upower(e);
            },
            Message::KbdBacklight(e) => {
                self.display.on_kbd_backlight(e);
            },
            Message::Brightness(e) => {
                self.display.on_brightness(e);
            },
            Message::CyclePowerProfile => {
                self.power.power_profile = self.power.power_profile.next();
            },
            _ => {},
        }
        acts
    }

    /// Handles a message about media players.
    fn update_media(&mut self, message: Message, env: Env) -> (acts: Vec<Action>)
        requires
            message_group(message) == 2,
            update_allowed(*old(self), message),
        ensures
            step(*old(self), *final(self), message, env, acts@),
    {
        let closed = env.nm_sender_closed;
        let mut acts: Vec<Action> = Vec::new();
        match message {
            Message::MediaPlay => {
                if self.player_status.is_some() {
                    acts.push(Action::Media(MprisRequest::Play));
                }
            },
            Message::MediaPause => {
                if self.player_status.is_some() {
                    acts.push(Action::Media(MprisRequest::Pause));
                }
            },
            Message::MediaNext => {
                if self.player_status.is_some() {
                    acts.push(Action::Media(MprisRequest::Next));
                }
            },
            Message::MediaPrevious => {
                if self.player_status.is_some() {
                    acts.push(Action::Media(MprisRequest::Previous));
                }
            },
            Message::MprisEvent(update) => match update {
                MprisUpdate::Player(status) => {
                    self.player_status = Some(status);
                },
                MprisUpdate::Finished => {
                    self.player_status = None;
                },
                MprisUpdate::Setup => {},
            },
            _ => {},
        }
        acts
    }

    /// Handles a message about Wi-Fi.
    fn update_wifi(&mut self, message: Message, env: Env) -> (acts: Vec<Action>)
        requires
            message_group(message) == 3,
            update_allowed(*old(self), message),
        ensures
            step(*old(self), *final(self), message, env, acts@),
    {
        let closed = env.nm_sender_closed;
        let mut acts: Vec<Action> = Vec::new();
        match message {
            Message::ToggleWifi(v) => {
                acts = self.network.toggle_wifi(v);
            },
            Message::ToggleVpn(v) => {
                self.network.vpn_active = v;
            },
            Message::NetworkManager(e) => {
                acts = self.network.on_nm_event(e);
            },
            Message::ToggleVisibleNetworks => {
                self.network.toggle_visible_networks();
            },
            Message::SelectWirelessAccessPoint(ap) => {
                acts = self.network.select_access_point(ap, closed);
            },
            Message::CancelNewConnection => {
                self.network.cancel_new_connection();
            },
            Message::Connect(ssid, hw) => {
                acts = self.network.connect(ssid, hw, closed);
            },
            Message::ConnectWithPassword => {
                acts = self.network.connect_with_password(closed);
            },
            Message::Disconnect(ssid, hw) => {
                acts = self.network.disconnect(ssid, hw, closed);
            },
            Message::PasswordUpdate(pwd) => {
                self.network.password_update(pwd);
            },
            Message::IdentityUpdate(id) => {
                self.network.identity_update(id);
            },
            Message::TogglePasswordVisibility => {
                self.network.toggle_password_visibility();
            },
            _ => {},
        }
        acts
    }

    /// Handles a message about secrets, VPNs and Network Manager bookkeeping.
    fn update_connections(&mut self, message: Message, env: Env) -> (acts: Vec<Action>)
        requires
            message_group(message) == 4,
            update_allowed(*old(self), message),
        ensures
            step(*old(self), *final(self), message, env, acts@),
    {
        let closed = env.nm_sender_closed;
        let mut acts: Vec<Action> = Vec::new();
        match message {
            Message::SecretAgent(e) => {
                acts = self.network.on_secret(e);
            },
            Message::NetworkManagerConnect => {
                self.network.has_conn = true;
            },
            Message::ConnectionSettings(v) => {
                self.network.ssid_to_uuid = v;
            },
            Message::KnownConnections(v) => {
                self.network.known_vpns = collect_known_vpns(&v);
            },
            Message::ResetFailedKnownSsid(ssid, hw) => {
                acts = self.network.reset_failed_known_ssid(ssid, hw, closed);
            },
            Message::ActivateVpn(uuid) => {
                acts = self.network.activate_vpn(uuid);
            },
            Message::DeactivateVpn(uuid) => {
                acts = self.network.deactivate_vpn(uuid.as_str(), closed);
            },
            Message::ToggleVpnPasswordVisibility => {
                self.network.toggle_vpn_password_visibility();
            },
            Message::ConnectVPNWithPassword => {
                acts = self.network.connect_vpn_with_password();
            },
            Message::VPNPasswordUpdate(pwd) => {
                self.network.vpn_password_update(pwd);
            },
            Message::CancelVPNConnection => {
                self.network.cancel_vpn_connection();
            },
            Message::UpdateState(st) => {
                self.network.nm_state = st;
            },
            Message::UpdateDevices => {},
            Message::Refresh => {
                acts = self.network.refresh();
            },
            Message::Error(_) => {},
            _ => {},
        }
        acts
    }

    /// Handles a message about Bluetooth.
    fn update_bluetooth(&mut self, message: Message, env: Env) -> (acts: Vec<Action>)
        requires
            message_group(message) == 5,
            update_allowed(*old(self), message),
        ensures
            step(*old(self), *final(self), message, env, acts@),
    {
        let closed = env.nm_sender_closed;
        let mut acts: Vec<Action> = Vec::new();
        match message {
            Message::ToggleBluetooth(v) => {
                acts.push(Action::Dispatch(Message::BluetoothRequest(BluerRequest::SetBluetoothEnabled(v))));
            },
            Message::BluetoothEvent(e) => {
                acts = self.bluetooth.on_event(e);
            },
            Message::BluetoothRequest(r) => {
                acts = self.bluetooth.on_request(r);
            },
            Message::ConfirmPairing => {
                acts = self.bluetooth.answer_pairing(true);
            },
            Message::CancelPairing => {
                acts = self.bluetooth.answer_pairing(false);
            },
            Message::ToggleVisibleDevices(e) => {
                self.bluetooth.show_visible_devices = e;
            },
            _ => {},
        }
        acts
    }

    /// Handles a message: changes the state as `step` says and returns the
    /// outside work to perform, in order.
    pub fn update(&mut self, message: Message, env: Env) -> (acts: Vec<Action>)
        requires
            update_allowed(*old(self), message),
        ensures
            step(*old(self), *final(self), message, env, acts@),
    {
        let g = group_of(&message);
        if g == 0 {
            self.update_ui(message, env)
        } else if g == 1 {
            self.update_devices(message, env)
        } else if g == 2 {
            self.update_media(message, env)
        } else if g == 3 {
            self.update_wifi(message, env)
        } else if g == 4 {
            self.update_connections(message, env)
        } else {
            self.update_bluetooth(message, env)
        }
    }
}

/// The group of messages that `update` hands to one of its helpers.
pub open spec fn message_group(m: Message) -> int {
    match m {
        Message::TogglePopup => 0,
        Message::PopupClosed { .. } => 0,
        Message::Navigate(_) => 0,
        Message::TakeScreenshot => 0,
        Message::ExecuteScreenshot => 0,
        Message::OutputToggle => 0,
        Message::InputToggle => 0,
        Message::LockScreen => 0,
        Message::LogOut => 0,
        Message::PowerOff => 0,
        Message::Suspend => 0,
        Message::OpenSettings(_) => 0,
        Message::UpdateConfig(_) => 0,
        Message::ToggleGlobalMute(_) => 1,
        Message::ToggleSourceMute => 1,
        Message::SetVolume(_) => 1,
        Message::SetSourceVolume(_) => 1,
        Message::SetBrightness(_) => 1,
        Message::SetKbdBrightness(_) => 1,
        Message::SetDefaultSink(_) => 1,
        Message::SetDefaultSource(_) => 1,
        Message::Sound(_) => 1,
        Message::SinkMuteChanged(_) => 1,
        Message::SoundSynced { .. } => 1,
        Message::UPowerDevice(_) => 1,
        Message::KbdBacklight(_) => 1,
        Message::Brightness(_) => 1,
        Message::CyclePowerProfile => 1,
        Message::MediaPlay => 2,
        Message::MediaPause => 2,
        Message::MediaNext => 2,
        Message::MediaPrevious => 2,
        Message::MprisEvent(_) => 2,
        Message::ToggleWifi(_) => 3,
        Message::ToggleVpn(_) => 3,
        Message::NetworkManager(_) => 3,
        Message::ToggleVisibleNetworks => 3,
        Message::SelectWirelessAccessPoint(_) => 3,
        Message::CancelNewConnection => 3,
        Message::Connect(_, _) => 3,
        Message::ConnectWithPassword => 3,
        Message::Disconnect(_, _) => 3,
        Message::PasswordUpdate(_) => 3,
        Message::IdentityUpdate(_) => 3,
        Message::TogglePasswordVisibility => 3,
        Message::SecretAgent(_) => 4,
        Message::NetworkManagerConnect => 4,
        Message::ConnectionSettings(_) => 4,
        Message::KnownConnections(_) => 4,
        Message::ResetFailedKnownSsid(_, _) => 4,
        Message::ActivateVpn(_) => 4,
        Message::DeactivateVpn(_) => 4,
        Message::ToggleVpnPasswordVisibility => 4,
        Message::ConnectVPNWithPassword => 4,
        Message::VPNPasswordUpdate(_) => 4,
        Message::CancelVPNConnection => 4,
        Message::UpdateState(_) => 4,
        Message::UpdateDevices => 4,
        Message::Refresh => 4,
        Message::Error(_) => 4,
        Message::ToggleBluetooth(_) => 5,
        Message::BluetoothEvent(_) => 5,
        Message::BluetoothRequest(_) => 5,
        Message::ConfirmPairing => 5,
        Message::CancelPairing => 5,
        Message::ToggleVisibleDevices(_) => 5,
    }
}

fn group_of(m: &Message) -> (g: u8)
    ensures
        g == message_group(*m),
{
    match m {
        Message::TogglePopup => 0,
        Message::PopupClosed { .. } => 0,
        Message::Navigate(_) => 0,
        Message::TakeScreenshot => 0,
        Message::ExecuteScreenshot => 0,
        Message::OutputToggle => 0,
        Message::InputToggle => 0,
        Message::LockScreen => 0,
        Message::LogOut => 0,
        Message::PowerOff => 0,
        Message::Suspend => 0,
        Message::OpenSettings(_) => 0,
        Message::UpdateConfig(_) => 0,
        Message::ToggleGlobalMute(_) => 1,
        Message::ToggleSourceMute => 1,
        Message::SetVolume(_) => 1,
        Message::SetSourceVolume(_) => 1,
        Message::SetBrightness(_) => 1,
        Message::SetKbdBrightness(_) => 1,
        Message::SetDefaultSink(_) => 1,
        Message::SetDefaultSource(_) => 1,
        Message::Sound(_) => 1,
        Message::SinkMuteChanged(_) => 1,
        Message::SoundSynced { .. } => 1,
        Message::UPowerDevice(_) => 1,
        Message::KbdBacklight(_) => 1,
        Message::Brightness(_) => 1,
        Message::CyclePowerProfile => 1,
        Message::MediaPlay => 2,
        Message::MediaPause => 2,
        Message::MediaNext => 2,
        Message::MediaPrevious => 2,
        Message::MprisEvent(_) => 2,
        Message::ToggleWifi(_) => 3,
        Message::ToggleVpn(_) => 3,
        Message::NetworkManager(_) => 3,
        Message::ToggleVisibleNetworks => 3,
        Message::SelectWirelessAccessPoint(_) => 3,
        Message::CancelNewConnection => 3,
        Message::Connect(_, _) => 3,
        Message::ConnectWithPassword => 3,
        Message::Disconnect(_, _) => 3,
        Message::PasswordUpdate(_) => 3,
        Message::IdentityUpdate(_) => 3,
        Message::TogglePasswordVisibility => 3,
        Message::SecretAgent(_) => 4,
        Message::NetworkManagerConnect => 4,
        Message::ConnectionSettings(_) => 4,
        Message::KnownConnections(_) => 4,
        Message::ResetFailedKnownSsid(_, _) => 4,
        Message::ActivateVpn(_) => 4,
        Message::DeactivateVpn(_) => 4,
        Message::ToggleVpnPasswordVisibility => 4,
        Message::ConnectVPNWithPassword => 4,
        Message::VPNPasswordUpdate(_) => 4,
        Message::CancelVPNConnection => 4,
        Message::UpdateState(_) => 4,
        Message::UpdateDevices => 4,
        Message::Refresh => 4,
        Message::Error(_) => 4,
        Message::ToggleBluetooth(_) => 5,
        Message::BluetoothEvent(_) => 5,
        Message::BluetoothRequest(_) => 5,
        Message::ConfirmPairing => 5,
        Message::CancelPairing => 5,
        Message::ToggleVisibleDevices(_) => 5,
    }
}

} // verus!
