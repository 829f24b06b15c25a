//! What the panel button and the popup pages show: icon choices, labels, lists
//! and which controls are enabled. Widgets and localized text are the runtime's.

use vstd::prelude::*;

use crate::app::{AppModel, AppView, Message, PowerProfile};
use crate::bluetooth::{address_text, BluerDevice, BluerDeviceStatus, BluerRequest, DEFAULT_DEVICE_ICON};
use crate::network::vpn_entries;
use crate::network::known_vpns_entry;
use crate::network::known_vpns_len;
use crate::text::decimal;
use crate::mpris::{PlaybackStatus, PlayerStatus};
use crate::network::{AccessPoint, ActiveConnectionInfo, NetworkManagerState};
use crate::text::str_eq;

verus! {

/// The volume icon for a level and mute state.
pub open spec fn volume_icon_for(volume: u32, muted: bool) -> Seq<char> {
    if volume == 0 || muted {
        "audio-volume-muted-symbolic"@
    } else if volume < 33 {
        "audio-volume-low-symbolic"@
    } else if volume < 66 {
        "audio-volume-medium-symbolic"@
    } else {
        "audio-volume-high-symbolic"@
    }
}

/// The icon of the output volume.
pub fn volume_icon(volume: u32, muted: bool) -> (r: &'static str)
    ensures
        r@ == volume_icon_for(volume, muted),
{
    if volume == 0 || muted {
        "audio-volume-muted-symbolic"
    } else if volume < 33 {
        "audio-volume-low-symbolic"
    } else if volume < 66 {
        "audio-volume-medium-symbolic"
    } else {
        "audio-volume-high-symbolic"
    }
}

/// The microphone icon for a level and mute state.
pub open spec fn microphone_icon_for(volume: u32, muted: bool) -> Seq<char> {
    if volume == 0 || muted {
        "microphone-sensitivity-muted-symbolic"@
    } else if volume < 33 {
        "microphone-sensitivity-low-symbolic"@
    } else if volume < 66 {
        "microphone-sensitivity-medium-symbolic"@
    } else {
        "microphone-sensitivity-high-symbolic"@
    }
}

/// The icon of the input volume.
pub fn microphone_icon(volume: u32, muted: bool) -> (r: &'static str)
    ensures
        r@ == microphone_icon_for(volume, muted),
{
    if volume == 0 || muted {
        "microphone-sensitivity-muted-symbolic"
    } else if volume < 33 {
        "microphone-sensitivity-low-symbolic"
    } else if volume < 66 {
        "microphone-sensitivity-medium-symbolic"
    } else {
        "microphone-sensitivity-high-symbolic"
    }
}

/// The display brightness icon for a level.
pub open spec fn brightness_icon_for(brightness: u32) -> Seq<char> {
    if brightness < 33 {
        "display-brightness-low-symbolic"@
    } else if brightness < 66 {
        "display-brightness-medium-symbolic"@
    } else {
        "display-brightness-high-symbolic"@
    }
}

/// The icon of the display brightness slider.
pub fn brightness_icon(brightness: u32) -> (r: &'static str)
    ensures
        r@ == brightness_icon_for(brightness),
{
    if brightness < 33 {
        "display-brightness-low-symbolic"
    } else if brightness < 66 {
        "display-brightness-medium-symbolic"
    } else {
        "display-brightness-high-symbolic"
    }
}

/// The Wi-Fi signal icon for a strength.
pub open spec fn signal_icon_for(strength: u8) -> Seq<char> {
    if strength > 75 {
        "network-wireless-signal-excellent-symbolic"@
    } else if strength > 50 {
        "network-wireless-signal-good-symbolic"@
    } else if strength > 25 {
        "network-wireless-signal-ok-symbolic"@
    } else {
        "network-wireless-signal-weak-symbolic"@
    }
}

/// The icon of a Wi-Fi signal.
pub fn signal_icon(strength: u8) -> (r: &'static str)
    ensures
        r@ == signal_icon_for(strength),
{
    if strength > 75 {
        "network-wireless-signal-excellent-symbolic"
    } else if strength > 50 {
        "network-wireless-signal-good-symbolic"
    } else if strength > 25 {
        "network-wireless-signal-ok-symbolic"
    } else {
        "network-wireless-signal-weak-symbolic"
    }
}

/// The name of the first active wireless connection.
pub open spec fn first_wifi_name(conns: Seq<ActiveConnectionInfo>) -> Option<Seq<char>>
    decreases conns.len(),
{
    if conns.len() == 0 {
        None
    } else if conns[0] is WiFi {
        Some(conns[0].name_of())
    } else {
        first_wifi_name(conns.drop_first())
    }
}

/// The strength of the first access point of a network name.
pub open spec fn first_strength(aps: Seq<AccessPoint>, ssid: Seq<char>) -> Option<u8>
    decreases aps.len(),
{
    if aps.len() == 0 {
        None
    } else if aps[0].ssid@ == ssid {
        Some(aps[0].strength)
    } else {
        first_strength(aps.drop_first(), ssid)
    }
}

/// The panel's Wi-Fi icon: offline when Wi-Fi is off; disconnected without an
/// active wireless connection; else the signal of the connected network's first
/// visible access point, or the plain wireless icon when none is visible.
pub open spec fn wifi_icon_for(st: NetworkManagerState) -> Seq<char> {
    if !st.wifi_enabled {
        "network-wireless-offline-symbolic"@
    } else {
        match first_wifi_name(st.active_conns@) {
            None => "network-wireless-disconnected-symbolic"@,
            Some(ssid) => match first_strength(st.wireless_access_points@, ssid) {
                Some(strength) => signal_icon_for(strength),
                None => "network-wireless-symbolic"@,
            },
        }
    }
}

fn first_wifi(conns: &Vec<ActiveConnectionInfo>) -> (r: Option<&String>)
    ensures
        match r {
            Some(n) => first_wifi_name(conns@) == Some(n@),
            None => first_wifi_name(conns@) is None,
        },
{
    let mut i: usize = 0;
    assert(conns@.skip(0) =~= conns@);
    while i < conns.len()
        invariant
            i <= conns.len(),
            first_wifi_name(conns@) == first_wifi_name(conns@.skip(i as int)),
        decreases conns.len() - i,
    {
        assert(conns@.skip(i as int)[0] == conns@[i as int]);
        match &conns[i] {
            ActiveConnectionInfo::WiFi { name, .. } => {
                return Some(name);
            },
            _ => {},
        }
        assert(conns@.skip(i as int).drop_first() =~= conns@.skip(i + 1));
        i = i + 1;
    }
    None
}

fn strength_of(aps: &Vec<AccessPoint>, ssid: &str) -> (r: Option<u8>)
    ensures
        r == first_strength(aps@, ssid@),
{
    let mut i: usize = 0;
    assert(aps@.skip(0) =~= aps@);
    while i < aps.len()
        invariant
            i <= aps.len(),
            first_strength(aps@, ssid@) == first_strength(aps@.skip(i as int), ssid@),
        decreases aps.len() - i,
    {
        assert(aps@.skip(i as int)[0] == aps@[i as int]);
        if str_eq(aps[i].ssid.as_str(), ssid) {
            return Some(aps[i].strength);
        }
        assert(aps@.skip(i as int).drop_first() =~= aps@.skip(i + 1));
        i = i + 1;
    }
    None
}

/// The panel's Wi-Fi icon.
pub fn wifi_icon(st: &NetworkManagerState) -> (r: &'static str)
    ensures
        r@ == wifi_icon_for(*st),
{
    if !st.wifi_enabled {
        return "network-wireless-offline-symbolic";
    }
    match first_wifi(&st.active_conns) {
        None => "network-wireless-disconnected-symbolic",
        Some(ssid) => match strength_of(&st.wireless_access_points, ssid.as_str()) {
            Some(strength) => signal_icon(strength),
            None => "network-wireless-symbolic",
        },
    }
}

/// The icons of the panel button, left to right: volume, Wi-Fi, and the battery
/// when there is one.
pub struct PanelIcons {
    pub volume: &'static str,
    pub wifi: &'static str,
    pub battery: Option<&'static str>,
}

impl AppModel {
    /// The icons of the panel button.
    pub fn panel_icons(&self) -> (r: PanelIcons)
        ensures
            r.volume@ == volume_icon_for(self.audio.volume, self.audio.global_mute),
            r.wifi@ == wifi_icon_for(self.network.nm_state),
            r.battery is Some <==> self.power.has_battery,
            r.battery matches Some(b) ==> b@ == "battery-symbolic"@,
    {
        PanelIcons {
            volume: volume_icon(self.audio.volume, self.audio.global_mute),
            wifi: wifi_icon(&self.network.nm_state),
            battery: if self.power.has_battery {
                Some("battery-symbolic")
            } else {
                None
            },
        }
    }

    /// The refresh timer runs while the popup is open.
    pub fn wants_refresh_timer(&self) -> (r: bool)
        ensures
            r == self.ui.popup_open,
    {
        self.ui.popup_open
    }
}


/// A text shown to the user: a message id of the localization catalogue, or text as is.
#[derive(Debug)]
pub enum Label {
    Key(&'static str),
    Text(String),
}

/// The look of a quick-settings tile.
#[derive(Clone, Copy, Debug, PartialEq, Eq, Structural)]
pub enum TileStyle {
    Standard,
    Suggested,
}

/// A quick-settings tile of the main page: a toggle, with a chevron that opens a
/// detail page where it has one.
#[derive(Debug)]
pub struct Tile {
    pub icon: &'static str,
    pub label: Label,
    pub active: bool,
    pub available: bool,
    pub on_toggle: Message,
    pub on_navigate: Option<Message>,
}

/// A tile is highlighted when it is available and active.
pub open spec fn tile_style_for(active: bool, available: bool) -> TileStyle {
    if available && active {
        TileStyle::Suggested
    } else {
        TileStyle::Standard
    }
}

impl Tile {
    /// The tile's look.
    pub fn style(&self) -> (r: TileStyle)
        ensures
            r == tile_style_for(self.active, self.available),
    {
        if !self.available {
            TileStyle::Standard
        } else if self.active {
            TileStyle::Suggested
        } else {
            TileStyle::Standard
        }
    }

    /// Both halves of the tile react to presses only while it is available.
    pub fn enabled(&self) -> (r: bool)
        ensures
            r == self.available,
    {
        self.available
    }
}

/// The label of a tile whose service may be missing.
fn service_label(available: bool, key: &'static str) -> (r: Label)
    ensures
        available ==> r == Label::Key(key),
        !available ==> (r matches Label::Text(t) && t@ == "Unavailable"@),
{
    if available {
        Label::Key(key)
    } else {
        Label::Text(String::from_str("Unavailable"))
    }
}

/// The power tile's icon and label for a profile.
pub open spec fn power_tile_for(p: PowerProfile) -> (Seq<char>, Seq<char>) {
    match p {
        PowerProfile::Balanced => ("power-profile-balanced-symbolic"@, "balanced"@),
        PowerProfile::Performance => ("power-profile-performance-symbolic"@, "performance"@),
        PowerProfile::PowerSaver => ("power-profile-power-saver-symbolic"@, "power-saver"@),
    }
}

/// The power tile's icon and label.
pub fn power_tile(p: PowerProfile) -> (r: (&'static str, &'static str))
    ensures
        (r.0@, r.1@) == power_tile_for(p),
        p == PowerProfile::Balanced ==> r.0@ == "power-profile-balanced-symbolic"@ && r.1@ == "balanced"@,
        p == PowerProfile::Performance ==> r.0@ == "power-profile-performance-symbolic"@ && r.1@ == "performance"@,
        p == PowerProfile::PowerSaver ==> r.0@ == "power-profile-power-saver-symbolic"@ && r.1@ == "power-saver"@,
{
    match p {
        PowerProfile::Balanced => ("power-profile-balanced-symbolic", "balanced"),
        PowerProfile::Performance => ("power-profile-performance-symbolic", "performance"),
        PowerProfile::PowerSaver => ("power-profile-power-saver-symbolic", "power-saver"),
    }
}

/// The six tiles of the main page, row by row: Wi-Fi, Bluetooth, power profile,
/// VPN, global mute, screenshot.
pub struct Tiles {
    pub wifi: Tile,
    pub bluetooth: Tile,
    pub power: Tile,
    pub vpn: Tile,
    pub mute: Tile,
    pub screenshot: Tile,
}

impl AppModel {
    /// The tiles of the main page. A tile whose service is missing reads
    /// "Unavailable" and has no chevron; each toggle asks for the opposite of the
    /// current state.
    pub fn tiles(&self) -> (r: Tiles)
        ensures
            r.wifi.icon@ == "network-wireless-symbolic"@,
            r.wifi.active == self.network.nm_state.wifi_enabled,
            r.wifi.available == self.network.network_available,
            r.wifi.on_toggle == Message::ToggleWifi(!self.network.nm_state.wifi_enabled),
            r.wifi.on_navigate == (if self.network.network_available {
                Some(Message::Navigate(AppView::WifiDetails))
            } else {
                None
            }),
            self.network.network_available ==> r.wifi.label == Label::Key("wifi"),
            r.bluetooth.icon@ == "bluetooth-active-symbolic"@,
            r.bluetooth.active == self.bluetooth.bluer_state.bluetooth_enabled,
            r.bluetooth.available == self.bluetooth.bluetooth_available,
            r.bluetooth.on_toggle == Message::ToggleBluetooth(!self.bluetooth.bluer_state.bluetooth_enabled),
            r.bluetooth.on_navigate == (if self.bluetooth.bluetooth_available {
                Some(Message::Navigate(AppView::BluetoothDetails))
            } else {
                None
            }),
            self.bluetooth.bluetooth_available ==> r.bluetooth.label == Label::Key("bluetooth"),
            (r.power.icon@, match r.power.label {
                Label::Key(k) => k@,
                Label::Text(t) => t@,
            }) == power_tile_for(self.power.power_profile),
            r.power.label is Key,
            r.power.active && r.power.available,
            r.power.on_toggle == Message::CyclePowerProfile,
            r.power.on_navigate is None,
            r.vpn.icon@ == "network-vpn-symbolic"@,
            r.vpn.active == self.network.vpn_active,
            r.vpn.available == self.network.network_available,
            r.vpn.on_toggle == Message::ToggleVpn(!self.network.vpn_active),
            r.vpn.on_navigate == (if self.network.network_available {
                Some(Message::Navigate(AppView::VpnDetails))
            } else {
                None
            }),
            self.network.network_available ==> r.vpn.label == Label::Key("vpn"),
            r.mute.icon@ == "microphone-sensitivity-muted-symbolic"@,
            r.mute.active == self.audio.global_mute,
            r.mute.available == self.audio.sound_available,
            r.mute.on_toggle == Message::ToggleGlobalMute(!self.audio.global_mute),
            r.mute.on_navigate is None,
            self.audio.sound_available ==> r.mute.label == Label::Key("global-mute"),
            r.screenshot.icon@ == "accessories-screenshot-symbolic"@,
            r.screenshot.label == Label::Key("screenshot"),
            !r.screenshot.active && r.screenshot.available,
            r.screenshot.on_toggle == Message::TakeScreenshot,
            r.screenshot.on_navigate is None,
            !self.network.network_available ==> (r.wifi.label matches Label::Text(t) && t@ == "Unavailable"@),
            !self.network.network_available ==> (r.vpn.label matches Label::Text(t) && t@ == "Unavailable"@),
            !self.bluetooth.bluetooth_available ==> (r.bluetooth.label matches Label::Text(t) && t@ == "Unavailable"@),
            !self.audio.sound_available ==> (r.mute.label matches Label::Text(t) && t@ == "Unavailable"@),
    {
        let net = self.network.network_available;
        let bt = self.bluetooth.bluetooth_available;
        let wifi_on = self.network.nm_state.wifi_enabled;
        let bt_on = self.bluetooth.bluer_state.bluetooth_enabled;
        let (power_icon, power_label) = power_tile(self.power.power_profile);
        Tiles {
            wifi: Tile {
                icon: "network-wireless-symbolic",
                label: service_label(net, "wifi"),
                active: wifi_on,
                available: net,
                on_toggle: Message::ToggleWifi(!wifi_on),
                on_navigate: if net {
                    Some(Message::Navigate(AppView::WifiDetails))
                } else {
                    None
                },
            },
            bluetooth: Tile {
                icon: "bluetooth-active-symbolic",
                label: service_label(bt, "bluetooth"),
                active: bt_on,
                available: bt,
                on_toggle: Message::ToggleBluetooth(!bt_on),
                on_navigate: if bt {
                    Some(Message::Navigate(AppView::BluetoothDetails))
                } else {
                    None
                },
            },
            power: Tile {
                icon: power_icon,
                label: Label::Key(power_label),
                active: true,
                available: true,
                on_toggle: Message::CyclePowerProfile,
                on_navigate: None,
            },
            vpn: Tile {
                icon: "network-vpn-symbolic",
                label: service_label(net, "vpn"),
                active: self.network.vpn_active,
                available: net,
                on_toggle: Message::ToggleVpn(!self.network.vpn_active),
                on_navigate: if net {
                    Some(Message::Navigate(AppView::VpnDetails))
                } else {
                    None
                },
            },
            mute: Tile {
                icon: "microphone-sensitivity-muted-symbolic",
                label: service_label(self.audio.sound_available, "global-mute"),
                active: self.audio.global_mute,
                available: self.audio.sound_available,
                on_toggle: Message::ToggleGlobalMute(!self.audio.global_mute),
                on_navigate: None,
            },
            screenshot: Tile {
                icon: "accessories-screenshot-symbolic",
                label: Label::Key("screenshot"),
                active: false,
                available: true,
                on_toggle: Message::TakeScreenshot,
                on_navigate: None,
            },
        }
    }
}

/// Which rows the slider section of the main page shows, and what its buttons
/// send.
pub struct SliderRows {
    /// Upper end of the volume slider.
    pub volume_max: u32,
    /// Position of the volume slider.
    pub volume: u32,
    /// What the volume icon sends: the global mute toggle.
    pub volume_button: Message,
    /// The chevron to the audio page (a spacer without sound).
    pub audio_chevron: Option<Message>,
    /// Upper end of the microphone slider.
    pub microphone_max: u32,
    /// What the microphone icon sends.
    pub microphone_button: Message,
    pub display_brightness: bool,
    pub keyboard_brightness: bool,
}

/// The sliders of the applet.
#[derive(Clone, Copy, Debug, PartialEq, Eq, Structural)]
pub enum SliderKind {
    Volume,
    Microphone,
    DisplayBrightness,
    KeyboardBrightness,
}

/// What moving a slider to `v` sends.
pub open spec fn slider_message_for(kind: SliderKind, v: u32) -> Message {
    match kind {
        SliderKind::Volume => Message::SetVolume(v),
        SliderKind::Microphone => Message::SetSourceVolume(v),
        SliderKind::DisplayBrightness => Message::SetBrightness(v),
        SliderKind::KeyboardBrightness => Message::SetKbdBrightness(v),
    }
}

impl SliderKind {
    /// What moving the slider to `v` sends.
    pub fn message(&self, v: u32) -> (m: Message)
        ensures
            m == slider_message_for(*self, v),
    {
        match self {
            SliderKind::Volume => Message::SetVolume(v),
            SliderKind::Microphone => Message::SetSourceVolume(v),
            SliderKind::DisplayBrightness => Message::SetBrightness(v),
            SliderKind::KeyboardBrightness => Message::SetKbdBrightness(v),
        }
    }
}

/// The buttons of the main page's footer, left to right.
pub struct Footer {
    pub settings: Message,
    pub lock: Message,
    pub log_out: Message,
    pub suspend: Message,
    pub power_off: Message,
}

/// The footer buttons: system settings, lock, log out, suspend, power off.
pub fn footer() -> (r: Footer)
    ensures
        r.settings == Message::OpenSettings(None),
        r.lock == Message::LockScreen,
        r.log_out == Message::LogOut,
        r.suspend == Message::Suspend,
        r.power_off == Message::PowerOff,
{
    Footer {
        settings: Message::OpenSettings(None),
        lock: Message::LockScreen,
        log_out: Message::LogOut,
        suspend: Message::Suspend,
        power_off: Message::PowerOff,
    }
}

impl AppModel {
    /// The slider section: the volume slider reaches the configured maximum;
    /// backlight sliders show only where the hardware reports a positive maximum;
    /// the audio page's chevron shows only with sound.
    pub fn slider_rows(&self) -> (r: SliderRows)
        ensures
            r.volume_max == self.config.max_volume,
            r.volume == self.audio.volume,
            r.volume_button == Message::ToggleGlobalMute(!self.audio.global_mute),
            r.audio_chevron == (if self.audio.sound_available {
                Some(Message::Navigate(AppView::AudioDetails))
            } else {
                None
            }),
            r.microphone_max == self.audio.max_source_volume,
            r.microphone_button == Message::ToggleSourceMute,
            r.display_brightness == (self.display.max_brightness > 0),
            r.keyboard_brightness == (self.display.max_kbd_brightness > 0),
    {
        SliderRows {
            volume_max: self.config.max_volume,
            volume: self.audio.volume,
            volume_button: Message::ToggleGlobalMute(!self.audio.global_mute),
            audio_chevron: if self.audio.sound_available {
                Some(Message::Navigate(AppView::AudioDetails))
            } else {
                None
            },
            microphone_max: self.audio.max_source_volume,
            microphone_button: Message::ToggleSourceMute,
            display_brightness: self.display.max_brightness > 0,
            keyboard_brightness: self.display.max_kbd_brightness > 0,
        }
    }

    /// The battery icon of the footer, when there is a battery.
    pub fn battery_icon_name(&self) -> (r: Option<&'static str>)
        ensures
            r is Some <==> self.power.has_battery,
            r matches Some(b) ==> b@ == "battery-symbolic"@,
    {
        if self.power.has_battery {
            Some("battery-symbolic")
        } else {
            None
        }
    }
}

/// `a % b` with the sign of `a`, as Rust's `%` computes it.
pub open spec fn rem_toward_zero(a: int, b: int) -> int {
    a - b * crate::app::div_toward_zero(a, b)
}

/// Whole hours and remaining whole minutes of a duration in seconds, as
/// `secs / 3600` and `(secs % 3600) / 60` compute them.
pub open spec fn hours_minutes(secs: i64) -> (int, int) {
    (crate::app::div_toward_zero(secs as int, 3600), crate::app::div_toward_zero(rem_toward_zero(secs as int, 3600), 60))
}

/// The footer's battery line, without the charge percentage, which the runtime
/// writes in front of it.
#[derive(Clone, Copy, Debug, PartialEq, Eq, Structural)]
pub enum BatteryLine {
    /// "fully-charged" (shown alone).
    FullyCharged,
    /// "charging".
    Charging,
    /// Time until full; either part may be zero, not both.
    UntilFull { hours: i64, minutes: i64 },
    /// "Less than a minute remaining".
    LessThanMinute,
    /// Time remaining; either part may be zero, not both.
    Remaining { hours: i64, minutes: i64 },
    /// "on-battery".
    OnBattery,
}

/// The footer's battery line. `nearly_full` says whether the charge is at
/// least 99%.
pub open spec fn battery_line_for(charging: bool, nearly_full: bool, time_to_full: Option<i64>, time_to_empty: Option<i64>) -> BatteryLine {
    if charging && nearly_full {
        BatteryLine::FullyCharged
    } else if charging {
        match time_to_full {
            Some(secs) => {
                let (h, m) = hours_minutes(secs);
                if h == 0 && m == 0 {
                    BatteryLine::Charging
                } else {
                    BatteryLine::UntilFull { hours: h as i64, minutes: m as i64 }
                }
            },
            None => BatteryLine::Charging,
        }
    } else {
        match time_to_empty {
            Some(secs) => {
                let (h, m) = hours_minutes(secs);
                if h == 0 && m == 0 {
                    BatteryLine::LessThanMinute
                } else {
                    BatteryLine::Remaining { hours: h as i64, minutes: m as i64 }
                }
            },
            None => BatteryLine::OnBattery,
        }
    }
}

fn split_duration(secs: i64) -> (r: (i64, i64))
    ensures
        (r.0 as int, r.1 as int) == hours_minutes(secs),
{
    let s: i128 = secs as i128;
    let h: i128 = if s >= 0 {
        s / 3600
    } else {
        -((-s) / 3600)
    };
    let rem: i128 = s - 3600 * h;
    let m: i128 = if rem >= 0 {
        rem / 60
    } else {
        -((-rem) / 60)
    };
    (h as i64, m as i64)
}

impl AppModel {
    /// The footer's battery line.
    pub fn battery_line(&self, nearly_full: bool) -> (r: BatteryLine)
        ensures
            r == battery_line_for(self.power.battery_charging, nearly_full, self.power.time_to_full, self.power.time_to_empty),
    {
        if self.power.battery_charging && nearly_full {
            BatteryLine::FullyCharged
        } else if self.power.battery_charging {
            match self.power.time_to_full {
                Some(secs) => {
                    let (h, m) = split_duration(secs);
                    if h == 0 && m == 0 {
                        BatteryLine::Charging
                    } else {
                        BatteryLine::UntilFull { hours: h, minutes: m }
                    }
                },
                None => BatteryLine::Charging,
            }
        } else {
            match self.power.time_to_empty {
                Some(secs) => {
                    let (h, m) = split_duration(secs);
                    if h == 0 && m == 0 {
                        BatteryLine::LessThanMinute
                    } else {
                        BatteryLine::Remaining { hours: h, minutes: m }
                    }
                },
                None => BatteryLine::OnBattery,
            }
        }
    }
}


/// The decimal notation of a signed number, with a minus sign when negative.
pub open spec fn signed_decimal(n: int) -> Seq<char> {
    if n < 0 {
        seq!['-'] + decimal((-n) as nat)
    } else {
        decimal(n as nat)
    }
}

/// The time part of the battery line: `{m}m` without hours, `{h}h` without
/// minutes, `{h}h {m}m` otherwise.
pub open spec fn duration_text_for(hours: i64, minutes: i64) -> Seq<char> {
    if hours == 0 {
        signed_decimal(minutes as int).push('m')
    } else if minutes == 0 {
        signed_decimal(hours as int).push('h')
    } else {
        signed_decimal(hours as int) + seq!['h', ' '] + signed_decimal(minutes as int).push('m')
    }
}

fn signed_decimal_string(n: i64) -> (r: String)
    ensures
        r@ == signed_decimal(n as int),
{
    if n < 0 {
        let magnitude: u64 = if n == i64::MIN {
            9223372036854775808u64
        } else {
            (-n) as u64
        };
        let digits = crate::text::decimal_string(magnitude);
        let mut r = String::new();
        crate::text::push_char(&mut r, '-');
        let d = crate::text::chars_of(digits.as_str());
        let mut i: usize = 0;
        while i < d.len()
            invariant
                i <= d.len(),
                d@ == digits@,
                r@ == seq!['-'] + d@.subrange(0, i as int),
            decreases d.len() - i,
        {
            crate::text::push_char(&mut r, d[i]);
            i = i + 1;
            assert(r@ =~= seq!['-'] + d@.subrange(0, i as int));
        }
        assert(d@.subrange(0, d@.len() as int) =~= d@);
        r
    } else {
        crate::text::decimal_string(n as u64)
    }
}

/// The time part of the battery line.
pub fn duration_text(hours: i64, minutes: i64) -> (r: String)
    ensures
        r@ == duration_text_for(hours, minutes),
{
    if hours == 0 {
        let mut r = signed_decimal_string(minutes);
        crate::text::push_char(&mut r, 'm');
        r
    } else if minutes == 0 {
        let mut r = signed_decimal_string(hours);
        crate::text::push_char(&mut r, 'h');
        r
    } else {
        let mut r = signed_decimal_string(hours);
        crate::text::push_char(&mut r, 'h');
        crate::text::push_char(&mut r, ' ');
        let m = signed_decimal_string(minutes);
        let mc = crate::text::chars_of(m.as_str());
        let ghost prefix = r@;
        let mut i: usize = 0;
        while i < mc.len()
            invariant
                i <= mc.len(),
                mc@ == m@,
                r@ == prefix + mc@.subrange(0, i as int),
            decreases mc.len() - i,
        {
            crate::text::push_char(&mut r, mc[i]);
            i = i + 1;
            assert(r@ =~= prefix + mc@.subrange(0, i as int));
        }
        crate::text::push_char(&mut r, 'm');
        assert(mc@.subrange(0, mc@.len() as int) =~= mc@);
        assert(r@ =~= signed_decimal(hours as int) + seq!['h', ' '] + signed_decimal(minutes as int).push('m'));
        r
    }
}

/// The media card of the main page.
#[derive(Debug)]
pub struct MediaCard {
    pub title: Label,
    /// The artist line, shown when not empty.
    pub artist: String,
    pub play_pause_icon: &'static str,
    /// Message of the previous-track button, when it is enabled.
    pub previous: Option<Message>,
    /// Message of the play/pause button, when it is enabled.
    pub play_pause: Option<Message>,
    /// Message of the next-track button, when it is enabled.
    pub next: Option<Message>,
}

/// The artist line of a player: its first artist, else "Unknown Artist".
pub open spec fn artist_for(status: PlayerStatus) -> Seq<char> {
    match status.artists {
        Some(a) => if a@.len() > 0 {
            a@[0]@
        } else {
            "Unknown Artist"@
        },
        None => "Unknown Artist"@,
    }
}

/// The media card: without a player, "no-media" and no artist; with one, its
/// title (else "Unknown Title") and artist line. Play/pause shows pause while
/// playing; each control is enabled only where the player allows it.
pub open spec fn media_card_matches(p: Option<PlayerStatus>, c: MediaCard) -> bool {
    let playing = p matches Some(st) && st.status == PlaybackStatus::Playing;
    &&& match p {
        None => c.title == Label::Key("no-media") && c.artist@ == Seq::<char>::empty(),
        Some(st) => {
            &&& c.title matches Label::Text(t) && t@ == match st.title {
                Some(title) => title@,
                None => "Unknown Title"@,
            }
            &&& c.artist@ == artist_for(st)
        },
    }
    &&& c.play_pause_icon@ == (if playing {
        "media-playback-pause-symbolic"@
    } else {
        "media-playback-start-symbolic"@
    })
    &&& c.previous == (if p matches Some(st) && st.can_go_previous { Some(Message::MediaPrevious) } else { None })
    &&& c.next == (if p matches Some(st) && st.can_go_next { Some(Message::MediaNext) } else { None })
    &&& c.play_pause == (if playing && p->0.can_pause {
        Some(Message::MediaPause)
    } else if !playing && (p matches Some(st) && st.can_play) {
        Some(Message::MediaPlay)
    } else {
        None
    })
}

/// The media card for the current player.
pub fn media_card(p: &Option<PlayerStatus>) -> (c: MediaCard)
    ensures
        media_card_matches(*p, c),
        p is None ==> c.play_pause is None && c.previous is None && c.next is None,
        p is Some && p->0.status == PlaybackStatus::Playing && p->0.can_pause ==> c.play_pause == Some(Message::MediaPause),
        p is Some && p->0.status == PlaybackStatus::Playing && !p->0.can_pause ==> c.play_pause is None,
        p is Some && p->0.status != PlaybackStatus::Playing && p->0.can_play ==> c.play_pause == Some(Message::MediaPlay),
        p is Some && p->0.status != PlaybackStatus::Playing && !p->0.can_play ==> c.play_pause is None,
        p is Some && p->0.status == PlaybackStatus::Playing ==> c.play_pause_icon@ == "media-playback-pause-symbolic"@,
        !(p is Some && p->0.status == PlaybackStatus::Playing) ==> c.play_pause_icon@ == "media-playback-start-symbolic"@,
        p is Some ==> (c.previous is Some <==> p->0.can_go_previous) && (c.next is Some <==> p->0.can_go_next),
        c.previous is Some ==> c.previous == Some(Message::MediaPrevious),
        c.next is Some ==> c.next == Some(Message::MediaNext),
{
    let (title, artist) = match p {
        Some(st) => {
            let t = match &st.title {
                Some(t) => t.clone(),
                None => String::from_str("Unknown Title"),
            };
            let a = match &st.artists {
                Some(a) => if a.len() > 0 {
                    a[0].clone()
                } else {
                    String::from_str("Unknown Artist")
                },
                None => String::from_str("Unknown Artist"),
            };
            (Label::Text(t), a)
        },
        None => (Label::Key("no-media"), String::new()),
    };
    let playing = match p {
        Some(st) => st.status == PlaybackStatus::Playing,
        None => false,
    };
    let (can_prev, can_play, can_pause, can_next) = match p {
        Some(st) => (st.can_go_previous, st.can_play, st.can_pause, st.can_go_next),
        None => (false, false, false, false),
    };
    MediaCard {
        title,
        artist,
        play_pause_icon: if playing {
            "media-playback-pause-symbolic"
        } else {
            "media-playback-start-symbolic"
        },
        previous: if can_prev {
            Some(Message::MediaPrevious)
        } else {
            None
        },
        play_pause: if playing && can_pause {
            Some(Message::MediaPause)
        } else if !playing && can_play {
            Some(Message::MediaPlay)
        } else {
            None
        },
        next: if can_next {
            Some(Message::MediaNext)
        } else {
            None
        },
    }
}

/// The header bar of a detail page: back button, title, and an on/off toggle.
#[derive(Debug)]
pub struct DetailHeader {
    pub title: &'static str,
    pub toggle_icon: &'static str,
    pub on_back: Message,
    pub on_toggle: Message,
}

/// The toggle icon of a header: a check mark when on, a cross when off.
pub open spec fn toggle_icon_for(enabled: bool) -> Seq<char> {
    if enabled {
        "emblem-enabled-symbolic"@
    } else {
        "window-close-symbolic"@
    }
}

/// A detail page's header.
pub fn detail_header(title: &'static str, enabled: bool, on_back: Message, on_toggle: Message) -> (r: DetailHeader)
    ensures
        r.title == title,
        r.toggle_icon@ == toggle_icon_for(enabled),
        r.on_back == on_back,
        r.on_toggle == on_toggle,
{
    DetailHeader {
        title,
        toggle_icon: if enabled {
            "emblem-enabled-symbolic"
        } else {
            "window-close-symbolic"
        },
        on_back,
        on_toggle,
    }
}

impl AppModel {
    /// The header of the current detail page: each toggles its service, and the
    /// back button returns to the main page. The main page has none.
    pub fn page_header(&self) -> (r: Option<DetailHeader>)
        ensures
            match self.ui.current_view {
                AppView::Main => r is None,
                AppView::WifiDetails => r matches Some(h) && h.title@ == "wifi-networks"@
                    && h.toggle_icon@ == toggle_icon_for(self.network.nm_state.wifi_enabled)
                    && h.on_back == Message::Navigate(AppView::Main)
                    && h.on_toggle == Message::ToggleWifi(!self.network.nm_state.wifi_enabled),
                AppView::BluetoothDetails => r matches Some(h) && h.title@ == "bluetooth-devices"@
                    && h.toggle_icon@ == toggle_icon_for(self.bluetooth.bluer_state.bluetooth_enabled)
                    && h.on_back == Message::Navigate(AppView::Main)
                    && h.on_toggle == Message::BluetoothRequest(BluerRequest::SetBluetoothEnabled(!self.bluetooth.bluer_state.bluetooth_enabled)),
                AppView::VpnDetails => r matches Some(h) && h.title@ == "vpn-connections"@
                    && h.toggle_icon@ == toggle_icon_for(self.network.vpn_active)
                    && h.on_back == Message::Navigate(AppView::Main)
                    && h.on_toggle == Message::ToggleVpn(!self.network.vpn_active),
                AppView::AudioDetails => r matches Some(h) && h.title@ == "audio-devices"@
                    && h.toggle_icon@ == toggle_icon_for(!self.audio.global_mute)
                    && h.on_back == Message::Navigate(AppView::Main)
                    && h.on_toggle == Message::ToggleGlobalMute(!self.audio.global_mute),
            },
    {
        match self.ui.current_view {
            AppView::Main => None,
            AppView::WifiDetails => Some(detail_header(
                "wifi-networks",
                self.network.nm_state.wifi_enabled,
                Message::Navigate(AppView::Main),
                Message::ToggleWifi(!self.network.nm_state.wifi_enabled),
            )),
            AppView::BluetoothDetails => Some(detail_header(
                "bluetooth-devices",
                self.bluetooth.bluer_state.bluetooth_enabled,
                Message::Navigate(AppView::Main),
                Message::BluetoothRequest(BluerRequest::SetBluetoothEnabled(!self.bluetooth.bluer_state.bluetooth_enabled)),
            )),
            AppView::VpnDetails => Some(detail_header(
                "vpn-connections",
                self.network.vpn_active,
                Message::Navigate(AppView::Main),
                Message::ToggleVpn(!self.network.vpn_active),
            )),
            AppView::AudioDetails => Some(detail_header(
                "audio-devices",
                !self.audio.global_mute,
                Message::Navigate(AppView::Main),
                Message::ToggleGlobalMute(!self.audio.global_mute),
            )),
        }
    }
}


/// A row of the Wi-Fi page.
#[derive(Debug)]
pub struct NetworkRow {
    pub name: String,
    pub connected: bool,
    pub strength: u8,
}

/// A row by view: name, connected, strength.
pub open spec fn row_view(r: NetworkRow) -> (Seq<char>, bool, u8) {
    (r.name@, r.connected, r.strength)
}

/// Rows by view.
pub open spec fn rows_view(s: Seq<NetworkRow>) -> Seq<(Seq<char>, bool, u8)> {
    s.map_values(|r: NetworkRow| row_view(r))
}

/// Whether an active wireless connection has this name.
pub open spec fn wifi_connected(conns: Seq<ActiveConnectionInfo>, ssid: Seq<char>) -> bool {
    exists|i: int| 0 <= i < conns.len() && conns[i] is WiFi && conns[i].name_of() == ssid
}

/// The rows of the visible access points, in order, skipping hidden networks
/// (empty names).
pub open spec fn network_entries(aps: Seq<AccessPoint>, conns: Seq<ActiveConnectionInfo>) -> Seq<(Seq<char>, bool, u8)>
    decreases aps.len(),
{
    if aps.len() == 0 {
        Seq::empty()
    } else {
        let rest = network_entries(aps.drop_last(), conns);
        let ap = aps.last();
        if ap.ssid@.len() == 0 {
            rest
        } else {
            rest.push((ap.ssid@, wifi_connected(conns, ap.ssid@), ap.strength))
        }
    }
}

/// The sort rank of a row: connected networks first, then by strength, both
/// descending.
pub open spec fn row_rank(r: (Seq<char>, bool, u8)) -> int {
    (if r.1 { 256int } else { 0int }) + r.2 as int
}

/// The rows of ranks from 511 down to `r`, each rank in input order: a stable
/// sort by descending rank.
pub open spec fn ranks_down(s: Seq<(Seq<char>, bool, u8)>, r: int) -> Seq<(Seq<char>, bool, u8)>
    decreases 512 - r,
{
    if r >= 512 {
        Seq::empty()
    } else {
        ranks_down(s, r + 1) + s.filter(of_rank(r))
    }
}

/// Rows of rank `r`.
pub open spec fn of_rank(r: int) -> spec_fn((Seq<char>, bool, u8)) -> bool {
    |x: (Seq<char>, bool, u8)| row_rank(x) == r
}

/// The rows without a row whose name equals that of the row kept before it.
pub open spec fn dedup_names(s: Seq<(Seq<char>, bool, u8)>) -> Seq<(Seq<char>, bool, u8)>
    decreases s.len(),
{
    if s.len() == 0 {
        Seq::empty()
    } else {
        let d = dedup_names(s.drop_last());
        if d.len() > 0 && d.last().0 == s.last().0 {
            d
        } else {
            d.push(s.last())
        }
    }
}

/// The Wi-Fi page's list: visible named networks, connected ones first, then by
/// falling strength, with repeated names after the first dropped.
pub open spec fn network_list(st: NetworkManagerState) -> Seq<(Seq<char>, bool, u8)> {
    dedup_names(ranks_down(network_entries(st.wireless_access_points@, st.active_conns@), 0))
}

/// Rows sorted by falling rank.
pub open spec fn ranks_fall(s: Seq<(Seq<char>, bool, u8)>) -> bool {
    forall|i: int, j: int| 0 <= i < j < s.len() ==> row_rank(#[trigger] s[i]) >= row_rank(#[trigger] s[j])
}

/// The rows of ranks from `r` up hold ranks no lower than `r` and are sorted by
/// falling rank.
pub proof fn lemma_ranks_down_sorted(s: Seq<(Seq<char>, bool, u8)>, r: int)
    requires
        0 <= r <= 512,
    ensures
        ranks_fall(ranks_down(s, r)),
        forall|k: int| 0 <= k < ranks_down(s, r).len() ==> row_rank(#[trigger] ranks_down(s, r)[k]) >= r,
    decreases 512 - r,
{
    if r < 512 {
        lemma_ranks_down_sorted(s, r + 1);
        let hi = ranks_down(s, r + 1);
        let lo = s.filter(of_rank(r));
        let all = ranks_down(s, r);
        assert(all == hi + lo);
        assert forall|k: int| 0 <= k < lo.len() implies row_rank(#[trigger] lo[k]) == r by {
            s.filter_lemma(of_rank(r));
            assert(of_rank(r)(lo[k]));
        }
        assert forall|k: int| 0 <= k < all.len() implies row_rank(#[trigger] all[k]) >= r by {
            if k >= hi.len() {
                assert(all[k] == lo[k - hi.len()]);
            }
        }
        assert forall|i: int, j: int| 0 <= i < j < all.len() implies row_rank(#[trigger] all[i]) >= row_rank(#[trigger] all[j]) by {
            if j < hi.len() {
                assert(all[i] == hi[i] && all[j] == hi[j]);
            } else if i < hi.len() {
                assert(all[i] == hi[i] && all[j] == lo[j - hi.len()]);
            } else {
                assert(all[i] == lo[i - hi.len()] && all[j] == lo[j - hi.len()]);
            }
        }
    }
}

/// Every row left by `dedup_names` is a row of the input.
pub proof fn lemma_dedup_names_from_input(s: Seq<(Seq<char>, bool, u8)>)
    ensures
        forall|k: int| 0 <= k < dedup_names(s).len() ==> s.contains(#[trigger] dedup_names(s)[k]),
    decreases s.len(),
{
    if s.len() > 0 {
        let init = s.drop_last();
        lemma_dedup_names_from_input(init);
        let d = dedup_names(init);
        assert forall|k: int| 0 <= k < dedup_names(s).len() implies s.contains(#[trigger] dedup_names(s)[k]) by {
            if k < d.len() {
                assert(dedup_names(s)[k] == d[k]);
                let j = choose|j: int| 0 <= j < init.len() && init[j] == d[k];
                assert(s[j] == init[j]);
            } else {
                assert(dedup_names(s)[k] == s.last());
                assert(s[s.len() - 1] == s.last());
            }
        }
    }
}

/// `dedup_names` never leaves the same name twice in a row, and keeps rows
/// sorted by falling rank.
pub proof fn lemma_dedup_names_shape(s: Seq<(Seq<char>, bool, u8)>)
    ensures
        forall|i: int| 0 <= i < dedup_names(s).len() - 1 ==> (#[trigger] dedup_names(s)[i]).0 != dedup_names(s)[i + 1].0,
        ranks_fall(s) ==> ranks_fall(dedup_names(s)),
    decreases s.len(),
{
    if s.len() > 0 {
        let init = s.drop_last();
        lemma_dedup_names_shape(init);
        lemma_dedup_names_from_input(init);
        let d = dedup_names(init);
        let e = dedup_names(s);
        if !(d.len() > 0 && d.last().0 == s.last().0) {
            assert(e == d.push(s.last()));
            assert forall|i: int| 0 <= i < e.len() - 1 implies (#[trigger] e[i]).0 != e[i + 1].0 by {
                if i < d.len() - 1 {
                    assert(e[i] == d[i] && e[i + 1] == d[i + 1]);
                }
            }
            if ranks_fall(s) {
                assert(ranks_fall(init)) by {
                    assert forall|i: int, j: int| 0 <= i < j < init.len() implies row_rank(#[trigger] init[i]) >= row_rank(#[trigger] init[j]) by {
                        assert(init[i] == s[i] && init[j] == s[j]);
                    }
                }
                assert forall|i: int, j: int| 0 <= i < j < e.len() implies row_rank(#[trigger] e[i]) >= row_rank(#[trigger] e[j]) by {
                    if j < d.len() {
                        assert(e[i] == d[i] && e[j] == d[j]);
                    } else {
                        assert(e[i] == d[i]);
                        assert(init.contains(d[i]));
                        let m = choose|m: int| 0 <= m < init.len() && init[m] == d[i];
                        assert(s[m] == init[m]);
                        assert(e[j] == s[s.len() - 1]);
                    }
                }
            }
        } else {
            if ranks_fall(s) {
                assert forall|i: int, j: int| 0 <= i < j < init.len() implies row_rank(#[trigger] init[i]) >= row_rank(#[trigger] init[j]) by {
                    assert(init[i] == s[i] && init[j] == s[j]);
                }
            }
        }
    }
}

/// Every named access point has its row among the entries.
pub proof fn lemma_entries_hold_named(aps: Seq<AccessPoint>, conns: Seq<ActiveConnectionInfo>, k: int)
    requires
        0 <= k < aps.len(),
        aps[k].ssid@.len() > 0,
    ensures
        network_entries(aps, conns).contains(
            (aps[k].ssid@, wifi_connected(conns, aps[k].ssid@), aps[k].strength),
        ),
    decreases aps.len(),
{
    let rest = network_entries(aps.drop_last(), conns);
    let x = (aps[k].ssid@, wifi_connected(conns, aps[k].ssid@), aps[k].strength);
    if k == aps.len() - 1 {
        assert(network_entries(aps, conns) == rest.push(x));
        assert(rest.push(x)[rest.len() as int] == x);
    } else {
        assert(aps.drop_last()[k] == aps[k]);
        lemma_entries_hold_named(aps.drop_last(), conns, k);
        let j = choose|j: int| 0 <= j < rest.len() && rest[j] == x;
        if aps.last().ssid@.len() > 0 {
            let e = rest.push((aps.last().ssid@, wifi_connected(conns, aps.last().ssid@), aps.last().strength));
            assert(e[j] == x);
        }
    }
}

/// Sorting by rank keeps every row.
pub proof fn lemma_ranks_down_holds(s: Seq<(Seq<char>, bool, u8)>, r: int, x: (Seq<char>, bool, u8))
    requires
        0 <= r <= row_rank(x),
        s.contains(x),
    ensures
        ranks_down(s, r).contains(x),
    decreases 512 - r,
{
    let hi = ranks_down(s, r + 1);
    let lo = s.filter(of_rank(r));
    if r == row_rank(x) {
        s.filter_lemma(of_rank(r));
        assert(of_rank(r)(x));
        assert(lo.contains(x));
        let j = choose|j: int| 0 <= j < lo.len() && lo[j] == x;
        assert((hi + lo)[hi.len() + j] == x);
    } else {
        lemma_ranks_down_holds(s, r + 1, x);
        let j = choose|j: int| 0 <= j < hi.len() && hi[j] == x;
        assert((hi + lo)[j] == x);
    }
}

/// Dropping repeated names keeps every name.
pub proof fn lemma_dedup_names_keeps_names(s: Seq<(Seq<char>, bool, u8)>, k: int)
    requires
        0 <= k < s.len(),
    ensures
        exists|j: int| 0 <= j < dedup_names(s).len() && (#[trigger] dedup_names(s)[j]).0 == s[k].0,
    decreases s.len(),
{
    let init = s.drop_last();
    let d = dedup_names(init);
    if k == s.len() - 1 {
        if d.len() > 0 && d.last().0 == s.last().0 {
            assert(dedup_names(s)[d.len() - 1].0 == s[k].0);
        } else {
            assert(dedup_names(s)[d.len() as int] == s.last());
        }
    } else {
        assert(init[k] == s[k]);
        lemma_dedup_names_keeps_names(init, k);
        let j = choose|j: int| 0 <= j < d.len() && (#[trigger] d[j]).0 == init[k].0;
        assert(dedup_names(s)[j] == d[j]);
    }
}

fn is_wifi_connected(conns: &Vec<ActiveConnectionInfo>, ssid: &str) -> (r: bool)
    ensures
        r == wifi_connected(conns@, ssid@),
{
    let mut i: usize = 0;
    while i < conns.len()
        invariant
            i <= conns.len(),
            forall|k: int| 0 <= k < i ==> !(conns@[k] is WiFi && conns@[k].name_of() == ssid@),
        decreases conns.len() - i,
    {
        match &conns[i] {
            ActiveConnectionInfo::WiFi { name, .. } => {
                if str_eq(name.as_str(), ssid) {
                    return true;
                }
            },
            _ => {},
        }
        i = i + 1;
    }
    false
}

fn clone_row(r: &NetworkRow) -> (c: NetworkRow)
    ensures
        row_view(c) == row_view(*r),
{
    NetworkRow { name: r.name.clone(), connected: r.connected, strength: r.strength }
}

impl NetworkManagerState {
    /// The rows of the Wi-Fi page.
    pub fn network_rows(&self) -> (r: Vec<NetworkRow>)
        ensures
            rows_view(r@) == network_list(*self),
    {
        let aps = &self.wireless_access_points;
        let mut entries: Vec<NetworkRow> = Vec::new();
        let mut i: usize = 0;
        while i < aps.len()
            invariant
                i <= aps.len(),
                rows_view(entries@) == network_entries(aps@.subrange(0, i as int), self.active_conns@),
            decreases aps.len() - i,
        {
            let ap = &aps[i];
            proof {
                assert(aps@.subrange(0, i + 1).drop_last() =~= aps@.subrange(0, i as int));
            }
            if ap.ssid.as_str().unicode_len() > 0 {
                let connected = is_wifi_connected(&self.active_conns, ap.ssid.as_str());
                let ghost before = entries@;
                entries.push(NetworkRow { name: ap.ssid.clone(), connected, strength: ap.strength });
                assert(rows_view(entries@) =~= rows_view(before).push(row_view(entries@.last())));
            }
            i = i + 1;
        }
        assert(aps@.subrange(0, aps@.len() as int) =~= aps@);
        let ghost all = rows_view(entries@);
        let mut sorted: Vec<NetworkRow> = Vec::new();
        let mut r: u32 = 512;
        while r > 0
            invariant
                r <= 512,
                all == rows_view(entries@),
                rows_view(sorted@) == ranks_down(all, r as int),
            decreases r,
        {
            r = r - 1;
            let ghost pred = of_rank(r as int);
            let ghost base = rows_view(sorted@);
            let mut j: usize = 0;
            assert(all.subrange(0, 0).filter(pred) =~= Seq::<(Seq<char>, bool, u8)>::empty());
            assert(base + Seq::<(Seq<char>, bool, u8)>::empty() =~= base);
            while j < entries.len()
                invariant
                    j <= entries.len(),
                    all == rows_view(entries@),
                    pred == of_rank(r as int),
                    rows_view(sorted@) == base + all.subrange(0, j as int).filter(pred),
                decreases entries.len() - j,
            {
                let e = &entries[j];
                let rank: u32 = (if e.connected { 256u32 } else { 0u32 }) + e.strength as u32;
                proof {
                    let prev = all.subrange(0, j as int);
                    assert(prev.push(all[j as int]) =~= all.subrange(0, j + 1));
                    prev.lemma_filter_push(all[j as int], pred);
                    assert(all[j as int] == row_view(*e));
                    assert(rank == row_rank(all[j as int]));
                    assert(pred(all[j as int]) == (rank == r));
                }
                if rank == r {
                    let ghost s0 = rows_view(sorted@);
                    sorted.push(clone_row(e));
                    assert(rows_view(sorted@) =~= s0.push(row_view(*e)));
                    assert(rows_view(sorted@) =~= base + all.subrange(0, j + 1).filter(pred));
                } else {
                    assert(rows_view(sorted@) =~= base + all.subrange(0, j + 1).filter(pred));
                }
                j = j + 1;
            }
            assert(all.subrange(0, all.len() as int) =~= all);
        }
        let mut out: Vec<NetworkRow> = Vec::new();
        let ghost srt = rows_view(sorted@);
        let mut k: usize = 0;
        assert(srt.subrange(0, 0) =~= Seq::<(Seq<char>, bool, u8)>::empty());
        while k < sorted.len()
            invariant
                k <= sorted.len(),
                srt == rows_view(sorted@),
                rows_view(out@) == dedup_names(srt.subrange(0, k as int)),
            decreases sorted.len() - k,
        {
            let e = &sorted[k];
            proof {
                assert(srt.subrange(0, k + 1).drop_last() =~= srt.subrange(0, k as int));
                assert(srt[k as int] == row_view(*e));
            }
            let dup = out.len() > 0 && str_eq(out[out.len() - 1].name.as_str(), e.name.as_str());
            if !dup {
                let ghost o0 = rows_view(out@);
                out.push(clone_row(e));
                assert(rows_view(out@) =~= o0.push(row_view(*e)));
            }
            k = k + 1;
        }
        assert(srt.subrange(0, srt.len() as int) =~= srt);
        out
    }
}


/// The status label of a device row: "available" for devices that are not
/// paired, else the label of its connection state.
pub open spec fn device_status_key(d: BluerDevice) -> Seq<char> {
    if !d.is_paired {
        "available"@
    } else {
        match d.status {
            BluerDeviceStatus::Connected => "connected"@,
            BluerDeviceStatus::Connecting => "connecting"@,
            BluerDeviceStatus::Disconnected => "disconnected"@,
            BluerDeviceStatus::Disconnecting => "disconnecting"@,
            BluerDeviceStatus::Paired => "not-connected"@,
            BluerDeviceStatus::Pairing => "pairing"@,
        }
    }
}

/// What pressing a device row asks: paired devices disconnect when connected
/// and connect otherwise; other devices pair.
pub open spec fn device_action(d: BluerDevice) -> BluerRequest {
    if d.is_paired {
        if d.status == BluerDeviceStatus::Connected {
            BluerRequest::DisconnectDevice(d.address)
        } else {
            BluerRequest::ConnectDevice(d.address)
        }
    } else {
        BluerRequest::PairDevice(d.address)
    }
}

/// The Wi-Fi page's body.
#[derive(Debug)]
pub enum WifiPage {
    /// "wifi-disabled".
    Disabled,
    /// The visible networks; a press on any row sends `on_press`.
    Networks { rows: Vec<NetworkRow>, on_press: Message },
}

impl AppModel {
    /// The Wi-Fi page's body: the network list while Wi-Fi is on.
    pub fn wifi_page(&self) -> (r: WifiPage)
        ensures
            !self.network.nm_state.wifi_enabled ==> r is Disabled,
            self.network.nm_state.wifi_enabled ==> (r matches WifiPage::Networks { rows, on_press }
                && rows_view(rows@) == network_list(self.network.nm_state)
                && (on_press matches Message::OpenSettings(Some(page)) && page@ == "wifi"@)),
    {
        if self.network.nm_state.wifi_enabled {
            WifiPage::Networks {
                rows: self.network.nm_state.network_rows(),
                on_press: Message::OpenSettings(Some(String::from_str("wifi"))),
            }
        } else {
            WifiPage::Disabled
        }
    }
}

/// A row of the Bluetooth page.
#[derive(Debug)]
pub struct DeviceRow {
    pub icon: &'static str,
    pub name: String,
    pub status: &'static str,
    pub battery_percent: Option<u8>,
    pub action: BluerRequest,
}

/// The row shows this device.
pub open spec fn row_shows(r: DeviceRow, d: BluerDevice) -> bool {
    &&& r.icon == d.icon
    &&& r.name@ == d.name@
    &&& r.status@ == device_status_key(d)
    &&& r.battery_percent == d.battery_percent
    &&& r.action == device_action(d)
}

/// The rows show these devices, in order.
pub open spec fn rows_show(rows: Seq<DeviceRow>, devs: Seq<BluerDevice>) -> bool {
    rows.len() == devs.len() && forall|i: int| 0 <= i < rows.len() ==> row_shows(#[trigger] rows[i], devs[i])
}

/// The row of a device.
pub fn device_row(d: &BluerDevice) -> (r: DeviceRow)
    ensures
        row_shows(r, *d),
        !d.is_paired ==> r.action == BluerRequest::PairDevice(d.address),
        d.is_paired && d.status == BluerDeviceStatus::Connected ==> r.action == BluerRequest::DisconnectDevice(d.address),
        d.is_paired && d.status != BluerDeviceStatus::Connected ==> r.action == BluerRequest::ConnectDevice(d.address),
        !d.is_paired ==> r.status@ == "available"@,
        d.is_paired && d.status == BluerDeviceStatus::Connected ==> r.status@ == "connected"@,
        d.is_paired && d.status == BluerDeviceStatus::Paired ==> r.status@ == "not-connected"@,
{
    let status = if !d.is_paired {
        "available"
    } else {
        match d.status {
            BluerDeviceStatus::Connected => "connected",
            BluerDeviceStatus::Connecting => "connecting",
            BluerDeviceStatus::Disconnected => "disconnected",
            BluerDeviceStatus::Disconnecting => "disconnecting",
            BluerDeviceStatus::Paired => "not-connected",
            BluerDeviceStatus::Pairing => "pairing",
        }
    };
    let action = if d.is_paired {
        if d.status == BluerDeviceStatus::Connected {
            BluerRequest::DisconnectDevice(d.address)
        } else {
            BluerRequest::ConnectDevice(d.address)
        }
    } else {
        BluerRequest::PairDevice(d.address)
    };
    DeviceRow {
        icon: d.icon,
        name: d.name.clone(),
        status,
        battery_percent: d.battery_percent,
        action,
    }
}

/// The battery label of a device row, `{percent}%`.
pub open spec fn battery_label_for(percent: u8) -> Seq<char> {
    decimal(percent as nat).push('%')
}

/// The battery label of a device row.
pub fn battery_label(percent: u8) -> (r: String)
    ensures
        r@ == battery_label_for(percent),
{
    let mut s = crate::text::decimal_string(percent as u64);
    crate::text::push_char(&mut s, '%');
    s
}

/// Devices of the paired list.
pub open spec fn is_listed_paired(d: BluerDevice) -> bool {
    d.is_paired
}

/// Devices of the available list that are worth showing: of a known type, or
/// with a name of their own.
pub open spec fn is_listed_available(d: BluerDevice) -> bool {
    !d.is_paired && (d.icon@ != DEFAULT_DEVICE_ICON@ || d.name@ != address_text(d.address))
}

fn listed_rows(devs: &Vec<BluerDevice>, paired: bool) -> (r: Vec<DeviceRow>)
    ensures
        paired ==> rows_show(r@, devs@.filter(|d: BluerDevice| is_listed_paired(d))),
        !paired ==> rows_show(r@, devs@.filter(|d: BluerDevice| is_listed_available(d))),
{
    let ghost pred = if paired {
        |d: BluerDevice| is_listed_paired(d)
    } else {
        |d: BluerDevice| is_listed_available(d)
    };
    let mut r: Vec<DeviceRow> = Vec::new();
    let mut i: usize = 0;
    assert(devs@.subrange(0, 0).filter(pred) =~= Seq::<BluerDevice>::empty());
    while i < devs.len()
        invariant
            i <= devs.len(),
            pred == (if paired {
                |d: BluerDevice| is_listed_paired(d)
            } else {
                |d: BluerDevice| is_listed_available(d)
            }),
            rows_show(r@, devs@.subrange(0, i as int).filter(pred)),
        decreases devs.len() - i,
    {
        let d = &devs[i];
        let keep = if paired {
            d.is_paired
        } else {
            !d.is_paired && (d.is_known_device_type() || d.has_name())
        };
        proof {
            let prev = devs@.subrange(0, i as int);
            assert(prev.push(devs@[i as int]) =~= devs@.subrange(0, i + 1));
            prev.lemma_filter_push(devs@[i as int], pred);
            assert(keep == pred(*d));
        }
        if keep {
            r.push(device_row(d));
        }
        i = i + 1;
    }
    assert(devs@.subrange(0, devs@.len() as int) =~= devs@);
    r
}

/// The Bluetooth page's body.
#[derive(Debug)]
pub enum BluetoothPage {
    /// A pairing waits for confirmation: the device's name and the passkey, and
    /// what the cancel and confirm buttons send.
    Pairing { device_name: String, code: String, on_cancel: Message, on_confirm: Message },
    /// "bluetooth-disabled".
    Disabled,
    /// "bluetooth-no-devices-found".
    NoDevices,
    /// The paired devices, then (under a header with the visibility toggle, when
    /// there are unpaired devices) the unpaired devices worth showing, when the
    /// toggle is on; the toggle sends `on_toggle_unpaired`.
    Devices {
        paired: Vec<DeviceRow>,
        has_unpaired: bool,
        show_unpaired: bool,
        on_toggle_unpaired: Message,
        unpaired: Vec<DeviceRow>,
    },
}

impl AppModel {
    /// The Bluetooth page's body.
    pub fn bluetooth_page(&self) -> (r: BluetoothPage)
        ensures
            match self.bluetooth.request_confirmation {
                Some((d, code)) => r matches BluetoothPage::Pairing { device_name, code: c, on_cancel, on_confirm }
                    && device_name@ == d.name@ && c@ == code@
                    && on_cancel == Message::CancelPairing && on_confirm == Message::ConfirmPairing,
                None => {
                    let devs = self.bluetooth.bluer_state.devices@;
                    if !self.bluetooth.bluer_state.bluetooth_enabled {
                        r is Disabled
                    } else if devs.len() == 0 {
                        r is NoDevices
                    } else {
                        r matches BluetoothPage::Devices { paired, has_unpaired, show_unpaired, on_toggle_unpaired, unpaired }
                            && on_toggle_unpaired == Message::ToggleVisibleDevices(!show_unpaired)
                            && rows_show(paired@, devs.filter(|d: BluerDevice| is_listed_paired(d)))
                            && has_unpaired == (exists|i: int| 0 <= i < devs.len() && !devs[i].is_paired)
                            && show_unpaired == self.bluetooth.show_visible_devices
                            && (show_unpaired ==> rows_show(unpaired@, devs.filter(|d: BluerDevice| is_listed_available(d))))
                            && (!show_unpaired ==> unpaired@.len() == 0)
                    }
                },
            },
    {
        match &self.bluetooth.request_confirmation {
            Some((d, code)) => {
                return BluetoothPage::Pairing {
                    device_name: d.name.clone(),
                    code: code.clone(),
                    on_cancel: Message::CancelPairing,
                    on_confirm: Message::ConfirmPairing,
                };
            },
            None => {},
        }
        let devs = &self.bluetooth.bluer_state.devices;
        if !self.bluetooth.bluer_state.bluetooth_enabled {
            return BluetoothPage::Disabled;
        }
        if devs.len() == 0 {
            return BluetoothPage::NoDevices;
        }
        let mut has_unpaired = false;
        let mut i: usize = 0;
        while i < devs.len()
            invariant
                i <= devs.len(),
                has_unpaired == (exists|k: int| 0 <= k < i && !devs@[k].is_paired),
            decreases devs.len() - i,
        {
            if !devs[i].is_paired {
                has_unpaired = true;
            }
            i = i + 1;
        }
        let paired = listed_rows(devs, true);
        let show = self.bluetooth.show_visible_devices;
        let unpaired = if show {
            listed_rows(devs, false)
        } else {
            Vec::new()
        };
        BluetoothPage::Devices {
            paired,
            has_unpaired,
            show_unpaired: show,
            on_toggle_unpaired: Message::ToggleVisibleDevices(!show),
            unpaired,
        }
    }
}

/// A row of the VPN page.
#[derive(Debug)]
pub struct VpnRow {
    pub uuid: String,
    pub id: String,
    /// A VPN of this id is among the active connections.
    pub active: bool,
}

/// Whether an active VPN connection has this name.
pub open spec fn vpn_connected(conns: Seq<ActiveConnectionInfo>, id: Seq<char>) -> bool {
    exists|i: int| 0 <= i < conns.len() && conns[i] is Vpn && conns[i].name_of() == id
}

/// The VPN page's body.
#[derive(Debug)]
pub enum VpnPage {
    /// A VPN asks for its password: the form's title is the request's
    /// description, else the VPN's UUID; the password typed so far and whether it
    /// is hidden; what the visibility, cancel and connect buttons (and submitting
    /// the field) send. Typing sends `vpn_password_edited` of the new text.
    PasswordForm {
        title: String,
        password: String,
        password_hidden: bool,
        on_toggle_visibility: Message,
        on_cancel: Message,
        on_submit: Message,
    },
    /// The known VPNs, in order, each activated or deactivated by a press; with
    /// none, "No VPN connections found".
    Connections(Vec<VpnRow>),
}

/// What typing into the VPN password field sends: the field's new text.
pub fn vpn_password_edited(text: String) -> (m: Message)
    ensures
        m == Message::VPNPasswordUpdate(text),
{
    Message::VPNPasswordUpdate(text)
}

impl VpnRow {
    /// The message of a press on the row: deactivate an active VPN, activate an
    /// inactive one.
    pub fn action(&self) -> (m: Message)
        ensures
            self.active ==> (m matches Message::DeactivateVpn(u) && u@ == self.uuid@),
            !self.active ==> (m matches Message::ActivateVpn(u) && u@ == self.uuid@),
    {
        if self.active {
            Message::DeactivateVpn(self.uuid.clone())
        } else {
            Message::ActivateVpn(self.uuid.clone())
        }
    }
}

fn is_vpn_connected(conns: &Vec<ActiveConnectionInfo>, id: &str) -> (r: bool)
    ensures
        r == vpn_connected(conns@, id@),
{
    let mut i: usize = 0;
    while i < conns.len()
        invariant
            i <= conns.len(),
            forall|k: int| 0 <= k < i ==> !(conns@[k] is Vpn && conns@[k].name_of() == id@),
        decreases conns.len() - i,
    {
        match &conns[i] {
            ActiveConnectionInfo::Vpn { name } => {
                if str_eq(name.as_str(), id) {
                    return true;
                }
            },
            _ => {},
        }
        i = i + 1;
    }
    false
}

impl AppModel {
    /// The VPN page's body.
    pub fn vpn_page(&self) -> (r: VpnPage)
        ensures
            match self.network.requested_vpn {
                Some(v) => r matches VpnPage::PasswordForm {
                    title,
                    password,
                    password_hidden,
                    on_toggle_visibility,
                    on_cancel,
                    on_submit,
                } && title@ == (match v.description {
                    Some(d) => d@,
                    None => v.uuid@,
                }) && password@ == v.password@ && password_hidden == v.password_hidden
                    && on_toggle_visibility == Message::ToggleVpnPasswordVisibility
                    && on_cancel == Message::CancelVPNConnection
                    && on_submit == Message::ConnectVPNWithPassword,
                None => {
                    let entries = vpn_entries(self.network.known_vpns);
                    r matches VpnPage::Connections(rows) && rows@.len() == entries.len()
                        && forall|i: int| 0 <= i < entries.len() ==> {
                            &&& (#[trigger] rows@[i]).uuid@ == entries[i].0
                            &&& rows@[i].id@ == entries[i].1.id_of()
                            &&& rows@[i].active == vpn_connected(self.network.nm_state.active_conns@, entries[i].1.id_of())
                        }
                },
            },
    {
        match &self.network.requested_vpn {
            Some(v) => {
                let title = match &v.description {
                    Some(d) => d.clone(),
                    None => v.uuid.clone(),
                };
                return VpnPage::PasswordForm {
                    title,
                    password: v.password.clone(),
                    password_hidden: v.password_hidden,
                    on_toggle_visibility: Message::ToggleVpnPasswordVisibility,
                    on_cancel: Message::CancelVPNConnection,
                    on_submit: Message::ConnectVPNWithPassword,
                };
            },
            None => {},
        }
        let n = known_vpns_len(&self.network.known_vpns);
        let ghost entries = vpn_entries(self.network.known_vpns);
        let mut rows: Vec<VpnRow> = Vec::new();
        let mut i: usize = 0;
        while i < n
            invariant
                i <= n,
                n == entries.len(),
                entries == vpn_entries(self.network.known_vpns),
                rows@.len() == i,
                forall|k: int| 0 <= k < i ==> {
                    &&& (#[trigger] rows@[k]).uuid@ == entries[k].0
                    &&& rows@[k].id@ == entries[k].1.id_of()
                    &&& rows@[k].active == vpn_connected(self.network.nm_state.active_conns@, entries[k].1.id_of())
                },
            decreases n - i,
        {
            let (uuid, conn) = known_vpns_entry(&self.network.known_vpns, i);
            let id = conn.id().clone();
            let active = is_vpn_connected(&self.network.nm_state.active_conns, id.as_str());
            rows.push(VpnRow { uuid: uuid.clone(), id, active });
            i = i + 1;
        }
        VpnPage::Connections(rows)
    }
}

/// Which device list of the audio page.
#[derive(Clone, Copy, Debug, PartialEq, Eq, Structural)]
pub enum AudioList {
    Outputs,
    Inputs,
}

/// What the head of a device list sends: it folds or unfolds that list.
pub open spec fn list_toggle_for(list: AudioList) -> Message {
    match list {
        AudioList::Outputs => Message::OutputToggle,
        AudioList::Inputs => Message::InputToggle,
    }
}

/// What choosing the device at position `i` of a list sends: it becomes the
/// default sink or source.
pub open spec fn list_choice_for(list: AudioList, i: int) -> Message {
    match list {
        AudioList::Outputs => Message::SetDefaultSink(i as usize),
        AudioList::Inputs => Message::SetDefaultSource(i as usize),
    }
}

/// A device list of the audio page (outputs or inputs).
#[derive(Debug)]
pub struct Revealer {
    /// The selected device's name, else the fallback text.
    pub selected: String,
    /// What the list's head sends.
    pub on_toggle: Message,
    /// The devices listed for choosing, by position, when the list is unfolded.
    pub choices: Vec<String>,
    /// What choosing each listed device sends, by position.
    pub on_choose: Vec<Message>,
}

/// The label of the selected device: its name, else the fallback.
pub open spec fn selected_label(names: Seq<String>, active: Option<usize>, fallback: Seq<char>) -> Seq<char> {
    match active {
        Some(i) => if i < names.len() {
            names[i as int]@
        } else {
            fallback
        },
        None => fallback,
    }
}

/// The revealer shows `names` unfolded when `open`, each choice sending its
/// position's message, and its head sends the list's toggle.
pub open spec fn revealer_shows(r: Revealer, open: bool, names: Seq<String>, list: AudioList) -> bool {
    &&& r.on_toggle == list_toggle_for(list)
    &&& open ==> r.choices@ == names
    &&& !open ==> r.choices@.len() == 0
    &&& r.on_choose@.len() == r.choices@.len()
    &&& forall|i: int| 0 <= i < r.on_choose@.len() ==> #[trigger] r.on_choose@[i] == list_choice_for(list, i)
}

/// A device list of the audio page: the selected device, and the devices to
/// choose from when unfolded.
pub fn revealer(open: bool, names: &Vec<String>, active: Option<usize>, fallback: &str, list: AudioList) -> (r: Revealer)
    ensures
        r.selected@ == selected_label(names@, active, fallback@),
        revealer_shows(r, open, names@, list),
{
    let selected = match active {
        Some(i) => if i < names.len() {
            names[i].clone()
        } else {
            String::from_str(fallback)
        },
        None => String::from_str(fallback),
    };
    let choices = if open {
        names.clone()
    } else {
        Vec::new()
    };
    let mut on_choose: Vec<Message> = Vec::new();
    let mut i: usize = 0;
    while i < choices.len()
        invariant
            i <= choices.len(),
            on_choose@.len() == i,
            forall|k: int| 0 <= k < i ==> #[trigger] on_choose@[k] == list_choice_for(list, k),
        decreases choices.len() - i,
    {
        let m = match list {
            AudioList::Outputs => Message::SetDefaultSink(i),
            AudioList::Inputs => Message::SetDefaultSource(i),
        };
        on_choose.push(m);
        i = i + 1;
    }
    let on_toggle = match list {
        AudioList::Outputs => Message::OutputToggle,
        AudioList::Inputs => Message::InputToggle,
    };
    Revealer { selected, on_toggle, choices, on_choose }
}

/// The audio page: output and input rows with their icons, what the icons send
/// and the slider ranges, and a device list for each. The output slider sends
/// `SliderKind::Volume` messages and the input slider `SliderKind::Microphone`
/// ones.
#[derive(Debug)]
pub struct AudioPage {
    pub output_icon: &'static str,
    pub output_button: Message,
    pub output_max: u32,
    pub outputs: Revealer,
    pub input_icon: &'static str,
    pub input_button: Message,
    pub input_max: u32,
    pub inputs: Revealer,
}

impl AppModel {
    /// The audio page, from the sound model's source level and mute, and its
    /// sinks and sources with the active ones.
    pub fn audio_page(
        &self,
        source_volume: u32,
        source_mute: bool,
        sinks: &Vec<String>,
        active_sink: Option<usize>,
        sources: &Vec<String>,
        active_source: Option<usize>,
    ) -> (r: AudioPage)
        ensures
            r.output_icon@ == volume_icon_for(self.audio.volume, self.audio.global_mute),
            r.output_button == Message::ToggleGlobalMute(!self.audio.global_mute),
            r.output_max == self.audio.max_sink_volume,
            r.outputs.selected@ == selected_label(sinks@, active_sink, "No output device"@),
            revealer_shows(r.outputs, self.ui.is_open == crate::app::IsOpen::Output, sinks@, AudioList::Outputs),
            r.input_icon@ == microphone_icon_for(source_volume, source_mute),
            r.input_button == Message::ToggleSourceMute,
            r.input_max == self.audio.max_source_volume,
            r.inputs.selected@ == selected_label(sources@, active_source, "No input device"@),
            revealer_shows(r.inputs, self.ui.is_open == crate::app::IsOpen::Input, sources@, AudioList::Inputs),
    {
        AudioPage {
            output_icon: volume_icon(self.audio.volume, self.audio.global_mute),
            output_button: Message::ToggleGlobalMute(!self.audio.global_mute),
            output_max: self.audio.max_sink_volume,
            outputs: revealer(
                self.ui.is_open == crate::app::IsOpen::Output,
                sinks,
                active_sink,
                "No output device",
                AudioList::Outputs,
            ),
            input_icon: microphone_icon(source_volume, source_mute),
            input_button: Message::ToggleSourceMute,
            input_max: self.audio.max_source_volume,
            inputs: revealer(
                self.ui.is_open == crate::app::IsOpen::Input,
                sources,
                active_source,
                "No input device",
                AudioList::Inputs,
            ),
        }
    }
}

} // verus!
