//! Properties of the applet that span several messages or hold of every
//! message.

use vstd::prelude::*;

use crate::app::{
    raw_brightness, step, Action, PowerProfile, SecretEvent, BrightnessEvent, DeviceEvent, AppModel, AppView, Env, IsOpen, Message,
    NmEvent, NmRequest,
};
use crate::bluetooth::{
    devices_sorted, lemma_sorted_devices_order, BluerAgentEvent, BluerDevice, BluerDeviceStatus, BluerEvent, BluerRequest,
};
use crate::mpris::{PlaybackStatus, PlayerStatus};
use crate::text::{chars_order, lowercase, Comparison};
use crate::network::{has_active_vpn, has_key, vpn_entries, NetworkManagerState, NewConnectionState, RequestedVpn};
use crate::views::{
    dedup_names, lemma_dedup_names_keeps_names, lemma_dedup_names_shape, lemma_entries_hold_named, lemma_ranks_down_holds,
    lemma_ranks_down_sorted, media_card_matches, network_entries, network_list, power_tile_for, ranks_down, row_rank,
    row_shows, wifi_connected, DeviceRow, MediaCard,
};
use crate::network_model::{
    NetworkModel,
    lemma_connect_reconnects_when_closed, lemma_deactivate_reconnects_when_closed,
    lemma_reset_failed_reconnects_when_closed, lemma_select_reconnects_when_closed,
};

verus! {

/// Cycling the power profile three times brings the applet back to exactly the
/// state it started from.
pub proof fn law_power_profile_cycles(
    s0: AppModel, s1: AppModel, s2: AppModel, s3: AppModel,
    e1: Env, e2: Env, e3: Env,
    a1: Seq<Action>, a2: Seq<Action>, a3: Seq<Action>,
)
    requires
        step(s0, s1, Message::CyclePowerProfile, e1, a1),
        step(s1, s2, Message::CyclePowerProfile, e2, a2),
        step(s2, s3, Message::CyclePowerProfile, e3, a3),
    ensures
        s3 == s0,
        s1.power.power_profile != s0.power.power_profile,
        s2.power.power_profile != s0.power.power_profile,
{
}

/// Showing the network list twice in a row leaves the applet as it was.
pub proof fn law_visible_networks_toggle_twice(
    s0: AppModel, s1: AppModel, s2: AppModel, e1: Env, e2: Env, a1: Seq<Action>, a2: Seq<Action>,
)
    requires
        step(s0, s1, Message::ToggleVisibleNetworks, e1, a1),
        step(s1, s2, Message::ToggleVisibleNetworks, e2, a2),
    ensures
        s2 == s0,
        a1.len() == 0 && a2.len() == 0,
{
}

/// Showing the login form's password twice in a row leaves the applet as it
/// was.
pub proof fn law_password_visibility_toggle_twice(
    s0: AppModel, s1: AppModel, s2: AppModel, e1: Env, e2: Env, a1: Seq<Action>, a2: Seq<Action>,
)
    requires
        step(s0, s1, Message::TogglePasswordVisibility, e1, a1),
        step(s1, s2, Message::TogglePasswordVisibility, e2, a2),
    ensures
        s2 == s0,
{
}

/// Showing the VPN form's password twice in a row leaves the applet as it was.
pub proof fn law_vpn_password_visibility_toggle_twice(
    s0: AppModel, s1: AppModel, s2: AppModel, e1: Env, e2: Env, a1: Seq<Action>, a2: Seq<Action>,
)
    requires
        step(s0, s1, Message::ToggleVpnPasswordVisibility, e1, a1),
        step(s1, s2, Message::ToggleVpnPasswordVisibility, e2, a2),
    ensures
        s2 == s0,
{
}

/// The configuration changes only when a new one arrives.
pub proof fn law_config_changes_only_by_update(s: AppModel, t: AppModel, msg: Message, env: Env, acts: Seq<Action>)
    requires
        step(s, t, msg, env, acts),
        !(msg is UpdateConfig),
    ensures
        t.config == s.config,
{
}

/// Opening or closing the popup always shows the main page.
pub proof fn law_toggle_popup_shows_main(s: AppModel, t: AppModel, env: Env, acts: Seq<Action>)
    requires
        step(s, t, Message::TogglePopup, env, acts),
    ensures
        t.ui.current_view == AppView::Main,
        t.ui.popup_open == (!s.ui.popup_open && env.has_main_window),
{
}

/// Navigating shows the requested page and changes nothing else.
pub proof fn law_navigate(s: AppModel, t: AppModel, v: AppView, env: Env, acts: Seq<Action>)
    requires
        step(s, t, Message::Navigate(v), env, acts),
    ensures
        t.ui.current_view == v,
        t.ui.popup_open == s.ui.popup_open,
        t.config == s.config && t.network == s.network && t.bluetooth == s.bluetooth,
        acts.len() == 0,
{
}

/// A Bluetooth power request shows the requested power state at once.
pub proof fn law_bluetooth_power_shows_at_once(s: AppModel, t: AppModel, b: bool, env: Env, acts: Seq<Action>)
    requires
        step(s, t, Message::BluetoothRequest(BluerRequest::SetBluetoothEnabled(b)), env, acts),
    ensures
        t.bluetooth.bluer_state.bluetooth_enabled == b,
        t.bluetooth.bluer_state.devices@ == s.bluetooth.bluer_state.devices@,
{
}

/// Whenever Network Manager's state arrives with the subscription's start or a
/// response, the VPN tile shows whether a VPN is active in it.
pub proof fn law_vpn_tile_follows_state(s: AppModel, t: AppModel, e: NmEvent, env: Env, acts: Seq<Action>)
    requires
        step(s, t, Message::NetworkManager(e), env, acts),
        e is Init || e is RequestResponse,
    ensures
        t.network.vpn_active == has_active_vpn(t.network.nm_state.active_conns@),
{
}

/// The input list toggle unfolds the input list exactly when it was not
/// unfolded.
pub proof fn law_input_toggle(s: AppModel, t: AppModel, env: Env, acts: Seq<Action>)
    requires
        step(s, t, Message::InputToggle, env, acts),
    ensures
        (t.ui.is_open == IsOpen::Input) == (s.ui.is_open != IsOpen::Input),
        s.ui.is_open == IsOpen::Input ==> t.ui.is_open == IsOpen::Neither,
{
}

/// The output list toggle unfolds the output list exactly when it was not
/// unfolded.
pub proof fn law_output_toggle(s: AppModel, t: AppModel, env: Env, acts: Seq<Action>)
    requires
        step(s, t, Message::OutputToggle, env, acts),
    ensures
        (t.ui.is_open == IsOpen::Output) == (s.ui.is_open != IsOpen::Output),
        s.ui.is_open == IsOpen::Output ==> t.ui.is_open == IsOpen::Neither,
{
}

/// A screenshot taken from the open popup waits for the popup to close, and is
/// taken once it has closed.
pub proof fn law_screenshot_after_popup_closes(
    s0: AppModel, s1: AppModel, s2: AppModel, is_current: bool, e1: Env, e2: Env, a1: Seq<Action>, a2: Seq<Action>,
)
    requires
        s0.ui.popup_open,
        step(s0, s1, Message::TakeScreenshot, e1, a1),
        step(s1, s2, Message::PopupClosed { is_current }, e2, a2),
    ensures
        a1 == seq![Action::DestroyPopup],
        s1.ui.pending_screenshot,
        !s1.ui.popup_open,
        a2.len() >= 1,
        a2.last() == Action::Dispatch(Message::ExecuteScreenshot),
        !s2.ui.pending_screenshot,
        !s2.ui.popup_open,
{
}

/// A reconnection of the system bus is asked for only when the Network Manager
/// channel is closed.
pub proof fn law_reconnect_only_when_closed(s: AppModel, t: AppModel, msg: Message, env: Env, acts: Seq<Action>, i: int)
    requires
        step(s, t, msg, env, acts),
        0 <= i < acts.len(),
        acts[i] is ReconnectSystemBus,
    ensures
        env.nm_sender_closed,
{
    let closed = env.nm_sender_closed;
    match msg {
        Message::SelectWirelessAccessPoint(ap) => {
            lemma_select_reconnects_when_closed(s.network, t.network, ap, closed, acts, i);
        },
        Message::Connect(ssid, hw) => {
            lemma_connect_reconnects_when_closed(s.network, t.network, ssid, hw, closed, acts, i);
        },
        Message::DeactivateVpn(uuid) => {
            lemma_deactivate_reconnects_when_closed(s.network, uuid@, closed, acts, i);
        },
        Message::ResetFailedKnownSsid(ssid, hw) => {
            lemma_reset_failed_reconnects_when_closed(s.network, t.network, ssid, hw, closed, acts, i);
        },
        _ => {},
    }
}

/// The password typed into the login form is the one authenticated with when
/// the form is submitted.
pub proof fn law_login_uses_typed_password(
    s0: AppModel, s1: AppModel, s2: AppModel, pwd: String, e1: Env, e2: Env, a1: Seq<Action>, a2: Seq<Action>,
)
    requires
        s0.network.new_connection matches Some(NewConnectionState::EnterPassword { .. }),
        s0.network.has_nm_sender,
        !e2.nm_sender_closed,
        step(s0, s1, Message::PasswordUpdate(pwd), e1, a1),
        step(s1, s2, Message::ConnectWithPassword, e2, a2),
    ensures
        a2.len() == 1,
        a2[0] matches Action::SendNm(NmRequest::Authenticate { ssid, identity, password })
            && password == pwd
            && ssid == s0.network.new_connection->0.access_point_of().ssid,
        s2.network.new_connection == Some(NewConnectionState::Waiting(s0.network.new_connection->0.access_point_of())),
{
}

/// A brightness slider at 100% asks for the full raw brightness, and a slider
/// within 0..=100% asks for a raw value between 0 and the maximum.
pub proof fn law_brightness_scaling(percent: u32, max: i32)
    requires
        percent <= 100,
        max >= 0,
    ensures
        raw_brightness(100, max) == max,
        0 <= raw_brightness(percent, max) <= max,
{
    assert(100 * max / 100 == max) by (nonlinear_arith);
    assert(0 <= percent * max <= 100 * max) by (nonlinear_arith)
        requires
            percent <= 100,
            max >= 0,
    ;
    assert((percent * max) / 100 <= max) by (nonlinear_arith)
        requires
            0 <= percent * max <= 100 * max,
    ;
}

/// The Wi-Fi page lists connected networks before the others and stronger
/// networks before weaker ones, and never shows the same name twice in a row.
pub proof fn law_network_list_order(st: NetworkManagerState)
    ensures
        forall|i: int, j: int| 0 <= i < j < network_list(st).len() ==> row_rank(#[trigger] network_list(st)[i])
            >= row_rank(#[trigger] network_list(st)[j]),
        forall|i: int| 0 <= i < network_list(st).len() - 1 ==> (#[trigger] network_list(st)[i]).0
            != network_list(st)[i + 1].0,
{
    let entries = network_entries(st.wireless_access_points@, st.active_conns@);
    lemma_ranks_down_sorted(entries, 0);
    lemma_dedup_names_shape(ranks_down(entries, 0));
}

/// The applet adapts to missing hardware: once UPower reports no battery, no
/// battery is shown; a backlight reported with a maximum of zero or less gets no
/// slider, and slider values are no longer recorded for it.
pub proof fn law_missing_hardware_is_hidden(
    s0: AppModel, s1: AppModel, s2: AppModel, v: i32, p: u32, e1: Env, e2: Env, a1: Seq<Action>, a2: Seq<Action>,
)
    requires
        step(s0, s1, Message::Brightness(BrightnessEvent::MaxBrightness(v)), e1, a1),
        step(s1, s2, Message::Brightness(BrightnessEvent::Brightness { percent: p }), e2, a2),
    ensures
        s1.display.max_brightness == v,
        v <= 0 ==> s2.display == s1.display,
        v > 0 ==> s2.display.brightness == p,
        a1.len() == 0 && a2.len() == 0,
{
}

/// Once UPower reports that there is no battery, the applet has none to show.
pub proof fn law_no_battery_is_hidden(s: AppModel, t: AppModel, env: Env, acts: Seq<Action>)
    requires
        step(s, t, Message::UPowerDevice(DeviceEvent::NoBattery), env, acts),
    ensures
        !t.power.has_battery,
        acts.len() == 0,
{
}

/// A pairing confirmation that the agent asks for is kept with its reply
/// channel, shown, and answered once: confirming answers yes, and a second
/// answer sends nothing.
pub proof fn law_pairing_answered_once(
    s0: AppModel, s1: AppModel, s2: AppModel, s3: AppModel, d: BluerDevice, code: String,
    e1: Env, e2: Env, e3: Env, a1: Seq<Action>, a2: Seq<Action>, a3: Seq<Action>,
)
    requires
        step(s0, s1, Message::BluetoothEvent(BluerEvent::AgentEvent(BluerAgentEvent::RequestConfirmation(d, code))), e1, a1),
        step(s1, s2, Message::ConfirmPairing, e2, a2),
        step(s2, s3, Message::CancelPairing, e3, a3),
    ensures
        a1 == seq![Action::KeepPairingReply],
        s1.bluetooth.request_confirmation == Some((d, code)),
        a2 == seq![Action::AnswerPairing(true)],
        s2.bluetooth.request_confirmation is None,
        a3.len() == 0,
        s3 == s2,
{
}

/// Bluetooth discovery stays wanted while the popup is open: a fresh applet
/// has no popup, and every message keeps an open popup's discovery on. The
/// wanted discovery changes only by sending it with `SetDiscovery`.
pub proof fn law_discovery_on_while_popup_open(s: AppModel, t: AppModel, msg: Message, env: Env, acts: Seq<Action>)
    requires
        step(s, t, msg, env, acts),
        s.ui.popup_open ==> s.ui.discovery,
    ensures
        t.ui.popup_open ==> t.ui.discovery,
        t.ui.discovery != s.ui.discovery ==> exists|i: int| 0 <= i < acts.len() && acts[i] == Action::SetDiscovery(t.ui.discovery),
{
    match msg {
        Message::TogglePopup => {
            if !s.ui.popup_open && t.ui.discovery != s.ui.discovery {
                assert(acts[0] == Action::SetDiscovery(t.ui.discovery));
            }
        },
        Message::PopupClosed { is_current } => {
            if is_current && t.ui.discovery != s.ui.discovery {
                assert(acts[0] == Action::SetDiscovery(false));
            }
        },
        _ => {},
    }
}

/// A fresh applet has no popup open.
pub proof fn law_fresh_applet_has_no_popup(s: AppModel)
    requires
        s.is_initial(),
    ensures
        !s.ui.popup_open && !s.ui.discovery,
{
}

/// Every visible access point with a name is listed on the Wi-Fi page.
pub proof fn law_network_list_holds_every_named_network(st: NetworkManagerState, k: int)
    requires
        0 <= k < st.wireless_access_points@.len(),
        st.wireless_access_points@[k].ssid@.len() > 0,
    ensures
        exists|j: int| 0 <= j < network_list(st).len()
            && (#[trigger] network_list(st)[j]).0 == st.wireless_access_points@[k].ssid@,
{
    let aps = st.wireless_access_points@;
    let conns = st.active_conns@;
    let entries = network_entries(aps, conns);
    let x = (aps[k].ssid@, wifi_connected(conns, aps[k].ssid@), aps[k].strength);
    lemma_entries_hold_named(aps, conns, k);
    lemma_ranks_down_holds(entries, 0, x);
    let sorted = ranks_down(entries, 0);
    let i = choose|i: int| 0 <= i < sorted.len() && sorted[i] == x;
    lemma_dedup_names_keeps_names(sorted, i);
    let list = dedup_names(sorted);
    assert(network_list(st) == list);
    let j = choose|j: int| 0 <= j < list.len() && (#[trigger] list[j]).0 == sorted[i].0;
    assert(network_list(st)[j].0 == aps[k].ssid@);
}

/// The power tile names the profile it shows: each profile has its own icon and
/// label, and the three differ.
pub proof fn law_power_tile_names_profile(p: PowerProfile, q: PowerProfile)
    ensures
        power_tile_for(PowerProfile::Balanced) == ("power-profile-balanced-symbolic"@, "balanced"@),
        power_tile_for(PowerProfile::Performance) == ("power-profile-performance-symbolic"@, "performance"@),
        power_tile_for(PowerProfile::PowerSaver) == ("power-profile-power-saver-symbolic"@, "power-saver"@),
        p != q ==> power_tile_for(p).0 != power_tile_for(q).0 && power_tile_for(p).1 != power_tile_for(q).1,
{
    reveal_strlit("power-profile-balanced-symbolic");
    reveal_strlit("power-profile-performance-symbolic");
    reveal_strlit("power-profile-power-saver-symbolic");
    reveal_strlit("balanced");
    reveal_strlit("performance");
    reveal_strlit("power-saver");
    assert("balanced"@[0] != "performance"@[0]);
    assert("balanced"@[0] != "power-saver"@[0]);
    assert("performance"@[1] != "power-saver"@[1]);
    assert("power-profile-balanced-symbolic"@[14] != "power-profile-performance-symbolic"@[14]);
    assert("power-profile-balanced-symbolic"@[14] != "power-profile-power-saver-symbolic"@[14]);
    assert("power-profile-performance-symbolic"@[15] != "power-profile-power-saver-symbolic"@[15]);
}

/// Pressing a device row asks for what the device needs: an unpaired device is
/// paired, a paired and connected one is disconnected, and a paired one that is
/// not connected is connected.
pub proof fn law_device_row_press(r: DeviceRow, d: BluerDevice)
    requires
        row_shows(r, d),
    ensures
        !d.is_paired ==> r.action == BluerRequest::PairDevice(d.address),
        d.is_paired && d.status == BluerDeviceStatus::Connected ==> r.action == BluerRequest::DisconnectDevice(d.address),
        d.is_paired && d.status != BluerDeviceStatus::Connected ==> r.action == BluerRequest::ConnectDevice(d.address),
{
}

/// Devices listed in device order come by connection status in its declared
/// order (connected, connecting, paired, pairing, disconnected, disconnecting),
/// and devices of one status by ascending lower-cased name.
pub proof fn law_device_list_order(s: Seq<BluerDevice>, i: int, j: int)
    requires
        devices_sorted(s),
        0 <= i < j < s.len(),
    ensures
        s[i].status.rank_of() <= s[j].status.rank_of(),
        s[i].status == s[j].status ==> chars_order(lowercase(s[i].name@), lowercase(s[j].name@)) != Comparison::Greater,
        BluerDeviceStatus::Connected.rank_of() < BluerDeviceStatus::Connecting.rank_of(),
        BluerDeviceStatus::Connecting.rank_of() < BluerDeviceStatus::Paired.rank_of(),
        BluerDeviceStatus::Paired.rank_of() < BluerDeviceStatus::Pairing.rank_of(),
        BluerDeviceStatus::Pairing.rank_of() < BluerDeviceStatus::Disconnected.rank_of(),
        BluerDeviceStatus::Disconnected.rank_of() < BluerDeviceStatus::Disconnecting.rank_of(),
{
    lemma_sorted_devices_order(s);
    assert(s[i].status.rank_of() <= s[j].status.rank_of());
}

/// The play button of a player that is not playing resumes playback when the
/// player can play; while playing it pauses when the player can pause; otherwise
/// it is disabled.
pub proof fn law_media_play_button(p: Option<PlayerStatus>, c: MediaCard)
    requires
        media_card_matches(p, c),
    ensures
        p is None ==> c.play_pause is None,
        p is Some && p->0.status != PlaybackStatus::Playing && p->0.can_play ==> c.play_pause == Some(Message::MediaPlay),
        p is Some && p->0.status != PlaybackStatus::Playing && !p->0.can_play ==> c.play_pause is None,
        p is Some && p->0.status == PlaybackStatus::Playing && p->0.can_pause ==> c.play_pause == Some(Message::MediaPause),
        p is Some && p->0.status == PlaybackStatus::Playing && !p->0.can_pause ==> c.play_pause is None,
{
}

/// A password request of the secret agent while no Wi-Fi login is in progress:
/// for a known VPN, the VPN's password form opens with the previous password,
/// hidden, and the reply channel is kept; for an unknown UUID nothing changes.
pub proof fn law_vpn_secret_request(
    s: AppModel, t: AppModel, uuid: String, name: String, description: Option<String>, previous: String,
    env: Env, acts: Seq<Action>,
)
    requires
        s.network.new_connection is None,
        step(s, t, Message::SecretAgent(SecretEvent::RequestSecret { uuid, name, description, previous }), env, acts),
    ensures
        has_key(vpn_entries(s.network.known_vpns), uuid@) ==> {
            &&& t.network.requested_vpn == Some(RequestedVpn { name, uuid, description, password: previous, password_hidden: true })
            &&& acts == seq![Action::KeepSecretReply]
            &&& t == (AppModel { network: NetworkModel { requested_vpn: t.network.requested_vpn, ..s.network }, ..s })
        },
        !has_key(vpn_entries(s.network.known_vpns), uuid@) ==> t == s && acts.len() == 0,
{
}

} // verus!
