//! Bluetooth devices as the applet sees them, and the decisions taken on them.

use std::sync::atomic::{AtomicBool, Ordering};
use vstd::multiset::Multiset;
use vstd::prelude::*;

use crate::text::{
    chars_equal, chars_of, chars_order, compare_chars, find_char, index_of, lemma_chars_order_flip,
    lemma_chars_order_trans, lemma_index_of, lowercase, push_char, six_digit_string, six_digits,
    slice_chars, str_eq, string_of, to_lowercase, trim, trim_chars, Comparison,
};

verus! {

/// Icon shown for a device whose type is not known.
pub const DEFAULT_DEVICE_ICON: &'static str = "bluetooth-symbolic";

/// Records whether device discovery is wanted (true while the popup is open).
///
/// The background scanner reads the flag before each listening round.
pub fn set_discovery(flag: &AtomicBool, v: bool) {
    flag.store(v, Ordering::Relaxed);
}

/// The icon name that BlueZ's device type maps to.
pub open spec fn icon_for_type(t: Seq<char>) -> Seq<char> {
    if t == "computer"@ {
        "laptop-symbolic"@
    } else if t == "phone"@ {
        "smartphone-symbolic"@
    } else if t == "network-wireless"@ {
        "network-wireless-symbolic"@
    } else if t == "audio-headset"@ {
        "audio-headset-symbolic"@
    } else if t == "audio-headphones"@ {
        "audio-headphones-symbolic"@
    } else if t == "camera-video"@ {
        "camera-video-symbolic"@
    } else if t == "audio-card"@ {
        "audio-card-symbolic"@
    } else if t == "input-gaming"@ {
        "input-gaming-symbolic"@
    } else if t == "input-keyboard"@ {
        "input-keyboard-symbolic"@
    } else if t == "input-tablet"@ {
        "input-tablet-symbolic"@
    } else if t == "input-mouse"@ {
        "input-mouse-symbolic"@
    } else if t == "printer"@ {
        "printer-network-symbolic"@
    } else if t == "camera-photo"@ {
        "camera-photo-symbolic"@
    } else {
        DEFAULT_DEVICE_ICON@
    }
}

/// Maps a BlueZ device type to the icon shown for it.
pub fn device_type_to_icon(device_type: &str) -> (icon: &'static str)
    ensures
        icon@ == icon_for_type(device_type@),
{
    if str_eq(device_type, "computer") {
        "laptop-symbolic"
    } else if str_eq(device_type, "phone") {
        "smartphone-symbolic"
    } else if str_eq(device_type, "network-wireless") {
        "network-wireless-symbolic"
    } else if str_eq(device_type, "audio-headset") {
        "audio-headset-symbolic"
    } else if str_eq(device_type, "audio-headphones") {
        "audio-headphones-symbolic"
    } else if str_eq(device_type, "camera-video") {
        "camera-video-symbolic"
    } else if str_eq(device_type, "audio-card") {
        "audio-card-symbolic"
    } else if str_eq(device_type, "input-gaming") {
        "input-gaming-symbolic"
    } else if str_eq(device_type, "input-keyboard") {
        "input-keyboard-symbolic"
    } else if str_eq(device_type, "input-tablet") {
        "input-tablet-symbolic"
    } else if str_eq(device_type, "input-mouse") {
        "input-mouse-symbolic"
    } else if str_eq(device_type, "printer") {
        "printer-network-symbolic"
    } else if str_eq(device_type, "camera-photo") {
        "camera-photo-symbolic"
    } else {
        DEFAULT_DEVICE_ICON
    }
}

/// A Bluetooth device address, most significant byte first.
#[derive(Clone, Copy, Debug, Hash)]
pub struct Address(pub [u8; 6]);

impl PartialEq for Address {
    fn eq(&self, other: &Self) -> (r: bool) {
        let r = self.0[0] == other.0[0] && self.0[1] == other.0[1] && self.0[2] == other.0[2]
            && self.0[3] == other.0[3] && self.0[4] == other.0[4] && self.0[5] == other.0[5];
        proof {
            if r {
                assert(self.0@ =~= other.0@);
            }
        }
        r
    }
}

impl vstd::std_specs::cmp::PartialEqSpecImpl for Address {
    open spec fn obeys_eq_spec() -> bool {
        true
    }

    open spec fn eq_spec(&self, other: &Self) -> bool {
        self.0@ == other.0@
    }
}

impl Eq for Address {}

/// The upper-case hexadecimal digit for `n`, which must be below sixteen.
pub open spec fn hex_digit(n: int) -> char {
    if n < 10 {
        (48 + n) as char
    } else {
        (55 + n) as char
    }
}

/// A byte as two upper-case hexadecimal digits, as `{:02X}` writes it.
pub open spec fn hex_byte(b: u8) -> Seq<char> {
    seq![hex_digit((b / 16) as int), hex_digit((b % 16) as int)]
}

/// The colon-hexadecimal notation of an address, `AA:BB:CC:DD:EE:FF`.
pub open spec fn address_text(a: Address) -> Seq<char> {
    hex_byte(a.0@[0]) + seq![':'] + hex_byte(a.0@[1]) + seq![':'] + hex_byte(a.0@[2]) + seq![
        ':',
    ] + hex_byte(a.0@[3]) + seq![':'] + hex_byte(a.0@[4]) + seq![':'] + hex_byte(a.0@[5])
}

fn hex_char(n: u8) -> (c: char)
    requires
        n < 16,
    ensures
        c == hex_digit(n as int),
{
    if n < 10 {
        (48u8 + n) as char
    } else {
        (55u8 + n) as char
    }
}

impl Address {
    /// The colon-hexadecimal notation of the address.
    pub fn to_text(&self) -> (s: String)
        ensures
            s@ == address_text(*self),
    {
        let mut s = String::new();
        let mut i: usize = 0;
        while i < 6
            invariant
                i <= 6,
                i == 0 ==> s@ == Seq::<char>::empty(),
                i >= 1 ==> s@ == address_prefix(*self, i as int),
            decreases 6 - i,
        {
            if i > 0 {
                push_char(&mut s, ':');
            }
            let b = self.0[i];
            push_char(&mut s, hex_char(b / 16));
            push_char(&mut s, hex_char(b % 16));
            proof {
                if i == 0 {
                    assert(s@ =~= address_prefix(*self, 1));
                } else {
                    assert(s@ =~= address_prefix(*self, i + 1));
                }
            }
            i = i + 1;
        }
        proof {
            reveal_with_fuel(address_prefix, 6);
            assert(address_prefix(*self, 6) =~= address_text(*self));
        }
        s
    }
}

/// The notation of the first `n` bytes of an address, separated by colons.
pub open spec fn address_prefix(a: Address, n: int) -> Seq<char>
    decreases n,
{
    if n <= 1 {
        hex_byte(a.0@[0])
    } else {
        address_prefix(a, n - 1) + seq![':'] + hex_byte(a.0@[n - 1])
    }
}


/// Connection state of a device, in the order in which lists show them.
#[derive(Clone, Copy, Debug, PartialEq, Eq, Structural, Hash)]
pub enum BluerDeviceStatus {
    Connected,
    Connecting,
    Paired,
    Pairing,
    Disconnected,
    Disconnecting,
}

impl BluerDeviceStatus {
    /// Position of the status in the list order (declaration order).
    pub open spec fn rank_of(self) -> int {
        match self {
            BluerDeviceStatus::Connected => 0,
            BluerDeviceStatus::Connecting => 1,
            BluerDeviceStatus::Paired => 2,
            BluerDeviceStatus::Pairing => 3,
            BluerDeviceStatus::Disconnected => 4,
            BluerDeviceStatus::Disconnecting => 5,
        }
    }

    /// Position of the status in the list order.
    pub fn rank(&self) -> (r: u8)
        ensures
            r == self.rank_of(),
    {
        match self {
            BluerDeviceStatus::Connected => 0,
            BluerDeviceStatus::Connecting => 1,
            BluerDeviceStatus::Paired => 2,
            BluerDeviceStatus::Pairing => 3,
            BluerDeviceStatus::Disconnected => 4,
            BluerDeviceStatus::Disconnecting => 5,
        }
    }
}

/// A Bluetooth device with what the applet shows of it.
#[derive(Debug)]
pub struct BluerDevice {
    pub name: String,
    pub icon: &'static str,
    pub address: Address,
    pub status: BluerDeviceStatus,
    pub battery_percent: Option<u8>,
    pub is_paired: bool,
    pub is_trusted: bool,
}

impl Clone for BluerDevice {
    fn clone(&self) -> (r: Self)
        ensures
            r == *self,
    {
        BluerDevice {
            name: self.name.clone(),
            icon: self.icon,
            address: self.address,
            status: self.status,
            battery_percent: self.battery_percent,
            is_paired: self.is_paired,
            is_trusted: self.is_trusted,
        }
    }
}

/// Two devices are the same device when name and address agree.
pub open spec fn same_device(a: BluerDevice, b: BluerDevice) -> bool {
    a.name@ == b.name@ && a.address.0@ == b.address.0@
}

impl PartialEq for BluerDevice {
    fn eq(&self, other: &Self) -> (r: bool) {
        self.name == other.name && self.address == other.address
    }
}

impl vstd::std_specs::cmp::PartialEqSpecImpl for BluerDevice {
    open spec fn obeys_eq_spec() -> bool {
        true
    }

    open spec fn eq_spec(&self, other: &Self) -> bool {
        same_device(*self, *other)
    }
}

impl Eq for BluerDevice {}

/// List order of devices: by status, then by lower-cased name.
pub open spec fn device_order(a: BluerDevice, b: BluerDevice) -> Comparison {
    if a.status.rank_of() < b.status.rank_of() {
        Comparison::Less
    } else if a.status.rank_of() > b.status.rank_of() {
        Comparison::Greater
    } else {
        chars_order(lowercase(a.name@), lowercase(b.name@))
    }
}

/// `a` may stand before `b` in a sorted list.
pub open spec fn device_le(a: BluerDevice, b: BluerDevice) -> bool {
    device_order(a, b) != Comparison::Greater
}

/// The devices stand in list order.
pub open spec fn devices_sorted(s: Seq<BluerDevice>) -> bool {
    forall|i: int, j: int| 0 <= i < j < s.len() ==> device_le(#[trigger] s[i], #[trigger] s[j])
}

/// The device order is a total preorder: flipping the arguments flips the
/// outcome.
pub proof fn lemma_device_order_flip(a: BluerDevice, b: BluerDevice)
    ensures
        device_order(b, a) == device_order(a, b).flip(),
{
    lemma_chars_order_flip(lowercase(a.name@), lowercase(b.name@));
}

/// The device order is transitive, and strict where either step is strict.
pub proof fn lemma_device_order_trans(a: BluerDevice, b: BluerDevice, c: BluerDevice)
    requires
        device_le(a, b),
        device_le(b, c),
    ensures
        device_le(a, c),
        (device_order(a, b) == Comparison::Less || device_order(b, c) == Comparison::Less)
            ==> device_order(a, c) == Comparison::Less,
{
    if a.status.rank_of() == b.status.rank_of() && b.status.rank_of() == c.status.rank_of() {
        lemma_chars_order_trans(lowercase(a.name@), lowercase(b.name@), lowercase(c.name@));
    }
}

impl BluerDevice {
    /// Builds the device record from what BlueZ reports of it. A missing or empty
    /// name is replaced by the address; the status is `Connected` when connected,
    /// else `Paired` when paired, else `Disconnected`.
    pub fn from_properties(
        address: Address,
        name: Option<String>,
        is_paired: bool,
        is_trusted: bool,
        is_connected: bool,
        battery_percent: Option<u8>,
        device_type: Option<String>,
    ) -> (d: BluerDevice)
        ensures
            d.name@ == (match name {
                Some(n) => if n@.len() > 0 { n@ } else { address_text(address) },
                None => address_text(address),
            }),
            d.icon@ == icon_for_type(
                match device_type {
                    Some(t) => t@,
                    None => Seq::<char>::empty(),
                },
            ),
            d.address == address,
            d.status == (if is_connected {
                BluerDeviceStatus::Connected
            } else if is_paired {
                BluerDeviceStatus::Paired
            } else {
                BluerDeviceStatus::Disconnected
            }),
            d.battery_percent == battery_percent,
            d.is_paired == is_paired,
            d.is_trusted == is_trusted,
    {
        let name = match name {
            Some(n) => if n.as_str().unicode_len() > 0 { n } else { address.to_text() },
            None => address.to_text(),
        };
        let icon = match device_type {
            Some(t) => device_type_to_icon(t.as_str()),
            None => {
                proof {
                    reveal_strlit("");
                }
                assert(""@ =~= Seq::<char>::empty());
                device_type_to_icon("")
            },
        };
        let status = if is_connected {
            BluerDeviceStatus::Connected
        } else if is_paired {
            BluerDeviceStatus::Paired
        } else {
            BluerDeviceStatus::Disconnected
        };
        BluerDevice { name, icon, address, status, battery_percent, is_paired, is_trusted }
    }

    /// Whether the device is both paired and trusted.
    pub fn paired_and_trusted(&self) -> (r: bool)
        ensures
            r == (self.is_paired && self.is_trusted),
    {
        self.is_paired && self.is_trusted
    }

    /// Whether the device type mapped to an icon of its own.
    pub fn is_known_device_type(&self) -> (r: bool)
        ensures
            r == (self.icon@ != DEFAULT_DEVICE_ICON@),
    {
        !str_eq(self.icon, DEFAULT_DEVICE_ICON)
    }

    /// Whether the device reported a name other than its address.
    pub fn has_name(&self) -> (r: bool)
        ensures
            r == (self.name@ != address_text(self.address)),
    {
        let text = self.address.to_text();
        !str_eq(self.name.as_str(), text.as_str())
    }

    /// Compares two devices in list order.
    pub fn compare(&self, other: &BluerDevice) -> (r: Comparison)
        ensures
            r == device_order(*self, *other),
            self.status.rank_of() < other.status.rank_of() ==> r == Comparison::Less,
            self.status.rank_of() > other.status.rank_of() ==> r == Comparison::Greater,
            self.status == other.status ==> r == chars_order(lowercase(self.name@), lowercase(other.name@)),
    {
        let a = self.status.rank();
        let b = other.status.rank();
        if a < b {
            Comparison::Less
        } else if a > b {
            Comparison::Greater
        } else {
            let x = to_lowercase(self.name.as_str());
            let y = to_lowercase(other.name.as_str());
            let xs = chars_of(x.as_str());
            let ys = chars_of(y.as_str());
            compare_chars(&xs, &ys)
        }
    }
}

/// Sorts devices into list order (the order is not stable for devices that
/// compare equal).
pub fn sort_devices(devices: Vec<BluerDevice>) -> (r: Vec<BluerDevice>)
    ensures
        r@.to_multiset() == devices@.to_multiset(),
        devices_sorted(r@),
        forall|i: int, j: int| 0 <= i < j < r@.len() ==> (#[trigger] r@[i]).status.rank_of() <= (#[trigger] r@[j]).status.rank_of(),
        forall|i: int, j: int| 0 <= i < j < r@.len() && (#[trigger] r@[i]).status == (#[trigger] r@[j]).status
            ==> chars_order(lowercase(r@[i].name@), lowercase(r@[j].name@)) != Comparison::Greater,
{
    broadcast use vstd::seq_lib::group_to_multiset_ensures;

    let mut input = devices;
    let mut out: Vec<BluerDevice> = Vec::new();
    let ghost start = input@;
    proof {
        assert(out@.to_multiset() =~= Multiset::<BluerDevice>::empty());
    }
    while input.len() > 0
        invariant
            out@.to_multiset().add(input@.to_multiset()) == start.to_multiset(),
            devices_sorted(out@),
        decreases input.len(),
    {
        let ghost before = input@;
        let d = input.pop().unwrap();
        proof {
            assert(before == input@.push(d));
        }
        let mut p: usize = 0;
        let mut found = false;
        while p < out.len() && !found
            invariant
                p <= out.len(),
                forall|k: int| 0 <= k < p ==> device_order(d, #[trigger] out@[k]) != Comparison::Less,
                found ==> p < out.len() && device_order(d, out@[p as int]) == Comparison::Less,
            decreases out.len() - p + (if found { 0int } else { 1int }),
        {
            if d.compare(&out[p]) == Comparison::Less {
                found = true;
            } else {
                p = p + 1;
            }
        }
        let ghost old_out = out@;
        out.insert(p, d);
        proof {
            broadcast use vstd::multiset::group_multiset_axioms;
            vstd::seq_lib::to_multiset_insert(old_out, p as int, d);
            vstd::seq_lib::to_multiset_build(input@, d);
            assert(out@.to_multiset() == old_out.to_multiset().insert(d));
            assert(before.to_multiset() == input@.to_multiset().insert(d));
            assert(out@.to_multiset().add(input@.to_multiset()) =~= old_out.to_multiset().add(
                before.to_multiset(),
            ));
            assert forall|i: int, j: int| 0 <= i < j < out@.len() implies device_le(
                #[trigger] out@[i],
                #[trigger] out@[j],
            ) by {
                if j < p {
                    assert(out@[i] == old_out[i] && out@[j] == old_out[j]);
                } else if j == p {
                    assert(out@[i] == old_out[i]);
                    lemma_device_order_flip(d, old_out[i]);
                } else if i > p {
                    assert(out@[i] == old_out[i - 1] && out@[j] == old_out[j - 1]);
                } else if i == p {
                    assert(out@[j] == old_out[j - 1]);
                    if j - 1 == p {
                    } else {
                        assert(device_le(old_out[p as int], old_out[j - 1]));
                        lemma_device_order_trans(d, old_out[p as int], old_out[j - 1]);
                    }
                } else {
                    assert(out@[i] == old_out[i] && out@[j] == old_out[j - 1]);
                }
            }
        }
    }
    proof {
        assert(input@.to_multiset() =~= Multiset::<BluerDevice>::empty());
        assert(out@.to_multiset().add(Multiset::<BluerDevice>::empty()) =~= out@.to_multiset());
        lemma_sorted_devices_order(out@);
    }
    out
}

/// A list in device order holds connection statuses in their declared order
/// (connected, connecting, paired, pairing, disconnected, disconnecting), and
/// devices of one status by ascending lower-cased name.
pub proof fn lemma_sorted_devices_order(s: Seq<BluerDevice>)
    requires
        devices_sorted(s),
    ensures
        forall|i: int, j: int| 0 <= i < j < s.len() ==> (#[trigger] s[i]).status.rank_of() <= (#[trigger] s[j]).status.rank_of(),
        forall|i: int, j: int| 0 <= i < j < s.len() && (#[trigger] s[i]).status == (#[trigger] s[j]).status
            ==> chars_order(lowercase(s[i].name@), lowercase(s[j].name@)) != Comparison::Greater,
{
    assert forall|i: int, j: int| 0 <= i < j < s.len() implies (#[trigger] s[i]).status.rank_of() <= (#[trigger] s[j]).status.rank_of() by {
        assert(device_le(s[i], s[j]));
    }
    assert forall|i: int, j: int| 0 <= i < j < s.len() && (#[trigger] s[i]).status == (#[trigger] s[j]).status
        implies chars_order(lowercase(s[i].name@), lowercase(s[j].name@)) != Comparison::Greater by {
        assert(device_le(s[i], s[j]));
    }
}


/// A request to the Bluetooth session.
#[derive(Clone, Copy, Debug, Hash)]
pub enum BluerRequest {
    SetBluetoothEnabled(bool),
    PairDevice(Address),
    ConnectDevice(Address),
    DisconnectDevice(Address),
    CancelConnect(Address),
}

/// Adapter power and the devices it knows.
#[derive(Debug)]
pub struct BluerState {
    pub devices: Vec<BluerDevice>,
    pub bluetooth_enabled: bool,
}

impl Clone for BluerState {
    fn clone(&self) -> (r: Self)
        ensures
            r.devices@ == self.devices@,
            r.bluetooth_enabled == self.bluetooth_enabled,
    {
        BluerState { devices: clone_devices(&self.devices), bluetooth_enabled: self.bluetooth_enabled }
    }
}

impl Default for BluerState {
    fn default() -> (r: Self)
        ensures
            r.devices@ == Seq::<BluerDevice>::empty(),
            !r.bluetooth_enabled,
    {
        BluerState { devices: Vec::new(), bluetooth_enabled: false }
    }
}

/// A copy of a device list.
pub fn clone_devices(v: &Vec<BluerDevice>) -> (r: Vec<BluerDevice>)
    ensures
        r@ == v@,
{
    let mut r: Vec<BluerDevice> = Vec::new();
    let mut i: usize = 0;
    while i < v.len()
        invariant
            i <= v.len(),
            r@ == v@.subrange(0, i as int),
        decreases v.len() - i,
    {
        r.push(v[i].clone());
        i = i + 1;
        assert(r@ =~= v@.subrange(0, i as int));
    }
    assert(r@ =~= v@);
    r
}

/// A request from the pairing agent, shown to the user.
#[derive(Debug, Clone)]
pub enum BluerAgentEvent {
    DisplayPinCode(BluerDevice, String),
    DisplayPasskey(BluerDevice, String),
    RequestPinCode(BluerDevice),
    RequestPasskey(BluerDevice),
    RequestConfirmation(BluerDevice, String),
    RequestDeviceAuthorization(BluerDevice),
    RequestServiceAuthorization(BluerDevice, u128),
}

/// What the Bluetooth subscription reports to the applet. The reply channels of
/// `Init` and of the agent's requests travel beside these values.
#[derive(Debug, Clone)]
pub enum BluerEvent {
    RequestResponse { req: BluerRequest, state: BluerState, err_msg: Option<String> },
    Init { state: BluerState },
    DevicesChanged { state: BluerState },
    AgentEvent(BluerAgentEvent),
    Finished,
}

/// What the session's background tasks report to the subscription.
#[derive(Debug, Clone)]
pub enum BluerSessionEvent {
    RequestResponse { req: BluerRequest, state: BluerState, err_msg: Option<String> },
    ChangesProcessed(BluerState),
    AgentEvent(BluerAgentEvent),
}

/// The event the applet receives for an event of the session.
pub fn session_event_to_event(e: BluerSessionEvent) -> (r: BluerEvent)
    ensures
        match e {
            BluerSessionEvent::ChangesProcessed(state) => r == (BluerEvent::DevicesChanged { state }),
            BluerSessionEvent::RequestResponse { req, state, err_msg } => r == (
            BluerEvent::RequestResponse { req, state, err_msg }),
            BluerSessionEvent::AgentEvent(a) => r == BluerEvent::AgentEvent(a),
        },
{
    match e {
        BluerSessionEvent::ChangesProcessed(state) => BluerEvent::DevicesChanged { state },
        BluerSessionEvent::RequestResponse { req, state, err_msg } => BluerEvent::RequestResponse {
            req,
            state,
            err_msg,
        },
        BluerSessionEvent::AgentEvent(a) => BluerEvent::AgentEvent(a),
    }
}

/// A device that gets a connection request: paired and trusted, and, where
/// `skip_connected` holds, not connected already.
pub open spec fn wants_reconnect(d: BluerDevice, skip_connected: bool) -> bool {
    d.is_paired && d.is_trusted && !(skip_connected && d.status == BluerDeviceStatus::Connected)
}

/// Connection requests, in list order, for the devices that want one.
pub open spec fn reconnect_list(s: Seq<BluerDevice>, skip_connected: bool) -> Seq<BluerRequest>
    decreases s.len(),
{
    if s.len() == 0 {
        Seq::empty()
    } else {
        let rest = reconnect_list(s.drop_last(), skip_connected);
        if wants_reconnect(s.last(), skip_connected) {
            rest.push(BluerRequest::ConnectDevice(s.last().address))
        } else {
            rest
        }
    }
}

/// The connection requests sent for paired and trusted devices.
pub fn reconnect_requests(devices: &Vec<BluerDevice>, skip_connected: bool) -> (r: Vec<
    BluerRequest,
>)
    ensures
        r@ == reconnect_list(devices@, skip_connected),
{
    let mut r: Vec<BluerRequest> = Vec::new();
    let mut i: usize = 0;
    assert(devices@.subrange(0, 0) =~= Seq::<BluerDevice>::empty());
    while i < devices.len()
        invariant
            i <= devices.len(),
            r@ == reconnect_list(devices@.subrange(0, i as int), skip_connected),
        decreases devices.len() - i,
    {
        let d = &devices[i];
        if d.is_paired && d.is_trusted && !(skip_connected && d.status
            == BluerDeviceStatus::Connected) {
            r.push(BluerRequest::ConnectDevice(d.address));
        }
        assert(devices@.subrange(0, i + 1).drop_last() =~= devices@.subrange(0, i as int));
        i = i + 1;
    }
    assert(devices@.subrange(0, devices@.len() as int) =~= devices@);
    r
}

/// Whether any adapter reports power.
pub fn any_powered(powered: &Vec<bool>) -> (r: bool)
    ensures
        r == (exists|i: int| 0 <= i < powered.len() && powered@[i]),
{
    let mut i: usize = 0;
    while i < powered.len()
        invariant
            i <= powered.len(),
            forall|k: int| 0 <= k < i ==> !powered@[k],
        decreases powered.len() - i,
    {
        if powered[i] {
            return true;
        }
        i = i + 1;
    }
    false
}

/// What one round of the power watcher publishes when the power state changed:
/// the new state, and the connection requests that follow a power-up.
pub struct PowerChange {
    pub state: BluerState,
    pub requests: Vec<BluerRequest>,
}

/// One round of the power watcher: the adapters are powered when any of them is;
/// a change from `status` publishes the device list with the new power state and,
/// on power-up, asks to connect every paired and trusted device.
pub fn power_poll(status: bool, powered: &Vec<bool>, devices: &Vec<BluerDevice>) -> (r: (
    bool,
    Option<PowerChange>,
))
    ensures
        r.0 == (exists|i: int| 0 <= i < powered.len() && powered@[i]),
        r.1 is Some <==> r.0 != status,
        r.1 matches Some(c) ==> {
            &&& c.state.devices@ == devices@
            &&& c.state.bluetooth_enabled == r.0
            &&& c.requests@ == (if r.0 {
                reconnect_list(devices@, false)
            } else {
                Seq::<BluerRequest>::empty()
            })
        },
{
    let new_status = any_powered(powered);
    if new_status == status {
        return (new_status, None);
    }
    let state = BluerState { devices: clone_devices(devices), bluetooth_enabled: new_status };
    let requests = if new_status {
        reconnect_requests(devices, false)
    } else {
        Vec::new()
    };
    (new_status, Some(PowerChange { state, requests }))
}

/// An event of the adapter's discovery stream.
#[derive(Clone, Copy, Debug)]
pub enum AdapterEvent {
    PoweredChanged(bool),
    OtherPropertyChanged,
    DeviceAdded(Address),
    DeviceRemoved(Address),
}

/// What the scanner does after an adapter event.
#[derive(Debug, Clone)]
pub enum ScanStep {
    /// Publish this state.
    Publish(BluerState),
    /// A new device appeared: read the device list again, then call `devices_rebuilt`.
    Rebuild,
    /// Nothing to publish.
    Skip,
}

/// Whether some device in the list has this address.
pub open spec fn has_address(s: Seq<BluerDevice>, a: Address) -> bool {
    exists|i: int| 0 <= i < s.len() && s[i].address.0@ == a.0@
}

/// The list without the devices of this address.
pub open spec fn without_address(s: Seq<BluerDevice>, a: Address) -> Seq<BluerDevice> {
    s.filter(|d: BluerDevice| d.address.0@ != a.0@)
}

/// Whether a device of this address is in the list.
pub fn contains_address(devices: &Vec<BluerDevice>, a: Address) -> (r: bool)
    ensures
        r == has_address(devices@, a),
{
    let mut i: usize = 0;
    while i < devices.len()
        invariant
            i <= devices.len(),
            forall|k: int| 0 <= k < i ==> devices@[k].address.0@ != a.0@,
        decreases devices.len() - i,
    {
        if devices[i].address == a {
            return true;
        }
        i = i + 1;
    }
    false
}

/// Drops every device of this address, keeping the order of the others.
pub fn remove_address(devices: &Vec<BluerDevice>, a: Address) -> (r: Vec<BluerDevice>)
    ensures
        r@ == without_address(devices@, a),
{
    let mut r: Vec<BluerDevice> = Vec::new();
    let mut i: usize = 0;
    assert(devices@.subrange(0, 0) =~= Seq::<BluerDevice>::empty());
    while i < devices.len()
        invariant
            i <= devices.len(),
            r@ == without_address(devices@.subrange(0, i as int), a),
        decreases devices.len() - i,
    {
        if !(devices[i].address == a) {
            r.push(devices[i].clone());
        }
        proof {
            let prev = devices@.subrange(0, i as int);
            assert(prev.push(devices@[i as int]) =~= devices@.subrange(0, i + 1));
            prev.lemma_filter_push(devices@[i as int], |d: BluerDevice| d.address.0@ != a.0@);
        }
        i = i + 1;
    }
    assert(devices@.subrange(0, devices@.len() as int) =~= devices@);
    r
}

/// The device scanner's view of one adapter.
pub struct Scanner {
    pub devices: Vec<BluerDevice>,
    pub is_powered: bool,
}

impl Scanner {
    /// Listening for adapter events is worth it while discovery is wanted or no
    /// device is known yet.
    pub fn should_listen(&self, discovery: bool) -> (r: bool)
        ensures
            r == (discovery || self.devices@.len() == 0),
    {
        discovery || self.devices.len() == 0
    }

    /// Handles one adapter event. Power changes are recorded and published; a
    /// device that appears asks for the list to be read again; a known device that
    /// disappears is dropped and the list published; anything else is skipped.
    pub fn on_event(&mut self, event: AdapterEvent) -> (r: ScanStep)
        ensures
            match event {
                AdapterEvent::PoweredChanged(v) => {
                    &&& final(self).is_powered == v
                    &&& final(self).devices@ == old(self).devices@
                    &&& r matches ScanStep::Publish(st) && st.devices@ == old(self).devices@
                        && st.bluetooth_enabled == v
                },
                AdapterEvent::DeviceAdded(a) => {
                    &&& *final(self) == *old(self)
                    &&& if has_address(old(self).devices@, a) {
                        r is Skip
                    } else {
                        r is Rebuild
                    }
                },
                AdapterEvent::DeviceRemoved(a) => if has_address(old(self).devices@, a) {
                    &&& final(self).devices@ == without_address(old(self).devices@, a)
                    &&& final(self).is_powered == old(self).is_powered
                    &&& r matches ScanStep::Publish(st) && st.devices@ == final(self).devices@
                        && st.bluetooth_enabled == old(self).is_powered
                } else {
                    *final(self) == *old(self) && r is Skip
                },
                AdapterEvent::OtherPropertyChanged => *final(self) == *old(self) && r is Skip,
            },
    {
        match event {
            AdapterEvent::PoweredChanged(v) => {
                self.is_powered = v;
                ScanStep::Publish(
                    BluerState { devices: clone_devices(&self.devices), bluetooth_enabled: v },
                )
            },
            AdapterEvent::DeviceAdded(a) => {
                if contains_address(&self.devices, a) {
                    ScanStep::Skip
                } else {
                    ScanStep::Rebuild
                }
            },
            AdapterEvent::DeviceRemoved(a) => {
                if contains_address(&self.devices, a) {
                    self.devices = remove_address(&self.devices, a);
                    ScanStep::Publish(
                        BluerState {
                            devices: clone_devices(&self.devices),
                            bluetooth_enabled: self.is_powered,
                        },
                    )
                } else {
                    ScanStep::Skip
                }
            },
            AdapterEvent::OtherPropertyChanged => ScanStep::Skip,
        }
    }

    /// Takes the freshly read device list, asks to connect the paired and trusted
    /// devices that are not connected, and publishes the list.
    pub fn devices_rebuilt(&mut self, devices: Vec<BluerDevice>) -> (r: (
        BluerState,
        Vec<BluerRequest>,
    ))
        ensures
            final(self).devices@ == devices@,
            final(self).is_powered == old(self).is_powered,
            r.0.devices@ == devices@,
            r.0.bluetooth_enabled == old(self).is_powered,
            r.1@ == reconnect_list(devices@, true),
    {
        let requests = reconnect_requests(&devices, true);
        self.devices = devices;
        (
            BluerState { devices: clone_devices(&self.devices), bluetooth_enabled: self.is_powered },
            requests,
        )
    }

    /// After a published change the scanner stops listening once discovery is no
    /// longer wanted and some device is known.
    pub fn stop_after_publish(&self, discovery: bool) -> (r: bool)
        ensures
            r == (!discovery && self.devices@.len() > 0),
    {
        !discovery && self.devices.len() > 0
    }
}

/// Of the addresses an adapter lists, those of no device in `known`, in order.
pub open spec fn new_addresses(known: Seq<BluerDevice>, addrs: Seq<Address>) -> Seq<Address> {
    addrs.filter(|a: Address| !has_address(known, a))
}

/// The addresses to read devices for when the list is rebuilt.
pub fn addresses_to_read(known: &Vec<BluerDevice>, addrs: &Vec<Address>) -> (r: Vec<Address>)
    ensures
        r@ == new_addresses(known@, addrs@),
{
    let mut r: Vec<Address> = Vec::new();
    let mut i: usize = 0;
    assert(addrs@.subrange(0, 0) =~= Seq::<Address>::empty());
    while i < addrs.len()
        invariant
            i <= addrs.len(),
            r@ == new_addresses(known@, addrs@.subrange(0, i as int)),
        decreases addrs.len() - i,
    {
        if !contains_address(known, addrs[i]) {
            r.push(addrs[i]);
        }
        proof {
            let prev = addrs@.subrange(0, i as int);
            assert(prev.push(addrs@[i as int]) =~= addrs@.subrange(0, i + 1));
            prev.lemma_filter_push(addrs@[i as int], |a: Address| !has_address(known@, a));
        }
        i = i + 1;
    }
    assert(addrs@.subrange(0, addrs@.len() as int) =~= addrs@);
    r
}


/// The id of an `rfkill list -n --output ID,DEVICE` row whose device is `name`:
/// the row is trimmed and split at its first space.
pub open spec fn rfkill_row(line: Seq<char>, name: Seq<char>) -> Option<Seq<char>> {
    let t = trim(line);
    let p = index_of(t, ' ');
    if p < t.len() && t.skip(p + 1) == name {
        Some(t.take(p))
    } else {
        None
    }
}

/// The id of the first row of `rfkill` output, split at `\n`, that names the
/// device `name`.
pub open spec fn rfkill_lookup(s: Seq<char>, name: Seq<char>) -> Option<Seq<char>>
    decreases s.len(),
{
    let k = index_of(s, '\n');
    match rfkill_row(s.take(k), name) {
        Some(id) => Some(id),
        None => if 0 <= k < s.len() {
            rfkill_lookup(s.skip(k + 1), name)
        } else {
            None
        },
    }
}

fn rfkill_row_of(line: &Vec<char>, name: &Vec<char>) -> (r: Option<Vec<char>>)
    ensures
        match r {
            Some(id) => rfkill_row(line@, name@) == Some(id@),
            None => rfkill_row(line@, name@) is None,
        },
{
    let t = trim_chars(line);
    let p = find_char(&t, 0, ' ');
    assert(t@.skip(0) =~= t@);
    if p < t.len() {
        let rest = slice_chars(&t, p + 1, t.len());
        assert(rest@ =~= t@.skip(p + 1));
        if chars_equal(&rest, name) {
            let id = slice_chars(&t, 0, p);
            assert(id@ =~= t@.take(p as int));
            return Some(id);
        }
    }
    None
}

/// Finds the rfkill id of the adapter called `adapter_name` in the output of
/// `rfkill list -n --output ID,DEVICE`.
pub fn rfkill_id_for(output: &str, adapter_name: &str) -> (r: Option<String>)
    ensures
        match r {
            Some(id) => rfkill_lookup(output@, adapter_name@) == Some(id@),
            None => rfkill_lookup(output@, adapter_name@) is None,
        },
{
    let v = chars_of(output);
    let name = chars_of(adapter_name);
    let mut start: usize = 0;
    assert(v@.skip(0) =~= v@);
    loop
        invariant
            start <= v.len(),
            v@ == output@,
            name@ == adapter_name@,
            rfkill_lookup(v@, name@) == rfkill_lookup(v@.skip(start as int), name@),
        decreases v.len() - start,
    {
        let k = find_char(&v, start, '\n');
        let line = slice_chars(&v, start, k);
        let ghost rest = v@.skip(start as int);
        proof {
            lemma_index_of(rest, '\n');
            assert(line@ =~= rest.take(k - start));
            assert(index_of(rest, '\n') == k - start);
            assert(rfkill_lookup(rest, name@) == (match rfkill_row(line@, name@) {
                Some(id) => Some(id),
                None => if k - start < rest.len() {
                    rfkill_lookup(rest.skip(k - start + 1), name@)
                } else {
                    None
                },
            }));
        }
        match rfkill_row_of(&line, &name) {
            Some(id) => {
                return Some(string_of(&id));
            },
            None => {},
        }
        if k == v.len() {
            return None;
        }
        proof {
            assert(rest.skip(k - start + 1) =~= v@.skip(k + 1));
        }
        start = k + 1;
    }
}

/// The `rfkill` verb that persists the requested power state.
pub fn rfkill_verb(enabled: bool) -> (r: &'static str)
    ensures
        r@ == (if enabled {
            "unblock"@
        } else {
            "block"@
        }),
{
    if enabled {
        "unblock"
    } else {
        "block"
    }
}

/// What a power request leads to once every adapter has been asked: whether
/// the device scanner is woken up, and the error the response reports.
pub struct PowerRequestOutcome {
    pub wake_scanner: bool,
    pub err_msg: Option<String>,
}

/// The outcome of a power request: an adapter that fails to change its power
/// is only logged, so the response reports no error; switching on wakes the
/// device scanner, switching off does not.
pub fn power_request_outcome(enabled: bool) -> (r: PowerRequestOutcome)
    ensures
        r.wake_scanner == enabled,
        r.err_msg is None,
{
    PowerRequestOutcome { wake_scanner: enabled, err_msg: None }
}

/// The error a pair, connect or disconnect request reports: none of the adapters
/// knew the device, or the operation's own failure.
pub fn device_request_error(found: bool, failure: Option<String>) -> (r: Option<String>)
    ensures
        !found ==> (r matches Some(m) && m@ == "Device not found on any adapter"@),
        found ==> r == failure,
{
    if found {
        failure
    } else {
        Some(String::from_str("Device not found on any adapter"))
    }
}

/// The error a cancel request reports when no request of that kind is running.
pub fn cancel_request_error(active_found: bool) -> (r: Option<String>)
    ensures
        active_found ==> r is None,
        !active_found ==> (r matches Some(m) && m@ == "No active connection request found"@),
{
    if active_found {
        None
    } else {
        Some(String::from_str("No active connection request found"))
    }
}

/// Whether the pairing agent accepts a confirmation or authorization: only when
/// the applet answered yes; a closed reply channel rejects.
pub fn agent_accepts(answer: Option<bool>) -> (r: bool)
    ensures
        r == (answer == Some(true)),
{
    match answer {
        Some(b) => b,
        None => false,
    }
}

/// Whether a request marks the device as trusted once it succeeded.
pub fn trusts_on_success(req: BluerRequest) -> (r: bool)
    ensures
        r == (req is PairDevice || req is ConnectDevice),
{
    match req {
        BluerRequest::PairDevice(_) | BluerRequest::ConnectDevice(_) => true,
        _ => false,
    }
}

/// `2^n`.
pub open spec fn two_to(n: nat) -> nat
    decreases n,
{
    if n == 0 {
        1
    } else {
        2 * two_to((n - 1) as nat)
    }
}

/// The longest wait between two attempts to open the Bluetooth session, in
/// milliseconds.
pub const MAX_RETRY_DELAY_MS: u64 = 68719476734;

/// The wait before the next attempt after `retry_count` failed ones, in
/// milliseconds: `2^retry_count` (saturating), capped at `MAX_RETRY_DELAY_MS`.
pub open spec fn retry_delay(retry_count: nat) -> nat {
    if retry_count <= 35 {
        two_to(retry_count)
    } else {
        MAX_RETRY_DELAY_MS as nat
    }
}

proof fn lemma_two_to_monotonic(a: nat, b: nat)
    requires
        a <= b,
    ensures
        two_to(a) <= two_to(b),
    decreases b,
{
    if a < b {
        lemma_two_to_monotonic(a, (b - 1) as nat);
    }
}

/// The backoff before the next attempt to open the Bluetooth session.
pub fn retry_delay_ms(retry_count: u32) -> (r: u64)
    ensures
        r == retry_delay(retry_count as nat),
{
    if retry_count > 35 {
        return MAX_RETRY_DELAY_MS;
    }
    let mut r: u64 = 1;
    let mut i: u32 = 0;
    while i < retry_count
        invariant
            i <= retry_count <= 35,
            r == two_to(i as nat),
        decreases retry_count - i,
    {
        proof {
            lemma_two_to_monotonic((i + 1) as nat, 35);
            lemma_two_to_35();
        }
        r = r * 2;
        i = i + 1;
    }
    r
}

/// The backoff never decreases as failures accumulate, and never exceeds the cap.
pub proof fn lemma_retry_delay_monotonic(a: nat, b: nat)
    requires
        a <= b,
    ensures
        retry_delay(a) <= retry_delay(b),
        retry_delay(b) <= MAX_RETRY_DELAY_MS,
{
    if b <= 35 {
        lemma_two_to_monotonic(a, b);
        lemma_two_to_monotonic(b, 35);
    } else if a <= 35 {
        lemma_two_to_monotonic(a, 35);
    }
    lemma_two_to_35();
}

proof fn lemma_two_to_35()
    ensures
        two_to(35) == 34359738368,
{
    reveal_with_fuel(two_to, 36);
}

/// The failed-attempt counter after one more failure.
pub fn next_retry_count(retry_count: u32) -> (r: u32)
    ensures
        r == (if retry_count < u32::MAX {
            retry_count + 1
        } else {
            retry_count as int
        }),
{
    retry_count.saturating_add(1)
}

/// A random number below `bound`.
///
/// Calls `fastrand::u32(0..bound)`, which panics on an empty range; the contract
/// claims only that the result lies in the range.
#[verifier::external_body]
fn random_below(bound: u32) -> (r: u32)
    requires
        bound > 0,
    ensures
        r < bound,
{
    fastrand::u32(0..bound)
}

/// The largest pin code or passkey the agent makes up, plus one.
pub const PIN_CODE_BOUND: u32 = 999999;

/// A random pin code for a device that asks for one, written with six digits.
pub fn new_pin_code() -> (r: String)
    ensures
        exists|n: nat| n < PIN_CODE_BOUND && r@ == six_digits(n),
{
    let n = random_below(PIN_CODE_BOUND);
    six_digit_string(n)
}

/// A random passkey for a device that asks for one.
pub fn new_passkey() -> (r: u32)
    ensures
        r < PIN_CODE_BOUND,
{
    random_below(PIN_CODE_BOUND)
}

/// A passkey as the user is shown it, with six digits.
pub fn passkey_text(passkey: u32) -> (r: String)
    ensures
        r@ == six_digits(passkey as nat),
{
    six_digit_string(passkey)
}

/// The state announced when the subscription starts, with the connection
/// requests for paired and trusted devices that are not connected, sent only when
/// the adapter is powered.
pub fn initial_requests(state: &BluerState) -> (r: Vec<BluerRequest>)
    ensures
        r@ == (if state.bluetooth_enabled {
            reconnect_list(state.devices@, true)
        } else {
            Seq::<BluerRequest>::empty()
        }),
{
    if state.bluetooth_enabled {
        reconnect_requests(&state.devices, true)
    } else {
        Vec::new()
    }
}

/// Events handled in one burst before the subscription waits again.
pub const EVENT_BURST: u32 = 100;

/// Whether the subscription keeps draining queued events after `count` of them.
pub fn keep_draining(count: u32) -> (r: bool)
    ensures
        r == (count < EVENT_BURST),
{
    count < EVENT_BURST
}

} // verus!
