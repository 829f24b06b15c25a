//! Network Manager state as the applet models it: access points, active
//! connections, pending Wi-Fi logins and known VPN connections.

use indexmap::IndexMap;
use vstd::prelude::*;

use crate::text::{chars_equal, chars_of, str_eq};

verus! {

/// A hardware (MAC) address, as a 48-bit number.
#[derive(Clone, Copy, Debug, Default, PartialEq, Eq, Structural, Hash)]
pub struct HwAddress {
    pub address: u64,
}

/// The security of a wireless network.
#[derive(Clone, Copy, Debug, PartialEq, Eq, Structural, Hash)]
pub enum NetworkType {
    Open,
    PSK,
    EAP,
}

/// A wireless access point.
#[derive(Debug)]
pub struct AccessPoint {
    pub ssid: String,
    pub strength: u8,
    /// Network Manager's device state code.
    pub state: u32,
    pub working: bool,
    /// D-Bus object path of the access point.
    pub path: String,
    pub hw_address: HwAddress,
    pub network_type: NetworkType,
}

/// Two access point records agree in every field.
pub open spec fn same_access_point(a: AccessPoint, b: AccessPoint) -> bool {
    &&& a.ssid@ == b.ssid@
    &&& a.strength == b.strength
    &&& a.state == b.state
    &&& a.working == b.working
    &&& a.path@ == b.path@
    &&& a.hw_address == b.hw_address
    &&& a.network_type == b.network_type
}

impl Clone for AccessPoint {
    fn clone(&self) -> (r: Self)
        ensures
            r == *self,
    {
        AccessPoint {
            ssid: self.ssid.clone(),
            strength: self.strength,
            state: self.state,
            working: self.working,
            path: self.path.clone(),
            hw_address: self.hw_address,
            network_type: self.network_type,
        }
    }
}

impl PartialEq for AccessPoint {
    fn eq(&self, other: &Self) -> (r: bool) {
        self.ssid == other.ssid && self.strength == other.strength && self.state == other.state
            && self.working == other.working && self.path == other.path && self.hw_address
            == other.hw_address && self.network_type == other.network_type
    }
}

impl vstd::std_specs::cmp::PartialEqSpecImpl for AccessPoint {
    open spec fn obeys_eq_spec() -> bool {
        true
    }

    open spec fn eq_spec(&self, other: &Self) -> bool {
        same_access_point(*self, *other)
    }
}

impl Eq for AccessPoint {}

/// State of an active connection.
#[derive(Clone, Copy, Debug, PartialEq, Eq, Structural)]
pub enum ActiveConnectionState {
    Unknown,
    Activating,
    Activated,
    Deactivating,
    Deactivated,
}

/// An active connection. The hardware address of wired and wireless connections
/// is parsed from Network Manager's text, the default where that fails.
#[derive(Debug)]
pub enum ActiveConnectionInfo {
    Wired { name: String, hw_address: HwAddress },
    WiFi { name: String, hw_address: HwAddress, state: ActiveConnectionState },
    Vpn { name: String },
}

impl ActiveConnectionInfo {
    /// The connection's name.
    pub open spec fn name_of(self) -> Seq<char> {
        match self {
            ActiveConnectionInfo::Wired { name, .. } => name@,
            ActiveConnectionInfo::WiFi { name, .. } => name@,
            ActiveConnectionInfo::Vpn { name } => name@,
        }
    }

    /// The hardware address the connection is matched by; VPNs have the default.
    pub open spec fn hw_of(self) -> HwAddress {
        match self {
            ActiveConnectionInfo::Wired { hw_address, .. } => hw_address,
            ActiveConnectionInfo::WiFi { hw_address, .. } => hw_address,
            ActiveConnectionInfo::Vpn { .. } => HwAddress { address: 0 },
        }
    }

    /// The connection's name.
    pub fn name(&self) -> (r: &String)
        ensures
            r@ == self.name_of(),
    {
        match self {
            ActiveConnectionInfo::Wired { name, .. } => name,
            ActiveConnectionInfo::WiFi { name, .. } => name,
            ActiveConnectionInfo::Vpn { name } => name,
        }
    }

    /// The hardware address the connection is matched by.
    pub fn hw(&self) -> (r: HwAddress)
        ensures
            r == self.hw_of(),
    {
        match self {
            ActiveConnectionInfo::Wired { hw_address, .. } => *hw_address,
            ActiveConnectionInfo::WiFi { hw_address, .. } => *hw_address,
            ActiveConnectionInfo::Vpn { .. } => HwAddress { address: 0 },
        }
    }

    /// Whether this is a VPN connection.
    pub fn is_vpn(&self) -> (r: bool)
        ensures
            r == (self is Vpn),
    {
        match self {
            ActiveConnectionInfo::Vpn { .. } => true,
            _ => false,
        }
    }
}

impl Clone for ActiveConnectionInfo {
    fn clone(&self) -> (r: Self)
        ensures
            r == *self,
    {
        match self {
            ActiveConnectionInfo::Wired { name, hw_address } => ActiveConnectionInfo::Wired {
                name: name.clone(),
                hw_address: *hw_address,
            },
            ActiveConnectionInfo::WiFi { name, hw_address, state } => ActiveConnectionInfo::WiFi {
                name: name.clone(),
                hw_address: *hw_address,
                state: *state,
            },
            ActiveConnectionInfo::Vpn { name } => ActiveConnectionInfo::Vpn { name: name.clone() },
        }
    }
}

/// What the applet keeps of Network Manager's state.
#[derive(Clone, Debug)]
pub struct NetworkManagerState {
    pub wifi_enabled: bool,
    pub active_conns: Vec<ActiveConnectionInfo>,
    pub wireless_access_points: Vec<AccessPoint>,
    pub known_access_points: Vec<AccessPoint>,
}

impl Default for NetworkManagerState {
    fn default() -> (r: Self)
        ensures
            !r.wifi_enabled,
            r.active_conns@.len() == 0,
            r.wireless_access_points@.len() == 0,
            r.known_access_points@.len() == 0,
    {
        NetworkManagerState {
            wifi_enabled: false,
            active_conns: Vec::new(),
            wireless_access_points: Vec::new(),
            known_access_points: Vec::new(),
        }
    }
}

/// Whether a VPN is among the active connections.
pub open spec fn has_active_vpn(conns: Seq<ActiveConnectionInfo>) -> bool {
    exists|i: int| 0 <= i < conns.len() && conns[i] is Vpn
}

/// Whether a VPN is among the active connections.
pub fn any_vpn_active(conns: &Vec<ActiveConnectionInfo>) -> (r: bool)
    ensures
        r == has_active_vpn(conns@),
{
    let mut i: usize = 0;
    while i < conns.len()
        invariant
            i <= conns.len(),
            forall|k: int| 0 <= k < i ==> !(conns@[k] is Vpn),
        decreases conns.len() - i,
    {
        if conns[i].is_vpn() {
            return true;
        }
        i = i + 1;
    }
    false
}

/// A Wi-Fi login in progress.
#[derive(Debug)]
pub enum NewConnectionState {
    EnterPassword {
        access_point: AccessPoint,
        description: Option<String>,
        identity: String,
        password: String,
        password_hidden: bool,
    },
    Waiting(AccessPoint),
    Failure(AccessPoint),
}

impl NewConnectionState {
    /// The access point the login is for.
    pub open spec fn access_point_of(self) -> AccessPoint {
        match self {
            NewConnectionState::EnterPassword { access_point, .. } => access_point,
            NewConnectionState::Waiting(ap) => ap,
            NewConnectionState::Failure(ap) => ap,
        }
    }

    /// The network name of the login.
    pub fn ssid(&self) -> (r: &str)
        ensures
            r@ == self.access_point_of().ssid@,
    {
        match self {
            NewConnectionState::EnterPassword { access_point, .. } => access_point.ssid.as_str(),
            NewConnectionState::Waiting(ap) => ap.ssid.as_str(),
            NewConnectionState::Failure(ap) => ap.ssid.as_str(),
        }
    }

    /// The hardware address of the access point of the login.
    pub fn hw_address(&self) -> (r: HwAddress)
        ensures
            r == self.access_point_of().hw_address,
    {
        match self {
            NewConnectionState::EnterPassword { access_point, .. } => access_point.hw_address,
            NewConnectionState::Waiting(ap) => ap.hw_address,
            NewConnectionState::Failure(ap) => ap.hw_address,
        }
    }

    /// The access point of the login, by reference.
    pub fn access_point(&self) -> (r: &AccessPoint)
        ensures
            *r == self.access_point_of(),
    {
        match self {
            NewConnectionState::EnterPassword { access_point, .. } => access_point,
            NewConnectionState::Waiting(ap) => ap,
            NewConnectionState::Failure(ap) => ap,
        }
    }
}

impl From<NewConnectionState> for AccessPoint {
    fn from(connection_state: NewConnectionState) -> (r: AccessPoint) {
        match connection_state {
            NewConnectionState::EnterPassword { access_point, .. } => access_point,
            NewConnectionState::Waiting(access_point) => access_point,
            NewConnectionState::Failure(access_point) => access_point,
        }
    }
}

impl vstd::std_specs::convert::FromSpecImpl<NewConnectionState> for AccessPoint {
    open spec fn obeys_from_spec() -> bool {
        true
    }

    open spec fn from_spec(v: NewConnectionState) -> AccessPoint {
        v.access_point_of()
    }
}

/// A VPN asking for its password.
#[derive(Debug)]
pub struct RequestedVpn {
    pub name: String,
    pub uuid: String,
    pub description: Option<String>,
    pub password: String,
    pub password_hidden: bool,
}

/// How a stored VPN password is kept.
#[derive(Clone, Copy, Debug, PartialEq, Eq, Structural)]
pub enum PasswordFlag {
    /// The flag value `0`: the password is stored by Network Manager.
    NoFlags,
    AgentOwned,
    NotSaved,
    NotRequired,
}

/// The kind of authentication a VPN uses.
#[derive(Clone, Copy, Debug, PartialEq, Eq, Structural)]
pub enum ConnectionType {
    Password,
}

/// Settings of a VPN connection.
#[derive(Debug)]
pub struct VpnConnectionSettings {
    pub id: String,
    pub username: Option<String>,
    pub connection_type: Option<ConnectionType>,
    pub password_flag: Option<PasswordFlag>,
}

impl Default for VpnConnectionSettings {
    fn default() -> (r: Self)
        ensures
            r.id@ == Seq::<char>::empty(),
            r.username is None,
            r.connection_type is None,
            r.password_flag is None,
    {
        VpnConnectionSettings {
            id: String::new(),
            username: None,
            connection_type: None,
            password_flag: None,
        }
    }
}

impl VpnConnectionSettings {
    /// The password flag, which only counts for password-based VPNs.
    pub fn password_flag(&self) -> (r: Option<PasswordFlag>)
        ensures
            r == (if self.connection_type is Some {
                self.password_flag
            } else {
                None
            }),
    {
        match self.connection_type {
            Some(ConnectionType::Password) => self.password_flag,
            None => None,
        }
    }
}

/// A known connection that the VPN list shows.
#[derive(Debug)]
pub enum ConnectionSettings {
    Vpn(VpnConnectionSettings),
    Wireguard { id: String },
}

impl ConnectionSettings {
    /// The connection's id (its display name).
    pub open spec fn id_of(self) -> Seq<char> {
        match self {
            ConnectionSettings::Vpn(c) => c.id@,
            ConnectionSettings::Wireguard { id } => id@,
        }
    }

    /// The connection's id (its display name).
    pub fn id(&self) -> (r: &String)
        ensures
            r@ == self.id_of(),
    {
        match self {
            ConnectionSettings::Vpn(c) => &c.id,
            ConnectionSettings::Wireguard { id } => id,
        }
    }
}

/// A Wi-Fi password being entered.
#[derive(Debug)]
pub struct Password {
    pub ssid: String,
    pub hw_address: HwAddress,
    pub identity: Option<String>,
    pub password: String,
    pub password_hidden: bool,
}


#[verifier::external_type_specification]
#[verifier::external_body]
#[verifier::reject_recursive_types(K)]
#[verifier::reject_recursive_types(V)]
#[verifier::reject_recursive_types(S)]
pub struct ExIndexMap<K, V, S>(IndexMap<K, V, S>);

/// The known VPN connections, in insertion order, by UUID.
pub type KnownVpns = IndexMap<String, ConnectionSettings>;

/// The entries of a map of known connections, in the map's order: UUID and
/// settings.
pub uninterp spec fn vpn_entries(m: IndexMap<String, ConnectionSettings>) -> Seq<
    (Seq<char>, ConnectionSettings),
>;

/// No UUID occurs twice.
pub open spec fn keys_unique(s: Seq<(Seq<char>, ConnectionSettings)>) -> bool {
    forall|i: int, j: int| 0 <= i < j < s.len() ==> #[trigger] s[i].0 != #[trigger] s[j].0
}

/// Whether some entry has this UUID.
pub open spec fn has_key(s: Seq<(Seq<char>, ConnectionSettings)>, k: Seq<char>) -> bool {
    exists|i: int| 0 <= i < s.len() && s[i].0 == k
}

/// The position of the entry with this UUID.
pub open spec fn key_index(s: Seq<(Seq<char>, ConnectionSettings)>, k: Seq<char>) -> int {
    choose|i: int| 0 <= i < s.len() && s[i].0 == k
}

/// The entries after inserting `v` under `k`: an entry with that UUID keeps its
/// place and takes the new settings; a new UUID comes last.
pub open spec fn with_entry(
    s: Seq<(Seq<char>, ConnectionSettings)>,
    k: Seq<char>,
    v: ConnectionSettings,
) -> Seq<(Seq<char>, ConnectionSettings)> {
    if has_key(s, k) {
        s.update(key_index(s, k), (k, v))
    } else {
        s.push((k, v))
    }
}

/// An empty map of known connections.
///
/// Calls `IndexMap::new`; the contract claims that the map is empty.
#[verifier::external_body]
pub(crate) fn known_vpns_new() -> (m: KnownVpns)
    ensures
        vpn_entries(m) == Seq::<(Seq<char>, ConnectionSettings)>::empty(),
{
    IndexMap::new()
}

/// Inserts settings under a UUID.
///
/// Calls `IndexMap::insert`; the contract claims what its documentation says:
/// an existing UUID keeps its place and takes the new settings, a new one is
/// placed last, and UUIDs stay unique.
#[verifier::external_body]
fn known_vpns_insert(m: &mut KnownVpns, key: String, value: ConnectionSettings)
    requires
        keys_unique(vpn_entries(*old(m))),
    ensures
        vpn_entries(*final(m)) == with_entry(vpn_entries(*old(m)), key@, value),
        keys_unique(vpn_entries(*final(m))),
{
    m.insert(key, value);
}

/// The settings stored under a UUID.
///
/// Calls `IndexMap::get`; the contract claims that it finds the entry whose UUID
/// equals `key`, and nothing when there is none.
#[verifier::external_body]
pub(crate) fn known_vpns_get<'a>(m: &'a KnownVpns, key: &str) -> (r: Option<&'a ConnectionSettings>)
    ensures
        has_key(vpn_entries(*m), key@) ==> r == Some(&vpn_entries(*m)[key_index(vpn_entries(*m), key@)].1),
        !has_key(vpn_entries(*m), key@) ==> r is None,
{
    m.get(key)
}

/// The number of known connections.
///
/// Calls `IndexMap::len`; the contract claims that it counts the entries.
#[verifier::external_body]
pub(crate) fn known_vpns_len(m: &KnownVpns) -> (r: usize)
    ensures
        r == vpn_entries(*m).len(),
{
    m.len()
}

/// The entry at a position of the map's order.
///
/// Calls `IndexMap::get_index`; the contract claims that it gives the entry at
/// that position.
#[verifier::external_body]
pub(crate) fn known_vpns_entry<'a>(m: &'a KnownVpns, index: usize) -> (r: (&'a String, &'a ConnectionSettings))
    requires
        index < vpn_entries(*m).len(),
    ensures
        r.0@ == vpn_entries(*m)[index as int].0,
        *r.1 == vpn_entries(*m)[index as int].1,
{
    m.get_index(index).unwrap()
}

/// The settings of a VPN connection, as read from Network Manager's `vpn.data`
/// dictionary.
#[derive(Debug)]
pub struct RawVpnData {
    pub connection_type: Option<String>,
    pub password_flags: Option<String>,
}

/// The `vpn` section of a connection's settings.
#[derive(Debug)]
pub struct RawVpn {
    /// `vpn.data`, when it is a dictionary.
    pub data: Option<RawVpnData>,
    /// `vpn.user-name`, when it is a string.
    pub user_name: Option<String>,
}

/// A connection's settings, as far as the VPN list reads them; each field is
/// absent where Network Manager's value is missing or of another type.
#[derive(Debug)]
pub struct RawConnection {
    /// `connection.type`.
    pub kind: Option<String>,
    /// `connection.id`.
    pub id: Option<String>,
    /// `connection.uuid`.
    pub uuid: Option<String>,
    /// The `vpn` section.
    pub vpn: Option<RawVpn>,
}

/// The view of an optional string.
pub open spec fn opt_view(o: Option<String>) -> Option<Seq<char>> {
    match o {
        Some(s) => Some(s@),
        None => None,
    }
}

/// The password flag that Network Manager's `password-flags` value encodes.
pub open spec fn password_flag_of(s: Seq<char>) -> Option<PasswordFlag> {
    if s == "0"@ {
        Some(PasswordFlag::NoFlags)
    } else if s == "1"@ {
        Some(PasswordFlag::AgentOwned)
    } else if s == "2"@ {
        Some(PasswordFlag::NotSaved)
    } else if s == "4"@ {
        Some(PasswordFlag::NotRequired)
    } else {
        None
    }
}

/// Reads a `password-flags` value.
pub fn parse_password_flag(s: &str) -> (r: Option<PasswordFlag>)
    ensures
        r == password_flag_of(s@),
{
    if str_eq(s, "0") {
        Some(PasswordFlag::NoFlags)
    } else if str_eq(s, "1") {
        Some(PasswordFlag::AgentOwned)
    } else if str_eq(s, "2") {
        Some(PasswordFlag::NotSaved)
    } else if str_eq(s, "4") {
        Some(PasswordFlag::NotRequired)
    } else {
        None
    }
}

/// Whether a VPN's `connection-type` names password authentication ("password"
/// or "password-tls").
pub open spec fn is_password_type(s: Seq<char>) -> bool {
    s.len() >= 8 && s.take(8) == "password"@
}

/// Whether a string starts with `password`.
pub fn names_password_type(s: &str) -> (r: bool)
    ensures
        r == is_password_type(s@),
{
    let v = chars_of(s);
    if v.len() < 8 {
        return false;
    }
    let p = chars_of("password");
    let mut head: Vec<char> = Vec::new();
    let mut i: usize = 0;
    while i < 8
        invariant
            i <= 8 <= v.len(),
            head@ == v@.take(i as int),
        decreases 8 - i,
    {
        head.push(v[i]);
        i = i + 1;
        assert(head@ =~= v@.take(i as int));
    }
    chars_equal(&head, &p)
}

/// A known connection the VPN list shows: wireguard connections with id and
/// UUID, and VPN connections with id, UUID and a `vpn` section.
pub open spec fn is_listed_connection(raw: RawConnection) -> bool {
    match raw.kind {
        Some(k) => {
            &&& (k@ == "wireguard"@ || (k@ == "vpn"@ && raw.vpn is Some))
            &&& raw.id is Some
            &&& raw.uuid is Some
        },
        None => false,
    }
}

/// The VPN settings a listed VPN connection gets from its `vpn` section: with a
/// data dictionary whose `connection-type` starts with `password`, password
/// authentication, the user name (empty when absent) and the password flag;
/// with another data dictionary, only the user name; without one, nothing.
pub open spec fn vpn_settings_match(v: VpnConnectionSettings, id: Seq<char>, vpn: RawVpn) -> bool {
    &&& v.id@ == id
    &&& match vpn.data {
        None => v.username is None && v.connection_type is None && v.password_flag is None,
        Some(data) => {
            let password_type = match data.connection_type {
                Some(t) => is_password_type(t@),
                None => false,
            };
            if password_type {
                &&& v.connection_type == Some(ConnectionType::Password)
                &&& opt_view(v.username) == Some(
                    match vpn.user_name {
                        Some(u) => u@,
                        None => Seq::<char>::empty(),
                    },
                )
                &&& v.password_flag == match data.password_flags {
                    Some(f) => password_flag_of(f@),
                    None => None,
                }
            } else {
                &&& v.connection_type is None
                &&& v.password_flag is None
                &&& opt_view(v.username) == opt_view(vpn.user_name)
            }
        },
    }
}

/// Reads one known connection: wireguard and VPN connections give their UUID and
/// settings; anything else, or anything incomplete, gives nothing.
pub fn parse_connection(raw: RawConnection) -> (r: Option<(String, ConnectionSettings)>)
    ensures
        r is Some <==> is_listed_connection(raw),
        r matches Some((uuid, c)) ==> {
            &&& uuid@ == raw.uuid->0@
            &&& raw.kind->0@ == "wireguard"@ ==> (c matches ConnectionSettings::Wireguard { id }
                && id@ == raw.id->0@)
            &&& raw.kind->0@ != "wireguard"@ ==> (c matches ConnectionSettings::Vpn(v)
                && vpn_settings_match(v, raw.id->0@, raw.vpn->0))
        },
{
    let RawConnection { kind, id, uuid, vpn } = raw;
    let kind = match kind {
        Some(k) => k,
        None => return None,
    };
    let is_wireguard = str_eq(kind.as_str(), "wireguard");
    let is_vpn = str_eq(kind.as_str(), "vpn");
    proof {
        reveal_strlit("wireguard");
        reveal_strlit("vpn");
        assert("wireguard"@.len() != "vpn"@.len());
    }
    if !is_wireguard && !is_vpn {
        return None;
    }
    if is_wireguard {
        match (id, uuid) {
            (Some(id), Some(uuid)) => return Some((uuid, ConnectionSettings::Wireguard { id })),
            _ => return None,
        }
    }
    let vpn = match vpn {
        Some(v) => v,
        None => return None,
    };
    let (id, uuid) = match (id, uuid) {
        (Some(id), Some(uuid)) => (id, uuid),
        _ => return None,
    };
    let RawVpn { data, user_name } = vpn;
    let settings = match data {
        None => VpnConnectionSettings {
            id,
            username: None,
            connection_type: None,
            password_flag: None,
        },
        Some(data) => {
            let password_type = match &data.connection_type {
                Some(t) => names_password_type(t.as_str()),
                None => false,
            };
            if password_type {
                let username = match user_name {
                    Some(u) => u,
                    None => String::new(),
                };
                let password_flag = match &data.password_flags {
                    Some(f) => parse_password_flag(f.as_str()),
                    None => None,
                };
                VpnConnectionSettings {
                    id,
                    username: Some(username),
                    connection_type: Some(ConnectionType::Password),
                    password_flag,
                }
            } else {
                VpnConnectionSettings {
                    id,
                    username: user_name,
                    connection_type: None,
                    password_flag: None,
                }
            }
        },
    };
    Some((uuid, ConnectionSettings::Vpn(settings)))
}

/// The entries after inserting each pair in turn.
pub open spec fn folded_entries(s: Seq<(Seq<char>, ConnectionSettings)>) -> Seq<
    (Seq<char>, ConnectionSettings),
>
    decreases s.len(),
{
    if s.len() == 0 {
        Seq::empty()
    } else {
        let last = s.last();
        with_entry(folded_entries(s.drop_last()), last.0, last.1)
    }
}

/// The UUID and settings pairs of a list, by view.
pub open spec fn pairs_view(s: Seq<(String, ConnectionSettings)>) -> Seq<(Seq<char>, ConnectionSettings)> {
    s.map_values(|p: (String, ConnectionSettings)| (p.0@, p.1))
}

/// Collects the connections read, in order, into the map of known connections;
/// a later connection with the same UUID replaces an earlier one in its place.
pub fn collect_known_vpns(entries: &Vec<(String, ConnectionSettings)>) -> (m: KnownVpns)
    ensures
        vpn_entries(m) == folded_entries(pairs_view(entries@)),
        keys_unique(vpn_entries(m)),
{
    let mut m = known_vpns_new();
    let ghost all = pairs_view(entries@);
    let mut i: usize = 0;
    assert(all.subrange(0, 0) =~= Seq::<(Seq<char>, ConnectionSettings)>::empty());
    while i < entries.len()
        invariant
            i <= entries.len(),
            all == pairs_view(entries@),
            vpn_entries(m) == folded_entries(all.subrange(0, i as int)),
            keys_unique(vpn_entries(m)),
        decreases entries.len() - i,
    {
        let k = entries[i].0.clone();
        let v = entries[i].1.clone();
        proof {
            assert(all[i as int] == (k@, v));
            assert(all.subrange(0, i + 1).drop_last() =~= all.subrange(0, i as int));
        }
        known_vpns_insert(&mut m, k, v);
        i = i + 1;
    }
    assert(all.subrange(0, all.len() as int) =~= all);
    m
}

/// A copy of an optional string.
pub fn clone_opt_string(o: &Option<String>) -> (r: Option<String>)
    ensures
        r == *o,
{
    match o {
        Some(s) => Some(s.clone()),
        None => None,
    }
}

impl Clone for VpnConnectionSettings {
    fn clone(&self) -> (r: Self)
        ensures
            r == *self,
    {
        VpnConnectionSettings {
            id: self.id.clone(),
            username: clone_opt_string(&self.username),
            connection_type: self.connection_type,
            password_flag: self.password_flag,
        }
    }
}

impl Clone for ConnectionSettings {
    fn clone(&self) -> (r: Self)
        ensures
            r == *self,
    {
        match self {
            ConnectionSettings::Vpn(c) => ConnectionSettings::Vpn(c.clone()),
            ConnectionSettings::Wireguard { id } => ConnectionSettings::Wireguard { id: id.clone() },
        }
    }
}

/// `i` is the first saved connection whose UUID is `uuid`.
pub open spec fn is_first_uuid(uuids: Seq<Option<String>>, uuid: Seq<char>, i: int) -> bool {
    &&& 0 <= i < uuids.len()
    &&& uuids[i] matches Some(u) && u@ == uuid
    &&& forall|j: int| 0 <= j < i ==> !(#[trigger] uuids[j] matches Some(u) && u@ == uuid)
}

/// The saved connection to activate for a VPN: the first whose UUID is the one
/// asked for. `uuids` holds, for each saved connection that could be read, its
/// UUID when it has one.
pub fn vpn_connection_index(uuids: &Vec<Option<String>>, uuid: &str) -> (r: Option<usize>)
    ensures
        match r {
            Some(i) => is_first_uuid(uuids@, uuid@, i as int),
            None => forall|j: int| 0 <= j < uuids@.len() ==> !(#[trigger] uuids@[j] matches Some(u) && u@ == uuid@),
        },
{
    let mut i: usize = 0;
    while i < uuids.len()
        invariant
            i <= uuids.len(),
            forall|j: int| 0 <= j < i ==> !(#[trigger] uuids@[j] matches Some(u) && u@ == uuid@),
        decreases uuids.len() - i,
    {
        match &uuids[i] {
            Some(u) => {
                if str_eq(u.as_str(), uuid) {
                    return Some(i);
                }
            },
            None => {},
        }
        i = i + 1;
    }
    None
}

} // verus!
