//! The applet's network state and how network messages change it.

use vstd::prelude::*;

use crate::app::{Action, Message, NmEvent, NmRequest, NmRequestKind, SecretEvent};
use crate::network::{
    any_vpn_active, has_active_vpn, has_key, known_vpns_get, same_access_point, vpn_entries,
    AccessPoint, ActiveConnectionInfo, ActiveConnectionState, HwAddress, KnownVpns,
    NetworkManagerState, NetworkType, NewConnectionState, RequestedVpn,
};
use crate::text::str_eq;

verus! {

/// Network state.
#[derive(Debug)]
pub struct NetworkModel {
    pub nm_state: NetworkManagerState,
    pub has_nm_sender: bool,
    pub has_conn: bool,
    pub network_available: bool,
    pub vpn_active: bool,
    pub show_visible_networks: bool,
    pub new_connection: Option<NewConnectionState>,
    pub known_vpns: KnownVpns,
    /// Known Wi-Fi connections: network name and connection UUID; the first entry
    /// of a name counts.
    pub ssid_to_uuid: Vec<(String, String)>,
    /// Networks whose saved credentials failed, as a set.
    pub failed_known_ssids: Vec<String>,
    pub requested_vpn: Option<RequestedVpn>,
}

/// The actions of sending a Network Manager request: nothing without a channel;
/// the request, followed by a reconnection when the channel is closed.
pub open spec fn nm_acts(has_sender: bool, closed: bool, req: NmRequest) -> Seq<Action> {
    if !has_sender {
        Seq::empty()
    } else if closed {
        seq![Action::SendNm(req), Action::ReconnectSystemBus]
    } else {
        seq![Action::SendNm(req)]
    }
}

fn send_nm(has_sender: bool, closed: bool, req: NmRequest) -> (acts: Vec<Action>)
    ensures
        acts@ == nm_acts(has_sender, closed, req),
{
    let mut acts: Vec<Action> = Vec::new();
    if has_sender {
        acts.push(Action::SendNm(req));
        if closed {
            acts.push(Action::ReconnectSystemBus);
        }
    }
    acts
}

/// An access point of this network name and hardware address.
pub open spec fn ap_matches(ap: AccessPoint, ssid: Seq<char>, hw: HwAddress) -> bool {
    ap.ssid@ == ssid && ap.hw_address == hw
}

/// `i` is the first access point of this name and address.
pub open spec fn is_first_ap(s: Seq<AccessPoint>, ssid: Seq<char>, hw: HwAddress, i: int) -> bool {
    &&& 0 <= i < s.len()
    &&& ap_matches(s[i], ssid, hw)
    &&& forall|j: int| 0 <= j < i ==> !ap_matches(#[trigger] s[j], ssid, hw)
}

/// No access point has this name and address.
pub open spec fn no_ap(s: Seq<AccessPoint>, ssid: Seq<char>, hw: HwAddress) -> bool {
    forall|j: int| 0 <= j < s.len() ==> !ap_matches(#[trigger] s[j], ssid, hw)
}

/// Finds the first access point of a network name and hardware address.
pub fn find_access_point(v: &Vec<AccessPoint>, ssid: &str, hw: HwAddress) -> (r: Option<usize>)
    ensures
        match r {
            Some(i) => is_first_ap(v@, ssid@, hw, i as int),
            None => no_ap(v@, ssid@, hw),
        },
{
    let mut i: usize = 0;
    while i < v.len()
        invariant
            i <= v.len(),
            forall|j: int| 0 <= j < i ==> !ap_matches(#[trigger] v@[j], ssid@, hw),
        decreases v.len() - i,
    {
        if v[i].hw_address == hw && str_eq(v[i].ssid.as_str(), ssid) {
            return Some(i);
        }
        i = i + 1;
    }
    None
}

/// An active connection of this name and hardware address.
pub open spec fn conn_matches(c: ActiveConnectionInfo, name: Seq<char>, hw: HwAddress) -> bool {
    c.name_of() == name && c.hw_of() == hw
}

/// `i` is the first active connection of this name and address.
pub open spec fn is_first_conn(s: Seq<ActiveConnectionInfo>, name: Seq<char>, hw: HwAddress, i: int) -> bool {
    &&& 0 <= i < s.len()
    &&& conn_matches(s[i], name, hw)
    &&& forall|j: int| 0 <= j < i ==> !conn_matches(#[trigger] s[j], name, hw)
}

/// No active connection has this name and address.
pub open spec fn no_conn(s: Seq<ActiveConnectionInfo>, name: Seq<char>, hw: HwAddress) -> bool {
    forall|j: int| 0 <= j < s.len() ==> !conn_matches(#[trigger] s[j], name, hw)
}

/// Finds the first active connection of a name and hardware address.
pub fn find_active_conn(v: &Vec<ActiveConnectionInfo>, name: &str, hw: HwAddress) -> (r: Option<usize>)
    ensures
        match r {
            Some(i) => is_first_conn(v@, name@, hw, i as int),
            None => no_conn(v@, name@, hw),
        },
{
    let mut i: usize = 0;
    while i < v.len()
        invariant
            i <= v.len(),
            forall|j: int| 0 <= j < i ==> !conn_matches(#[trigger] v@[j], name@, hw),
        decreases v.len() - i,
    {
        if v[i].hw() == hw && str_eq(v[i].name().as_str(), name) {
            return Some(i);
        }
        i = i + 1;
    }
    None
}

/// Whether the list holds a record equal to this access point.
pub open spec fn holds_access_point(s: Seq<AccessPoint>, ap: AccessPoint) -> bool {
    exists|i: int| 0 <= i < s.len() && same_access_point(s[i], ap)
}

/// Whether the list holds a record equal to this access point.
pub fn contains_access_point(v: &Vec<AccessPoint>, ap: &AccessPoint) -> (r: bool)
    ensures
        r == holds_access_point(v@, *ap),
{
    let mut i: usize = 0;
    while i < v.len()
        invariant
            i <= v.len(),
            forall|j: int| 0 <= j < i ==> !same_access_point(#[trigger] v@[j], *ap),
        decreases v.len() - i,
    {
        if v[i] == *ap {
            return true;
        }
        i = i + 1;
    }
    false
}

/// The UUID recorded for a network name: that of its first entry.
pub open spec fn uuid_for(s: Seq<(String, String)>, ssid: Seq<char>) -> Option<Seq<char>>
    decreases s.len(),
{
    if s.len() == 0 {
        None
    } else if s[0].0@ == ssid {
        Some(s[0].1@)
    } else {
        uuid_for(s.drop_first(), ssid)
    }
}

/// Looks up the UUID recorded for a network name.
pub fn lookup_uuid<'a>(v: &'a Vec<(String, String)>, ssid: &str) -> (r: Option<&'a String>)
    ensures
        match r {
            Some(u) => uuid_for(v@, ssid@) == Some(u@),
            None => uuid_for(v@, ssid@) is None,
        },
{
    let mut i: usize = 0;
    assert(v@.skip(0) =~= v@);
    while i < v.len()
        invariant
            i <= v.len(),
            uuid_for(v@, ssid@) == uuid_for(v@.skip(i as int), ssid@),
        decreases v.len() - i,
    {
        assert(v@.skip(i as int)[0] == v@[i as int]);
        if str_eq(v[i].0.as_str(), ssid) {
            return Some(&v[i].1);
        }
        assert(v@.skip(i as int).drop_first() =~= v@.skip(i + 1));
        i = i + 1;
    }
    None
}

/// The set of network names a list holds.
pub open spec fn ssid_set(s: Seq<String>) -> Set<Seq<char>> {
    Set::new(|x: Seq<char>| exists|i: int| 0 <= i < s.len() && s[i]@ == x)
}

/// Adds a network name to a set.
pub fn set_insert(v: &mut Vec<String>, x: &str)
    ensures
        ssid_set(final(v)@) == ssid_set(old(v)@).insert(x@),
{
    let mut i: usize = 0;
    while i < v.len()
        invariant
            i <= v.len(),
            forall|j: int| 0 <= j < i ==> v@[j]@ != x@,
        decreases v.len() - i,
    {
        if str_eq(v[i].as_str(), x) {
            assert(ssid_set(v@).contains(x@));
            assert(ssid_set(v@) =~= ssid_set(v@).insert(x@));
            return;
        }
        i = i + 1;
    }
    let ghost before = v@;
    v.push(String::from_str(x));
    assert forall|y: Seq<char>| ssid_set(v@).contains(y) <==> ssid_set(before).insert(x@).contains(y) by {
        if y == x@ {
            assert(v@[before.len() as int]@ == x@);
        }
        if ssid_set(v@).contains(y) {
            let i = choose|i: int| 0 <= i < v@.len() && v@[i]@ == y;
            if i < before.len() {
                assert(before[i]@ == y);
            }
        }
        if ssid_set(before).contains(y) {
            let i = choose|i: int| 0 <= i < before.len() && before[i]@ == y;
            assert(v@[i]@ == y);
        }
    }
    assert(ssid_set(v@) =~= ssid_set(before).insert(x@));
}

/// Removes a network name from a set.
pub fn set_remove(v: &mut Vec<String>, x: &str)
    ensures
        ssid_set(final(v)@) == ssid_set(old(v)@).remove(x@),
{
    let ghost before = v@;
    let mut kept: Vec<String> = Vec::new();
    let mut i: usize = 0;
    while i < v.len()
        invariant
            i <= v.len(),
            v@ == before,
            forall|y: Seq<char>| ssid_set(kept@).contains(y) <==> (y != x@ && exists|j: int| 0 <= j < i && before[j]@ == y),
        decreases v.len() - i,
    {
        if !str_eq(v[i].as_str(), x) {
            let ghost k0 = kept@;
            kept.push(v[i].clone());
            proof {
                assert forall|y: Seq<char>| ssid_set(kept@).contains(y) <==> (y != x@ && exists|j: int| 0 <= j < i + 1 && before[j]@ == y) by {
                    if ssid_set(kept@).contains(y) {
                        let k = choose|k: int| 0 <= k < kept@.len() && kept@[k]@ == y;
                        if k < k0.len() {
                            assert(ssid_set(k0).contains(y));
                        }
                    }
                    if y != x@ && exists|j: int| 0 <= j < i + 1 && before[j]@ == y {
                        let j = choose|j: int| 0 <= j < i + 1 && before[j]@ == y;
                        if j < i {
                            assert(ssid_set(k0).contains(y));
                            let k = choose|k: int| 0 <= k < k0.len() && k0[k]@ == y;
                            assert(kept@[k]@ == y);
                        } else {
                            assert(kept@[k0.len() as int]@ == y);
                        }
                    }
                }
            }
        } else {
            proof {
                assert forall|y: Seq<char>| ssid_set(kept@).contains(y) <==> (y != x@ && exists|j: int| 0 <= j < i + 1 && before[j]@ == y) by {
                    if y != x@ && exists|j: int| 0 <= j < i + 1 && before[j]@ == y {
                        let j = choose|j: int| 0 <= j < i + 1 && before[j]@ == y;
                        assert(j < i);
                    }
                }
            }
        }
        i = i + 1;
    }
    *v = kept;
    assert(ssid_set(v@) =~= ssid_set(before).remove(x@));
}


/// The actions of deactivating a VPN: a request naming the VPN's id, for a
/// known UUID; nothing for an unknown one.
pub open spec fn deactivate_acts(s: NetworkModel, uuid: Seq<char>, closed: bool, acts: Seq<Action>) -> bool {
    let entries = vpn_entries(s.known_vpns);
    &&& !has_key(entries, uuid) ==> acts == Seq::<Action>::empty()
    &&& has_key(entries, uuid) ==> exists|name: String|
        name@ == entries[crate::network::key_index(entries, uuid)].1.id_of()
            && acts == nm_acts(s.has_nm_sender, closed, NmRequest::Deactivate(name))
}

impl NetworkModel {
    /// Shows or hides the list of visible networks.
    pub fn toggle_visible_networks(&mut self)
        ensures
            *final(self) == (NetworkModel { show_visible_networks: !old(self).show_visible_networks, ..*old(self) }),
    {
        self.show_visible_networks = !self.show_visible_networks;
    }

    /// Abandons the Wi-Fi login in progress.
    pub fn cancel_new_connection(&mut self)
        ensures
            *final(self) == (NetworkModel { new_connection: None, ..*old(self) }),
    {
        self.new_connection = None;
    }

    /// Records the password typed into the login form, if one is shown.
    pub fn password_update(&mut self, pwd: String)
        ensures
            *final(self) == (match old(self).new_connection {
                Some(NewConnectionState::EnterPassword { access_point, description, identity, password_hidden, .. }) =>
                    NetworkModel {
                    new_connection: Some(NewConnectionState::EnterPassword {
                        access_point,
                        description,
                        identity,
                        password: pwd,
                        password_hidden,
                    }),
                    ..*old(self)
                },
                _ => *old(self),
            }),
    {
        let nc = self.new_connection.take();
        self.new_connection = match nc {
            Some(NewConnectionState::EnterPassword { access_point, description, identity, password: _, password_hidden }) =>
                Some(NewConnectionState::EnterPassword { access_point, description, identity, password: pwd, password_hidden }),
            other => other,
        };
    }

    /// Records the identity typed into the login form, if one is shown.
    pub fn identity_update(&mut self, id: String)
        ensures
            *final(self) == (match old(self).new_connection {
                Some(NewConnectionState::EnterPassword { access_point, description, password, password_hidden, .. }) =>
                    NetworkModel {
                    new_connection: Some(NewConnectionState::EnterPassword {
                        access_point,
                        description,
                        identity: id,
                        password,
                        password_hidden,
                    }),
                    ..*old(self)
                },
                _ => *old(self),
            }),
    {
        let nc = self.new_connection.take();
        self.new_connection = match nc {
            Some(NewConnectionState::EnterPassword { access_point, description, identity: _, password, password_hidden }) =>
                Some(NewConnectionState::EnterPassword { access_point, description, identity: id, password, password_hidden }),
            other => other,
        };
    }

    /// Shows or hides the password in the login form, if one is shown.
    pub fn toggle_password_visibility(&mut self)
        ensures
            *final(self) == (match old(self).new_connection {
                Some(NewConnectionState::EnterPassword { access_point, description, identity, password, password_hidden }) =>
                    NetworkModel {
                    new_connection: Some(NewConnectionState::EnterPassword {
                        access_point,
                        description,
                        identity,
                        password,
                        password_hidden: !password_hidden,
                    }),
                    ..*old(self)
                },
                _ => *old(self),
            }),
    {
        let nc = self.new_connection.take();
        self.new_connection = match nc {
            Some(NewConnectionState::EnterPassword { access_point, description, identity, password, password_hidden }) =>
                Some(NewConnectionState::EnterPassword { access_point, description, identity, password, password_hidden: !password_hidden }),
            other => other,
        };
    }

    /// Shows or hides the password in the VPN password form, if one is shown.
    pub fn toggle_vpn_password_visibility(&mut self)
        ensures
            *final(self) == (match old(self).requested_vpn {
                Some(v) => NetworkModel {
                    requested_vpn: Some(RequestedVpn { password_hidden: !v.password_hidden, ..v }),
                    ..*old(self)
                },
                None => *old(self),
            }),
    {
        let rv = self.requested_vpn.take();
        self.requested_vpn = match rv {
            Some(v) => Some(RequestedVpn { password_hidden: !v.password_hidden, ..v }),
            None => None,
        };
    }

    /// Records the password typed into the VPN password form, if one is shown.
    pub fn vpn_password_update(&mut self, pwd: String)
        ensures
            *final(self) == (match old(self).requested_vpn {
                Some(v) => NetworkModel {
                    requested_vpn: Some(RequestedVpn { password: pwd, ..v }),
                    ..*old(self)
                },
                None => *old(self),
            }),
    {
        let rv = self.requested_vpn.take();
        self.requested_vpn = match rv {
            Some(v) => Some(RequestedVpn { password: pwd, ..v }),
            None => None,
        };
    }

    /// Abandons the VPN password form.
    pub fn cancel_vpn_connection(&mut self)
        ensures
            *final(self) == (NetworkModel { requested_vpn: None, ..*old(self) }),
    {
        self.requested_vpn = None;
    }

    /// Sends the VPN password typed into the form to the secret agent, and closes
    /// the form.
    pub fn connect_vpn_with_password(&mut self) -> (acts: Vec<Action>)
        ensures
            *final(self) == (NetworkModel { requested_vpn: None, ..*old(self) }),
            acts@ == (match old(self).requested_vpn {
                Some(v) => seq![Action::SendVpnPassword(v.password)],
                None => Seq::<Action>::empty(),
            }),
    {
        let mut acts: Vec<Action> = Vec::new();
        match self.requested_vpn.take() {
            Some(v) => {
                acts.push(Action::SendVpnPassword(v.password));
            },
            None => {},
        }
        acts
    }

    /// Turns Wi-Fi on or off.
    pub fn toggle_wifi(&self, v: bool) -> (acts: Vec<Action>)
        ensures
            acts@ == (if self.has_nm_sender {
                seq![Action::SendNm(NmRequest::SetWiFi(v))]
            } else {
                Seq::<Action>::empty()
            }),
    {
        let mut acts: Vec<Action> = Vec::new();
        if self.has_nm_sender {
            acts.push(Action::SendNm(NmRequest::SetWiFi(v)));
        }
        acts
    }

    /// Reads Network Manager's state again, when a bus connection exists.
    pub fn refresh(&self) -> (acts: Vec<Action>)
        ensures
            acts@ == (if self.has_conn {
                seq![Action::RefreshNetwork]
            } else {
                Seq::<Action>::empty()
            }),
    {
        let mut acts: Vec<Action> = Vec::new();
        if self.has_conn {
            acts.push(Action::RefreshNetwork);
        }
        acts
    }

    /// Activates a VPN, when both the request channel and a bus connection exist.
    pub fn activate_vpn(&self, uuid: String) -> (acts: Vec<Action>)
        ensures
            acts@ == (if self.has_nm_sender && self.has_conn {
                seq![Action::ConnectVpn(uuid)]
            } else {
                Seq::<Action>::empty()
            }),
    {
        let mut acts: Vec<Action> = Vec::new();
        if self.has_nm_sender && self.has_conn {
            acts.push(Action::ConnectVpn(uuid));
        }
        acts
    }

    /// Deactivates a known VPN by its id; an unknown UUID does nothing.
    pub fn deactivate_vpn(&self, uuid: &str, closed: bool) -> (acts: Vec<Action>)
        ensures
            deactivate_acts(*self, uuid@, closed, acts@),
    {
        match known_vpns_get(&self.known_vpns, uuid) {
            Some(c) => {
                let name = c.id().clone();
                send_nm(self.has_nm_sender, closed, NmRequest::Deactivate(name))
            },
            None => Vec::new(),
        }
    }
}


/// The login form a secured network starts with: empty identity and password,
/// the password hidden.
pub open spec fn is_fresh_login(nc: Option<NewConnectionState>, ap: AccessPoint, description: Option<String>) -> bool {
    nc matches Some(NewConnectionState::EnterPassword { access_point, description: d, identity, password, password_hidden })
        && access_point == ap && d == description && identity@ == Seq::<char>::empty()
        && password@ == Seq::<char>::empty() && password_hidden
}

/// What choosing an access point does. An open network is joined at once and
/// waited for. A secured network shows the login form; when its credentials are
/// known, joining is tried at once as well. Without a request channel nothing
/// happens; when the channel is closed, the request is followed by a
/// reconnection and the state stays as it was.
pub open spec fn select_ap_effect(s: NetworkModel, t: NetworkModel, ap: AccessPoint, closed: bool, acts: Seq<Action>) -> bool {
    let req = NmRequest::SelectAccessPoint { ssid: ap.ssid, network_type: ap.network_type };
    if !s.has_nm_sender {
        t == s && acts == Seq::<Action>::empty()
    } else if ap.network_type == NetworkType::Open {
        if closed {
            t == s && acts == seq![Action::SendNm(req), Action::ReconnectSystemBus]
        } else {
            t == (NetworkModel { new_connection: Some(NewConnectionState::Waiting(ap)), ..s })
                && acts == seq![Action::SendNm(req)]
        }
    } else {
        let known = holds_access_point(s.nm_state.known_access_points@, ap);
        if known && closed {
            t == s && acts == seq![Action::SendNm(req), Action::ReconnectSystemBus]
        } else {
            &&& t == (NetworkModel { new_connection: t.new_connection, ..s })
            &&& is_fresh_login(t.new_connection, ap, None)
            &&& acts == (if known { seq![Action::SendNm(req)] } else { Seq::<Action>::empty() })
        }
    }
}

/// A fresh login form for an access point.
fn fresh_login(ap: AccessPoint, description: Option<String>) -> (r: NewConnectionState)
    ensures
        is_fresh_login(Some(r), ap, description),
{
    NewConnectionState::EnterPassword {
        access_point: ap,
        description,
        identity: String::new(),
        password: String::new(),
        password_hidden: true,
    }
}

impl NetworkModel {
    /// Chooses an access point of the visible networks.
    pub fn select_access_point(&mut self, ap: AccessPoint, closed: bool) -> (acts: Vec<Action>)
        ensures
            select_ap_effect(*old(self), *final(self), ap, closed, acts@),
    {
        let mut acts: Vec<Action> = Vec::new();
        if !self.has_nm_sender {
            return acts;
        }
        let req = NmRequest::SelectAccessPoint { ssid: ap.ssid.clone(), network_type: ap.network_type };
        match ap.network_type {
            NetworkType::Open => {
                let ghost r = req;
                acts.push(Action::SendNm(req));
                if closed {
                    acts.push(Action::ReconnectSystemBus);
                    assert(acts@ =~= seq![Action::SendNm(r), Action::ReconnectSystemBus]);
                    return acts;
                }
                self.new_connection = Some(NewConnectionState::Waiting(ap));
            },
            _ => {
                if contains_access_point(&self.nm_state.known_access_points, &ap) {
                    let ghost r = req;
                    acts.push(Action::SendNm(req));
                    if closed {
                        acts.push(Action::ReconnectSystemBus);
                        assert(acts@ =~= seq![Action::SendNm(r), Action::ReconnectSystemBus]);
                        return acts;
                    }
                }
                self.new_connection = Some(fresh_login(ap, None));
            },
        }
        acts
    }
}

/// What joining a known network does: the first known access point of that name
/// and address is marked as working and gives the network's security (open when
/// there is none), and joining is requested.
pub open spec fn connect_effect(s: NetworkModel, t: NetworkModel, ssid: String, hw: HwAddress, closed: bool, acts: Seq<Action>) -> bool {
    let known = s.nm_state.known_access_points@;
    if !s.has_nm_sender {
        t == s && acts == Seq::<Action>::empty()
    } else {
        &&& t == (NetworkModel { nm_state: t.nm_state, ..s })
        &&& t.nm_state == (NetworkManagerState { known_access_points: t.nm_state.known_access_points, ..s.nm_state })
        &&& no_ap(known, ssid@, hw) ==> {
            &&& t.nm_state.known_access_points@ == known
            &&& acts == nm_acts(true, closed, NmRequest::SelectAccessPoint { ssid, network_type: NetworkType::Open })
        }
        &&& forall|i: int| is_first_ap(known, ssid@, hw, i) ==> {
            &&& t.nm_state.known_access_points@ == known.update(i, AccessPoint { working: true, ..known[i] })
            &&& acts == nm_acts(true, closed, NmRequest::SelectAccessPoint { ssid, network_type: known[i].network_type })
        }
    }
}

impl NetworkModel {
    /// Joins a known network.
    pub fn connect(&mut self, ssid: String, hw: HwAddress, closed: bool) -> (acts: Vec<Action>)
        ensures
            connect_effect(*old(self), *final(self), ssid, hw, closed, acts@),
    {
        if !self.has_nm_sender {
            return Vec::new();
        }
        let mut network_type = NetworkType::Open;
        match find_access_point(&self.nm_state.known_access_points, ssid.as_str(), hw) {
            Some(i) => {
                let old_ap = self.nm_state.known_access_points[i].clone();
                network_type = old_ap.network_type;
                self.nm_state.known_access_points.set(i, AccessPoint { working: true, ..old_ap });
            },
            None => {},
        }
        send_nm(true, closed, NmRequest::SelectAccessPoint { ssid, network_type })
    }
}


/// What submitting the login form does: the form closes; its network is
/// authenticated with its password (and with its identity for enterprise
/// networks) and then waited for. A login that is waiting or has failed is
/// dropped, and nothing else happens.
pub open spec fn connect_with_password_effect(s: NetworkModel, t: NetworkModel, closed: bool, acts: Seq<Action>) -> bool {
    if !s.has_nm_sender {
        t == s && acts == Seq::<Action>::empty()
    } else {
        match s.new_connection {
            Some(NewConnectionState::EnterPassword { access_point, identity, password, .. }) => {
                let req = NmRequest::Authenticate {
                    ssid: access_point.ssid,
                    identity: if access_point.network_type == NetworkType::EAP { Some(identity) } else { None },
                    password,
                };
                if closed {
                    t == (NetworkModel { new_connection: None, ..s })
                        && acts == seq![Action::SendNm(req), Action::ReconnectSystemBus]
                } else {
                    t == (NetworkModel { new_connection: Some(NewConnectionState::Waiting(access_point)), ..s })
                        && acts == seq![Action::SendNm(req)]
                }
            },
            _ => t == (NetworkModel { new_connection: None, ..s }) && acts == Seq::<Action>::empty(),
        }
    }
}

/// What disconnecting from a network does: any login in progress is dropped;
/// the first active connection of that name and address, when it is a wireless
/// one, is marked as deactivating; disconnecting is requested.
pub open spec fn disconnect_effect(s: NetworkModel, t: NetworkModel, ssid: String, hw: HwAddress, closed: bool, acts: Seq<Action>) -> bool {
    let conns = s.nm_state.active_conns@;
    if !s.has_nm_sender {
        t == (NetworkModel { new_connection: None, ..s }) && acts == Seq::<Action>::empty()
    } else {
        &&& t == (NetworkModel { new_connection: None, nm_state: t.nm_state, ..s })
        &&& t.nm_state == (NetworkManagerState { active_conns: t.nm_state.active_conns, ..s.nm_state })
        &&& acts == nm_acts(true, closed, NmRequest::Disconnect(ssid))
        &&& no_conn(conns, ssid@, hw) ==> t.nm_state.active_conns@ == conns
        &&& forall|i: int| is_first_conn(conns, ssid@, hw, i) ==> t.nm_state.active_conns@ == match conns[i] {
            ActiveConnectionInfo::WiFi { name, hw_address, .. } => conns.update(
                i,
                ActiveConnectionInfo::WiFi { name, hw_address, state: ActiveConnectionState::Deactivating },
            ),
            _ => conns,
        }
    }
}

impl NetworkModel {
    /// Submits the login form.
    pub fn connect_with_password(&mut self, closed: bool) -> (acts: Vec<Action>)
        ensures
            connect_with_password_effect(*old(self), *final(self), closed, acts@),
    {
        let mut acts: Vec<Action> = Vec::new();
        if !self.has_nm_sender {
            return acts;
        }
        match self.new_connection.take() {
            Some(NewConnectionState::EnterPassword { access_point, identity, password, .. }) => {
                let is_enterprise = access_point.network_type == NetworkType::EAP;
                let req = NmRequest::Authenticate {
                    ssid: access_point.ssid.clone(),
                    identity: if is_enterprise { Some(identity) } else { None },
                    password,
                };
                let ghost r = req;
                acts.push(Action::SendNm(req));
                if closed {
                    acts.push(Action::ReconnectSystemBus);
                    assert(acts@ =~= seq![Action::SendNm(r), Action::ReconnectSystemBus]);
                    return acts;
                }
                self.new_connection = Some(NewConnectionState::Waiting(access_point));
            },
            _ => {},
        }
        acts
    }

    /// Disconnects from a network.
    pub fn disconnect(&mut self, ssid: String, hw: HwAddress, closed: bool) -> (acts: Vec<Action>)
        ensures
            disconnect_effect(*old(self), *final(self), ssid, hw, closed, acts@),
    {
        self.new_connection = None;
        if !self.has_nm_sender {
            return Vec::new();
        }
        match find_active_conn(&self.nm_state.active_conns, ssid.as_str(), hw) {
            Some(i) => {
                let c = self.nm_state.active_conns[i].clone();
                match c {
                    ActiveConnectionInfo::WiFi { name, hw_address, .. } => {
                        self.nm_state.active_conns.set(
                            i,
                            ActiveConnectionInfo::WiFi { name, hw_address, state: ActiveConnectionState::Deactivating },
                        );
                    },
                    _ => {},
                }
            },
            None => {},
        }
        send_nm(true, closed, NmRequest::Disconnect(ssid))
    }
}

/// What a secret request of the agent does. During a Wi-Fi login, a request for
/// that network's connection (by the recorded UUID) shows the login form with the
/// agent's description; otherwise it is ignored. Without a login, a request for a
/// known VPN opens the VPN password form with the previous password, hidden, and
/// keeps the reply channel.
pub open spec fn secret_effect(s: NetworkModel, t: NetworkModel, event: SecretEvent, acts: Seq<Action>) -> bool {
    match event {
        SecretEvent::RequestSecret { uuid, name, description, previous } => match s.new_connection {
            Some(nc) => {
                let ap = nc.access_point_of();
                &&& acts == Seq::<Action>::empty()
                &&& if uuid_for(s.ssid_to_uuid@, ap.ssid@) == Some(uuid@) {
                    t == (NetworkModel { new_connection: t.new_connection, ..s })
                        && is_fresh_login(t.new_connection, ap, description)
                } else {
                    t == s
                }
            },
            None => if has_key(vpn_entries(s.known_vpns), uuid@) {
                t == (NetworkModel {
                    requested_vpn: Some(RequestedVpn { name, uuid, description, password: previous, password_hidden: true }),
                    ..s
                }) && acts == seq![Action::KeepSecretReply]
            } else {
                t == s && acts == Seq::<Action>::empty()
            },
        },
        SecretEvent::CancelGetSecrets => t == (NetworkModel { new_connection: None, requested_vpn: None, ..s })
            && acts == Seq::<Action>::empty(),
        SecretEvent::Failed(_) => t == s && acts == Seq::<Action>::empty(),
    }
}

impl NetworkModel {
    /// Handles an event of the secret agent.
    pub fn on_secret(&mut self, event: SecretEvent) -> (acts: Vec<Action>)
        ensures
            secret_effect(*old(self), *final(self), event, acts@),
            event matches SecretEvent::RequestSecret { uuid, name, description, previous } ==> {
                old(self).new_connection is None ==> {
                    &&& has_key(vpn_entries(old(self).known_vpns), uuid@) ==> {
                        &&& final(self).requested_vpn == Some(
                            RequestedVpn { name, uuid, description, password: previous, password_hidden: true },
                        )
                        &&& acts@ == seq![Action::KeepSecretReply]
                    }
                    &&& !has_key(vpn_entries(old(self).known_vpns), uuid@) ==> *final(self) == *old(self)
                        && acts@.len() == 0
                }
            },
    {
        let mut acts: Vec<Action> = Vec::new();
        match event {
            SecretEvent::RequestSecret { uuid, name, description, previous } => {
                if self.new_connection.is_some() {
                    let ap = self.new_connection.as_ref().unwrap().access_point().clone();
                    let matches = match lookup_uuid(&self.ssid_to_uuid, ap.ssid.as_str()) {
                        Some(u) => str_eq(u.as_str(), uuid.as_str()),
                        None => false,
                    };
                    if matches {
                        self.new_connection = Some(fresh_login(ap, description));
                    }
                } else if known_vpns_get(&self.known_vpns, uuid.as_str()).is_some() {
                    self.requested_vpn = Some(RequestedVpn { name, uuid, description, password: previous, password_hidden: true });
                    acts.push(Action::KeepSecretReply);
                }
            },
            SecretEvent::CancelGetSecrets => {
                self.new_connection = None;
                self.requested_vpn = None;
            },
            SecretEvent::Failed(_) => {},
        }
        acts
    }
}


/// The actions of asking Network Manager for a reload.
pub open spec fn reload_acts(s: NetworkModel) -> Seq<Action> {
    if s.has_nm_sender {
        seq![Action::SendNm(NmRequest::Reload)]
    } else {
        Seq::<Action>::empty()
    }
}

/// What a response to a request does before the new state is taken over. A
/// successful join of the network being logged into ends the login, hides the
/// network list and clears the network's failure; a failed join outside the login
/// form records the network as failed. A failed authentication of the network
/// being waited for turns the login into a failure, any other authentication
/// response while waiting hides the network list, and a successful one of the
/// network in the login form ends the login and hides the list.
pub open spec fn response_effect(s: NetworkModel, t: NetworkModel, req: NmRequestKind, success: bool) -> bool {
    let same_failed = ssid_set(t.failed_known_ssids@) == ssid_set(s.failed_known_ssids@);
    &&& t == (NetworkModel {
        nm_state: t.nm_state,
        vpn_active: t.vpn_active,
        new_connection: t.new_connection,
        show_visible_networks: t.show_visible_networks,
        failed_known_ssids: t.failed_known_ssids,
        ..s
    })
    &&& match req {
        NmRequestKind::SelectAccessPoint(ssid) => {
            let conn_match = s.new_connection is Some && s.new_connection->0.access_point_of().ssid@ == ssid@;
            if conn_match && success {
                &&& t.new_connection is None
                &&& !t.show_visible_networks
                &&& ssid_set(t.failed_known_ssids@) == ssid_set(s.failed_known_ssids@).remove(ssid@)
            } else {
                &&& t.new_connection == s.new_connection
                &&& t.show_visible_networks == s.show_visible_networks
                &&& if !(s.new_connection matches Some(NewConnectionState::EnterPassword { .. })) && !success {
                    ssid_set(t.failed_known_ssids@) == ssid_set(s.failed_known_ssids@).insert(ssid@)
                } else {
                    same_failed
                }
            }
        },
        NmRequestKind::Authenticate(ssid) => {
            &&& same_failed
            &&& match s.new_connection {
                Some(NewConnectionState::Waiting(ap)) => if !success && ssid@ == ap.ssid@ {
                    t.new_connection == Some(NewConnectionState::Failure(ap))
                        && t.show_visible_networks == s.show_visible_networks
                } else {
                    t.new_connection == s.new_connection && !t.show_visible_networks
                },
                Some(NewConnectionState::EnterPassword { access_point, .. }) => if success && ssid@ == access_point.ssid@ {
                    t.new_connection is None && !t.show_visible_networks
                } else {
                    t.new_connection == s.new_connection && t.show_visible_networks == s.show_visible_networks
                },
                _ => t.new_connection == s.new_connection && t.show_visible_networks == s.show_visible_networks,
            }
        },
        NmRequestKind::Other => {
            &&& same_failed
            &&& t.new_connection == s.new_connection
            &&& t.show_visible_networks == s.show_visible_networks
        },
    }
}

/// What an event of the Network Manager subscription does. `Init` makes the
/// network available with the channel, the connection and the state it brings,
/// then asks for a reload and a refresh. A response applies `response_effect` and
/// takes over the new state. Change notices ask for a reload; a Wi-Fi switch is
/// recorded first. The VPN tile follows whether a VPN is among the active
/// connections of each new state.
pub open spec fn nm_event_effect(s: NetworkModel, t: NetworkModel, event: NmEvent, acts: Seq<Action>) -> bool {
    match event {
        NmEvent::Init { state } => {
            &&& t == (NetworkModel {
                network_available: true,
                has_nm_sender: true,
                nm_state: state,
                has_conn: true,
                vpn_active: has_active_vpn(state.active_conns@),
                ..s
            })
            &&& acts == seq![Action::SendNm(NmRequest::Reload), Action::RefreshNetwork]
        },
        NmEvent::RequestResponse { state, success, req } => {
            &&& response_effect(s, t, req, success)
            &&& t.nm_state == state
            &&& t.vpn_active == has_active_vpn(state.active_conns@)
            &&& acts == Seq::<Action>::empty()
        },
        NmEvent::WiFiEnabled(enabled) => {
            &&& t == (NetworkModel { nm_state: NetworkManagerState { wifi_enabled: enabled, ..s.nm_state }, ..s })
            &&& acts == reload_acts(s)
        },
        _ => t == s && acts == reload_acts(s),
    }
}

impl NetworkModel {
    fn on_response(&mut self, req: &NmRequestKind, success: bool)
        ensures
            response_effect(*old(self), *final(self), *req, success),
            final(self).nm_state == old(self).nm_state,
            final(self).vpn_active == old(self).vpn_active,
    {
        match req {
            NmRequestKind::SelectAccessPoint(ssid) => {
                let conn_match = match &self.new_connection {
                    Some(nc) => str_eq(nc.ssid(), ssid.as_str()),
                    None => false,
                };
                let entering = match &self.new_connection {
                    Some(NewConnectionState::EnterPassword { .. }) => true,
                    _ => false,
                };
                if conn_match && success {
                    self.new_connection = None;
                    self.show_visible_networks = false;
                    set_remove(&mut self.failed_known_ssids, ssid.as_str());
                } else if !entering && !success {
                    set_insert(&mut self.failed_known_ssids, ssid.as_str());
                }
            },
            NmRequestKind::Authenticate(ssid) => {
                let nc = self.new_connection.take();
                match nc {
                    Some(NewConnectionState::Waiting(ap)) => {
                        if !success && str_eq(ssid.as_str(), ap.ssid.as_str()) {
                            self.new_connection = Some(NewConnectionState::Failure(ap));
                        } else {
                            self.new_connection = Some(NewConnectionState::Waiting(ap));
                            self.show_visible_networks = false;
                        }
                    },
                    Some(NewConnectionState::EnterPassword { access_point, description, identity, password, password_hidden }) => {
                        if success && str_eq(ssid.as_str(), access_point.ssid.as_str()) {
                            self.show_visible_networks = false;
                        } else {
                            self.new_connection = Some(NewConnectionState::EnterPassword { access_point, description, identity, password, password_hidden });
                        }
                    },
                    other => {
                        self.new_connection = other;
                    },
                }
            },
            NmRequestKind::Other => {},
        }
    }

    /// Handles an event of the Network Manager subscription.
    pub fn on_nm_event(&mut self, event: NmEvent) -> (acts: Vec<Action>)
        ensures
            nm_event_effect(*old(self), *final(self), event, acts@),
    {
        let mut acts: Vec<Action> = Vec::new();
        match event {
            NmEvent::Init { state } => {
                self.network_available = true;
                self.has_nm_sender = true;
                let vpn = any_vpn_active(&state.active_conns);
                self.nm_state = state;
                self.has_conn = true;
                self.vpn_active = vpn;
                acts.push(Action::SendNm(NmRequest::Reload));
                acts.push(Action::RefreshNetwork);
                assert(acts@ =~= seq![Action::SendNm(NmRequest::Reload), Action::RefreshNetwork]);
            },
            NmEvent::RequestResponse { state, success, req } => {
                self.on_response(&req, success);
                let vpn = any_vpn_active(&state.active_conns);
                self.nm_state = state;
                self.vpn_active = vpn;
            },
            NmEvent::WiFiEnabled(enabled) => {
                self.nm_state.wifi_enabled = enabled;
                if self.has_nm_sender {
                    acts.push(Action::SendNm(NmRequest::Reload));
                }
            },
            _ => {
                if self.has_nm_sender {
                    acts.push(Action::SendNm(NmRequest::Reload));
                }
            },
        }
        acts
    }
}


/// What follows once the network to forget has been taken out of the lists:
/// forgetting is requested; unless the channel is closed, the network list is
/// shown and the access point is chosen again (`select_ap_effect`).
pub open spec fn forget_then_select(mid: NetworkModel, t: NetworkModel, ssid: String, ap: AccessPoint, closed: bool, acts: Seq<Action>) -> bool {
    if !mid.has_nm_sender {
        t == mid && acts == Seq::<Action>::empty()
    } else if closed {
        t == mid && acts == seq![Action::SendNm(NmRequest::Forget(ssid)), Action::ReconnectSystemBus]
    } else {
        &&& acts.len() >= 1
        &&& acts[0] == Action::SendNm(NmRequest::Forget(ssid))
        &&& select_ap_effect(NetworkModel { show_visible_networks: true, ..mid }, t, ap, false, acts.drop_first())
    }
}

/// `mid` is `s` with the known access point at `i` taken out.
pub open spec fn without_known_ap(s: NetworkModel, mid: NetworkModel, i: int) -> bool {
    &&& mid == (NetworkModel { nm_state: mid.nm_state, ..s })
    &&& mid.nm_state == (NetworkManagerState { known_access_points: mid.nm_state.known_access_points, ..s.nm_state })
    &&& mid.nm_state.known_access_points@ == s.nm_state.known_access_points@.remove(i)
}

/// `mid` is `s` with the active connection at `j` taken out.
pub open spec fn without_active_conn(s: NetworkModel, mid: NetworkModel, j: int) -> bool {
    &&& mid == (NetworkModel { nm_state: mid.nm_state, ..s })
    &&& mid.nm_state == (NetworkManagerState { active_conns: mid.nm_state.active_conns, ..s.nm_state })
    &&& mid.nm_state.active_conns@ == s.nm_state.active_conns@.remove(j)
}

/// What resetting a network whose saved credentials failed does: the network
/// is found among the known access points (and taken out), or else among the
/// active connections together with a visible access point of the same name and
/// address (and the active connection taken out); then it is forgotten and
/// chosen again (`forget_then_select`). A network found in neither way changes
/// nothing.
pub open spec fn reset_failed_effect(s: NetworkModel, t: NetworkModel, ssid: String, hw: HwAddress, closed: bool, acts: Seq<Action>) -> bool {
    let known = s.nm_state.known_access_points@;
    let conns = s.nm_state.active_conns@;
    let aps = s.nm_state.wireless_access_points@;
    &&& forall|i: int| is_first_ap(known, ssid@, hw, i) ==> exists|mid: NetworkModel|
        without_known_ap(s, mid, i) && forget_then_select(mid, t, ssid, known[i], closed, acts)
    &&& no_ap(known, ssid@, hw) ==> {
        &&& forall|j: int, k: int| is_first_conn(conns, ssid@, hw, j) && is_first_ap(aps, ssid@, hw, k) ==> exists|mid: NetworkModel|
            without_active_conn(s, mid, j) && forget_then_select(mid, t, ssid, aps[k], closed, acts)
        &&& (no_conn(conns, ssid@, hw) || no_ap(aps, ssid@, hw)) ==> t == s && acts == Seq::<Action>::empty()
    }
}

impl NetworkModel {
    fn forget_and_select(&mut self, ssid: String, ap: AccessPoint, closed: bool) -> (acts: Vec<Action>)
        ensures
            forget_then_select(*old(self), *final(self), ssid, ap, closed, acts@),
    {
        let mut acts: Vec<Action> = Vec::new();
        if !self.has_nm_sender {
            return acts;
        }
        let ghost req = NmRequest::Forget(ssid);
        acts.push(Action::SendNm(NmRequest::Forget(ssid)));
        if closed {
            acts.push(Action::ReconnectSystemBus);
            assert(acts@ =~= seq![Action::SendNm(req), Action::ReconnectSystemBus]);
            return acts;
        }
        self.show_visible_networks = true;
        let mut rest = self.select_access_point(ap, false);
        let ghost rest_view = rest@;
        acts.append(&mut rest);
        assert(acts@.drop_first() =~= rest_view);
        acts
    }

    /// Resets a network whose saved credentials failed.
    pub fn reset_failed_known_ssid(&mut self, ssid: String, hw: HwAddress, closed: bool) -> (acts: Vec<Action>)
        ensures
            reset_failed_effect(*old(self), *final(self), ssid, hw, closed, acts@),
    {
        let ghost s = *self;
        match find_access_point(&self.nm_state.known_access_points, ssid.as_str(), hw) {
            Some(i) => {
                let ap = self.nm_state.known_access_points.remove(i);
                let ghost mid = *self;
                let acts = self.forget_and_select(ssid, ap, closed);
                proof {
                    assert(without_known_ap(s, mid, i as int));
                    assert forall|i2: int| is_first_ap(s.nm_state.known_access_points@, ssid@, hw, i2) implies i2 == i by {}
                }
                acts
            },
            None => {
                let j = find_active_conn(&self.nm_state.active_conns, ssid.as_str(), hw);
                let k = find_access_point(&self.nm_state.wireless_access_points, ssid.as_str(), hw);
                match (j, k) {
                    (Some(j), Some(k)) => {
                        let ap = self.nm_state.wireless_access_points[k].clone();
                        let _ = self.nm_state.active_conns.remove(j);
                        let ghost mid = *self;
                        let acts = self.forget_and_select(ssid, ap, closed);
                        proof {
                            assert(without_active_conn(s, mid, j as int));
                            assert forall|j2: int, k2: int| is_first_conn(s.nm_state.active_conns@, ssid@, hw, j2)
                                && is_first_ap(s.nm_state.wireless_access_points@, ssid@, hw, k2) implies j2 == j && k2 == k by {}
                        }
                        acts
                    },
                    _ => Vec::new(),
                }
            },
        }
    }
}


/// What follows a VPN activation: when the connection was found and the
/// Network Manager channel turned out to be closed, a new system bus connection;
/// otherwise a refresh.
pub fn vpn_activation_reply(found: bool, disconnected: bool) -> (r: Action)
    ensures
        found && disconnected ==> r is ReconnectSystemBus,
        !(found && disconnected) ==> r == Action::Dispatch(Message::Refresh),
{
    if found && disconnected {
        Action::ReconnectSystemBus
    } else {
        Action::Dispatch(Message::Refresh)
    }
}

/// A list that holds an access point of a name and address holds a first one.
pub proof fn lemma_first_ap_exists(s: Seq<AccessPoint>, ssid: Seq<char>, hw: HwAddress)
    requires
        !no_ap(s, ssid, hw),
    ensures
        exists|i: int| is_first_ap(s, ssid, hw, i),
    decreases s.len(),
{
    if ap_matches(s[0], ssid, hw) {
        assert(is_first_ap(s, ssid, hw, 0));
    } else {
        let rest = s.drop_first();
        assert(!no_ap(rest, ssid, hw)) by {
            let j = choose|j: int| 0 <= j < s.len() && !!ap_matches(#[trigger] s[j], ssid, hw);
            assert(rest[j - 1] == s[j]);
        }
        lemma_first_ap_exists(rest, ssid, hw);
        let i = choose|i: int| is_first_ap(rest, ssid, hw, i);
        assert forall|j: int| 0 <= j < i + 1 implies !ap_matches(#[trigger] s[j], ssid, hw) by {
            if j > 0 {
                assert(s[j] == rest[j - 1]);
            }
        }
        assert(is_first_ap(s, ssid, hw, i + 1));
    }
}

/// A list that holds an active connection of a name and address holds a first
/// one.
pub proof fn lemma_first_conn_exists(s: Seq<ActiveConnectionInfo>, name: Seq<char>, hw: HwAddress)
    requires
        !no_conn(s, name, hw),
    ensures
        exists|i: int| is_first_conn(s, name, hw, i),
    decreases s.len(),
{
    if conn_matches(s[0], name, hw) {
        assert(is_first_conn(s, name, hw, 0));
    } else {
        let rest = s.drop_first();
        assert(!no_conn(rest, name, hw)) by {
            let j = choose|j: int| 0 <= j < s.len() && !!conn_matches(#[trigger] s[j], name, hw);
            assert(rest[j - 1] == s[j]);
        }
        lemma_first_conn_exists(rest, name, hw);
        let i = choose|i: int| is_first_conn(rest, name, hw, i);
        assert forall|j: int| 0 <= j < i + 1 implies !conn_matches(#[trigger] s[j], name, hw) by {
            if j > 0 {
                assert(s[j] == rest[j - 1]);
            }
        }
        assert(is_first_conn(s, name, hw, i + 1));
    }
}

/// Choosing an access point asks for a reconnection only when the channel is
/// closed.
pub proof fn lemma_select_reconnects_when_closed(
    s: NetworkModel, t: NetworkModel, ap: AccessPoint, closed: bool, acts: Seq<Action>, i: int,
)
    requires
        select_ap_effect(s, t, ap, closed, acts),
        0 <= i < acts.len(),
        acts[i] is ReconnectSystemBus,
    ensures
        closed,
{
}

/// Forgetting and choosing a network again asks for a reconnection only when
/// the channel is closed.
pub proof fn lemma_forget_then_select_reconnects_when_closed(
    mid: NetworkModel, t: NetworkModel, ssid: String, ap: AccessPoint, closed: bool, acts: Seq<Action>, i: int,
)
    requires
        forget_then_select(mid, t, ssid, ap, closed, acts),
        0 <= i < acts.len(),
        acts[i] is ReconnectSystemBus,
    ensures
        closed,
{
    if mid.has_nm_sender && !closed {
        assert(i > 0);
        let rest = acts.drop_first();
        assert(rest[i - 1] == acts[i]);
        lemma_select_reconnects_when_closed(
            NetworkModel { show_visible_networks: true, ..mid }, t, ap, false, rest, i - 1);
    }
}

/// Joining a known network asks for a reconnection only when the channel is
/// closed.
pub proof fn lemma_connect_reconnects_when_closed(
    s: NetworkModel, t: NetworkModel, ssid: String, hw: HwAddress, closed: bool, acts: Seq<Action>, i: int,
)
    requires
        connect_effect(s, t, ssid, hw, closed, acts),
        0 <= i < acts.len(),
        acts[i] is ReconnectSystemBus,
    ensures
        closed,
{
    let known = s.nm_state.known_access_points@;
    if s.has_nm_sender && !no_ap(known, ssid@, hw) {
        lemma_first_ap_exists(known, ssid@, hw);
        let k = choose|k: int| is_first_ap(known, ssid@, hw, k);
        assert(acts == nm_acts(true, closed, NmRequest::SelectAccessPoint { ssid, network_type: known[k].network_type }));
    }
}

/// Deactivating a VPN asks for a reconnection only when the channel is closed.
pub proof fn lemma_deactivate_reconnects_when_closed(
    s: NetworkModel, uuid: Seq<char>, closed: bool, acts: Seq<Action>, i: int,
)
    requires
        deactivate_acts(s, uuid, closed, acts),
        0 <= i < acts.len(),
        acts[i] is ReconnectSystemBus,
    ensures
        closed,
{
    let entries = vpn_entries(s.known_vpns);
    if has_key(entries, uuid) {
        let name = choose|name: String| name@ == entries[crate::network::key_index(entries, uuid)].1.id_of()
            && acts == nm_acts(s.has_nm_sender, closed, NmRequest::Deactivate(name));
    }
}

/// Resetting a network whose saved credentials failed asks for a reconnection
/// only when the channel is closed.
pub proof fn lemma_reset_failed_reconnects_when_closed(
    s: NetworkModel, t: NetworkModel, ssid: String, hw: HwAddress, closed: bool, acts: Seq<Action>, i: int,
)
    requires
        reset_failed_effect(s, t, ssid, hw, closed, acts),
        0 <= i < acts.len(),
        acts[i] is ReconnectSystemBus,
    ensures
        closed,
{
    let known = s.nm_state.known_access_points@;
    let conns = s.nm_state.active_conns@;
    let aps = s.nm_state.wireless_access_points@;
    if !no_ap(known, ssid@, hw) {
        lemma_first_ap_exists(known, ssid@, hw);
        let k = choose|k: int| is_first_ap(known, ssid@, hw, k);
        let mid = choose|mid: NetworkModel| without_known_ap(s, mid, k)
            && forget_then_select(mid, t, ssid, known[k], closed, acts);
        lemma_forget_then_select_reconnects_when_closed(mid, t, ssid, known[k], closed, acts, i);
    } else if !no_conn(conns, ssid@, hw) && !no_ap(aps, ssid@, hw) {
        lemma_first_conn_exists(conns, ssid@, hw);
        lemma_first_ap_exists(aps, ssid@, hw);
        let j = choose|j: int| is_first_conn(conns, ssid@, hw, j);
        let k = choose|k: int| is_first_ap(aps, ssid@, hw, k);
        let mid = choose|mid: NetworkModel| without_active_conn(s, mid, j)
            && forget_then_select(mid, t, ssid, aps[k], closed, acts);
        lemma_forget_then_select_reconnects_when_closed(mid, t, ssid, aps[k], closed, acts, i);
    }
}

} // verus!
