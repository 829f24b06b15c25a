use singularity::network::{
    any_vpn_active, collect_known_vpns, names_password_type, parse_connection, parse_password_flag,
    vpn_connection_index, AccessPoint, ActiveConnectionInfo, ActiveConnectionState, ConnectionSettings,
    ConnectionType, HwAddress, NetworkType, NewConnectionState, PasswordFlag, RawConnection, RawVpn,
    RawVpnData, VpnConnectionSettings,
};
use singularity::network_model::{find_access_point, vpn_activation_reply};
use singularity::app::{Action, Message};

fn s(v: &str) -> Option<String> {
    Some(v.to_string())
}

fn ap(ssid: &str, hw: u64) -> AccessPoint {
    AccessPoint {
        ssid: ssid.to_string(),
        strength: 70,
        state: 0,
        working: false,
        path: "/".to_string(),
        hw_address: HwAddress { address: hw },
        network_type: NetworkType::PSK,
    }
}

#[test]
fn password_flags_are_read() {
    assert_eq!(parse_password_flag("0"), Some(PasswordFlag::NoFlags));
    assert_eq!(parse_password_flag("1"), Some(PasswordFlag::AgentOwned));
    assert_eq!(parse_password_flag("2"), Some(PasswordFlag::NotSaved));
    assert_eq!(parse_password_flag("4"), Some(PasswordFlag::NotRequired));
    assert_eq!(parse_password_flag("3"), None);
    assert_eq!(parse_password_flag(""), None);
    assert!(names_password_type("password"));
    assert!(names_password_type("password-tls"));
    assert!(!names_password_type("tls"));
    assert!(!names_password_type("pass"));
}

#[test]
fn wireguard_connections_are_listed() {
    let raw = RawConnection { kind: s("wireguard"), id: s("wg0"), uuid: s("u-1"), vpn: None };
    match parse_connection(raw) {
        Some((uuid, ConnectionSettings::Wireguard { id })) => {
            assert_eq!(uuid, "u-1");
            assert_eq!(id, "wg0");
        },
        other => panic!("unexpected {other:?}"),
    }
}

#[test]
fn password_vpns_keep_user_and_flag() {
    let raw = RawConnection {
        kind: s("vpn"),
        id: s("Office"),
        uuid: s("u-2"),
        vpn: Some(RawVpn {
            data: Some(RawVpnData { connection_type: s("password-tls"), password_flags: s("2") }),
            user_name: None,
        }),
    };
    match parse_connection(raw) {
        Some((uuid, ConnectionSettings::Vpn(v))) => {
            assert_eq!(uuid, "u-2");
            assert_eq!(v.id, "Office");
            assert_eq!(v.username, Some(String::new()));
            assert_eq!(v.connection_type, Some(ConnectionType::Password));
            assert_eq!(v.password_flag(), Some(PasswordFlag::NotSaved));
        },
        other => panic!("unexpected {other:?}"),
    }
}

#[test]
fn other_vpns_keep_only_the_user() {
    let raw = RawConnection {
        kind: s("vpn"),
        id: s("Home"),
        uuid: s("u-3"),
        vpn: Some(RawVpn {
            data: Some(RawVpnData { connection_type: s("tls"), password_flags: s("1") }),
            user_name: s("me"),
        }),
    };
    match parse_connection(raw) {
        Some((_, ConnectionSettings::Vpn(v))) => {
            assert_eq!(v.username, s("me"));
            assert_eq!(v.connection_type, None);
            assert_eq!(v.password_flag(), None);
        },
        other => panic!("unexpected {other:?}"),
    }
}

#[test]
fn incomplete_or_other_connections_are_not_listed() {
    assert!(parse_connection(RawConnection { kind: s("802-11-wireless"), id: s("x"), uuid: s("u"), vpn: None }).is_none());
    assert!(parse_connection(RawConnection { kind: s("vpn"), id: s("x"), uuid: s("u"), vpn: None }).is_none());
    assert!(parse_connection(RawConnection { kind: s("wireguard"), id: None, uuid: s("u"), vpn: None }).is_none());
    assert!(parse_connection(RawConnection { kind: s("wireguard"), id: s("x"), uuid: None, vpn: None }).is_none());
    assert!(parse_connection(RawConnection { kind: None, id: s("x"), uuid: s("u"), vpn: None }).is_none());
}

#[test]
fn known_vpns_keep_insertion_order_and_last_settings() {
    let entries = vec![
        ("a".to_string(), ConnectionSettings::Wireguard { id: "first".to_string() }),
        ("b".to_string(), ConnectionSettings::Vpn(VpnConnectionSettings::default())),
        ("a".to_string(), ConnectionSettings::Wireguard { id: "second".to_string() }),
    ];
    let m = collect_known_vpns(&entries);
    assert_eq!(m.len(), 2);
    let (k0, v0) = m.get_index(0).unwrap();
    assert_eq!(k0, "a");
    assert!(matches!(v0, ConnectionSettings::Wireguard { id } if id == "second"));
    assert_eq!(m.get_index(1).unwrap().0, "b");
}

#[test]
fn vpn_activation_finds_the_first_matching_uuid() {
    let uuids = vec![None, s("x"), s("y"), s("x")];
    assert_eq!(vpn_connection_index(&uuids, "x"), Some(1));
    assert_eq!(vpn_connection_index(&uuids, "y"), Some(2));
    assert_eq!(vpn_connection_index(&uuids, "z"), None);
    assert!(matches!(vpn_activation_reply(true, true), Action::ReconnectSystemBus));
    assert!(matches!(vpn_activation_reply(true, false), Action::Dispatch(Message::Refresh)));
    assert!(matches!(vpn_activation_reply(false, true), Action::Dispatch(Message::Refresh)));
}

#[test]
fn active_connections_and_logins() {
    let conns = vec![
        ActiveConnectionInfo::Wired { name: "eth".to_string(), hw_address: HwAddress { address: 1 } },
        ActiveConnectionInfo::WiFi { name: "home".to_string(), hw_address: HwAddress { address: 2 }, state: ActiveConnectionState::Activated },
    ];
    assert!(!any_vpn_active(&conns));
    let mut with_vpn = conns.clone();
    with_vpn.push(ActiveConnectionInfo::Vpn { name: "work".to_string() });
    assert!(any_vpn_active(&with_vpn));
    assert_eq!(conns[1].name(), "home");
    assert_eq!(conns[1].hw(), HwAddress { address: 2 });
    assert_eq!(with_vpn[2].hw(), HwAddress::default());

    let login = NewConnectionState::Waiting(ap("cafe", 7));
    assert_eq!(login.ssid(), "cafe");
    assert_eq!(login.hw_address(), HwAddress { address: 7 });
    assert!(login.access_point() == &ap("cafe", 7));
    let back: AccessPoint = login.into();
    assert!(back == ap("cafe", 7));

    let aps = vec![ap("a", 1), ap("b", 2), ap("b", 3), ap("b", 2)];
    assert_eq!(find_access_point(&aps, "b", HwAddress { address: 2 }), Some(1));
    assert_eq!(find_access_point(&aps, "b", HwAddress { address: 9 }), None);
}
